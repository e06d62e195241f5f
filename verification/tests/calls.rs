use set_status::{
    Decision, Evidence, ProcessEvent, SetStatusArgs, SetStatusError, SetStatusOutput,
    SetStatusTool, StatusKind, StatusReport, WorkerLifecycle, WorkerTransitionResult,
    EVIDENCE_REQUIRED,
};
use std::sync::Arc;

/// A run in memory, with the transitions that a status report can meet.
struct Run {
    lifecycle: &'static str,
    claims: usize,
}

impl Run {
    fn started() -> Self {
        Run {
            lifecycle: "running",
            claims: 0,
        }
    }

    fn current(&self) -> WorkerLifecycle {
        match self.lifecycle {
            "running" => WorkerLifecycle::Running,
            "completing" => WorkerLifecycle::Completing,
            other => WorkerLifecycle::Other(other.to_string()),
        }
    }

    fn transition(
        &mut self,
        expected: &WorkerLifecycle,
        next: &'static str,
    ) -> WorkerTransitionResult {
        if self.lifecycle == expected.as_str() {
            self.lifecycle = next;
            WorkerTransitionResult::Applied
        } else {
            WorkerTransitionResult::Conflict {
                current: self.current(),
            }
        }
    }
}

fn setup(interactive: bool) -> (SetStatusTool, Run, uuid::Uuid) {
    let worker_id = uuid::Uuid::new_v4();
    (
        SetStatusTool::new(Arc::from("agent"), worker_id, None, interactive),
        Run::started(),
        worker_id,
    )
}

fn report(
    tool: &SetStatusTool,
    run: &mut Run,
    args: SetStatusArgs,
) -> Result<StatusReport, SetStatusError> {
    let secrets = tool.call(args);
    let mut text = secrets.text().to_string();
    for (name, value) in secrets.pairs() {
        text = text.replace(value.as_str(), &format!("[{}]", name));
    }
    let leaks = secrets.scrubbed(text);
    let text = leaks.text().replace("sk-live", "[leak]");
    match leaks.scrubbed(text) {
        Decision::Rejected(error) => Err(error),
        Decision::Done(report) => Ok(report),
        Decision::Claim(claim) => {
            run.claims += 1;
            let answer = run.transition(&claim.expected(), "completing");
            claim.answered(Ok(answer))
        }
    }
}

fn call(
    tool: &SetStatusTool,
    run: &mut Run,
    args: SetStatusArgs,
) -> Result<SetStatusOutput, SetStatusError> {
    report(tool, run, args).map(|report| report.output)
}

fn passing_run() -> Option<Vec<Evidence>> {
    Some(vec![Evidence {
        command: "cargo test --lib".to_string(),
        exit_code: 0,
        summary: None,
    }])
}

fn outcome(status: &str) -> SetStatusArgs {
    SetStatusArgs {
        status: status.to_string(),
        kind: StatusKind::Outcome,
        evidence: passing_run(),
    }
}

fn progress(status: &str) -> SetStatusArgs {
    SetStatusArgs {
        status: status.to_string(),
        kind: StatusKind::Progress,
        evidence: None,
    }
}

#[test]
fn outcome_output_carries_full_text_while_status_stays_capped() {
    let (tool, mut run, _worker_id) = setup(false);
    let long = format!("Verified the deployment. {}", "detail ".repeat(60));
    let output = call(
        &tool,
        &mut run,
        SetStatusArgs {
            status: long.clone(),
            kind: StatusKind::Outcome,
            evidence: Some(vec![Evidence {
                command: "cargo test --lib".to_string(),
                exit_code: 0,
                summary: Some("42 passed".to_string()),
            }]),
        },
    )
    .unwrap();
    assert_eq!(output.outcome.as_deref(), Some(long.as_str()));
    assert!(output.status.len() <= 260);
    assert!(output.status.ends_with("..."));
    // Evidence rides along in the output.
    assert_eq!(output.evidence.as_ref().map(|items| items.len()), Some(1));
}

#[test]
fn progress_output_has_no_outcome_text() {
    let (tool, mut run, _worker_id) = setup(false);
    let output = call(
        &tool,
        &mut run,
        SetStatusArgs {
            status: "working on it".to_string(),
            kind: StatusKind::Progress,
            evidence: None,
        },
    )
    .unwrap();
    assert!(output.outcome.is_none());
}

#[test]
fn outcome_without_evidence_is_rejected() {
    let (tool, mut run, _worker_id) = setup(false);
    // Text-only outcome.
    let error = call(
        &tool,
        &mut run,
        SetStatusArgs {
            status: "all done".to_string(),
            kind: StatusKind::Outcome,
            evidence: None,
        },
    )
    .unwrap_err();
    assert!(error.0.contains("requires evidence"));
    // Empty evidence list is also rejected.
    let error = call(
        &tool,
        &mut run,
        SetStatusArgs {
            status: "all done".to_string(),
            kind: StatusKind::Outcome,
            evidence: Some(vec![]),
        },
    )
    .unwrap_err();
    assert!(error.0.contains("requires evidence"));
    // An item with a blank command is rejected too.
    let error = call(
        &tool,
        &mut run,
        SetStatusArgs {
            status: "all done".to_string(),
            kind: StatusKind::Outcome,
            evidence: Some(vec![Evidence {
                command: "  ".to_string(),
                exit_code: 0,
                summary: None,
            }]),
        },
    )
    .unwrap_err();
    assert!(error.0.contains("requires evidence"));
    // Progress updates never need evidence.
    let output = call(
        &tool,
        &mut run,
        SetStatusArgs {
            status: "still working".to_string(),
            kind: StatusKind::Progress,
            evidence: None,
        },
    )
    .unwrap();
    assert!(output.evidence.is_none());
}

#[test]
fn failed_task_evidence_is_accepted() {
    let (tool, mut run, _worker_id) = setup(false);
    // A failing command is still evidence: it documents what ran.
    let output = call(
        &tool,
        &mut run,
        SetStatusArgs {
            status: "Build failed: 3 type errors in auth module".to_string(),
            kind: StatusKind::Outcome,
            evidence: Some(vec![Evidence {
                command: "cargo build".to_string(),
                exit_code: 1,
                summary: Some("3 errors".to_string()),
            }]),
        },
    )
    .unwrap();
    assert_eq!(
        output.evidence.as_ref().map(|items| items[0].exit_code),
        Some(1)
    );
}

#[test]
fn non_interactive_outcome_claims_completing_idempotently() {
    let (tool, mut run, _worker_id) = setup(false);
    let args = || SetStatusArgs {
        status: "finished".to_string(),
        kind: StatusKind::Outcome,
        evidence: Some(vec![Evidence {
            command: "cargo test --lib".to_string(),
            exit_code: 0,
            summary: None,
        }]),
    };
    assert!(call(&tool, &mut run, args()).is_ok());
    assert!(call(&tool, &mut run, args()).is_ok());
    assert!(matches!(run.current(), WorkerLifecycle::Completing));
    assert_eq!(run.claims, 2);
}

#[test]
fn outcome_claim_beats_concurrent_cancel_transition() {
    let (tool, mut run, _worker_id) = setup(false);
    call(
        &tool,
        &mut run,
        SetStatusArgs {
            status: "finished".to_string(),
            kind: StatusKind::Outcome,
            evidence: Some(vec![Evidence {
                command: "cargo test --lib".to_string(),
                exit_code: 0,
                summary: None,
            }]),
        },
    )
    .unwrap();
    assert!(matches!(
        run.transition(&WorkerLifecycle::Running, "cancelling"),
        WorkerTransitionResult::Conflict {
            current: WorkerLifecycle::Completing,
        }
    ));
    assert!(matches!(
        run.transition(&WorkerLifecycle::Completing, "succeeded"),
        WorkerTransitionResult::Applied
    ));
}

#[test]
fn interactive_outcome_does_not_claim_terminal_lifecycle() {
    let (tool, mut run, _worker_id) = setup(true);
    call(
        &tool,
        &mut run,
        SetStatusArgs {
            status: "turn complete".to_string(),
            kind: StatusKind::Outcome,
            evidence: Some(vec![Evidence {
                command: "cargo test --lib".to_string(),
                exit_code: 0,
                summary: None,
            }]),
        },
    )
    .unwrap();
    assert!(matches!(run.current(), WorkerLifecycle::Running));
    assert_eq!(run.claims, 0);
}

#[test]
fn output_repeats_what_was_reported() {
    let (tool, mut run, worker_id) = setup(false);
    let output = call(&tool, &mut run, outcome("finished")).unwrap();
    assert!(output.success);
    assert_eq!(output.worker_id, worker_id);
    assert_eq!(output.status, "finished");
    assert_eq!(output.outcome.as_deref(), Some("finished"));
    assert_eq!(output.kind, StatusKind::Outcome);
    let items = output.evidence.unwrap();
    assert_eq!(items.len(), 1);
    assert_eq!(items[0].command, "cargo test --lib");
    assert_eq!(items[0].exit_code, 0);
    assert!(items[0].summary.is_none());

    let output = call(&tool, &mut run, progress("half way")).unwrap();
    assert!(output.success);
    assert_eq!(output.kind, StatusKind::Progress);
    assert_eq!(output.status, "half way");
}

#[test]
fn progress_ignores_evidence() {
    let (tool, mut run, _) = setup(false);
    let mut args = progress("half way");
    args.evidence = passing_run();
    let output = call(&tool, &mut run, args).unwrap();
    assert!(output.evidence.is_none());
    assert!(output.outcome.is_none());
    assert_eq!(run.claims, 0);
}

#[test]
fn one_blank_command_spoils_the_evidence() {
    let (tool, mut run, _) = setup(false);
    let mut args = outcome("finished");
    args.evidence = Some(vec![
        Evidence {
            command: "cargo test".to_string(),
            exit_code: 0,
            summary: None,
        },
        Evidence {
            command: "\t\u{3000}\n".to_string(),
            exit_code: 0,
            summary: None,
        },
    ]);
    let error = call(&tool, &mut run, args).unwrap_err();
    assert_eq!(error.0, EVIDENCE_REQUIRED);
    assert_eq!(run.claims, 0);
    assert_eq!(run.lifecycle, "running");
}

#[test]
fn missing_evidence_is_explained() {
    let (tool, mut run, _) = setup(true);
    let mut args = outcome("finished");
    args.evidence = None;
    let error = call(&tool, &mut run, args).unwrap_err();
    assert_eq!(
        error.0,
        "outcome requires evidence: pass evidence: [{ command, exit_code }, ...] \
         documenting the command you ran and its exit code \
         (e.g. { command: \"cargo test --lib\", exit_code: 0 })"
    );
}

#[test]
fn event_names_the_worker_and_shows_the_status() {
    let worker_id = uuid::Uuid::from_u128(7);
    let tool = SetStatusTool::new(
        Arc::from("agent"),
        worker_id,
        Some(Arc::from("channel")),
        true,
    );
    let done = report(&tool, &mut Run::started(), progress(&"word ".repeat(100))).unwrap();
    let ProcessEvent::WorkerStatus {
        agent_id,
        worker_id: named,
        channel_id,
        status,
    } = done.event;
    assert_eq!(&*agent_id, "agent");
    assert_eq!(named, worker_id);
    assert_eq!(channel_id.as_deref(), Some("channel"));
    assert_eq!(status, done.output.status);
    assert_eq!(status, format!("{}word...", "word ".repeat(50)));
}

#[test]
fn whole_text_is_redacted_before_it_is_cut() {
    let (tool, mut run, _) = setup(true);
    let secret = "hunter2hunter2".to_string();
    let tool = tool.with_tool_secrets(vec![("KEY".to_string(), secret.clone())]);
    // The cap falls into the middle of the secret.
    let status = format!("{}{} sk-live", "x".repeat(250), secret);
    let scrub = tool.call(outcome(&status));
    assert_eq!(scrub.text(), status);
    assert_eq!(scrub.pairs(), &vec![("KEY".to_string(), secret)]);
    let leaks = scrub.scrubbed("redacted".to_string());
    assert_eq!(leaks.text(), "redacted");

    let done = call(&tool, &mut run, outcome(&status)).unwrap();
    assert_eq!(
        done.outcome,
        Some(format!("{}[KEY] [leak]", "x".repeat(250)))
    );
    assert_eq!(done.status, format!("{}[KEY]...", "x".repeat(250)));
}

#[test]
fn only_the_redacted_text_is_reported() {
    let (tool, _, _) = setup(true);
    let step = tool
        .call(outcome("raw text"))
        .scrubbed("half redacted".to_string())
        .scrubbed("redacted".to_string());
    let Decision::Done(done) = step else {
        panic!("an interactive worker claims nothing")
    };
    assert_eq!(done.output.status, "redacted");
    assert_eq!(done.output.outcome.as_deref(), Some("redacted"));
    let ProcessEvent::WorkerStatus { status, .. } = done.event;
    assert_eq!(status, "redacted");
}

#[test]
fn new_tool_knows_no_secrets_and_secrets_are_replaced() {
    let (tool, _, _) = setup(false);
    assert!(tool.call(progress("")).pairs().is_empty());
    let pair = |name: &str| (name.to_string(), "value".to_string());
    let tool = tool.with_tool_secrets(vec![pair("a"), pair("b")]);
    assert_eq!(tool.call(progress("")).pairs().len(), 2);
    let tool = tool.with_tool_secrets(vec![pair("c")]);
    assert_eq!(tool.call(progress("")).pairs(), &vec![pair("c")]);
}

#[test]
fn cloned_tool_reports_alike() {
    let worker_id = uuid::Uuid::from_u128(9);
    let tool = SetStatusTool::new(
        Arc::from("agent"),
        worker_id,
        Some(Arc::from("channel")),
        false,
    )
    .with_tool_secrets(vec![("KEY".to_string(), "secret".to_string())]);
    let twin = tool.clone();
    let a = report(&tool, &mut Run::started(), outcome("secret")).unwrap();
    let b = report(&twin, &mut Run::started(), outcome("secret")).unwrap();
    assert_eq!(format!("{:?}", a), format!("{:?}", b));
    assert_eq!(a.output.status, "[KEY]");
}

fn claim_answered(
    answer: Result<WorkerTransitionResult, String>,
) -> Result<StatusReport, SetStatusError> {
    let (tool, _, worker_id) = setup(false);
    let step = tool
        .call(outcome("finished"))
        .scrubbed("finished".to_string())
        .scrubbed("finished".to_string());
    let Decision::Claim(claim) = step else {
        panic!("an outcome claims the completion of its run")
    };
    assert_eq!(claim.worker_id(), worker_id);
    assert!(matches!(claim.expected(), WorkerLifecycle::Running));
    claim.answered(answer)
}

#[test]
fn granted_claims_accept_the_report() {
    assert!(claim_answered(Ok(WorkerTransitionResult::Applied)).is_ok());
    assert!(claim_answered(Ok(WorkerTransitionResult::Conflict {
        current: WorkerLifecycle::Completing
    }))
    .is_ok());
}

#[test]
fn lost_claims_refuse_the_report() {
    let error = claim_answered(Ok(WorkerTransitionResult::Conflict {
        current: WorkerLifecycle::Other("cancelling".to_string()),
    }))
    .unwrap_err();
    assert_eq!(
        error.0,
        "worker lifecycle conflict: expected running, found cancelling"
    );
    let error = claim_answered(Ok(WorkerTransitionResult::Conflict {
        current: WorkerLifecycle::Running,
    }))
    .unwrap_err();
    assert_eq!(
        error.0,
        "worker lifecycle conflict: expected running, found running"
    );
    let error = claim_answered(Ok(WorkerTransitionResult::NotFound)).unwrap_err();
    assert_eq!(error.0, "worker run was not found");
    let error = claim_answered(Err("database is locked".to_string())).unwrap_err();
    assert_eq!(error.0, "database is locked");
}

#[test]
fn error_is_shown_with_its_reason() {
    let error = SetStatusError("worker run was not found".to_string());
    assert_eq!(
        error.message(),
        "Failed to set status: worker run was not found"
    );
}

#[test]
fn status_outside_of_a_channel_is_published_as_given() {
    let worker_id = uuid::Uuid::from_u128(3);
    let long = "word ".repeat(100);
    let ProcessEvent::WorkerStatus {
        agent_id,
        worker_id: named,
        channel_id,
        status,
    } = set_status::set_status(Arc::from("agent"), worker_id, long.clone());
    assert_eq!(&*agent_id, "agent");
    assert_eq!(named, worker_id);
    assert!(channel_id.is_none());
    assert_eq!(status, long);
}

#[test]
fn progress_is_the_default_kind() {
    assert_eq!(StatusKind::default(), StatusKind::Progress);
}

#[test]
fn cloned_evidence_is_the_same() {
    let evidence = Evidence {
        command: "cargo build".to_string(),
        exit_code: -1,
        summary: Some("3 errors".to_string()),
    };
    let twin = evidence.clone();
    assert_eq!(twin.command, evidence.command);
    assert_eq!(twin.exit_code, evidence.exit_code);
    assert_eq!(twin.summary, evidence.summary);
}

#[test]
fn cloned_event_is_the_same() {
    let event = set_status::set_status(
        Arc::from("agent"),
        uuid::Uuid::from_u128(5),
        "finished".to_string(),
    );
    assert_eq!(format!("{:?}", event.clone()), format!("{:?}", event));
}

#[test]
fn lifecycle_states_have_names() {
    assert_eq!(WorkerLifecycle::Running.as_str(), "running");
    assert_eq!(WorkerLifecycle::Completing.as_str(), "completing");
    assert_eq!(
        WorkerLifecycle::Other("cancelled".to_string()).as_str(),
        "cancelled"
    );
}
