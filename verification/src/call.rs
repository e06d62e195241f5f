//! One call of the tool, from the worker's arguments to what the worker gets
//! back.

use crate::event::{channel_view, AgentId, ChannelId, EventView, ProcessEvent, WorkerId};
use crate::lifecycle::{WorkerLifecycle, WorkerTransitionResult};
use crate::status::{
    documents_a_run, evidence_view, has_evidence, EvidenceView, OutputView, SetStatusArgs,
    SetStatusError, SetStatusOutput, StatusKind, EVIDENCE_REQUIRED,
};
use crate::text::{cap_status, displayed};
use vstd::prelude::*;
use vstd::string::*;

verus! {

/// Tool for setting worker status.
#[derive(Debug)]
pub struct SetStatusTool {
    agent_id: AgentId,
    worker_id: WorkerId,
    channel_id: Option<ChannelId>,
    interactive: bool,
    tool_secret_pairs: Vec<(String, String)>,
}

/// What a [`SetStatusTool`] was set up with.
pub struct ToolView {
    pub agent_id: Seq<char>,
    pub worker_id: WorkerId,
    pub channel_id: Option<Seq<char>>,
    pub interactive: bool,
    /// Tool secret pairs for scrubbing status text before it reaches the channel.
    pub tool_secret_pairs: Seq<(Seq<char>, Seq<char>)>,
}

/// What some tool secret pairs say.
pub open spec fn pairs_view(pairs: Seq<(String, String)>) -> Seq<(Seq<char>, Seq<char>)> {
    pairs.map_values(|pair: (String, String)| (pair.0@, pair.1@))
}

impl View for SetStatusTool {
    type V = ToolView;

    closed spec fn view(&self) -> ToolView {
        ToolView {
            agent_id: (*self.agent_id)@,
            worker_id: self.worker_id,
            channel_id: channel_view(self.channel_id),
            interactive: self.interactive,
            tool_secret_pairs: pairs_view(self.tool_secret_pairs@),
        }
    }
}

impl Clone for SetStatusTool {
    fn clone(&self) -> (tool: Self)
        ensures
            tool@ == self@,
    {
        let mut pairs: Vec<(String, String)> = Vec::new();
        for i in 0..self.tool_secret_pairs.len()
            invariant
                pairs@ == self.tool_secret_pairs@.take(i as int),
        {
            let pair = &self.tool_secret_pairs[i];
            pairs.push((pair.0.clone(), pair.1.clone()));
        }
        assert(pairs@ =~= self.tool_secret_pairs@);
        SetStatusTool {
            agent_id: self.agent_id.clone(),
            worker_id: self.worker_id,
            channel_id: match &self.channel_id {
                Some(id) => Some(id.clone()),
                None => None,
            },
            interactive: self.interactive,
            tool_secret_pairs: pairs,
        }
    }
}

/// What an accepted report says: the event to publish, and what the worker gets
/// back.
pub struct ReportView {
    pub event: EventView,
    pub output: OutputView,
}

/// The report of a status of kind `kind`, whose text after redaction is
/// `scrubbed`.
///
/// The short form of the text is what is displayed. An outcome also gives back
/// the whole text and its evidence.
pub open spec fn report(
    tool: ToolView,
    kind: StatusKind,
    evidence: Option<Seq<EvidenceView>>,
    scrubbed: Seq<char>,
) -> ReportView {
    ReportView {
        event: EventView::WorkerStatus {
            agent_id: tool.agent_id,
            worker_id: tool.worker_id,
            channel_id: tool.channel_id,
            status: displayed(scrubbed),
        },
        output: OutputView {
            success: true,
            worker_id: tool.worker_id,
            status: displayed(scrubbed),
            outcome: if kind == StatusKind::Outcome {
                Some(scrubbed)
            } else {
                None
            },
            kind,
            evidence: if kind == StatusKind::Outcome {
                evidence
            } else {
                None
            },
        },
    }
}

/// What a [`Decision`] says.
pub enum DecisionView {
    /// See [`Decision::Rejected`].
    Rejected(Seq<char>),
    /// See [`Decision::Claim`].
    Claim(ReportView),
    /// See [`Decision::Done`].
    Done(ReportView),
}

/// What is decided once the text of a status has been redacted: an outcome that
/// documents no run is rejected; any other outcome of a worker that is not
/// interactive has to claim the completion of its run; everything else is done.
pub open spec fn decide(
    tool: ToolView,
    kind: StatusKind,
    evidence: Option<Seq<EvidenceView>>,
    scrubbed: Seq<char>,
) -> DecisionView {
    if kind == StatusKind::Outcome && !documents_a_run(evidence) {
        DecisionView::Rejected(EVIDENCE_REQUIRED@)
    } else if kind == StatusKind::Outcome && !tool.interactive {
        DecisionView::Claim(report(tool, kind, evidence, scrubbed))
    } else {
        DecisionView::Done(report(tool, kind, evidence, scrubbed))
    }
}

/// What follows from the answer to a claim: the report is accepted where the
/// claim was granted, now or before; else the answer says why it is refused.
pub open spec fn settle(
    report: ReportView,
    answer: Result<WorkerTransitionResult, String>,
) -> Result<ReportView, Seq<char>> {
    match answer {
        Ok(WorkerTransitionResult::Applied) => Ok(report),
        Ok(WorkerTransitionResult::Conflict { current: WorkerLifecycle::Completing }) => Ok(report),
        Ok(WorkerTransitionResult::Conflict { current }) => Err(
            "worker lifecycle conflict: expected running, found "@ + current.name(),
        ),
        Ok(WorkerTransitionResult::NotFound) => Err("worker run was not found"@),
        Err(message) => Err(message@),
    }
}

/// How a whole call ends, where the redacted text is `scrubbed` and a claim, if
/// one is made, is answered by `answer`.
pub open spec fn call_result(
    tool: ToolView,
    kind: StatusKind,
    evidence: Option<Seq<EvidenceView>>,
    scrubbed: Seq<char>,
    answer: Result<WorkerTransitionResult, String>,
) -> Result<ReportView, Seq<char>> {
    match decide(tool, kind, evidence, scrubbed) {
        DecisionView::Rejected(reason) => Err(reason),
        DecisionView::Claim(report) => settle(report, answer),
        DecisionView::Done(report) => Ok(report),
    }
}

impl SetStatusTool {
    /// Create a new set status tool.
    pub fn new(
        agent_id: AgentId,
        worker_id: WorkerId,
        channel_id: Option<ChannelId>,
        interactive: bool,
    ) -> (tool: Self)
        ensures
            tool@ == (ToolView {
                agent_id: (*agent_id)@,
                worker_id,
                channel_id: channel_view(channel_id),
                interactive,
                tool_secret_pairs: Seq::empty(),
            }),
    {
        let tool = SetStatusTool {
            agent_id,
            worker_id,
            channel_id,
            interactive,
            tool_secret_pairs: Vec::new(),
        };
        assert(tool@.tool_secret_pairs =~= Seq::empty());
        tool
    }

    /// Set tool secret pairs for output scrubbing.
    pub fn with_tool_secrets(self, pairs: Vec<(String, String)>) -> (tool: Self)
        ensures
            tool@ == (ToolView { tool_secret_pairs: pairs_view(pairs@), ..self@ }),
    {
        SetStatusTool { tool_secret_pairs: pairs, ..self }
    }

    /// Start a call: the status has to be redacted before anything else is done
    /// with it.
    pub fn call(&self, args: SetStatusArgs) -> (scrub: SecretScrub<'_>)
        ensures
            scrub@ == (ScrubView {
                tool: self@,
                text: args.status@,
                kind: args.kind,
                evidence: evidence_view(args.evidence),
            }),
    {
        SecretScrub { tool: self, args }
    }
}

/// A call whose text waits to be redacted.
pub struct ScrubView {
    /// The tool that was called.
    pub tool: ToolView,
    /// The text to redact.
    pub text: Seq<char>,
    /// The kind of status that was reported.
    pub kind: StatusKind,
    /// The evidence that came with it.
    pub evidence: Option<Seq<EvidenceView>>,
}

/// A call that waits for the exact-match redaction of known secrets.
///
/// The whole status is redacted, so that the display cap cannot cut a secret out
/// of exact-match range.
#[derive(Debug)]
pub struct SecretScrub<'a> {
    tool: &'a SetStatusTool,
    args: SetStatusArgs,
}

impl<'a> View for SecretScrub<'a> {
    type V = ScrubView;

    closed spec fn view(&self) -> ScrubView {
        ScrubView {
            tool: self.tool@,
            text: self.args.status@,
            kind: self.args.kind,
            evidence: evidence_view(self.args.evidence),
        }
    }
}

impl<'a> SecretScrub<'a> {
    /// The text to redact.
    pub fn text(&self) -> (text: &str)
        ensures
            text@ == self@.text,
    {
        self.args.status.as_str()
    }

    /// The secrets to redact.
    pub fn pairs(&self) -> (pairs: &Vec<(String, String)>)
        ensures
            pairs_view(pairs@) == self@.tool.tool_secret_pairs,
    {
        &self.tool.tool_secret_pairs
    }

    /// Go on with the text in which known secrets are redacted.
    pub fn scrubbed(self, text: String) -> (scrub: LeakScrub<'a>)
        ensures
            scrub@ == (ScrubView { text: text@, ..self@ }),
    {
        LeakScrub { tool: self.tool, args: SetStatusArgs { status: text, ..self.args } }
    }
}

/// A call that waits for the redaction of what looks like a secret.
#[derive(Debug)]
pub struct LeakScrub<'a> {
    tool: &'a SetStatusTool,
    args: SetStatusArgs,
}

impl<'a> View for LeakScrub<'a> {
    type V = ScrubView;

    closed spec fn view(&self) -> ScrubView {
        ScrubView {
            tool: self.tool@,
            text: self.args.status@,
            kind: self.args.kind,
            evidence: evidence_view(self.args.evidence),
        }
    }
}

impl<'a> LeakScrub<'a> {
    /// The text to redact.
    pub fn text(&self) -> (text: &str)
        ensures
            text@ == self@.text,
    {
        self.args.status.as_str()
    }

    /// Go on with the redacted text: this is what is reported.
    pub fn scrubbed(self, text: String) -> (decision: Decision)
        ensures
            decision@ == decide(self@.tool, self@.kind, self@.evidence, text@),
    {
        let tool = self.tool;
        let kind = self.args.kind;
        let evidence = self.args.evidence;
        if kind == StatusKind::Outcome {
            if !has_evidence(&evidence) {
                return Decision::Rejected(SetStatusError(EVIDENCE_REQUIRED.to_string()));
            }
        }
        let status = cap_status(text.as_str());
        let event = ProcessEvent::WorkerStatus {
            agent_id: tool.agent_id.clone(),
            worker_id: tool.worker_id,
            channel_id: match &tool.channel_id {
                Some(id) => Some(id.clone()),
                None => None,
            },
            status: status.clone(),
        };
        let output = SetStatusOutput {
            success: true,
            worker_id: tool.worker_id,
            status,
            outcome: if kind == StatusKind::Outcome {
                Some(text)
            } else {
                None
            },
            kind,
            evidence: if kind == StatusKind::Outcome {
                evidence
            } else {
                None
            },
        };
        let report = StatusReport { event, output };
        if kind == StatusKind::Outcome && !tool.interactive {
            Decision::Claim(CompletionClaim { report })
        } else {
            Decision::Done(report)
        }
    }
}

/// An accepted status report.
#[derive(Debug)]
pub struct StatusReport {
    /// The event to publish.
    pub event: ProcessEvent,
    /// What the worker gets back.
    pub output: SetStatusOutput,
}

impl View for StatusReport {
    type V = ReportView;

    open spec fn view(&self) -> ReportView {
        ReportView { event: self.event@, output: self.output@ }
    }
}

/// What is decided once the text of a status has been redacted.
#[derive(Debug)]
pub enum Decision {
    /// The report is refused.
    Rejected(SetStatusError),
    /// The completion of the run has to be claimed.
    Claim(CompletionClaim),
    /// The report is accepted.
    Done(StatusReport),
}

impl View for Decision {
    type V = DecisionView;

    open spec fn view(&self) -> DecisionView {
        match self {
            Decision::Rejected(error) => DecisionView::Rejected(error@),
            Decision::Claim(claim) => DecisionView::Claim(claim@),
            Decision::Done(report) => DecisionView::Done(report@),
        }
    }
}

/// A report that is accepted only if its worker can claim the completion of its
/// run.
#[derive(Debug)]
pub struct CompletionClaim {
    report: StatusReport,
}

impl View for CompletionClaim {
    type V = ReportView;

    closed spec fn view(&self) -> ReportView {
        self.report@
    }
}

/// What an accepted or refused report says.
pub open spec fn result_view(result: Result<StatusReport, SetStatusError>) -> Result<
    ReportView,
    Seq<char>,
> {
    match result {
        Ok(report) => Ok(report@),
        Err(error) => Err(error@),
    }
}

impl CompletionClaim {
    /// The worker whose run is to be completed.
    pub fn worker_id(&self) -> (worker_id: WorkerId)
        ensures
            worker_id == self@.output.worker_id,
    {
        self.report.output.worker_id
    }

    /// The state that the run has to be in for the claim to be granted.
    pub fn expected(&self) -> (expected: WorkerLifecycle)
        ensures
            expected == WorkerLifecycle::Running,
    {
        WorkerLifecycle::Running
    }

    /// Go on with the answer to the claim, or with the message of the error that
    /// came in its place.
    pub fn answered(self, answer: Result<WorkerTransitionResult, String>) -> (result: Result<
        StatusReport,
        SetStatusError,
    >)
        ensures
            result_view(result) == settle(self@, answer),
    {
        match answer {
            Ok(WorkerTransitionResult::Applied) => Ok(self.report),
            Ok(WorkerTransitionResult::Conflict { current }) => match current {
                WorkerLifecycle::Completing => Ok(self.report),
                _ => {
                    let mut reason =
                        "worker lifecycle conflict: expected running, found ".to_string();
                    reason.append(current.as_str());
                    Err(SetStatusError(reason))
                },
            },
            Ok(WorkerTransitionResult::NotFound) => Err(
                SetStatusError("worker run was not found".to_string()),
            ),
            Err(message) => Err(SetStatusError(message)),
        }
    }
}

} // verus!
