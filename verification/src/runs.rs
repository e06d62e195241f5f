//! What holds of calls, from what goes into them to what comes out of them.
//!
//! Each law speaks of calls that were made: `call_ensures(f, args, res)` says
//! that `res` came back from `f(args)`.

use crate::call::{
    pairs_view, CompletionClaim, Decision, LeakScrub, SecretScrub, SetStatusTool, StatusReport,
};
use crate::definition::{JsonValue, JsonView, ToolDefinition};
use crate::event::{set_status, AgentId, ChannelId, ProcessEvent, WorkerId};
use crate::laws::{
    displayed_status_is_determined, evidence_counts_iff_every_command_says_something,
    text_is_blank_iff_it_says_nothing, white_space_is_listed,
};
use crate::lifecycle::{WorkerLifecycle, WorkerTransitionResult};
use crate::status::{
    evidence_view, has_evidence, Evidence, SetStatusArgs, SetStatusError, StatusKind,
};
use crate::text::{cap_status, is_blank, is_white_space, white_space};
use vstd::prelude::*;
use vstd::utf8::*;

verus! {

/// A tool is called with its whole status: that text, with exactly the secrets
/// that the tool was given last, is what is to be redacted first; what came back
/// from that is what is to be redacted next.
pub proof fn whole_text_is_redacted_twice<'a>(
    plain: SetStatusTool,
    pairs: Vec<(String, String)>,
    tool: &'a SetStatusTool,
    args: SetStatusArgs,
    secrets: SecretScrub<'a>,
    first: &str,
    asked: &Vec<(String, String)>,
    known: String,
    leaks: LeakScrub<'a>,
    second: &str,
)
    requires
        call_ensures(SetStatusTool::with_tool_secrets, (plain, pairs), *tool),
        call_ensures(SetStatusTool::call, (tool, args), secrets),
        call_ensures(SecretScrub::text, (&secrets,), first),
        call_ensures(SecretScrub::pairs, (&secrets,), asked),
        call_ensures(SecretScrub::scrubbed, (secrets, known), leaks),
        call_ensures(LeakScrub::text, (&leaks,), second),
    ensures
        first@ == args.status@,
        asked@.len() == pairs@.len(),
        forall|i: int|
            0 <= i < pairs@.len() ==> (#[trigger] asked@[i]).0@ == pairs@[i].0@ && asked@[i].1@
                == pairs@[i].1@,
        second@ == known@,
{
    let said = pairs_view(pairs@);
    assert(pairs_view(asked@) == said);
    assert(said.len() == pairs@.len());
    assert forall|i: int| 0 <= i < pairs@.len() implies (#[trigger] asked@[i]).0@ == pairs@[i].0@
        && asked@[i].1@ == pairs@[i].1@ by {
        assert(pairs_view(asked@)[i] == said[i]);
    }
}

/// A tool that was just made has no secrets to redact.
pub proof fn new_tool_has_no_secrets<'a>(
    agent_id: AgentId,
    worker_id: WorkerId,
    channel_id: Option<ChannelId>,
    interactive: bool,
    tool: &'a SetStatusTool,
    args: SetStatusArgs,
    secrets: SecretScrub<'a>,
    asked: &Vec<(String, String)>,
)
    requires
        call_ensures(SetStatusTool::new, (agent_id, worker_id, channel_id, interactive), *tool),
        call_ensures(SetStatusTool::call, (tool, args), secrets),
        call_ensures(SecretScrub::pairs, (&secrets,), asked),
    ensures
        asked@.len() == 0,
{
    assert(pairs_view(asked@).len() == 0);
}

/// Setting the secrets of a tool changes nothing else about it, whatever secrets
/// it had before.
pub proof fn secrets_change_nothing_else(
    before: SetStatusTool,
    pairs: Vec<(String, String)>,
    after: SetStatusTool,
)
    requires
        call_ensures(SetStatusTool::with_tool_secrets, (before, pairs), after),
    ensures
        after@.agent_id == before@.agent_id,
        after@.worker_id == before@.worker_id,
        after@.channel_id == before@.channel_id,
        after@.interactive == before@.interactive,
        after@.tool_secret_pairs.len() == pairs@.len(),
{
}

/// Which way a call goes: an outcome is refused exactly where its evidence is
/// missing, has no items, or has an item whose command says nothing; any other
/// outcome claims the completion of the run exactly where the worker is not
/// interactive; everything else is done.
pub proof fn call_goes_one_of_three_ways<'a>(
    agent_id: AgentId,
    worker_id: WorkerId,
    channel_id: Option<ChannelId>,
    interactive: bool,
    plain: SetStatusTool,
    pairs: Vec<(String, String)>,
    tool: &'a SetStatusTool,
    args: SetStatusArgs,
    secrets: SecretScrub<'a>,
    known: String,
    leaks: LeakScrub<'a>,
    text: String,
    decision: Decision,
)
    requires
        call_ensures(SetStatusTool::new, (agent_id, worker_id, channel_id, interactive), plain),
        call_ensures(SetStatusTool::with_tool_secrets, (plain, pairs), *tool),
        call_ensures(SetStatusTool::call, (tool, args), secrets),
        call_ensures(SecretScrub::scrubbed, (secrets, known), leaks),
        call_ensures(LeakScrub::scrubbed, (leaks, text), decision),
    ensures
        args.kind == StatusKind::Progress ==> decision is Done,
        args.kind == StatusKind::Outcome && args.evidence is None ==> decision is Rejected,
        args.kind == StatusKind::Outcome ==> (args.evidence matches Some(items) ==> (
        decision is Rejected <==> items@.len() == 0 || exists|i: int|
            0 <= i < items@.len() && forall|j: int|
                0 <= j < (#[trigger] items@[i]).command@.len() ==> white_space(
                    #[trigger] items@[i].command@[j],
                ))),
        args.kind == StatusKind::Outcome && decision !is Rejected ==> (decision is Claim
            <==> !interactive),
        decision matches Decision::Rejected(error) ==> error.0@
            == "outcome requires evidence: pass evidence: [{ command, exit_code }, ...] documenting the command you ran and its exit code (e.g. { command: \"cargo test --lib\", exit_code: 0 })"@,
{
    if args.evidence is Some {
        evidence_counts_iff_every_command_says_something(args.evidence->Some_0);
    }
}

/// What an accepted report says, whether or not it had to be claimed: it
/// succeeded; it is of the kind that was reported; it names the worker; its
/// status is the short form of the redacted text, and so is that of its event.
/// An outcome gives back the whole redacted text and every item of its evidence,
/// in order and unchanged; progress gives back neither.
pub proof fn accepted_report_says_what_was_reported<'a>(
    agent_id: AgentId,
    worker_id: WorkerId,
    channel_id: Option<ChannelId>,
    interactive: bool,
    plain: SetStatusTool,
    pairs: Vec<(String, String)>,
    tool: &'a SetStatusTool,
    args: SetStatusArgs,
    secrets: SecretScrub<'a>,
    known: String,
    leaks: LeakScrub<'a>,
    text: String,
    decision: Decision,
    claim: CompletionClaim,
    answer: Result<WorkerTransitionResult, String>,
    report: StatusReport,
    short: String,
)
    requires
        call_ensures(SetStatusTool::new, (agent_id, worker_id, channel_id, interactive), plain),
        call_ensures(SetStatusTool::with_tool_secrets, (plain, pairs), *tool),
        call_ensures(SetStatusTool::call, (tool, args), secrets),
        call_ensures(SecretScrub::scrubbed, (secrets, known), leaks),
        call_ensures(LeakScrub::scrubbed, (leaks, text), decision),
        decision == Decision::Done(report) || (decision == Decision::Claim(claim) && call_ensures(
            CompletionClaim::answered,
            (claim, answer),
            Ok::<StatusReport, SetStatusError>(report),
        )),
        exists|s: &str| s@ == text@ && #[trigger] call_ensures(cap_status, (s,), short),
    ensures
        report.output.success,
        report.output.kind == args.kind,
        report.output.worker_id == worker_id,
        report.output.status@ == short@,
        args.kind == StatusKind::Progress ==> report.output.outcome is None
            && report.output.evidence is None,
        args.kind == StatusKind::Outcome ==> (report.output.outcome matches Some(whole) && whole@
            == text@),
        args.kind == StatusKind::Outcome ==> {
            &&& args.evidence matches Some(given)
            &&& report.output.evidence matches Some(items)
            &&& items@.len() == given@.len()
            &&& forall|i: int|
                0 <= i < given@.len() ==> {
                    &&& (#[trigger] items@[i]).command@ == given@[i].command@
                    &&& items@[i].exit_code == given@[i].exit_code
                    &&& items@[i].summary is Some <==> given@[i].summary is Some
                    &&& items@[i].summary matches Some(a) ==> a@ == given@[i].summary->Some_0@
                }
        },
        report.event matches ProcessEvent::WorkerStatus {
            agent_id: a,
            worker_id: w,
            channel_id: c,
            status: s,
        } && {
            &&& (*a)@ == (*agent_id)@
            &&& w == worker_id
            &&& c is Some <==> channel_id is Some
            &&& c matches Some(named) ==> (*named)@ == (*channel_id->Some_0)@
            &&& s@ == short@
        },
{
    if args.kind == StatusKind::Outcome {
        let given = args.evidence->Some_0;
        let items = report.output.evidence->Some_0;
        let before = given@.map_values(|item: Evidence| item@);
        let after = items@.map_values(|item: Evidence| item@);
        assert(evidence_view(report.output.evidence) == evidence_view(args.evidence));
        assert(after == before);
        assert(after.len() == items@.len() && before.len() == given@.len());
        assert forall|i: int| 0 <= i < given@.len() implies {
            &&& (#[trigger] items@[i]).command@ == given@[i].command@
            &&& items@[i].exit_code == given@[i].exit_code
            &&& items@[i].summary is Some <==> given@[i].summary is Some
            &&& items@[i].summary matches Some(a) ==> a@ == given@[i].summary->Some_0@
        } by {
            assert(after[i] == items@[i]@);
            assert(before[i] == given@[i]@);
        }
    }
}

/// A claim is made for the worker that reports, out of the running state.
pub proof fn claim_is_made_for_the_running_worker<'a>(
    agent_id: AgentId,
    worker_id: WorkerId,
    channel_id: Option<ChannelId>,
    interactive: bool,
    plain: SetStatusTool,
    pairs: Vec<(String, String)>,
    tool: &'a SetStatusTool,
    args: SetStatusArgs,
    secrets: SecretScrub<'a>,
    known: String,
    leaks: LeakScrub<'a>,
    text: String,
    claim: CompletionClaim,
    claimed: WorkerId,
    expected: WorkerLifecycle,
)
    requires
        call_ensures(SetStatusTool::new, (agent_id, worker_id, channel_id, interactive), plain),
        call_ensures(SetStatusTool::with_tool_secrets, (plain, pairs), *tool),
        call_ensures(SetStatusTool::call, (tool, args), secrets),
        call_ensures(SecretScrub::scrubbed, (secrets, known), leaks),
        call_ensures(LeakScrub::scrubbed, (leaks, text), Decision::Claim(claim)),
        call_ensures(CompletionClaim::worker_id, (&claim,), claimed),
        call_ensures(CompletionClaim::expected, (&claim,), expected),
    ensures
        claimed == worker_id,
        expected is Running,
{
}

/// The answer to a claim decides: the report is accepted where the completion
/// was claimed, now or before; each other answer refuses it with its own reason.
pub proof fn answer_decides_a_claim(
    claim: CompletionClaim,
    answer: Result<WorkerTransitionResult, String>,
    result: Result<StatusReport, SetStatusError>,
)
    requires
        call_ensures(CompletionClaim::answered, (claim, answer), result),
    ensures
        match answer {
            Ok(WorkerTransitionResult::Applied) => result is Ok,
            Ok(WorkerTransitionResult::NotFound) => result matches Err(error) && error.0@
                == "worker run was not found"@,
            Ok(WorkerTransitionResult::Conflict { current }) => match current {
                WorkerLifecycle::Completing => result is Ok,
                WorkerLifecycle::Running => result matches Err(error) && error.0@
                    == "worker lifecycle conflict: expected running, found "@ + "running"@,
                WorkerLifecycle::Other(name) => result matches Err(error) && error.0@
                    == "worker lifecycle conflict: expected running, found "@ + name@,
            },
            Err(message) => result matches Err(error) && error.0@ == message@,
        },
{
}

/// Evidence counts exactly where it has an item and every item's command has a
/// character that is not white space, whatever else the items say and however
/// many there are.
pub proof fn evidence_is_weighed_by_its_commands(
    evidence: &Option<Vec<Evidence>>,
    res: bool,
)
    requires
        call_ensures(has_evidence, (evidence,), res),
    ensures
        evidence is None ==> !res,
        evidence matches Some(items) ==> (res <==> items@.len() > 0 && forall|i: int|
            0 <= i < items@.len() ==> exists|j: int|
                0 <= j < (#[trigger] items@[i]).command@.len() && !white_space(
                    #[trigger] items@[i].command@[j],
                )),
{
    if evidence is Some {
        evidence_counts_iff_every_command_says_something(evidence->Some_0);
    }
}

/// A text is blank exactly where it has no character but white space.
pub proof fn blank_text_has_only_white_space(s: &str, res: bool)
    requires
        call_ensures(is_blank, (s,), res),
    ensures
        res <==> !exists|i: int| 0 <= i < s@.len() && !white_space(#[trigger] s@[i]),
{
    text_is_blank_iff_it_says_nothing(s@);
}

/// White space is what Unicode lists as such.
pub proof fn white_space_is_told_by_the_list(c: char, res: bool)
    requires
        call_ensures(is_white_space, (c,), res),
    ensures
        res <==> seq![
            '\u{9}',
            '\u{a}',
            '\u{b}',
            '\u{c}',
            '\u{d}',
            '\u{20}',
            '\u{85}',
            '\u{a0}',
            '\u{1680}',
            '\u{2000}',
            '\u{2001}',
            '\u{2002}',
            '\u{2003}',
            '\u{2004}',
            '\u{2005}',
            '\u{2006}',
            '\u{2007}',
            '\u{2008}',
            '\u{2009}',
            '\u{200a}',
            '\u{2028}',
            '\u{2029}',
            '\u{202f}',
            '\u{205f}',
            '\u{3000}',
        ].contains(c),
{
    white_space_is_listed(c);
}

/// What is shown of a text: all of it where it takes at most 256 bytes. Else the
/// first `cut.0` characters are all that fit into 256 bytes, and the first
/// `cut.1` of these are shown, with three dots: up to the last white space among
/// those that fit, or all of them where there is none.
pub proof fn capped_status_is_determined(s: &str, res: String) -> (cut: (int, int))
    requires
        call_ensures(cap_status, (s,), res),
    ensures
        encode_utf8(s@).len() <= 256 ==> res@ == s@,
        encode_utf8(s@).len() > 256 ==> {
            &&& 0 <= cut.1 <= cut.0 < s@.len()
            &&& encode_utf8(s@.take(cut.0)).len() <= 256
            &&& encode_utf8(s@.take(cut.0 + 1)).len() > 256
            &&& cut.1 < cut.0 ==> white_space(s@[cut.1])
            &&& forall|j: int| cut.1 < j < cut.0 ==> !white_space(#[trigger] s@[j])
            &&& cut.1 == cut.0 ==> forall|j: int|
                0 <= j < cut.0 ==> !white_space(#[trigger] s@[j])
            &&& res@ == s@.take(cut.1) + seq!['.', '.', '.']
        },
{
    displayed_status_is_determined(s@)
}

/// Outside of any channel, a status is told as it was given.
pub proof fn status_without_channel_is_told_as_given(
    agent_id: AgentId,
    worker_id: WorkerId,
    status: String,
    event: ProcessEvent,
)
    requires
        call_ensures(set_status, (agent_id, worker_id, status), event),
    ensures
        event matches ProcessEvent::WorkerStatus {
            agent_id: a,
            worker_id: w,
            channel_id: c,
            status: s,
        } && {
            &&& (*a)@ == (*agent_id)@
            &&& w == worker_id
            &&& c is None
            &&& s@ == status@
        },
{
}

/// An error is shown with its reason behind what failed.
pub proof fn error_shows_its_reason(error: SetStatusError, message: String)
    requires
        call_ensures(SetStatusError::message, (&error,), message),
    ensures
        message@ == "Failed to set status: "@ + error.0@,
{
}

/// Each state goes by its own name.
pub proof fn states_have_names(state: WorkerLifecycle, name: &str)
    requires
        call_ensures(WorkerLifecycle::as_str, (&state,), name),
    ensures
        match state {
            WorkerLifecycle::Running => name@ == "running"@,
            WorkerLifecycle::Completing => name@ == "completing"@,
            WorkerLifecycle::Other(given) => name@ == given@,
        },
{
}

/// Where no kind is given, progress is reported.
pub proof fn default_kind_is_progress(kind: StatusKind)
    requires
        call_ensures(StatusKind::default, (), kind),
    ensures
        kind is Progress,
{
}

/// A cloned tool, event or item of evidence cannot be told from its original.
pub proof fn clones_say_the_same(
    tool: SetStatusTool,
    tool_clone: SetStatusTool,
    event: ProcessEvent,
    event_clone: ProcessEvent,
    item: Evidence,
    item_clone: Evidence,
)
    requires
        call_ensures(SetStatusTool::clone, (&tool,), tool_clone),
        call_ensures(ProcessEvent::clone, (&event,), event_clone),
        call_ensures(Evidence::clone, (&item,), item_clone),
    ensures
        tool_clone@ == tool@,
        event_clone == event,
        item_clone == item,
{
}

/// A JSON value is told by its text, by its items in order, or by its members'
/// names and values in order.
pub proof fn json_value_says_what_it_holds(value: JsonValue)
    ensures
        match value {
            JsonValue::Text(text) => value.view() matches JsonView::Text(said) && said == text@,
            JsonValue::Array(items) => value.view() matches JsonView::Array(said) && said.len()
                == items@.len() && forall|i: int|
                0 <= i < items@.len() ==> #[trigger] said[i] == items@[i].view(),
            JsonValue::Object(members) => value.view() matches JsonView::Object(said) && said.len()
                == members@.len() && forall|i: int|
                0 <= i < members@.len() ==> (#[trigger] said[i]).0 == members@[i].0@ && said[i].1
                    == members@[i].1.view(),
        },
{
}

/// Every tool is described alike, but for the description that is given.
pub proof fn definition_differs_in_its_description_alone(
    tool: SetStatusTool,
    description: String,
    definition: ToolDefinition,
    other_tool: SetStatusTool,
    other_description: String,
    other: ToolDefinition,
)
    requires
        call_ensures(SetStatusTool::definition, (&tool, description), definition),
        call_ensures(SetStatusTool::definition, (&other_tool, other_description), other),
    ensures
        definition.name@ == "set_status"@,
        definition.description@ == description@,
        definition.parameters.view() == other.parameters.view(),
{
}

} // verus!
