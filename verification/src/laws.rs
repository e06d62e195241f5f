//! What holds of status reports as a whole.

use crate::call::{
    call_result, decide, report, settle, DecisionView, ReportView, ScrubView, ToolView,
};
use crate::event::EventView;
use crate::lifecycle::{WorkerLifecycle, WorkerTransitionResult};
use crate::status::{
    documents_a_run, evidence_view, Evidence, EvidenceView, StatusKind, EVIDENCE_REQUIRED,
};
use crate::text::{
    before_last_white_space, blank, byte_len, displayed, last_white_space, lemma_byte_len_concat,
    lemma_ellipsis_size, lemma_last_white_space, lemma_longest_fit_is_maximal, longest_fit,
    white_space, ELLIPSIS, MAX_STATUS_BYTES,
};
use vstd::prelude::*;
use vstd::utf8::*;

verus! {

/// A status that is short enough is displayed as it is.
pub proof fn short_status_is_displayed_whole(s: Seq<char>)
    requires
        byte_len(s) <= MAX_STATUS_BYTES,
    ensures
        displayed(s) == s,
{
}

/// Whatever its length, what is displayed of a status takes at most three bytes
/// more than the cap.
pub proof fn displayed_status_stays_capped(s: Seq<char>)
    ensures
        byte_len(displayed(s)) <= MAX_STATUS_BYTES + 3,
{
    if byte_len(s) > MAX_STATUS_BYTES {
        let n = long_status_is_cut_between_words(s);
        lemma_longest_fit_is_maximal(s, MAX_STATUS_BYTES as nat);
        let head = longest_fit(s, MAX_STATUS_BYTES as nat);
        assert(head =~= s.take(n) + head.skip(n));
        lemma_byte_len_concat(s.take(n), head.skip(n));
        lemma_byte_len_concat(s.take(n), ELLIPSIS@);
        lemma_ellipsis_size();
    }
}

/// A status that is too long is displayed as a proper prefix of it, followed by
/// an ellipsis. The prefix ends where the last white space stands among the
/// characters that fit the cap; where none stands there, it is all that fits.
pub proof fn long_status_is_cut_between_words(s: Seq<char>) -> (n: int)
    requires
        byte_len(s) > MAX_STATUS_BYTES,
    ensures
        0 <= n < s.len(),
        displayed(s) == s.take(n) + ELLIPSIS@,
        n <= longest_fit(s, MAX_STATUS_BYTES as nat).len() < s.len(),
        byte_len(s.take(n)) <= MAX_STATUS_BYTES,
        forall|j: int|
            n < j < longest_fit(s, MAX_STATUS_BYTES as nat).len() ==> !white_space(#[trigger] s[j]),
        white_space(s[n]) || {
            &&& byte_len(s.take(n + 1)) > MAX_STATUS_BYTES
            &&& forall|j: int| 0 <= j < n ==> !white_space(#[trigger] s[j])
        },
{
    let limit = MAX_STATUS_BYTES as nat;
    let head = longest_fit(s, limit);
    lemma_longest_fit_is_maximal(s, limit);
    lemma_last_white_space(head);
    let n = match last_white_space(head) {
        Some(i) => i,
        None => head.len() as int,
    };
    assert(before_last_white_space(head) =~= s.take(n));
    assert(head =~= s.take(n) + head.skip(n));
    lemma_byte_len_concat(s.take(n), head.skip(n));
    assert forall|j: int| n < j < head.len() implies !white_space(#[trigger] s[j]) by {
        assert(s[j] == head[j]);
    }
    if last_white_space(head) is None {
        assert forall|j: int| 0 <= j < n implies !white_space(#[trigger] s[j]) by {
            assert(s[j] == head[j]);
        }
    } else {
        assert(s[n] == head[n]);
    }
    n
}

/// Progress is always accepted, whatever evidence comes with it. It claims
/// nothing, and gives back neither an outcome nor evidence.
pub proof fn progress_is_always_accepted(
    tool: ToolView,
    evidence: Option<Seq<EvidenceView>>,
    scrubbed: Seq<char>,
    answer: Result<WorkerTransitionResult, String>,
)
    ensures
        decide(tool, StatusKind::Progress, evidence, scrubbed) is Done,
        call_result(tool, StatusKind::Progress, evidence, scrubbed, answer) matches Ok(r) && {
            &&& r.output.success
            &&& r.output.kind == StatusKind::Progress
            &&& r.output.status == displayed(scrubbed)
            &&& r.output.outcome is None
            &&& r.output.evidence is None
        },
{
}

/// No evidence, no done: an outcome that documents no run is refused before
/// anything is claimed, and every outcome that is accepted documents what was
/// run and gives that evidence back.
pub proof fn no_evidence_no_done(
    tool: ToolView,
    evidence: Option<Seq<EvidenceView>>,
    scrubbed: Seq<char>,
    answer: Result<WorkerTransitionResult, String>,
)
    ensures
        !documents_a_run(evidence) <==> decide(tool, StatusKind::Outcome, evidence, scrubbed)
            == DecisionView::Rejected(EVIDENCE_REQUIRED@),
        !documents_a_run(evidence) ==> call_result(
            tool,
            StatusKind::Outcome,
            evidence,
            scrubbed,
            answer,
        ) == Err::<ReportView, Seq<char>>(EVIDENCE_REQUIRED@),
        call_result(tool, StatusKind::Outcome, evidence, scrubbed, answer) matches Ok(r)
            ==> documents_a_run(evidence) && r.output.evidence == evidence,
{
}

/// Only the commands count as evidence: a failing command documents a run as
/// well as a passing one, with or without a summary.
pub proof fn exit_code_does_not_matter(a: Seq<EvidenceView>, b: Seq<EvidenceView>)
    requires
        a.len() == b.len(),
        forall|i: int| 0 <= i < a.len() ==> #[trigger] a[i].command == #[trigger] b[i].command,
    ensures
        documents_a_run(Some(a)) == documents_a_run(Some(b)),
{
    if documents_a_run(Some(a)) {
        assert forall|i: int| 0 <= i < b.len() implies !crate::text::blank(
            #[trigger] b[i].command,
        ) by {
            assert(a[i].command == b[i].command);
        }
    }
    if documents_a_run(Some(b)) {
        assert forall|i: int| 0 <= i < a.len() implies !crate::text::blank(
            #[trigger] a[i].command,
        ) by {
            assert(a[i].command == b[i].command);
        }
    }
}

/// An accepted outcome gives back its whole text, however long it is, while only
/// the short form is displayed.
pub proof fn outcome_carries_full_text(
    tool: ToolView,
    evidence: Option<Seq<EvidenceView>>,
    scrubbed: Seq<char>,
    answer: Result<WorkerTransitionResult, String>,
)
    ensures
        call_result(tool, StatusKind::Outcome, evidence, scrubbed, answer) matches Ok(r) ==> {
            &&& r.output.outcome == Some(scrubbed)
            &&& r.output.status == displayed(scrubbed)
            &&& byte_len(r.output.status) <= MAX_STATUS_BYTES + 3
        },
{
    displayed_status_stays_capped(scrubbed);
}

/// The reports of an interactive worker never claim the completion of its run,
/// so no answer to a claim can change how they end.
pub proof fn interactive_worker_never_claims(
    tool: ToolView,
    kind: StatusKind,
    evidence: Option<Seq<EvidenceView>>,
    scrubbed: Seq<char>,
    a: Result<WorkerTransitionResult, String>,
    b: Result<WorkerTransitionResult, String>,
)
    requires
        tool.interactive,
    ensures
        decide(tool, kind, evidence, scrubbed) !is Claim,
        call_result(tool, kind, evidence, scrubbed, a) == call_result(
            tool,
            kind,
            evidence,
            scrubbed,
            b,
        ),
{
}

/// An outcome of a worker that is not interactive is accepted exactly where it
/// documents a run and the completion of the run is claimed, now or before.
pub proof fn outcome_is_accepted_iff_claimed(
    tool: ToolView,
    evidence: Option<Seq<EvidenceView>>,
    scrubbed: Seq<char>,
    answer: Result<WorkerTransitionResult, String>,
)
    requires
        !tool.interactive,
    ensures
        call_result(tool, StatusKind::Outcome, evidence, scrubbed, answer) is Ok <==> {
            &&& documents_a_run(evidence)
            &&& answer matches Ok(result)
            &&& {
                ||| result is Applied
                ||| result matches WorkerTransitionResult::Conflict { current }
                    && current is Completing
            }
        },
{
}

/// Claiming is idempotent: a worker whose completion is claimed already gets
/// the same report as on its first claim.
pub proof fn claim_is_idempotent(
    tool: ToolView,
    kind: StatusKind,
    evidence: Option<Seq<EvidenceView>>,
    scrubbed: Seq<char>,
)
    ensures
        call_result(
            tool,
            kind,
            evidence,
            scrubbed,
            Ok(WorkerTransitionResult::Conflict { current: WorkerLifecycle::Completing }),
        ) == call_result(tool, kind, evidence, scrubbed, Ok(WorkerTransitionResult::Applied)),
{
}

/// A refused claim never yields a report, and its reason speaks of the answer
/// alone: two reports that are refused on one answer are refused alike.
pub proof fn refusal_depends_on_the_answer_alone(
    a: ReportView,
    b: ReportView,
    answer: Result<WorkerTransitionResult, String>,
)
    ensures
        settle(a, answer) matches Ok(r) ==> r == a,
        settle(a, answer) is Ok <==> settle(b, answer) is Ok,
        settle(a, answer) matches Err(reason) ==> settle(b, answer) == Err::<
            ReportView,
            Seq<char>,
        >(reason),
{
}

/// Only redacted text leaves: two calls that differ in their text before
/// redaction alone, and whose texts are redacted to the same text, are decided
/// and end alike.
pub proof fn only_redacted_text_leaves(
    a: ScrubView,
    b: ScrubView,
    scrubbed: Seq<char>,
    answer: Result<WorkerTransitionResult, String>,
)
    requires
        b == (ScrubView { text: b.text, ..a }),
    ensures
        decide(a.tool, a.kind, a.evidence, scrubbed) == decide(
            b.tool,
            b.kind,
            b.evidence,
            scrubbed,
        ),
        call_result(a.tool, a.kind, a.evidence, scrubbed, answer) == call_result(
            b.tool,
            b.kind,
            b.evidence,
            scrubbed,
            answer,
        ),
{
}

/// The event that is published and what the worker gets back agree: they name
/// the tool's worker and show the same short status.
pub proof fn event_and_output_agree(
    tool: ToolView,
    kind: StatusKind,
    evidence: Option<Seq<EvidenceView>>,
    scrubbed: Seq<char>,
    answer: Result<WorkerTransitionResult, String>,
)
    ensures
        call_result(tool, kind, evidence, scrubbed, answer) matches Ok(r) ==> {
            &&& r == report(tool, kind, evidence, scrubbed)
            &&& r.output.worker_id == tool.worker_id
            &&& r.event == (EventView::WorkerStatus {
                agent_id: tool.agent_id,
                worker_id: r.output.worker_id,
                channel_id: tool.channel_id,
                status: r.output.status,
            })
        },
{
}

/// White space is what Unicode lists as such.
pub proof fn white_space_is_listed(c: char)
    ensures
        white_space(c) <==> seq![
            '\u{9}',
            '\u{a}',
            '\u{b}',
            '\u{c}',
            '\u{d}',
            '\u{20}',
            '\u{85}',
            '\u{a0}',
            '\u{1680}',
            '\u{2000}',
            '\u{2001}',
            '\u{2002}',
            '\u{2003}',
            '\u{2004}',
            '\u{2005}',
            '\u{2006}',
            '\u{2007}',
            '\u{2008}',
            '\u{2009}',
            '\u{200a}',
            '\u{2028}',
            '\u{2029}',
            '\u{202f}',
            '\u{205f}',
            '\u{3000}',
        ].contains(c),
{
    let listed = seq![
        '\u{9}',
        '\u{a}',
        '\u{b}',
        '\u{c}',
        '\u{d}',
        '\u{20}',
        '\u{85}',
        '\u{a0}',
        '\u{1680}',
        '\u{2000}',
        '\u{2001}',
        '\u{2002}',
        '\u{2003}',
        '\u{2004}',
        '\u{2005}',
        '\u{2006}',
        '\u{2007}',
        '\u{2008}',
        '\u{2009}',
        '\u{200a}',
        '\u{2028}',
        '\u{2029}',
        '\u{202f}',
        '\u{205f}',
        '\u{3000}',
    ];
    let u = c as u32;
    if white_space(c) {
        let i = if u <= 0xd {
            u - 9
        } else if u == 0x20 {
            5
        } else if u == 0x85 {
            6
        } else if u == 0xa0 {
            7
        } else if u == 0x1680 {
            8
        } else if u <= 0x200a {
            u - 0x2000 + 9
        } else if u == 0x2028 {
            20
        } else if u == 0x2029 {
            21
        } else if u == 0x202f {
            22
        } else if u == 0x205f {
            23
        } else {
            24int
        };
        assert(listed[i] == c);
    }
}

/// A text is blank exactly where no character of it is anything but white space,
/// however long it is.
pub proof fn text_is_blank_iff_it_says_nothing(s: Seq<char>)
    ensures
        blank(s) <==> !exists|i: int| 0 <= i < s.len() && !white_space(#[trigger] s[i]),
        s.len() == 0 ==> blank(s),
{
}

/// Two texts are blank together exactly where each is.
pub proof fn blank_texts_add_up(a: Seq<char>, b: Seq<char>)
    ensures
        blank(a + b) <==> blank(a) && blank(b),
{
    if blank(a + b) {
        assert forall|i: int| 0 <= i < a.len() implies white_space(#[trigger] a[i]) by {
            assert((a + b)[i] == a[i]);
        }
        assert forall|i: int| 0 <= i < b.len() implies white_space(#[trigger] b[i]) by {
            assert((a + b)[a.len() + i] == b[i]);
        }
    }
}

/// Evidence counts exactly where it has an item and every item's command has a
/// character that is not white space, however many items there are and whatever
/// their exit codes and summaries.
pub proof fn evidence_counts_iff_every_command_says_something(items: Vec<Evidence>)
    ensures
        documents_a_run(evidence_view(Some(items))) <==> items@.len() > 0 && forall|i: int|
            0 <= i < items@.len() ==> exists|j: int|
                0 <= j < (#[trigger] items@[i]).command@.len() && !white_space(
                    #[trigger] items@[i].command@[j],
                ),
        !documents_a_run(evidence_view(None)),
{
    let said = items@.map_values(|item: Evidence| item@);
    assert forall|i: int| 0 <= i < items@.len() implies #[trigger] said[i].command
        == items@[i].command@ by {}
    if documents_a_run(Some(said)) {
        assert forall|i: int| 0 <= i < items@.len() implies exists|j: int|
            0 <= j < (#[trigger] items@[i]).command@.len() && !white_space(
                #[trigger] items@[i].command@[j],
            ) by {
            assert(!blank(said[i].command));
            text_is_blank_iff_it_says_nothing(items@[i].command@);
        }
    }
    if items@.len() > 0 && forall|i: int|
        0 <= i < items@.len() ==> exists|j: int|
            0 <= j < (#[trigger] items@[i]).command@.len() && !white_space(
                #[trigger] items@[i].command@[j],
            ) {
        assert forall|i: int| 0 <= i < said.len() implies !blank(#[trigger] said[i].command) by {
            assert(exists|j: int|
                0 <= j < (#[trigger] items@[i]).command@.len() && !white_space(
                    #[trigger] items@[i].command@[j],
                ));
            text_is_blank_iff_it_says_nothing(items@[i].command@);
        }
    }
}

/// Two lists of evidence count together exactly where each counts or is empty,
/// and not both are empty.
pub proof fn evidence_adds_up(a: Seq<EvidenceView>, b: Seq<EvidenceView>)
    ensures
        documents_a_run(Some(a + b)) <==> {
            &&& documents_a_run(Some(a)) || a.len() == 0
            &&& documents_a_run(Some(b)) || b.len() == 0
            &&& a.len() + b.len() > 0
        },
{
    if documents_a_run(Some(a + b)) {
        assert forall|i: int| 0 <= i < a.len() implies !blank(#[trigger] a[i].command) by {
            assert(!blank((a + b)[i].command));
        }
        assert forall|i: int| 0 <= i < b.len() implies !blank(#[trigger] b[i].command) by {
            assert(!blank((a + b)[a.len() + i].command));
        }
    }
}

/// What is displayed of a status: all of it where it takes at most 256 bytes.
/// Else the first `cut.0` characters are all that fit into 256 bytes, and the
/// first `cut.1` of these are displayed, with three dots: up to the last white
/// space among those that fit, or all of them where there is none.
pub proof fn displayed_status_is_determined(s: Seq<char>) -> (cut: (int, int))
    ensures
        encode_utf8(s).len() <= 256 ==> displayed(s) == s,
        encode_utf8(s).len() > 256 ==> {
            &&& 0 <= cut.1 <= cut.0 < s.len()
            &&& encode_utf8(s.take(cut.0)).len() <= 256
            &&& encode_utf8(s.take(cut.0 + 1)).len() > 256
            &&& cut.1 < cut.0 ==> white_space(s[cut.1])
            &&& forall|j: int| cut.1 < j < cut.0 ==> !white_space(#[trigger] s[j])
            &&& cut.1 == cut.0 ==> forall|j: int|
                0 <= j < cut.0 ==> !white_space(#[trigger] s[j])
            &&& displayed(s) == s.take(cut.1) + seq!['.', '.', '.']
        },
{
    if byte_len(s) > MAX_STATUS_BYTES {
        let limit = MAX_STATUS_BYTES as nat;
        let head = longest_fit(s, limit);
        lemma_longest_fit_is_maximal(s, limit);
        lemma_last_white_space(head);
        let m = head.len() as int;
        let n = match last_white_space(head) {
            Some(i) => i,
            None => m,
        };
        assert(before_last_white_space(head) =~= s.take(n));
        assert forall|j: int| n < j < m implies !white_space(#[trigger] s[j]) by {
            assert(s[j] == head[j]);
        }
        if n == m {
            assert forall|j: int| 0 <= j < m implies !white_space(#[trigger] s[j]) by {
                assert(s[j] == head[j]);
            }
        } else {
            assert(s[n] == head[n]);
        }
        reveal_strlit("...");
        assert(ELLIPSIS@ =~= seq!['.', '.', '.']);
        (m, n)
    } else {
        (0, 0)
    }
}

/// Which way a call goes: it is refused exactly where it reports an outcome that
/// documents no run, it claims exactly where an outcome that does is reported by
/// a worker that is not interactive, and else it is done.
pub proof fn call_goes_by_kind_evidence_and_worker(
    tool: ToolView,
    kind: StatusKind,
    evidence: Option<Seq<EvidenceView>>,
    scrubbed: Seq<char>,
)
    ensures
        decide(tool, kind, evidence, scrubbed) is Rejected <==> kind is Outcome
            && !documents_a_run(evidence),
        decide(tool, kind, evidence, scrubbed) is Claim <==> kind is Outcome && documents_a_run(
            evidence,
        ) && !tool.interactive,
{
}

/// Whatever was reported, and however it was answered, an accepted report
/// succeeded, is of the kind that was reported, names the tool's agent, worker
/// and channel, and shows the short form of the redacted text. An outcome gives
/// back the whole redacted text and its evidence; progress gives back neither.
pub proof fn accepted_output_says_what_was_reported(
    tool: ToolView,
    kind: StatusKind,
    evidence: Option<Seq<EvidenceView>>,
    scrubbed: Seq<char>,
    answer: Result<WorkerTransitionResult, String>,
)
    ensures
        call_result(tool, kind, evidence, scrubbed, answer) matches Ok(r) ==> {
            &&& r.output.success
            &&& r.output.kind == kind
            &&& r.output.worker_id == tool.worker_id
            &&& r.output.status == displayed(scrubbed)
            &&& kind is Outcome ==> r.output.outcome == Some(scrubbed)
            &&& kind is Outcome ==> r.output.evidence == evidence
            &&& kind is Progress ==> r.output.outcome is None
            &&& kind is Progress ==> r.output.evidence is None
            &&& r.event->agent_id == tool.agent_id
            &&& r.event->worker_id == tool.worker_id
            &&& r.event->channel_id == tool.channel_id
            &&& r.event->status == displayed(scrubbed)
        },
{
}

/// Each answer that refuses a claim refuses it with its own reason.
pub proof fn refused_claims_say_why(report: ReportView, name: String, message: String)
    ensures
        settle(
            report,
            Ok(WorkerTransitionResult::Conflict { current: WorkerLifecycle::Other(name) }),
        ) == Err::<ReportView, Seq<char>>(
            "worker lifecycle conflict: expected running, found "@ + name@,
        ),
        settle(
            report,
            Ok(WorkerTransitionResult::Conflict { current: WorkerLifecycle::Running }),
        ) == Err::<ReportView, Seq<char>>(
            "worker lifecycle conflict: expected running, found "@ + "running"@,
        ),
        settle(report, Ok(WorkerTransitionResult::NotFound)) == Err::<ReportView, Seq<char>>(
            "worker run was not found"@,
        ),
        settle(report, Err(message)) == Err::<ReportView, Seq<char>>(message@),
{
}

} // verus!
