//! What a worker reports, and what it gets back.

use crate::event::WorkerId;
use crate::text::is_blank;
use vstd::prelude::*;
use vstd::string::*;

verus! {

/// The characters of a text, where there is one.
pub open spec fn text_view(text: Option<String>) -> Option<Seq<char>> {
    match text {
        Some(text) => Some(text@),
        None => None,
    }
}

/// The kind of status update.
///
/// `Progress` (the default) reports intermediate progress. `Outcome` signals
/// that the worker has reached a terminal result: the task is done, or failed in
/// a way that the worker can describe. Only *whether* an outcome was signalled
/// is known from it, not whether every step of the task is complete.
#[derive(Debug, Clone, Copy, PartialEq, Eq, Structural)]
pub enum StatusKind {
    /// Intermediate progress update (default).
    Progress,
    /// Terminal outcome: the task is complete or has a definitive result.
    Outcome,
}

impl Default for StatusKind {
    fn default() -> (kind: Self)
        ensures
            kind == StatusKind::Progress,
    {
        StatusKind::Progress
    }
}

/// Structured verification evidence carried by an `Outcome` status.
///
/// An outcome is only accepted when it documents what was actually run: at least
/// one item, each with a command and its exit code. A failed task documents its
/// failing command; a successful task documents the passing run.
#[derive(Debug)]
pub struct Evidence {
    /// The command that produced the evidence (e.g. `cargo test --lib`).
    pub command: String,
    /// The command's exit code (0 = success).
    pub exit_code: i32,
    /// Optional human-readable summary (e.g. "42 passed, 0 failed").
    pub summary: Option<String>,
}

/// What an [`Evidence`] says.
pub struct EvidenceView {
    pub command: Seq<char>,
    pub exit_code: int,
    pub summary: Option<Seq<char>>,
}

impl View for Evidence {
    type V = EvidenceView;

    open spec fn view(&self) -> EvidenceView {
        EvidenceView {
            command: self.command@,
            exit_code: self.exit_code as int,
            summary: text_view(self.summary),
        }
    }
}

impl Clone for Evidence {
    fn clone(&self) -> (res: Self)
        ensures
            res == *self,
    {
        Evidence {
            command: self.command.clone(),
            exit_code: self.exit_code,
            summary: match &self.summary {
                Some(summary) => Some(summary.clone()),
                None => None,
            },
        }
    }
}

/// What the items of some evidence say, where there is evidence.
pub open spec fn evidence_view(evidence: Option<Vec<Evidence>>) -> Option<Seq<EvidenceView>> {
    match evidence {
        Some(items) => Some(items@.map_values(|item: Evidence| item@)),
        None => None,
    }
}

/// Whether `evidence` documents what was run: there is at least one item, and no
/// item's command is blank.
pub open spec fn documents_a_run(evidence: Option<Seq<EvidenceView>>) -> bool {
    match evidence {
        Some(items) => {
            &&& items.len() > 0
            &&& forall|i: int|
                0 <= i < items.len() ==> !crate::text::blank(#[trigger] items[i].command)
        },
        None => false,
    }
}

/// Whether `evidence` documents what was run: there is at least one item, and no
/// item's command is blank.
pub fn has_evidence(evidence: &Option<Vec<Evidence>>) -> (res: bool)
    ensures
        res == documents_a_run(evidence_view(*evidence)),
{
    let items = match evidence {
        Some(items) => items,
        None => {
            return false;
        },
    };
    let ghost said = items@.map_values(|item: Evidence| item@);
    for i in 0..items.len()
        invariant
            said == items@.map_values(|item: Evidence| item@),
            evidence_view(*evidence) == Some(said),
            forall|j: int| 0 <= j < i ==> !crate::text::blank(#[trigger] said[j].command),
    {
        if is_blank(items[i].command.as_str()) {
            assert(crate::text::blank(said[i as int].command));
            return false;
        }
    }
    items.len() > 0
}

/// Arguments of a status report.
#[derive(Debug)]
pub struct SetStatusArgs {
    /// The status message to report.
    pub status: String,
    /// The kind of status update: `Progress` for intermediate updates, `Outcome`
    /// when the task has reached a terminal result.
    pub kind: StatusKind,
    /// Verification evidence (command and exit code) for an `Outcome` status.
    /// Required when `kind` is `Outcome`; ignored for `Progress`.
    pub evidence: Option<Vec<Evidence>>,
}

/// What an accepted status report gives back.
#[derive(Debug)]
pub struct SetStatusOutput {
    /// Whether the status was set successfully.
    pub success: bool,
    /// The worker ID.
    pub worker_id: WorkerId,
    /// The status that was set.
    pub status: String,
    /// Full outcome text when `kind` is `Outcome`, uncapped so that the worker's
    /// terminal result survives into the durable completion record. Absent for
    /// progress updates.
    pub outcome: Option<String>,
    /// The kind of status that was set.
    pub kind: StatusKind,
    /// The evidence carried by this outcome (present when `kind` is `Outcome`),
    /// so that callers can verify the completion gate.
    pub evidence: Option<Vec<Evidence>>,
}

/// What a [`SetStatusOutput`] says.
pub struct OutputView {
    pub success: bool,
    pub worker_id: WorkerId,
    pub status: Seq<char>,
    pub outcome: Option<Seq<char>>,
    pub kind: StatusKind,
    pub evidence: Option<Seq<EvidenceView>>,
}

impl View for SetStatusOutput {
    type V = OutputView;

    open spec fn view(&self) -> OutputView {
        OutputView {
            success: self.success,
            worker_id: self.worker_id,
            status: self.status@,
            outcome: text_view(self.outcome),
            kind: self.kind,
            evidence: evidence_view(self.evidence),
        }
    }
}

/// Why a status report was refused.
#[derive(Debug)]
pub struct SetStatusError(pub String);

impl View for SetStatusError {
    type V = Seq<char>;

    open spec fn view(&self) -> Seq<char> {
        self.0@
    }
}

impl SetStatusError {
    /// The error as it is shown.
    pub fn message(&self) -> (message: String)
        ensures
            message@ == "Failed to set status: "@ + self@,
    {
        "Failed to set status: ".to_string().concat(self.0.as_str())
    }
}

/// Why an outcome without evidence is refused.
pub const EVIDENCE_REQUIRED: &'static str =
    "outcome requires evidence: pass evidence: [{ command, exit_code }, ...] documenting the command you ran and its exit code (e.g. { command: \"cargo test --lib\", exit_code: 0 })";

} // verus!
