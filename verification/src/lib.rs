//! The rules behind the `set_status` tool, with which a worker reports how its
//! task is going.
//!
//! A call of the tool needs work that only the surrounding program can do: it
//! redacts secrets, claims the completion of a run, and publishes events. This
//! crate decides what is asked of that program, in what order, and what follows
//! from each answer; see [`SetStatusTool::call`].

pub mod call;
pub mod definition;
pub mod event;
pub mod laws;
pub mod lifecycle;
pub mod runs;
pub mod status;
pub mod text;

pub use call::{CompletionClaim, Decision, LeakScrub, SecretScrub, SetStatusTool, StatusReport};
pub use definition::{JsonValue, ToolDefinition};
pub use event::{set_status, AgentId, ChannelId, ProcessEvent, WorkerId};
pub use lifecycle::{WorkerLifecycle, WorkerTransitionResult};
pub use status::{
    has_evidence, Evidence, SetStatusArgs, SetStatusError, SetStatusOutput, StatusKind,
    EVIDENCE_REQUIRED,
};
pub use text::{cap_status, is_blank, is_white_space, ELLIPSIS, MAX_STATUS_BYTES};
