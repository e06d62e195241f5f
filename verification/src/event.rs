//! Who reports, and the event that tells the rest of the program about it.

use std::sync::Arc;
use vstd::prelude::*;

verus! {

/// Names an agent.
pub type AgentId = Arc<str>;

/// Names a channel.
pub type ChannelId = Arc<str>;

/// Names a worker.
pub type WorkerId = uuid::Uuid;

/// `uuid::Uuid`, carried as it is: nothing is known of what it holds.
#[verifier::external_type_specification]
#[verifier::external_body]
pub struct ExUuid(uuid::Uuid);

/// The characters of a channel's name, where there is a channel.
pub open spec fn channel_view(channel_id: Option<ChannelId>) -> Option<Seq<char>> {
    match channel_id {
        Some(id) => Some((*id)@),
        None => None,
    }
}

/// Something that happened in a process, for whoever listens.
#[derive(Debug)]
pub enum ProcessEvent {
    /// A worker reported its status.
    WorkerStatus {
        /// The agent that the worker belongs to.
        agent_id: AgentId,
        /// The worker.
        worker_id: WorkerId,
        /// The channel that the worker works for, if any.
        channel_id: Option<ChannelId>,
        /// The status to display.
        status: String,
    },
}

impl Clone for ProcessEvent {
    fn clone(&self) -> (event: Self)
        ensures
            event == *self,
    {
        match self {
            ProcessEvent::WorkerStatus { agent_id, worker_id, channel_id, status } => {
                ProcessEvent::WorkerStatus {
                    agent_id: agent_id.clone(),
                    worker_id: *worker_id,
                    channel_id: match channel_id {
                        Some(id) => Some(id.clone()),
                        None => None,
                    },
                    status: status.clone(),
                }
            },
        }
    }
}

/// What a [`ProcessEvent`] says.
pub enum EventView {
    /// See [`ProcessEvent::WorkerStatus`].
    WorkerStatus {
        agent_id: Seq<char>,
        worker_id: WorkerId,
        channel_id: Option<Seq<char>>,
        status: Seq<char>,
    },
}

impl View for ProcessEvent {
    type V = EventView;

    open spec fn view(&self) -> EventView {
        match self {
            ProcessEvent::WorkerStatus { agent_id, worker_id, channel_id, status } => {
                EventView::WorkerStatus {
                    agent_id: (**agent_id)@,
                    worker_id: *worker_id,
                    channel_id: channel_view(*channel_id),
                    status: status@,
                }
            },
        }
    }
}

/// The event that tells of a worker's status outside of any channel, with the
/// status as it was given.
pub fn set_status(agent_id: AgentId, worker_id: WorkerId, status: String) -> (event: ProcessEvent)
    ensures
        event@ == (EventView::WorkerStatus {
            agent_id: (*agent_id)@,
            worker_id,
            channel_id: None,
            status: status@,
        }),
{
    ProcessEvent::WorkerStatus { agent_id, worker_id, channel_id: None, status }
}

} // verus!
