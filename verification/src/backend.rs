//! What a session stands on: a thread and a choice of models.
use crate::events::{EventMsg, EventMsgView};
use crate::models::ModelPreset;
use crate::protocol::Op;
use crate::title::ThreadTitleState;
use vstd::prelude::*;

verus! {

/// An event, with the submission that it belongs to.
#[derive(Debug, PartialEq)]
pub struct Event {
    pub id: String,
    pub msg: EventMsg,
}

#[verifier::ext_equal]
pub struct EventView {
    pub id: Seq<char>,
    pub msg: EventMsgView,
}

impl DeepView for Event {
    type V = EventView;

    open spec fn deep_view(&self) -> EventView {
        EventView {
            id: self.id.deep_view(),
            msg: self.msg.deep_view(),
        }
    }
}

/// A Codex thread. A failure is told by its message.
pub trait CodexThreadImpl {
    /// Submits an operation and returns the identifier of the submission.
    fn submit(&self, op: Op) -> Result<String, String>;

    /// Waits for the next event.
    fn next_event(&self) -> Result<Event, String>;

    /// Reads the stored name and first message of the thread.
    fn read_thread_title_state(&self) -> Result<ThreadTitleState, String>;

    /// Stores a name for the thread.
    fn set_thread_name(&self, name: String) -> Result<(), String>;
}

/// The models that a session can use.
pub trait ModelsManagerImpl {
    /// The model to use where the given one is configured.
    fn get_model(&self, model_id: &Option<String>) -> String;

    /// The models that are offered.
    fn list_models(&self) -> Vec<ModelPreset>;
}

} // verus!
