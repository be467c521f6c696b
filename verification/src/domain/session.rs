//! Session domain: the messages that flow through a thread's queue and the
//! outcomes of queue operations. The runtime that drives them lives in
//! `application::session_runtime`.

use crate::json::Json;
use crate::text;
use vstd::prelude::*;
use vstd::string::*;

verus! {

/// One part of an assistant turn (text, tool call, file, ...), produced by the
/// agent backend and rendered into chat by `domain::rendering`.
#[derive(Debug)]
pub struct Part {
    pub id: String,
    pub kind: String,
    pub payload: Json,
}

/// A message bound for the agent, possibly waiting in the thread's queue.
#[derive(Debug)]
pub struct QueuedMessage {
    pub prompt: String,
    pub username: String,
    /// Chat message that produced this entry (platform-specific id); used so
    /// editing the message updates (or removes) the queued prompt.
    pub source_message_id: Option<String>,
    /// Show the `»` dispatched-from-queue marker when this entry had to wait.
    pub show_marker: bool,
}

/// The value of a queued message.
pub struct Message {
    pub prompt: Seq<char>,
    pub username: Seq<char>,
    pub source: Option<Seq<char>>,
    pub show_marker: bool,
}

impl View for QueuedMessage {
    type V = Message;

    open spec fn view(&self) -> Message {
        Message {
            prompt: self.prompt@,
            username: self.username@,
            source: text::opt_view(self.source_message_id),
            show_marker: self.show_marker,
        }
    }
}

impl Clone for QueuedMessage {
    fn clone(&self) -> (r: Self)
        ensures
            r@ == self@,
    {
        QueuedMessage {
            prompt: self.prompt.clone(),
            username: self.username.clone(),
            source_message_id: self.source_message_id.clone(),
            show_marker: self.show_marker,
        }
    }
}

#[derive(Debug)]
pub enum EnqueueResult {
    /// Dispatch started immediately.
    Dispatched,
    /// Waiting behind the current run; 1-based position.
    Queued(usize),
}

/// Result of applying a message edit to the queue.
#[derive(Debug, PartialEq, Eq, Structural, Clone, Copy)]
pub enum QueueEditOutcome {
    Updated,
    Removed,
    NotFound,
}

} // verus!
