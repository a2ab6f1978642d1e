//! Plain data model of the inbound remote events and of the remote API's
//! error envelope.

use vstd::prelude::*;

verus! {

/// A chat message as the dispatcher reads it: its identifier, the sender
/// (chat) identifier, and the optional command text.
pub struct Message {
    pub message_id: i32,
    pub chat_id: i64,
    pub text: Option<String>,
}

/// What an update carries: a chat message, or some other kind of event
/// that this device does not handle.
pub enum UpdateContent {
    Message(Message),
    Other,
}

/// One inbound update from the remote API, keyed by its identifier.
pub struct Update {
    pub update_id: i64,
    pub content: UpdateContent,
}

/// The remote API's structured error envelope: a numeric code and a
/// human-readable description.
pub struct ApiErrorInfo {
    pub error_code: u64,
    pub description: String,
}

} // verus!

