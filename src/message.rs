//! The inbound messages that the host hands to plugins.

use vstd::prelude::*;

verus! {

/// A message posted in a group.
#[derive(Clone, Debug)]
pub struct GroupMessage {
    pub message_id: String,
    pub content: String,
    pub sender_id: String,
    pub group_id: String,
    /// The message as the backend delivered it, as JSON text.
    pub raw_data: String,
}

/// A message sent to the bot by one user.
#[derive(Clone, Debug)]
pub struct PrivateMessage {
    pub message_id: String,
    pub content: String,
    pub sender_id: String,
    /// The message as the backend delivered it, as JSON text.
    pub raw_data: String,
}

} // verus!
