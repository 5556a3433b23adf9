//! The transient values that flow through one handler invocation: the inbound
//! message as the connection layer hands it over, the configuration read at
//! startup, and the outbound requests the handler decides to issue.

use vstd::prelude::*;

verus! {

/// The category of an inbound message, as the platform reports it.
#[derive(Clone, Copy, Debug, PartialEq, Eq, Structural)]
pub enum MessageKind {
    /// An ordinary channel message.
    Normal,
    /// An inline reply to another message: the one kind this bot moderates.
    InlineReply,
    /// A platform-generated system notice.
    System,
}

/// One inbound chat message. Materialized once per event and discarded after
/// the handler returns; nothing here is stored or mutated.
pub struct InboundMessage {
    pub kind: MessageKind,
    pub message_id: String,
    pub channel_id: String,
    /// Absent for direct messages.
    pub guild_id: Option<String>,
    pub author_name: String,
    pub author_discriminator: String,
    pub author_id: String,
    pub content: String,
}

/// Process-wide configuration, read once at startup and never mutated.
/// The authentication token stays with the connection layer; the library
/// only needs the channel that the warning text points at.
pub struct Config {
    /// Identifier of the channel whose pinned guidance the warning refers to;
    /// the empty string when none is configured.
    pub warning_channel_id: String,
}

/// An outbound request to delete one message from a channel.
pub struct DeleteRequest {
    pub channel_id: String,
    pub message_id: String,
}

/// An outbound request to post `text` into a channel.
pub struct SendRequest {
    pub channel_id: String,
    pub text: String,
}

/// What the platform reported for one outbound call; a failure carries the
/// error detail as the caller rendered it.
pub enum ApiOutcome {
    Success,
    Failure(String),
}

} // verus!
