//! Verified core of a chat moderation bot that removes inline replies.
//!
//! The library holds everything the bot decides and composes: the trigger
//! predicate on an inbound message, the audit line, the warning text that is
//! posted back, and the diagnostics for failed outbound calls. The gateway
//! connection, the outbound REST calls and process startup live outside the
//! library and only hand plain values in and out.

pub mod audit;
pub mod handler;
pub mod messages;
pub mod warning;

pub use messages::ApiOutcome;
pub use messages::Config;
pub use messages::DeleteRequest;
pub use messages::InboundMessage;
pub use messages::MessageKind;
pub use messages::SendRequest;
