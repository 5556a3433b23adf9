//! The lines the bot writes to standard output: the audit line for a removed
//! reply, the diagnostics for failed outbound calls, and the line announcing
//! a ready connection.

use vstd::prelude::*;
use crate::messages::InboundMessage;

verus! {

/// What stands in for the guild identifier when the message was a direct
/// message and carried none.
pub open spec fn guild_placeholder() -> Seq<char> {
    "-"@
}

/// The guild identifier the audit line shows: the message's own, or the
/// placeholder for a direct message.
pub open spec fn guild_label(msg: InboundMessage) -> Seq<char> {
    match msg.guild_id {
        Some(guild) => guild@,
        None => guild_placeholder(),
    }
}

/// The audit line for a removed reply: guild, channel, author (name,
/// discriminator and identifier) and the message's text.
pub open spec fn audit_line_spec(msg: InboundMessage) -> Seq<char> {
    "Guild "@ + guild_label(msg) + ", channel "@ + msg.channel_id@ + ": "@ + msg.author_name@
        + "#"@ + msg.author_discriminator@ + "("@ + msg.author_id@
        + ") used an inline reply!\n> "@ + msg.content@
}

/// The diagnostic recorded when the delete call failed with `detail`.
pub open spec fn delete_failure_spec(detail: Seq<char>) -> Seq<char> {
    "Error deleting message: "@ + detail
}

/// The diagnostic recorded when the send call failed with `detail`.
pub open spec fn send_failure_spec(detail: Seq<char>) -> Seq<char> {
    "Error sending message: "@ + detail
}

/// The line announcing that the connection is up, for the bot's own name.
pub open spec fn ready_line_spec(bot_name: Seq<char>) -> Seq<char> {
    bot_name + " is connected!"@
}

/// Builds the audit line for a triggering message.
pub fn compose_audit_line(msg: &InboundMessage) -> (line: String)
    ensures
        line@ == audit_line_spec(*msg),
{
    let mut line = String::from_str("Guild ");
    match &msg.guild_id {
        Some(guild) => line.append(guild.as_str()),
        None => line.append("-"),
    }
    line.append(", channel ");
    line.append(msg.channel_id.as_str());
    line.append(": ");
    line.append(msg.author_name.as_str());
    line.append("#");
    line.append(msg.author_discriminator.as_str());
    line.append("(");
    line.append(msg.author_id.as_str());
    line.append(") used an inline reply!\n> ");
    line.append(msg.content.as_str());
    proof {
        assert(line@ =~= audit_line_spec(*msg));
    }
    line
}

/// Renders the diagnostic for a failed delete call.
pub fn delete_failure_line(detail: &str) -> (line: String)
    ensures
        line@ == delete_failure_spec(detail@),
{
    let mut line = String::from_str("Error deleting message: ");
    line.append(detail);
    line
}

/// Renders the diagnostic for a failed send call.
pub fn send_failure_line(detail: &str) -> (line: String)
    ensures
        line@ == send_failure_spec(detail@),
{
    let mut line = String::from_str("Error sending message: ");
    line.append(detail);
    line
}

/// Renders the line announcing a ready connection.
pub fn ready_line(bot_name: &str) -> (line: String)
    ensures
        line@ == ready_line_spec(bot_name@),
{
    let mut line = String::from_str(bot_name);
    line.append(" is connected!");
    line
}

} // verus!
