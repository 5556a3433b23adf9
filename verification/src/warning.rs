//! Composition of the warning text that is posted back into the channel a
//! forbidden reply was found in: a fixed sentence, and — when a warning
//! channel is configured — a second sentence that mentions that channel.

use vstd::prelude::*;

verus! {

/// The fixed sentence that every warning begins with.
pub open spec fn warning_prefix() -> Seq<char> {
    "Replies are not permitted on this server!"@
}

/// The words that lead from the fixed sentence to the channel mention.
pub open spec fn mention_intro() -> Seq<char> {
    " Please read the pinned guidance in "@
}

/// The mention token for a channel identifier: `<#` identifier `>`, which
/// clients render as a link to that channel.
pub open spec fn mention_token(channel: Seq<char>) -> Seq<char> {
    "<#"@ + channel + ">"@
}

/// What closes the second sentence.
pub open spec fn mention_outro() -> Seq<char> {
    "!"@
}

/// The full warning text for a configured warning-channel identifier: the
/// fixed sentence alone when the identifier is empty, otherwise the fixed
/// sentence followed by the sentence that mentions the channel.
pub open spec fn warning_text(channel: Seq<char>) -> Seq<char> {
    if channel.len() == 0 {
        warning_prefix()
    } else {
        warning_prefix() + mention_intro() + mention_token(channel) + mention_outro()
    }
}

/// Whether `token` occurs contiguously anywhere in `text`.
pub open spec fn contains_token(text: Seq<char>, token: Seq<char>) -> bool {
    exists|i: int|
        0 <= i && i + token.len() <= text.len() && #[trigger] text.subrange(
            i,
            i + token.len() as int,
        ) == token
}

/// Builds the warning text for the configured warning-channel identifier.
pub fn compose_warning(channel: &str) -> (text: String)
    ensures
        text@ == warning_text(channel@),
{
    let mut text = String::from_str("Replies are not permitted on this server!");
    if !channel.is_empty() {
        text.append(" Please read the pinned guidance in ");
        text.append("<#");
        text.append(channel);
        text.append(">");
        text.append("!");
    }
    proof {
        assert(text@ =~= warning_text(channel@));
    }
    text
}

/// Law: the warning text always carries the fixed sentence as a prefix,
/// whatever channel identifier the configuration holds.
pub proof fn lemma_warning_has_prefix(channel: Seq<char>)
    ensures
        warning_text(channel).len() >= warning_prefix().len(),
        warning_text(channel).subrange(0, warning_prefix().len() as int) == warning_prefix(),
{
    assert(warning_text(channel).subrange(0, warning_prefix().len() as int) =~= warning_prefix());
}

/// Law: when a non-empty warning channel is configured, its mention token
/// occurs in the warning text.
pub proof fn lemma_warning_mentions_channel(channel: Seq<char>)
    requires
        channel.len() > 0,
    ensures
        contains_token(warning_text(channel), mention_token(channel)),
{
    let start = warning_prefix().len() + mention_intro().len();
    let token = mention_token(channel);
    assert(warning_text(channel).subrange(start as int, start + token.len() as int) =~= token);
}

/// The fixed sentence contains no `<`, so no mention token can occur in it.
proof fn lemma_prefix_has_no_angle_bracket()
    ensures
        forall|j: int| 0 <= j < warning_prefix().len() ==> warning_prefix()[j] != '<',
{
    reveal_strlit("Replies are not permitted on this server!");
}

/// Law: when no warning channel is configured (the identifier is empty), the
/// warning text is exactly the fixed sentence, and no channel's mention token
/// occurs in it.
pub proof fn lemma_warning_without_channel(channel: Seq<char>)
    requires
        channel.len() == 0,
    ensures
        warning_text(channel) == warning_prefix(),
        forall|other: Seq<char>| !contains_token(warning_text(channel), mention_token(other)),
{
    lemma_prefix_has_no_angle_bracket();
    reveal_strlit("<#");
    assert forall|other: Seq<char>| !contains_token(warning_text(channel), mention_token(other)) by {
        let token = mention_token(other);
        assert(token[0] == '<');
        if contains_token(warning_text(channel), token) {
            let i = choose|i: int|
                0 <= i && i + token.len() <= warning_text(channel).len()
                    && #[trigger] warning_text(channel).subrange(i, i + token.len() as int)
                    == token;
            assert(warning_text(channel).subrange(i, i + token.len() as int)[0]
                == warning_prefix()[i]);
        }
    }
}

} // verus!
