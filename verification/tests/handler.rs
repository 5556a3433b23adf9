use reply_guard::audit::compose_audit_line;
use reply_guard::audit::delete_failure_line;
use reply_guard::audit::ready_line;
use reply_guard::audit::send_failure_line;
use reply_guard::handler::plan_for_message;
use reply_guard::handler::run_handler;
use reply_guard::ApiOutcome;
use reply_guard::Config;
use reply_guard::InboundMessage;
use reply_guard::MessageKind;

const FIXED_SENTENCE: &str = "Replies are not permitted on this server!";

fn sample_message(kind: MessageKind) -> InboundMessage {
    InboundMessage {
        kind,
        message_id: String::from("M1"),
        channel_id: String::from("C1"),
        guild_id: Some(String::from("G1")),
        author_name: String::from("alice"),
        author_discriminator: String::from("0001"),
        author_id: String::from("U1"),
        content: String::from("hi"),
    }
}

fn config_with(channel: &str) -> Config {
    Config { warning_channel_id: String::from(channel) }
}

#[test]
fn normal_message_is_ignored() {
    let trace = run_handler(
        &config_with("R1"),
        &sample_message(MessageKind::Normal),
        &ApiOutcome::Success,
        &ApiOutcome::Success,
    );
    assert!(trace.audit_line.is_none());
    assert!(trace.delete_request.is_none());
    assert!(trace.delete_diagnostic.is_none());
    assert!(trace.send_request.is_none());
    assert!(trace.send_diagnostic.is_none());
}

#[test]
fn system_message_is_ignored() {
    let trace = run_handler(
        &config_with("R1"),
        &sample_message(MessageKind::System),
        &ApiOutcome::Success,
        &ApiOutcome::Success,
    );
    assert!(trace.audit_line.is_none());
    assert!(trace.delete_request.is_none());
    assert!(trace.send_request.is_none());
}

#[test]
fn reply_triggers_delete_then_send() {
    let trace = run_handler(
        &config_with("R1"),
        &sample_message(MessageKind::InlineReply),
        &ApiOutcome::Success,
        &ApiOutcome::Success,
    );
    let delete = trace.delete_request.expect("delete request expected");
    assert_eq!(delete.channel_id, "C1");
    assert_eq!(delete.message_id, "M1");
    let send = trace.send_request.expect("send request expected");
    assert_eq!(send.channel_id, "C1");
    assert_eq!(
        send.text,
        "Replies are not permitted on this server! Please read the pinned guidance in <#R1>!"
    );
    let audit = trace.audit_line.expect("audit line expected");
    assert!(audit.contains("G1"));
    assert!(audit.contains("C1"));
    assert!(audit.contains("alice"));
    assert!(audit.contains("0001"));
    assert!(audit.contains("U1"));
    assert!(audit.contains("hi"));
    assert!(trace.delete_diagnostic.is_none());
    assert!(trace.send_diagnostic.is_none());
}

#[test]
fn warning_text_always_starts_with_fixed_sentence() {
    let bare = reply_guard::warning::compose_warning("");
    let with_channel = reply_guard::warning::compose_warning("123");
    assert!(bare.starts_with(FIXED_SENTENCE));
    assert!(with_channel.starts_with(FIXED_SENTENCE));
}

#[test]
fn warning_text_mentions_configured_channel() {
    let text = reply_guard::warning::compose_warning("123");
    assert!(text.contains("<#123>"));
}

#[test]
fn warning_text_without_channel_is_exactly_the_sentence() {
    let text = reply_guard::warning::compose_warning("");
    assert_eq!(text, FIXED_SENTENCE);
    assert!(!text.contains("<#"));
}

#[test]
fn delete_failure_still_sends_and_is_logged() {
    let trace = run_handler(
        &config_with("R1"),
        &sample_message(MessageKind::InlineReply),
        &ApiOutcome::Failure(String::from("no permission")),
        &ApiOutcome::Success,
    );
    assert!(trace.send_request.is_some());
    let diagnostic = trace.delete_diagnostic.expect("diagnostic expected");
    assert_eq!(diagnostic, "Error deleting message: no permission");
    assert!(trace.send_diagnostic.is_none());
}

#[test]
fn send_failure_is_logged_and_handler_completes() {
    let trace = run_handler(
        &config_with("R1"),
        &sample_message(MessageKind::InlineReply),
        &ApiOutcome::Success,
        &ApiOutcome::Failure(String::from("network down")),
    );
    assert!(trace.delete_request.is_some());
    assert!(trace.send_request.is_some());
    let diagnostic = trace.send_diagnostic.expect("diagnostic expected");
    assert_eq!(diagnostic, "Error sending message: network down");
    assert!(trace.delete_diagnostic.is_none());
}

#[test]
fn direct_message_audit_uses_placeholder() {
    let mut msg = sample_message(MessageKind::InlineReply);
    msg.guild_id = None;
    let line = compose_audit_line(&msg);
    assert!(line.starts_with("Guild -, channel C1"));
}

#[test]
fn audit_line_exact_form() {
    let line = compose_audit_line(&sample_message(MessageKind::InlineReply));
    assert_eq!(
        line,
        "Guild G1, channel C1: alice#0001(U1) used an inline reply!\n> hi"
    );
}

#[test]
fn plan_exists_exactly_for_inline_replies() {
    let cfg = config_with("");
    assert!(plan_for_message(&cfg, &sample_message(MessageKind::InlineReply)).is_some());
    assert!(plan_for_message(&cfg, &sample_message(MessageKind::Normal)).is_none());
    assert!(plan_for_message(&cfg, &sample_message(MessageKind::System)).is_none());
}

#[test]
fn failure_lines_carry_the_detail() {
    assert_eq!(delete_failure_line("boom"), "Error deleting message: boom");
    assert_eq!(send_failure_line("boom"), "Error sending message: boom");
}

#[test]
fn ready_line_names_the_bot() {
    assert_eq!(ready_line("guardbot"), "guardbot is connected!");
}
