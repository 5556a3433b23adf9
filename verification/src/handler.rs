//! The moderation decision. One inbound message either triggers nothing — it
//! is not an inline reply — or exactly one delete request for the message
//! itself followed by one send request that posts the warning into the same
//! channel, with an audit line for standard output. Both outbound calls may
//! fail; a failure is reduced to a diagnostic line and never propagated, and
//! the send is attempted whether or not the delete succeeded.

use vstd::prelude::*;
use crate::audit::audit_line_spec;
use crate::audit::compose_audit_line;
use crate::audit::delete_failure_line;
use crate::audit::delete_failure_spec;
use crate::audit::send_failure_line;
use crate::audit::send_failure_spec;
use crate::messages::ApiOutcome;
use crate::messages::Config;
use crate::messages::DeleteRequest;
use crate::messages::InboundMessage;
use crate::messages::MessageKind;
use crate::messages::SendRequest;
use crate::warning::compose_warning;
use crate::warning::warning_text;

verus! {

/// Everything the handler decides to do about one triggering message, in the
/// order it is carried out: print the audit line, issue the delete request,
/// issue the send request.
pub struct ModerationPlan {
    pub audit_line: String,
    pub delete: DeleteRequest,
    pub send: SendRequest,
}

/// Whether `plan` is the plan that `cfg` and `msg` call for: the delete names
/// the triggering message, the send posts the configured warning text into
/// the channel the message came from, and the audit line describes it.
pub open spec fn plan_matches(plan: ModerationPlan, cfg: Config, msg: InboundMessage) -> bool {
    &&& plan.audit_line@ == audit_line_spec(msg)
    &&& plan.delete.channel_id@ == msg.channel_id@
    &&& plan.delete.message_id@ == msg.message_id@
    &&& plan.send.channel_id@ == msg.channel_id@
    &&& plan.send.text@ == warning_text(cfg.warning_channel_id@)
}

/// Decides what to do about one inbound message: a plan exactly when the
/// message is an inline reply, nothing — no request, no audit line — for any
/// other kind.
pub fn plan_for_message(cfg: &Config, msg: &InboundMessage) -> (plan: Option<ModerationPlan>)
    ensures
        plan is Some <==> msg.kind is InlineReply,
        plan matches Some(p) ==> plan_matches(p, *cfg, *msg),
{
    if msg.kind == MessageKind::InlineReply {
        Some(
            ModerationPlan {
                audit_line: compose_audit_line(msg),
                delete: DeleteRequest {
                    channel_id: msg.channel_id.clone(),
                    message_id: msg.message_id.clone(),
                },
                send: SendRequest {
                    channel_id: msg.channel_id.clone(),
                    text: compose_warning(cfg.warning_channel_id.as_str()),
                },
            },
        )
    } else {
        None
    }
}

/// Turns the outcome of the delete call into what is logged for it: a
/// diagnostic exactly when the call failed, carrying the error detail.
pub fn diagnose_delete(outcome: &ApiOutcome) -> (diagnostic: Option<String>)
    ensures
        diagnostic is Some <==> outcome is Failure,
        outcome matches ApiOutcome::Failure(detail) ==> (diagnostic matches Some(line)
            && line@ == delete_failure_spec(detail@)),
{
    match outcome {
        ApiOutcome::Success => None,
        ApiOutcome::Failure(detail) => Some(delete_failure_line(detail.as_str())),
    }
}

/// Turns the outcome of the send call into what is logged for it: a
/// diagnostic exactly when the call failed, carrying the error detail.
pub fn diagnose_send(outcome: &ApiOutcome) -> (diagnostic: Option<String>)
    ensures
        diagnostic is Some <==> outcome is Failure,
        outcome matches ApiOutcome::Failure(detail) ==> (diagnostic matches Some(line)
            && line@ == send_failure_spec(detail@)),
{
    match outcome {
        ApiOutcome::Success => None,
        ApiOutcome::Failure(detail) => Some(send_failure_line(detail.as_str())),
    }
}

/// Everything one handler invocation makes observable, in the order it
/// happens: the audit line, the delete request and its diagnostic, the send
/// request and its diagnostic. A `None` means the handler did not do the
/// thing at all.
pub struct HandlerTrace {
    pub audit_line: Option<String>,
    pub delete_request: Option<DeleteRequest>,
    pub delete_diagnostic: Option<String>,
    pub send_request: Option<SendRequest>,
    pub send_diagnostic: Option<String>,
}

/// Whether `trace` records no action at all.
pub open spec fn trace_is_silent(trace: HandlerTrace) -> bool {
    &&& trace.audit_line is None
    &&& trace.delete_request is None
    &&& trace.delete_diagnostic is None
    &&& trace.send_request is None
    &&& trace.send_diagnostic is None
}

/// One full handler invocation, with the outcomes of the two outbound calls
/// supplied by the caller that performed them. A message of any kind other
/// than an inline reply leaves a silent trace; an inline reply yields the
/// audit line, one delete request for the triggering message and one send
/// request with the warning — the send whether or not the delete succeeded —
/// and a diagnostic for exactly the calls that failed. The handler itself
/// never fails.
pub fn run_handler(
    cfg: &Config,
    msg: &InboundMessage,
    delete_outcome: &ApiOutcome,
    send_outcome: &ApiOutcome,
) -> (trace: HandlerTrace)
    ensures
        msg.kind !is InlineReply ==> trace_is_silent(trace),
        msg.kind is InlineReply ==> {
            &&& trace.audit_line matches Some(line) && line@ == audit_line_spec(*msg)
            &&& trace.delete_request matches Some(del) && del.channel_id@ == msg.channel_id@
                && del.message_id@ == msg.message_id@
            &&& trace.send_request matches Some(send) && send.channel_id@ == msg.channel_id@
                && send.text@ == warning_text(cfg.warning_channel_id@)
            &&& trace.delete_diagnostic is Some <==> delete_outcome is Failure
            &&& trace.send_diagnostic is Some <==> send_outcome is Failure
            &&& delete_outcome matches ApiOutcome::Failure(detail) ==> (
            trace.delete_diagnostic matches Some(line) && line@ == delete_failure_spec(detail@))
            &&& send_outcome matches ApiOutcome::Failure(detail) ==> (
            trace.send_diagnostic matches Some(line) && line@ == send_failure_spec(detail@))
        },
{
    match plan_for_message(cfg, msg) {
        None => HandlerTrace {
            audit_line: None,
            delete_request: None,
            delete_diagnostic: None,
            send_request: None,
            send_diagnostic: None,
        },
        Some(plan) => HandlerTrace {
            audit_line: Some(plan.audit_line),
            delete_request: Some(plan.delete),
            delete_diagnostic: diagnose_delete(delete_outcome),
            send_request: Some(plan.send),
            send_diagnostic: diagnose_send(send_outcome),
        },
    }
}

} // verus!
