//! Triggering an interactive action: which step a chosen action takes, the
//! request an inline callback sends, and what the invocation reports.
use vstd::prelude::*;
use crate::errors::{Result, TelegramCliError, is_message_error};
use crate::telegram::actions::{
    ActionView, action_view, actions_view, base64url_decode, matching_positions, resolve_action_match,
    spec_base64url_decode,
};
use crate::telegram::messages::{ActionInvocationResult, IncomingMessage, InteractiveAction, InteractiveActionKind};
use crate::telegram::peers::{copy_opt, opt_chars};
use crate::text::{concat2, concat3, owned, trim};

verus! {

/// What triggering an action does once it is chosen.
#[derive(Debug, Clone, PartialEq, Eq)]
pub enum TriggerStep {
    /// Press an inline callback button.
    Callback,
    /// Send this text to the chat.
    SendText(String),
    /// Hand back the action's URL.
    OpenUrl,
}

/// The mathematical form of a trigger step.
pub ghost enum StepView {
    Callback,
    SendText(Seq<char>),
    OpenUrl,
}

/// The mathematical form of a step.
pub open spec fn step_view(s: TriggerStep) -> StepView {
    match s {
        TriggerStep::Callback => StepView::Callback,
        TriggerStep::SendText(t) => StepView::SendText(t@),
        TriggerStep::OpenUrl => StepView::OpenUrl,
    }
}

/// The message for an action marked unsupported: its own reason, if it has one.
pub open spec fn unsupported_message(a: ActionView) -> Seq<char> {
    match a.unsupported_reason {
        Some(reason) => reason,
        None => "action `"@ + a.label + "` is not supported by telegram-agent-cli"@,
    }
}

/// The message for an action of a kind that cannot be triggered.
pub open spec fn not_triggerable_message(label: Seq<char>) -> Seq<char> {
    "action `"@ + label + "` is not currently triggerable by telegram-agent-cli"@
}

/// The step a chosen action takes, or the message that refuses it.
pub open spec fn spec_trigger_step(a: ActionView) -> core::result::Result<StepView, Seq<char>> {
    if !a.supported {
        Err(unsupported_message(a))
    } else {
        match a.action_kind {
            InteractiveActionKind::InlineCallback => Ok(StepView::Callback),
            InteractiveActionKind::ReplyKeyboardText | InteractiveActionKind::BotCommand => Ok(StepView::SendText(
                match a.trigger_text {
                    Some(t) => t,
                    None => a.label,
                },
            )),
            InteractiveActionKind::InlineUrl | InteractiveActionKind::BotMenuUrl => Ok(StepView::OpenUrl),
            _ => Err(not_triggerable_message(a.label)),
        }
    }
}

/// The step a chosen action takes; an error for an unsupported action or one
/// of a kind that cannot be triggered.
pub fn trigger_step(action: &InteractiveAction) -> (r: Result<TriggerStep>)
    ensures
        match spec_trigger_step(action_view(*action)) {
            Ok(s) => r is Ok && step_view(r->Ok_0) == s,
            Err(m) => r is Err && is_message_error(r->Err_0, m),
        },
{
    if !action.supported {
        return match &action.unsupported_reason {
            Some(reason) => Err(TelegramCliError::Message(owned(reason.as_str()))),
            None => Err(TelegramCliError::Message(concat3(
                "action `",
                action.label.as_str(),
                "` is not supported by telegram-agent-cli",
            ))),
        };
    }
    match action.action_kind {
        InteractiveActionKind::InlineCallback => Ok(TriggerStep::Callback),
        InteractiveActionKind::ReplyKeyboardText | InteractiveActionKind::BotCommand => {
            let text = match &action.trigger_text {
                Some(t) => owned(t.as_str()),
                None => owned(action.label.as_str()),
            };
            Ok(TriggerStep::SendText(text))
        },
        InteractiveActionKind::InlineUrl | InteractiveActionKind::BotMenuUrl => Ok(TriggerStep::OpenUrl),
        _ => Err(TelegramCliError::Message(concat3(
            "action `",
            action.label.as_str(),
            "` is not currently triggerable by telegram-agent-cli",
        ))),
    }
}

/// The one action that answers to the query, by position, with the step it
/// takes; the errors of the match, then of the step.
pub fn plan_trigger(actions: &[InteractiveAction], query: &str) -> (r: Result<(usize, TriggerStep)>)
    ensures
        ({
            let q = trim(query@);
            let m = matching_positions(actions_view(actions@), q);
            &&& m.len() == 0 ==> r is Err && is_message_error(r->Err_0, crate::telegram::actions::action_not_found_message(q))
            &&& m.len() > 1 ==> r is Err && is_message_error(r->Err_0, crate::telegram::actions::action_ambiguous_message(q))
            &&& m.len() == 1 ==> match spec_trigger_step(actions_view(actions@)[m[0]]) {
                Ok(s) => r is Ok && r->Ok_0.0 == m[0] && step_view(r->Ok_0.1) == s,
                Err(e) => r is Err && is_message_error(r->Err_0, e),
            }
        }),
        r is Ok ==> r->Ok_0.0 < actions@.len(),
{
    let i = match resolve_action_match(actions, query) {
        Ok(i) => i,
        Err(e) => {
            return Err(e);
        },
    };
    proof {
        crate::telegram::actions::lemma_matching_positions_in_range(actions_view(actions@), trim(query@));
    }
    assert(actions_view(actions@)[i as int] == action_view(actions@[i as int]));
    match trigger_step(&actions[i]) {
        Ok(step) => Ok((i, step)),
        Err(e) => Err(e),
    }
}

/// The message for a callback payload that does not decode.
pub open spec fn payload_error_message(encoded: Seq<char>, error: Seq<char>) -> Seq<char> {
    "failed to decode callback payload `"@ + encoded + "`: "@ + error
}

/// What pressing an inline callback button sends: the message id (as the
/// 32-bit id Telegram takes) and the decoded payload.
pub open spec fn spec_callback_request(a: ActionView) -> core::result::Result<(i32, Seq<u8>), Seq<char>> {
    match a.message_id {
        None => Err("inline callback action is missing its message id"@),
        Some(m) => match a.callback_data_base64 {
            None => Err("inline callback action is missing its callback payload"@),
            Some(encoded) => match spec_base64url_decode(encoded) {
                Ok(bytes) => Ok(((m as i64) as i32, bytes)),
                Err(e) => Err(payload_error_message(encoded, e)),
            },
        },
    }
}

/// The message id and payload of an inline callback action.
pub fn callback_request(action: &InteractiveAction) -> (r: Result<(i32, Vec<u8>)>)
    ensures
        match spec_callback_request(action_view(*action)) {
            Ok((id, bytes)) => r is Ok && r->Ok_0.0 == id && r->Ok_0.1@ == bytes,
            Err(m) => r is Err && is_message_error(r->Err_0, m),
        },
{
    let message_id = match action.message_id {
        Some(m) => m,
        None => {
            return Err(TelegramCliError::Message(owned("inline callback action is missing its message id")));
        },
    };
    let encoded = match &action.callback_data_base64 {
        Some(e) => e,
        None => {
            return Err(TelegramCliError::Message(owned("inline callback action is missing its callback payload")));
        },
    };
    match base64url_decode(encoded.as_str()) {
        Ok(bytes) => {
            let id: i32 = #[verifier::truncate] (message_id as i32);
            Ok((id, bytes))
        },
        Err(e) => {
            let head = concat3("failed to decode callback payload `", encoded.as_str(), "`: ");
            Err(TelegramCliError::Message(concat2(head.as_str(), e.as_str())))
        },
    }
}

/// The snake-case name of what a step did.
pub open spec fn spec_effect(s: StepView) -> Seq<char> {
    match s {
        StepView::Callback => "callback_clicked"@,
        StepView::SendText(_) => "text_sent"@,
        StepView::OpenUrl => "url_resolved"@,
    }
}

/// What triggering an action reports: the action, what was done, the text
/// sent or the URL, and the response if one came (a URL waits for none).
pub fn invocation_result(action: &InteractiveAction, step: &TriggerStep, response: Option<IncomingMessage>) -> (r: ActionInvocationResult)
    ensures
        r.action_id@ == action.action_id@,
        r.action_kind == action.action_kind,
        r.label@ == action.label@,
        r.effect@ == spec_effect(step_view(*step)),
        opt_chars(r.sent_text) == match step_view(*step) {
            StepView::SendText(t) => Some(t),
            _ => None,
        },
        opt_chars(r.url) == match step_view(*step) {
            StepView::OpenUrl => opt_chars(action.url),
            _ => None,
        },
        r.response == match step_view(*step) {
            StepView::OpenUrl => None,
            _ => response,
        },
        r.response_received == r.response is Some,
{
    let (effect, sent_text, url, response) = match step {
        TriggerStep::Callback => (owned("callback_clicked"), None, None, response),
        TriggerStep::SendText(t) => (owned("text_sent"), Some(owned(t.as_str())), None, response),
        TriggerStep::OpenUrl => (owned("url_resolved"), None, copy_opt(&action.url), None),
    };
    let response_received = response.is_some();
    ActionInvocationResult {
        action_id: owned(action.action_id.as_str()),
        action_kind: action.action_kind,
        label: owned(action.label.as_str()),
        effect,
        sent_text,
        url,
        response_received,
        response,
    }
}

/// Law: what triggering a supported action does, by its kind alone. An
/// inline callback presses the button; a reply-keyboard text and a bot
/// command both send their trigger text, or their label when they have none;
/// an inline or menu URL hands the URL back; only the reply keys that request
/// a phone, a location, a poll or a peer cannot be triggered. The reported
/// effect names what was done: `callback_clicked`, `text_sent` or
/// `url_resolved`.
pub proof fn law_trigger_step_by_kind(a: ActionView)
    requires
        a.supported,
    ensures
        a.action_kind == InteractiveActionKind::InlineCallback ==> spec_trigger_step(a) == Ok::<StepView, Seq<char>>(
            StepView::Callback,
        ),
        a.action_kind == InteractiveActionKind::ReplyKeyboardText || a.action_kind == InteractiveActionKind::BotCommand
            ==> spec_trigger_step(a) == Ok::<StepView, Seq<char>>(StepView::SendText(
            if a.trigger_text is Some { a.trigger_text->0 } else { a.label },
        )),
        a.action_kind == InteractiveActionKind::InlineUrl || a.action_kind == InteractiveActionKind::BotMenuUrl
            ==> spec_trigger_step(a) == Ok::<StepView, Seq<char>>(StepView::OpenUrl),
        spec_trigger_step(a) is Ok ==> spec_effect(spec_trigger_step(a)->Ok_0) == (if a.action_kind
            == InteractiveActionKind::InlineCallback {
            "callback_clicked"@
        } else if a.action_kind == InteractiveActionKind::InlineUrl || a.action_kind == InteractiveActionKind::BotMenuUrl {
            "url_resolved"@
        } else {
            "text_sent"@
        }),
        spec_trigger_step(a) is Err <==> (a.action_kind == InteractiveActionKind::ReplyKeyboardRequestPhone
            || a.action_kind == InteractiveActionKind::ReplyKeyboardRequestGeo
            || a.action_kind == InteractiveActionKind::ReplyKeyboardRequestPoll
            || a.action_kind == InteractiveActionKind::ReplyKeyboardRequestPeer),
{
}

} // verus!
