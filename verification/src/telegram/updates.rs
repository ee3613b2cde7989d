//! Filters over incoming messages.
use vstd::prelude::*;
use crate::telegram::messages::{IncomingMessage, MessageKind};
use crate::text::{seq_contains, str_contains, str_eq};

verus! {

/// Conditions a message must meet; an absent condition accepts every message.
#[derive(Debug, Clone, Default, PartialEq, Eq)]
pub struct MessageFilter {
    pub sender: Option<String>,
    pub text_equals: Option<String>,
    pub text_contains: Option<String>,
    pub kind: Option<MessageKind>,
    pub reply_to_message_id: Option<i64>,
}

/// A message meets every condition of the filter.
pub open spec fn spec_filter_matches(f: MessageFilter, m: IncomingMessage) -> bool {
    &&& (f.sender is Some ==> m.sender is Some && m.sender->0@ == f.sender->0@)
    &&& (f.text_equals is Some ==> m.text is Some && m.text->0@ == f.text_equals->0@)
    &&& (f.text_contains is Some ==> m.text is Some && seq_contains(
        m.text->0@,
        f.text_contains->0@,
    ))
    &&& (f.kind is Some ==> m.kind == f.kind->0)
    &&& (f.reply_to_message_id is Some ==> m.reply_to_message_id == f.reply_to_message_id)
}

/// The filter without conditions.
pub open spec fn spec_filter_is_empty(f: MessageFilter) -> bool {
    f.sender is None && f.text_equals is None && f.text_contains is None && f.kind is None
        && f.reply_to_message_id is None
}

impl MessageFilter {
    /// The filter that accepts every message.
    pub fn any() -> (r: MessageFilter)
        ensures
            spec_filter_is_empty(r),
    {
        MessageFilter {
            sender: None,
            text_equals: None,
            text_contains: None,
            kind: None,
            reply_to_message_id: None,
        }
    }

    /// Whether the message meets every condition of the filter.
    pub fn matches(&self, message: &IncomingMessage) -> (r: bool)
        ensures
            r == spec_filter_matches(*self, *message),
    {
        if let Some(sender) = &self.sender {
            match &message.sender {
                Some(s) => {
                    if !str_eq(s.as_str(), sender.as_str()) {
                        return false;
                    }
                },
                None => {
                    return false;
                },
            }
        }
        if let Some(expected) = &self.text_equals {
            match &message.text {
                Some(t) => {
                    if !str_eq(t.as_str(), expected.as_str()) {
                        return false;
                    }
                },
                None => {
                    return false;
                },
            }
        }
        if let Some(fragment) = &self.text_contains {
            match &message.text {
                Some(t) => {
                    if !str_contains(t.as_str(), fragment.as_str()) {
                        return false;
                    }
                },
                None => {
                    return false;
                },
            }
        }
        if let Some(kind) = self.kind {
            if message.kind != kind {
                return false;
            }
        }
        if let Some(reply_to) = self.reply_to_message_id {
            match message.reply_to_message_id {
                Some(r) => {
                    if r != reply_to {
                        return false;
                    }
                },
                None => {
                    return false;
                },
            }
        }
        true
    }
}

/// Law: the filter without conditions accepts every message.
pub proof fn law_empty_filter_matches_all(f: MessageFilter, m: IncomingMessage)
    requires
        spec_filter_is_empty(f),
    ensures
        spec_filter_matches(f, m),
{
}

/// Law: a message the filter accepts meets each condition on its own: its
/// sender is the wanted sender, its text is exactly the wanted text and
/// contains the wanted fragment, its kind and the message it replies to are
/// the wanted ones.
pub proof fn law_accepted_message_meets_each_condition(f: MessageFilter, m: IncomingMessage)
    requires
        spec_filter_matches(f, m),
    ensures
        f.sender is Some ==> m.sender is Some && m.sender->0@ =~= f.sender->0@,
        f.text_equals is Some ==> m.text is Some && m.text->0@.len() == f.text_equals->0@.len()
            && forall|i: int| 0 <= i < m.text->0@.len() ==> m.text->0@[i] == f.text_equals->0@[i],
        f.text_contains is Some ==> m.text is Some && exists|k: int| 0 <= k && k + f.text_contains->0@.len() <= m.text->0@.len()
            && #[trigger] m.text->0@.subrange(k, k + f.text_contains->0@.len()) =~= f.text_contains->0@,
        f.kind is Some ==> m.kind == f.kind->0,
        f.reply_to_message_id is Some ==> m.reply_to_message_id == f.reply_to_message_id,
{
    if f.text_contains is Some {
        let t = m.text->0@;
        let n = f.text_contains->0@;
        let k = choose|k: int| crate::text::occurs_at(t, n, k);
        assert(0 <= k && k + n.len() <= t.len() && t.subrange(k, k + n.len()) =~= n);
    }
}

/// Law: a filter whose only condition is an exact text accepts a message
/// exactly when the message has that text, character for character.
pub proof fn law_exact_text_filter(f: MessageFilter, m: IncomingMessage)
    requires
        f.text_equals is Some,
        f.sender is None && f.text_contains is None && f.kind is None && f.reply_to_message_id is None,
    ensures
        spec_filter_matches(f, m) <==> (m.text is Some && m.text->0@ =~= f.text_equals->0@),
{
}

/// Law: a message that meets every condition of the filter on its own is
/// accepted: the sender is the wanted one, the text is exactly the wanted
/// text, the wanted fragment occurs in the text, and the kind and replied-to
/// message are the wanted ones.
pub proof fn law_message_meeting_each_condition_is_accepted(f: MessageFilter, m: IncomingMessage, k: int)
    requires
        f.sender is Some ==> m.sender is Some && m.sender->0@ =~= f.sender->0@,
        f.text_equals is Some ==> m.text is Some && m.text->0@ =~= f.text_equals->0@,
        f.text_contains is Some ==> m.text is Some && 0 <= k && k + f.text_contains->0@.len() <= m.text->0@.len()
            && m.text->0@.subrange(k, k + f.text_contains->0@.len()) =~= f.text_contains->0@,
        f.kind is Some ==> m.kind == f.kind->0,
        f.reply_to_message_id is Some ==> m.reply_to_message_id == f.reply_to_message_id,
    ensures
        spec_filter_matches(f, m),
{
    if f.text_contains is Some {
        assert(crate::text::occurs_at(m.text->0@, f.text_contains->0@, k));
    }
}

} // verus!
