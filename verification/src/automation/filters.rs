//! The filter a wait step waits with.
use vstd::prelude::*;
use crate::automation::spec::WaitStep;
use crate::telegram::peers::{copy_opt, opt_chars};
use crate::telegram::updates::MessageFilter;

verus! {

/// A wait step's filter: its exact text and its text fragment, nothing else.
pub fn build_wait_filter(step: &WaitStep) -> (r: MessageFilter)
    ensures
        opt_chars(r.text_equals) == opt_chars(step.text),
        opt_chars(r.text_contains) == opt_chars(step.text_contains),
        r.sender is None,
        r.kind is None,
        r.reply_to_message_id is None,
{
    MessageFilter {
        sender: None,
        text_equals: copy_opt(&step.text),
        text_contains: copy_opt(&step.text_contains),
        kind: None,
        reply_to_message_id: None,
    }
}

} // verus!
