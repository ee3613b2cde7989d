//! The decisions of running a scenario: what each step asks of Telegram,
//! which sent messages are remembered, and what the run log records.
use vstd::prelude::*;
use crate::automation::filters::build_wait_filter;
use crate::automation::spec::{CleanupStep, ScenarioSpec, ScenarioStep, SendStep, WaitStep, spec_resolve_ref};
use crate::errors::{Result, TelegramCliError, is_message_error};
use crate::json::{Json, JsonValue, ObjectBuilder};
use crate::telegram::messages::{IncomingMessage, SentMessage};
use crate::telegram::peers::opt_chars;
use crate::telegram::updates::MessageFilter;
use crate::text::{concat3, int_decimal, owned, str_eq};

verus! {

/// The messages a run remembered, by key; a later entry for a key replaces
/// an earlier one.
#[derive(Debug)]
pub struct SavedMessages {
    pub entries: Vec<(String, i64)>,
}

/// The message id remembered last under a key.
pub open spec fn saved_lookup(entries: Seq<(String, i64)>, key: Seq<char>) -> Option<i64>
    decreases entries.len(),
{
    if entries.len() == 0 {
        None
    } else if entries.last().0@ == key {
        Some(entries.last().1)
    } else {
        saved_lookup(entries.drop_last(), key)
    }
}

impl SavedMessages {
    /// Nothing remembered.
    pub fn new() -> (r: SavedMessages)
        ensures
            r.entries@.len() == 0,
    {
        SavedMessages { entries: Vec::new() }
    }

    /// Remembers a message id under a key; the key's earlier id is replaced
    /// and every other key keeps its id.
    pub fn insert(&mut self, key: &str, message_id: i64)
        ensures
            saved_lookup(final(self).entries@, key@) == Some(message_id),
            forall|k: Seq<char>| k != key@ ==> saved_lookup(final(self).entries@, k) == saved_lookup(old(self).entries@, k),
    {
        self.entries.push((owned(key), message_id));
        assert(self.entries@.drop_last() =~= old(self).entries@);
    }

    /// The id remembered under a key.
    pub fn get(&self, key: &str) -> (r: Option<i64>)
        ensures
            r == saved_lookup(self.entries@, key@),
    {
        let ghost all = self.entries@;
        let mut i: usize = self.entries.len();
        assert(all.subrange(0, all.len() as int) =~= all);
        while i > 0
            invariant
                all == self.entries@,
                i <= all.len(),
                saved_lookup(all, key@) == saved_lookup(all.subrange(0, i as int), key@),
            decreases i,
        {
            let ghost pre = all.subrange(0, i as int);
            assert(pre.drop_last() =~= all.subrange(0, i - 1));
            assert(pre.last() == all[i - 1]);
            if str_eq(self.entries[i - 1].0.as_str(), key) {
                return Some(self.entries[i - 1].1);
            }
            i = i - 1;
        }
        None
    }
}

/// What a step asks of Telegram.
#[derive(Debug)]
pub enum StepAction {
    /// Send a text as an account to a peer query.
    Send { account: String, target: String, text: String },
    /// Wait as an account in a chat for a message meeting the filter; the
    /// timeout text is parsed once the chat is known.
    Wait { account: String, chat: String, filter: MessageFilter, timeout: String },
    /// Delete a message as an account in a chat.
    Delete { account: String, chat: String, message_id: i64 },
}

/// The message for a cleanup step whose message was never remembered.
pub open spec fn missing_saved_message(key: Seq<char>) -> Seq<char> {
    "saved message "@ + key + " was not found in runtime context"@
}

/// What a step asks of Telegram, with its aliases resolved; a cleanup step
/// whose message was not remembered is an error.
pub fn plan_step(spec: &ScenarioSpec, step: &ScenarioStep, saved: &SavedMessages) -> (r: Result<StepAction>)
    ensures
        match step {
            ScenarioStep::Send { send } => r matches Ok(StepAction::Send { account, target, text })
                && account@ == spec_resolve_ref(spec.accounts@, send.as_ref@)
                && target@ == spec_resolve_ref(spec.targets@, send.to@)
                && text@ == send.text@,
            ScenarioStep::Wait { wait } => r matches Ok(StepAction::Wait { account, chat, filter, timeout })
                && account@ == spec_resolve_ref(spec.accounts@, wait.as_ref@)
                && chat@ == spec_resolve_ref(spec.targets@, wait.chat@)
                && opt_chars(filter.text_equals) == opt_chars(wait.text)
                && opt_chars(filter.text_contains) == opt_chars(wait.text_contains)
                && filter.sender is None && filter.kind is None && filter.reply_to_message_id is None
                && timeout@ == wait.timeout@,
            ScenarioStep::Cleanup { cleanup } => match saved_lookup(saved.entries@, cleanup.saved_message@) {
                None => r is Err && is_message_error(r->Err_0, missing_saved_message(cleanup.saved_message@)),
                Some(id) => r matches Ok(StepAction::Delete { account, chat, message_id })
                    && account@ == spec_resolve_ref(spec.accounts@, cleanup.as_ref@)
                    && chat@ == spec_resolve_ref(spec.targets@, cleanup.chat@)
                    && message_id == id,
            },
        },
{
    match step {
        ScenarioStep::Send { send } => Ok(StepAction::Send {
            account: owned(spec.resolve_account_ref(send.as_ref.as_str())),
            target: owned(spec.resolve_target_ref(send.to.as_str())),
            text: owned(send.text.as_str()),
        }),
        ScenarioStep::Wait { wait } => Ok(StepAction::Wait {
            account: owned(spec.resolve_account_ref(wait.as_ref.as_str())),
            chat: owned(spec.resolve_target_ref(wait.chat.as_str())),
            filter: build_wait_filter(wait),
            timeout: owned(wait.timeout.as_str()),
        }),
        ScenarioStep::Cleanup { cleanup } => match saved.get(cleanup.saved_message.as_str()) {
            None => Err(TelegramCliError::Message(concat3(
                "saved message ",
                cleanup.saved_message.as_str(),
                " was not found in runtime context",
            ))),
            Some(id) => Ok(StepAction::Delete {
                account: owned(spec.resolve_account_ref(cleanup.as_ref.as_str())),
                chat: owned(spec.resolve_target_ref(cleanup.chat.as_str())),
                message_id: id,
            }),
        },
    }
}

/// Remembers a sent message under the step's `save_as` key, if it has one.
pub fn remember_sent(saved: &mut SavedMessages, step: &SendStep, message_id: i64)
    ensures
        match step.save_as {
            Some(key) => saved_lookup(final(saved).entries@, key@) == Some(message_id)
                && forall|k: Seq<char>| k != key@ ==> saved_lookup(final(saved).entries@, k) == saved_lookup(old(saved).entries@, k),
            None => final(saved).entries == old(saved).entries,
        },
{
    match &step.save_as {
        Some(key) => saved.insert(key.as_str(), message_id),
        None => {},
    }
}

/// The name of a step in the run log.
pub open spec fn spec_step_event(step: ScenarioStep) -> Seq<char> {
    match step {
        ScenarioStep::Send { .. } => "send"@,
        ScenarioStep::Wait { .. } => "wait"@,
        ScenarioStep::Cleanup { .. } => "cleanup"@,
    }
}

/// The name of a step in the run log.
pub fn step_event_kind(step: &ScenarioStep) -> (r: &'static str)
    ensures
        r@ == spec_step_event(*step),
{
    match step {
        ScenarioStep::Send { .. } => "send",
        ScenarioStep::Wait { .. } => "wait",
        ScenarioStep::Cleanup { .. } => "cleanup",
    }
}

/// The text of an optional string as JSON.
pub open spec fn opt_text_json(s: Option<String>) -> Json {
    match s {
        Some(t) => Json::Str(t@),
        None => Json::Null,
    }
}

/// The log entry of a send step: the peer, the message id and the text.
pub fn send_event(sent: &SentMessage) -> (r: JsonValue)
    ensures
        r@ == Json::Object(seq![
            ("peer_id"@, Json::Number(int_decimal(sent.peer_id as int))),
            ("message_id"@, Json::Number(int_decimal(sent.message_id as int))),
            ("text"@, opt_text_json(sent.text)),
        ]),
{
    let mut b = ObjectBuilder::new();
    b.field("peer_id", JsonValue::integer(sent.peer_id));
    b.field("message_id", JsonValue::integer(sent.message_id));
    b.field("text", JsonValue::opt_string(&sent.text));
    let r = b.build();
    assert(crate::json::entries_view(b.entries@) =~= seq![
        ("peer_id"@, Json::Number(int_decimal(sent.peer_id as int))),
        ("message_id"@, Json::Number(int_decimal(sent.message_id as int))),
        ("text"@, opt_text_json(sent.text)),
    ]);
    r
}

/// The log entry of a wait step: the peer, the message id and the text.
pub fn wait_event(message: &IncomingMessage) -> (r: JsonValue)
    ensures
        r@ == Json::Object(seq![
            ("peer_id"@, Json::Number(int_decimal(message.peer_id as int))),
            ("message_id"@, Json::Number(int_decimal(message.message_id as int))),
            ("text"@, opt_text_json(message.text)),
        ]),
{
    let mut b = ObjectBuilder::new();
    b.field("peer_id", JsonValue::integer(message.peer_id));
    b.field("message_id", JsonValue::integer(message.message_id));
    b.field("text", JsonValue::opt_string(&message.text));
    let r = b.build();
    assert(crate::json::entries_view(b.entries@) =~= seq![
        ("peer_id"@, Json::Number(int_decimal(message.peer_id as int))),
        ("message_id"@, Json::Number(int_decimal(message.message_id as int))),
        ("text"@, opt_text_json(message.text)),
    ]);
    r
}

/// The log entry of a cleanup step: the chat and the remembered key.
pub fn cleanup_event(step: &CleanupStep) -> (r: JsonValue)
    ensures
        r@ == Json::Object(seq![
            ("chat"@, Json::Str(step.chat@)),
            ("saved_message"@, Json::Str(step.saved_message@)),
        ]),
{
    let mut b = ObjectBuilder::new();
    b.field("chat", JsonValue::string(step.chat.as_str()));
    b.field("saved_message", JsonValue::string(step.saved_message.as_str()));
    let r = b.build();
    assert(crate::json::entries_view(b.entries@) =~= seq![
        ("chat"@, Json::Str(step.chat@)),
        ("saved_message"@, Json::Str(step.saved_message@)),
    ]);
    r
}

/// The status a finished run is recorded with.
pub fn run_status(succeeded: bool) -> (r: &'static str)
    ensures
        r@ == if succeeded { "passed"@ } else { "failed"@ },
{
    if succeeded { "passed" } else { "failed" }
}

/// Where a scenario run stands: how many steps ran, the messages remembered
/// so far, the event recorded for each step that ran, and whether a step
/// failed. Steps run in order, and the first failure ends the run.
#[derive(Debug)]
pub struct ScenarioRun {
    pub completed: usize,
    pub saved: SavedMessages,
    pub events: Vec<&'static str>,
    pub failed: bool,
}

/// The index of the step a run takes next: none once a step failed or
/// every step ran.
pub open spec fn spec_next_step(run: ScenarioRun, step_count: nat) -> Option<nat> {
    if run.failed || run.completed >= step_count {
        None
    } else {
        Some(run.completed as nat)
    }
}

/// The status a run ends with: passed only when no step failed and every
/// step ran.
pub open spec fn spec_run_outcome(run: ScenarioRun, step_count: nat) -> Seq<char> {
    if !run.failed && run.completed >= step_count {
        "passed"@
    } else {
        "failed"@
    }
}

/// The events a run recorded, by name.
pub open spec fn run_events(run: ScenarioRun) -> Seq<Seq<char>> {
    Seq::new(run.events@.len(), |i: int| run.events@[i]@)
}

/// The event names of the first `n` steps, in order.
pub open spec fn step_events(steps: Seq<ScenarioStep>, n: nat) -> Seq<Seq<char>> {
    Seq::new(n, |i: int| spec_step_event(steps[i]))
}

/// A run of these steps: it took the first `completed` of them, in order,
/// and recorded one event for each.
pub open spec fn run_follows(run: ScenarioRun, steps: Seq<ScenarioStep>) -> bool {
    &&& run.completed <= steps.len()
    &&& run_events(run) == step_events(steps, run.completed as nat)
}

impl ScenarioRun {
    /// A run before its first step.
    pub fn start() -> (r: ScenarioRun)
        ensures
            r.completed == 0,
            !r.failed,
            r.saved.entries@.len() == 0,
            r.events@.len() == 0,
            forall|steps: Seq<ScenarioStep>| run_follows(r, steps),
    {
        let r = ScenarioRun { completed: 0, saved: SavedMessages::new(), events: Vec::new(), failed: false };
        assert forall|steps: Seq<ScenarioStep>| run_follows(r, steps) by {
            assert(run_events(r) =~= step_events(steps, 0));
        }
        r
    }

    /// The index of the step to run next, if any.
    pub fn next_step(&self, step_count: usize) -> (r: Option<usize>)
        ensures
            match spec_next_step(*self, step_count as nat) {
                Some(i) => r == Some(i as usize),
                None => r is None,
            },
    {
        if self.failed || self.completed >= step_count {
            None
        } else {
            Some(self.completed)
        }
    }

    /// Records that the next step of the scenario succeeded and its event
    /// was written; a send step's message is remembered under its
    /// `save_as` key.
    pub fn step_succeeded(&mut self, spec: &ScenarioSpec, sent_message_id: Option<i64>)
        requires
            old(self).completed < spec.steps@.len(),
        ensures
            final(self).completed == old(self).completed + 1,
            final(self).failed == old(self).failed,
            run_events(*final(self)) == run_events(*old(self)).push(spec_step_event(spec.steps@[old(self).completed as int])),
            run_follows(*old(self), spec.steps@) ==> run_follows(*final(self), spec.steps@),
            match (spec.steps@[old(self).completed as int], sent_message_id) {
                (ScenarioStep::Send { send }, Some(id)) => match send.save_as {
                    Some(key) => saved_lookup(final(self).saved.entries@, key@) == Some(id)
                        && forall|k: Seq<char>| k != key@ ==> saved_lookup(final(self).saved.entries@, k)
                            == saved_lookup(old(self).saved.entries@, k),
                    None => final(self).saved.entries == old(self).saved.entries,
                },
                _ => final(self).saved.entries == old(self).saved.entries,
            },
    {
        let count: usize = spec.steps.len();
        let step = &spec.steps[self.completed];
        match (step, sent_message_id) {
            (ScenarioStep::Send { send }, Some(id)) => remember_sent(&mut self.saved, send, id),
            _ => {},
        }
        let ghost before = run_events(*self);
        self.events.push(step_event_kind(step));
        assert(run_events(*self) =~= before.push(spec_step_event(spec.steps@[old(self).completed as int])));
        assert(self.completed < count);
        self.completed = self.completed + 1;
        proof {
            if run_follows(*old(self), spec.steps@) {
                assert(run_events(*self) =~= step_events(spec.steps@, self.completed as nat));
            }
        }
    }

    /// Records that a step failed: the run takes no further step.
    pub fn step_failed(&mut self)
        ensures
            final(self).failed,
            final(self).completed == old(self).completed,
            final(self).saved.entries == old(self).saved.entries,
            final(self).events == old(self).events,
    {
        self.failed = true;
    }

    /// The status the run is recorded with.
    pub fn status(&self, step_count: usize) -> (r: &'static str)
        ensures
            r@ == spec_run_outcome(*self, step_count as nat),
    {
        run_status(!self.failed && self.completed >= step_count)
    }
}

/// Law: once a step failed, the run takes no further step and ends as
/// failed, having recorded the events of the steps before the failing one.
pub proof fn law_failure_ends_run(run: ScenarioRun, steps: Seq<ScenarioStep>)
    requires
        run.failed,
        run_follows(run, steps),
    ensures
        spec_next_step(run, steps.len()) is None,
        spec_run_outcome(run, steps.len()) == "failed"@,
        run_events(run) == step_events(steps, run.completed as nat),
{
}

/// Law: a run that stopped without a failure took every step, recorded one
/// event per step in step order, and passes.
pub proof fn law_complete_run_passes(run: ScenarioRun, steps: Seq<ScenarioStep>)
    requires
        !run.failed,
        run_follows(run, steps),
        spec_next_step(run, steps.len()) is None,
    ensures
        run.completed == steps.len(),
        run_events(run) == step_events(steps, steps.len()),
        spec_run_outcome(run, steps.len()) == "passed"@,
{
}

} // verus!
