//! An in-memory Telegram used by tests and demos: peers resolve from a table,
//! sent messages are recorded, and incoming messages are queued by hand.
use vstd::prelude::*;
use crate::errors::{Result, TelegramCliError, is_message_error};
use crate::telegram::actions::{
    ActionView, action_view, bot_command_action, bot_menu_url_action, copy_action, inline_callback_action,
    inline_url_action, reply_keyboard_text_action, resolve_action_match, spec_bot_command, spec_bot_menu_url,
    actions_view, matching_positions, action_not_found_message, action_ambiguous_message,
};
use crate::telegram::markup::{views_of, lemma_views_of_push};
use crate::telegram::messages::{
    ActionInvocationResult, IncomingMessage, InteractiveAction, InteractiveActionKind, MessageKind, SentMessage,
};
use crate::telegram::peers::{PeerKind, ResolvedPeer, copy_opt, opt_chars};
use crate::telegram::updates::{MessageFilter, spec_filter_matches, spec_filter_is_empty, law_empty_filter_matches_all};
use crate::telegram::trigger::{StepView, TriggerStep, invocation_result, plan_trigger, spec_effect, spec_trigger_step, step_view};
use crate::commands::message::{WaitDuration, duration_debug, spec_duration_debug};
use crate::text::{views, concat3, owned, str_eq, str_starts_with, strip_leading, strip_leading_string, trim, seq_starts_with};

verus! {

/// The current time in RFC 3339 form (`chrono::Utc::now().to_rfc3339()`);
/// nothing is promised of its value.
#[verifier::external_body]
fn now_rfc3339() -> (r: String) {
    chrono::Utc::now().to_rfc3339()
}

/// A received message together with the actions its keyboard offers.
#[derive(Debug, Clone)]
pub struct MockStoredMessage {
    pub message: IncomingMessage,
    pub actions: Vec<InteractiveAction>,
}

/// The state of the in-memory Telegram.
#[derive(Debug)]
pub struct MockTelegramAdapter {
    /// The last message id handed out.
    pub next_message_id: i64,
    /// Peers by alias; each alias occurs once.
    pub resolved_peers: Vec<(String, ResolvedPeer)>,
    pub sent_messages: Vec<SentMessage>,
    pub sent_peers: Vec<ResolvedPeer>,
    /// Messages not yet consumed by a wait, oldest first, all peers together.
    pub incoming_messages: Vec<IncomingMessage>,
    /// Every received message with its actions, oldest first.
    pub message_history: Vec<MockStoredMessage>,
    /// Bot commands and menu buttons by peer, in registration order.
    pub bot_actions: Vec<(i64, InteractiveAction)>,
    pub deleted_messages: Vec<(i64, i64)>,
    pub authorized_accounts: Vec<String>,
}

/// The mathematical form of a peer.
pub open spec fn peer_view(p: ResolvedPeer) -> (i64, PeerKind, Seq<char>, Option<Seq<char>>, Option<Seq<char>>) {
    (
        p.peer_id,
        p.peer_kind,
        p.display_name@,
        match p.username { Some(u) => Some(u@), None => None },
        match p.packed_hex { Some(u) => Some(u@), None => None },
    )
}

/// The mathematical form of a received message.
pub open spec fn message_view(m: IncomingMessage) -> (i64, i64, Option<Seq<char>>, Option<Seq<char>>, MessageKind, Option<i64>, Seq<char>) {
    (
        m.message_id,
        m.peer_id,
        match m.sender { Some(u) => Some(u@), None => None },
        match m.text { Some(u) => Some(u@), None => None },
        m.kind,
        m.reply_to_message_id,
        m.timestamp@,
    )
}

/// The mathematical form of a sent message.
pub open spec fn sent_view(m: SentMessage) -> (i64, Seq<char>, i64, Option<Seq<char>>, Option<Seq<char>>, Option<Seq<char>>, Seq<char>) {
    (m.message_id, m.account_name@, m.peer_id, opt_chars(m.text), opt_chars(m.file_path), opt_chars(m.caption), m.timestamp@)
}

/// The peer registered under an alias: the first entry with that alias.
pub open spec fn peer_lookup(peers: Seq<(String, ResolvedPeer)>, alias: Seq<char>) -> Option<ResolvedPeer>
    decreases peers.len(),
{
    if peers.len() == 0 {
        None
    } else if peers[0].0@ == alias {
        Some(peers[0].1)
    } else {
        peer_lookup(peers.subrange(1, peers.len() as int), alias)
    }
}

/// The most recent pending messages of a peer, newest first, at most `limit`.
pub open spec fn recent_of(incoming: Seq<IncomingMessage>, peer_id: i64, limit: nat) -> Seq<IncomingMessage>
    decreases incoming.len(),
{
    if incoming.len() == 0 || limit == 0 {
        Seq::empty()
    } else if incoming.last().peer_id == peer_id {
        seq![incoming.last()] + recent_of(incoming.drop_last(), peer_id, (limit - 1) as nat)
    } else {
        recent_of(incoming.drop_last(), peer_id, limit)
    }
}

/// The actions of a peer's received messages, newest message first: those of
/// the message with the given id, or of the `remaining` newest messages.
pub open spec fn history_actions(h: Seq<MockStoredMessage>, peer_id: i64, message_id: Option<i64>, remaining: nat) -> Seq<ActionView>
    decreases h.len(),
{
    if h.len() == 0 {
        Seq::empty()
    } else if h.last().message.peer_id != peer_id {
        history_actions(h.drop_last(), peer_id, message_id, remaining)
    } else {
        match message_id {
            Some(id) => if h.last().message.message_id != id {
                history_actions(h.drop_last(), peer_id, message_id, remaining)
            } else {
                views_of(h.last().actions@) + history_actions(h.drop_last(), peer_id, message_id, remaining)
            },
            None => if remaining == 0 {
                Seq::empty()
            } else {
                views_of(h.last().actions@) + history_actions(h.drop_last(), peer_id, message_id, (remaining - 1) as nat)
            },
        }
    }
}

/// The bot actions registered for a peer, in registration order.
pub open spec fn bot_actions_of(b: Seq<(i64, InteractiveAction)>, peer_id: i64) -> Seq<ActionView>
    decreases b.len(),
{
    if b.len() == 0 {
        Seq::empty()
    } else {
        bot_actions_of(b.drop_last(), peer_id) + if b.last().0 == peer_id {
            seq![action_view(b.last().1)]
        } else {
            Seq::empty()
        }
    }
}

/// A pending message is one a wait on this peer with this filter takes.
pub open spec fn wanted(m: IncomingMessage, peer_id: i64, filter: MessageFilter) -> bool {
    m.peer_id == peer_id && spec_filter_matches(filter, m)
}

impl MockTelegramAdapter {
    /// Every alias occurs once in the peer table.
    pub open spec fn wf(&self) -> bool {
        forall|i: int, j: int| 0 <= i < j < self.resolved_peers@.len() ==> self.resolved_peers@[i].0@ != self.resolved_peers@[j].0@
    }

    /// An adapter with no peers, messages or actions.
    pub fn new() -> (r: MockTelegramAdapter)
        ensures
            r.wf(),
            r.next_message_id == 0,
            r.resolved_peers@.len() == 0,
            r.sent_messages@.len() == 0,
            r.sent_peers@.len() == 0,
            r.incoming_messages@.len() == 0,
            r.message_history@.len() == 0,
            r.bot_actions@.len() == 0,
            r.deleted_messages@.len() == 0,
            r.authorized_accounts@.len() == 0,
    {
        MockTelegramAdapter {
            next_message_id: 0,
            resolved_peers: Vec::new(),
            sent_messages: Vec::new(),
            sent_peers: Vec::new(),
            incoming_messages: Vec::new(),
            message_history: Vec::new(),
            bot_actions: Vec::new(),
            deleted_messages: Vec::new(),
            authorized_accounts: Vec::new(),
        }
    }

    /// An adapter that knows one peer under an alias.
    pub fn with_peer(alias: &str, peer: ResolvedPeer) -> (r: MockTelegramAdapter)
        ensures
            r.wf(),
            peer_lookup(r.resolved_peers@, alias@) == Some(peer),
            r.resolved_peers@.len() == 1,
    {
        let mut adapter = MockTelegramAdapter::new();
        adapter.register_peer(alias, peer);
        adapter
    }

    /// Registers (or replaces) the peer an alias resolves to; other aliases keep theirs.
    pub fn register_peer(&mut self, alias: &str, peer: ResolvedPeer)
        requires
            old(self).wf(),
        ensures
            final(self).wf(),
            peer_lookup(final(self).resolved_peers@, alias@) == Some(peer),
            forall|a: Seq<char>| a != alias@ ==> peer_lookup(final(self).resolved_peers@, a) == peer_lookup(old(self).resolved_peers@, a),
            final(self).resolved_peers@.len() <= old(self).resolved_peers@.len() + 1,
            final(self).sent_messages == old(self).sent_messages,
            final(self).incoming_messages == old(self).incoming_messages,
            final(self).message_history == old(self).message_history,
            final(self).bot_actions == old(self).bot_actions,
            final(self).next_message_id == old(self).next_message_id,
    {
        let ghost before = self.resolved_peers@;
        let key = owned(alias);
        match self.alias_position(alias) {
            Some(i) => {
                proof {
                    lemma_lookup_set(before, i as int, key, peer);
                }
                self.resolved_peers.set(i, (key, peer));
                proof {
                    assert forall|x: int, y: int| 0 <= x < y < self.resolved_peers@.len() implies self.resolved_peers@[x].0@ != self.resolved_peers@[y].0@ by {
                        if x == i as int {
                            assert(before[x].0@ != before[y].0@);
                        } else if y == i as int {
                            assert(before[x].0@ != before[y].0@);
                        }
                    }
                }
            },
            None => {
                proof {
                    lemma_lookup_push(before, key, peer);
                }
                self.resolved_peers.push((key, peer));
            },
        }
    }

    /// Where an alias stands in the peer table, if it is there.
    fn alias_position(&self, alias: &str) -> (r: Option<usize>)
        ensures
            match r {
                Some(i) => i < self.resolved_peers@.len() && self.resolved_peers@[i as int].0@ == alias@
                    && forall|k: int| 0 <= k < i ==> (#[trigger] self.resolved_peers@[k]).0@ != alias@,
                None => forall|k: int| 0 <= k < self.resolved_peers@.len() ==> (#[trigger] self.resolved_peers@[k]).0@ != alias@,
            },
    {
        let mut i: usize = 0;
        while i < self.resolved_peers.len()
            invariant
                i <= self.resolved_peers@.len(),
                forall|k: int| 0 <= k < i ==> (#[trigger] self.resolved_peers@[k]).0@ != alias@,
            decreases self.resolved_peers@.len() - i,
        {
            if str_eq(self.resolved_peers[i].0.as_str(), alias) {
                return Some(i);
            }
            i = i + 1;
        }
        None
    }

    /// The next message id; ids count up from 1.
    fn next_id(&mut self) -> (r: i64)
        requires
            old(self).next_message_id < i64::MAX,
        ensures
            r == old(self).next_message_id + 1,
            final(self).next_message_id == r,
            final(self).resolved_peers == old(self).resolved_peers,
            final(self).sent_messages == old(self).sent_messages,
            final(self).sent_peers == old(self).sent_peers,
            final(self).incoming_messages == old(self).incoming_messages,
            final(self).message_history == old(self).message_history,
            final(self).bot_actions == old(self).bot_actions,
            final(self).deleted_messages == old(self).deleted_messages,
            final(self).authorized_accounts == old(self).authorized_accounts,
    {
        self.next_message_id = self.next_message_id + 1;
        self.next_message_id
    }

    /// A text message from the mock bot to a peer, with the next message id.
    pub fn build_incoming_text_message(&mut self, peer_id: i64, text: &str) -> (r: IncomingMessage)
        requires
            old(self).next_message_id < i64::MAX,
            old(self).wf(),
        ensures
            final(self).wf(),
            r.message_id == old(self).next_message_id + 1,
            final(self).next_message_id == r.message_id,
            r.peer_id == peer_id,
            r.sender is Some && r.sender->0@ == "mock-bot"@,
            r.text is Some && r.text->0@ == text@,
            r.kind == MessageKind::Text,
            r.reply_to_message_id is None,
            final(self).resolved_peers == old(self).resolved_peers,
            final(self).sent_messages == old(self).sent_messages,
            final(self).incoming_messages == old(self).incoming_messages,
            final(self).message_history == old(self).message_history,
            final(self).bot_actions == old(self).bot_actions,
    {
        let message_id = self.next_id();
        IncomingMessage {
            message_id,
            peer_id,
            sender: Some(owned("mock-bot")),
            text: Some(owned(text)),
            kind: MessageKind::Text,
            reply_to_message_id: None,
            timestamp: now_rfc3339(),
        }
    }

    /// Queues a received message for waits and records it, without actions.
    pub fn queue_incoming(&mut self, message: IncomingMessage)
        requires
            old(self).wf(),
        ensures
            final(self).wf(),
            final(self).incoming_messages@.len() == old(self).incoming_messages@.len() + 1,
            final(self).incoming_messages@.drop_last() == old(self).incoming_messages@,
            message_view(final(self).incoming_messages@.last()) == message_view(message),
            final(self).message_history@.len() == old(self).message_history@.len() + 1,
            final(self).message_history@.drop_last() == old(self).message_history@,
            final(self).message_history@.last().message == message,
            final(self).message_history@.last().actions@.len() == 0,
            final(self).resolved_peers == old(self).resolved_peers,
            final(self).next_message_id == old(self).next_message_id,
            final(self).bot_actions == old(self).bot_actions,
            final(self).sent_messages == old(self).sent_messages,
    {
        let copy = message.duplicate();
        self.incoming_messages.push(copy);
        self.message_history.push(MockStoredMessage { message, actions: Vec::new() });
        assert(self.incoming_messages@.drop_last() =~= old(self).incoming_messages@);
        assert(self.message_history@.drop_last() =~= old(self).message_history@);
    }

    /// Queues a text message from the mock bot to a peer.
    pub fn queue_incoming_text(&mut self, peer_id: i64, text: &str)
        requires
            old(self).wf(),
            old(self).next_message_id < i64::MAX,
        ensures
            final(self).wf(),
            final(self).incoming_messages@.len() == old(self).incoming_messages@.len() + 1,
            final(self).incoming_messages@.drop_last() == old(self).incoming_messages@,
            final(self).incoming_messages@.last().peer_id == peer_id,
            final(self).incoming_messages@.last().message_id == old(self).next_message_id + 1,
            final(self).incoming_messages@.last().text is Some,
            final(self).incoming_messages@.last().text->0@ == text@,
            final(self).next_message_id == old(self).next_message_id + 1,
            final(self).resolved_peers == old(self).resolved_peers,
            final(self).bot_actions == old(self).bot_actions,
    {
        let message = self.build_incoming_text_message(peer_id, text);
        self.queue_incoming(message);
    }

    /// Records a received message with its actions (not queued for waits).
    fn record_interactive_message(&mut self, message: IncomingMessage, actions: Vec<InteractiveAction>)
        requires
            old(self).wf(),
        ensures
            final(self).wf(),
            final(self).message_history@ == old(self).message_history@.push(MockStoredMessage { message, actions }),
            final(self).incoming_messages == old(self).incoming_messages,
            final(self).resolved_peers == old(self).resolved_peers,
            final(self).next_message_id == old(self).next_message_id,
            final(self).bot_actions == old(self).bot_actions,
    {
        self.message_history.push(MockStoredMessage { message, actions });
    }

    /// Records a bot message with inline buttons: `(label, payload)` pairs whose
    /// payload is a URL when it starts with `http://` or `https://`, else callback data.
    pub fn queue_incoming_inline_buttons(&mut self, peer_id: i64, text: &str, buttons: &[(&str, &str)])
        requires
            old(self).wf(),
            old(self).next_message_id < i64::MAX,
        ensures
            final(self).wf(),
            final(self).message_history@.len() == old(self).message_history@.len() + 1,
            final(self).message_history@.drop_last() == old(self).message_history@,
            final(self).message_history@.last().message.peer_id == peer_id,
            final(self).message_history@.last().message.message_id == old(self).next_message_id + 1,
            final(self).message_history@.last().actions@.len() == buttons@.len(),
            forall|i: int| 0 <= i < buttons@.len() ==> action_view(#[trigger] final(self).message_history@.last().actions@[i]) == if seq_starts_with(buttons@[i].1@, "http://"@) || seq_starts_with(buttons@[i].1@, "https://"@) {
                crate::telegram::actions::spec_inline_url(old(self).next_message_id + 1, buttons@[i].0@, buttons@[i].1@)
            } else {
                crate::telegram::actions::spec_inline_callback(old(self).next_message_id + 1, buttons@[i].0@, vstd::utf8::encode_utf8(buttons@[i].1@))
            },
            final(self).incoming_messages == old(self).incoming_messages,
            final(self).next_message_id == old(self).next_message_id + 1,
            final(self).resolved_peers == old(self).resolved_peers,
            final(self).bot_actions == old(self).bot_actions,
    {
        let message = self.build_incoming_text_message(peer_id, text);
        let mid = message.message_id;
        let mut actions: Vec<InteractiveAction> = Vec::new();
        let mut i: usize = 0;
        while i < buttons.len()
            invariant
                i <= buttons@.len(),
                mid == old(self).next_message_id + 1,
                actions@.len() == i,
                forall|k: int| 0 <= k < i ==> action_view(#[trigger] actions@[k]) == if seq_starts_with(buttons@[k].1@, "http://"@) || seq_starts_with(buttons@[k].1@, "https://"@) {
                    crate::telegram::actions::spec_inline_url(mid as int, buttons@[k].0@, buttons@[k].1@)
                } else {
                    crate::telegram::actions::spec_inline_callback(mid as int, buttons@[k].0@, vstd::utf8::encode_utf8(buttons@[k].1@))
                },
            decreases buttons@.len() - i,
        {
            let (label, payload) = buttons[i];
            let a = if str_starts_with(payload, "http://") || str_starts_with(payload, "https://") {
                inline_url_action(mid, label, payload)
            } else {
                inline_callback_action(mid, label, payload.as_bytes())
            };
            actions.push(a);
            i = i + 1;
        }
        self.record_interactive_message(message, actions);
        assert(self.message_history@.drop_last() =~= old(self).message_history@);
    }

    /// Records a bot message with a reply keyboard of text buttons.
    pub fn queue_incoming_reply_keyboard(&mut self, peer_id: i64, text: &str, buttons: &[&str])
        requires
            old(self).wf(),
            old(self).next_message_id < i64::MAX,
        ensures
            final(self).wf(),
            final(self).message_history@.len() == old(self).message_history@.len() + 1,
            final(self).message_history@.drop_last() == old(self).message_history@,
            final(self).message_history@.last().message.peer_id == peer_id,
            final(self).message_history@.last().message.message_id == old(self).next_message_id + 1,
            final(self).message_history@.last().actions@.len() == buttons@.len(),
            forall|i: int| 0 <= i < buttons@.len() ==> action_view(#[trigger] final(self).message_history@.last().actions@[i])
                == crate::telegram::actions::spec_reply_text(old(self).next_message_id + 1, buttons@[i]@),
            final(self).incoming_messages == old(self).incoming_messages,
            final(self).next_message_id == old(self).next_message_id + 1,
            final(self).resolved_peers == old(self).resolved_peers,
            final(self).bot_actions == old(self).bot_actions,
    {
        let message = self.build_incoming_text_message(peer_id, text);
        let mid = message.message_id;
        let mut actions: Vec<InteractiveAction> = Vec::new();
        let mut i: usize = 0;
        while i < buttons.len()
            invariant
                i <= buttons@.len(),
                mid == old(self).next_message_id + 1,
                actions@.len() == i,
                forall|k: int| 0 <= k < i ==> action_view(#[trigger] actions@[k])
                    == crate::telegram::actions::spec_reply_text(mid as int, buttons@[k]@),
            decreases buttons@.len() - i,
        {
            actions.push(reply_keyboard_text_action(mid, buttons[i]));
            i = i + 1;
        }
        self.record_interactive_message(message, actions);
        assert(self.message_history@.drop_last() =~= old(self).message_history@);
    }

    /// Registers bot commands `(command, description)` for a peer.
    pub fn register_bot_commands(&mut self, peer_id: i64, bot_username: &str, commands: &[(&str, &str)])
        requires
            old(self).wf(),
        ensures
            final(self).wf(),
            final(self).bot_actions@.len() == old(self).bot_actions@.len() + commands@.len(),
            final(self).bot_actions@.subrange(0, old(self).bot_actions@.len() as int) == old(self).bot_actions@,
            forall|i: int| 0 <= i < commands@.len() ==> (#[trigger] final(self).bot_actions@[old(self).bot_actions@.len() + i]).0 == peer_id
                && action_view(final(self).bot_actions@[old(self).bot_actions@.len() + i].1)
                == spec_bot_command(bot_username@, commands@[i].0@, commands@[i].1@, true, None),
            final(self).incoming_messages == old(self).incoming_messages,
            final(self).message_history == old(self).message_history,
            final(self).resolved_peers == old(self).resolved_peers,
            final(self).next_message_id == old(self).next_message_id,
    {
        let ghost start = self.bot_actions@;
        let mut i: usize = 0;
        while i < commands.len()
            invariant
                i <= commands@.len(),
                self.bot_actions@.len() == start.len() + i,
                self.bot_actions@.subrange(0, start.len() as int) == start,
                forall|k: int| 0 <= k < i ==> (#[trigger] self.bot_actions@[start.len() + k]).0 == peer_id
                    && action_view(self.bot_actions@[start.len() + k].1)
                    == spec_bot_command(bot_username@, commands@[k].0@, commands@[k].1@, true, None),
                self.resolved_peers == old(self).resolved_peers,
                self.incoming_messages == old(self).incoming_messages,
                self.message_history == old(self).message_history,
                self.next_message_id == old(self).next_message_id,
                self.wf() == old(self).wf(),
                old(self).wf(),
            decreases commands@.len() - i,
        {
            let (command, description) = commands[i];
            let a = bot_command_action(bot_username, command, description, true, None);
            self.bot_actions.push((peer_id, a));
            i = i + 1;
            assert(self.bot_actions@.subrange(0, start.len() as int) =~= start);
        }
    }

    /// Registers a bot menu button opening a URL for a peer.
    pub fn register_bot_menu_url(&mut self, peer_id: i64, bot_username: &str, label: &str, url: &str)
        requires
            old(self).wf(),
        ensures
            final(self).wf(),
            final(self).bot_actions@.len() == old(self).bot_actions@.len() + 1,
            final(self).bot_actions@.drop_last() == old(self).bot_actions@,
            final(self).bot_actions@.last().0 == peer_id,
            action_view(final(self).bot_actions@.last().1) == spec_bot_menu_url(bot_username@, label@, url@),
            final(self).incoming_messages == old(self).incoming_messages,
            final(self).message_history == old(self).message_history,
            final(self).resolved_peers == old(self).resolved_peers,
            final(self).next_message_id == old(self).next_message_id,
    {
        self.bot_actions.push((peer_id, bot_menu_url_action(bot_username, label, url)));
        assert(self.bot_actions@.drop_last() =~= old(self).bot_actions@);
    }

    /// The messages sent so far, oldest first.
    pub fn sent_messages(&self) -> (r: &Vec<SentMessage>)
        ensures
            *r == self.sent_messages,
    {
        &self.sent_messages
    }

    /// The peers messages were sent to, oldest first.
    pub fn sent_peers(&self) -> (r: &Vec<ResolvedPeer>)
        ensures
            *r == self.sent_peers,
    {
        &self.sent_peers
    }

    /// The `(peer, message)` pairs deleted so far, oldest first.
    pub fn deleted_messages(&self) -> (r: &Vec<(i64, i64)>)
        ensures
            *r == self.deleted_messages,
    {
        &self.deleted_messages
    }

    /// Marks an account as logged in (once).
    pub fn login(&mut self, account_name: &str)
        ensures
            views(final(self).authorized_accounts@) == if views(old(self).authorized_accounts@).contains(account_name@) {
                views(old(self).authorized_accounts@)
            } else {
                views(old(self).authorized_accounts@).push(account_name@)
            },
            final(self).resolved_peers == old(self).resolved_peers,
            final(self).incoming_messages == old(self).incoming_messages,
            final(self).message_history == old(self).message_history,
            final(self).next_message_id == old(self).next_message_id,
    {
        let ghost before = views(self.authorized_accounts@);
        let mut i: usize = 0;
        while i < self.authorized_accounts.len()
            invariant
                i <= self.authorized_accounts@.len(),
                self.authorized_accounts == old(self).authorized_accounts,
                before == views(old(self).authorized_accounts@),
                forall|k: int| 0 <= k < i ==> before[k] != account_name@,
                self.resolved_peers == old(self).resolved_peers,
                self.incoming_messages == old(self).incoming_messages,
                self.message_history == old(self).message_history,
                self.next_message_id == old(self).next_message_id,
            decreases self.authorized_accounts@.len() - i,
        {
            if str_eq(self.authorized_accounts[i].as_str(), account_name) {
                assert(before[i as int] == account_name@);
                assert(before.contains(account_name@));
                return;
            }
            i = i + 1;
        }
        assert(!before.contains(account_name@));
        let name = owned(account_name);
        proof {
            crate::text::lemma_views_push(self.authorized_accounts@, name);
        }
        self.authorized_accounts.push(name);
    }

    /// Marks an account as logged out.
    pub fn logout(&mut self, account_name: &str)
        ensures
            forall|k: int| 0 <= k < final(self).authorized_accounts@.len() ==> (#[trigger] final(self).authorized_accounts@[k])@ != account_name@,
            final(self).resolved_peers == old(self).resolved_peers,
            final(self).incoming_messages == old(self).incoming_messages,
            final(self).message_history == old(self).message_history,
            final(self).next_message_id == old(self).next_message_id,
    {
        let mut kept: Vec<String> = Vec::new();
        let mut i: usize = 0;
        while i < self.authorized_accounts.len()
            invariant
                i <= self.authorized_accounts@.len(),
                forall|k: int| 0 <= k < kept@.len() ==> (#[trigger] kept@[k])@ != account_name@,
            decreases self.authorized_accounts@.len() - i,
        {
            if !str_eq(self.authorized_accounts[i].as_str(), account_name) {
                kept.push(owned(self.authorized_accounts[i].as_str()));
            }
            i = i + 1;
        }
        self.authorized_accounts = kept;
    }

    /// The peer a query resolves to: its alias, or its alias without leading `@`.
    pub fn resolve_peer(&self, query: &str) -> (r: Result<ResolvedPeer>)
        ensures
            match peer_lookup(self.resolved_peers@, query@) {
                Some(p) => r is Ok && peer_view(r->Ok_0) == peer_view(p),
                None => match peer_lookup(self.resolved_peers@, strip_leading(query@, '@')) {
                    Some(p) => r is Ok && peer_view(r->Ok_0) == peer_view(p),
                    None => r is Err && is_message_error(r->Err_0, "peer "@ + query@ + " was not found"@),
                },
            },
    {
        match self.lookup(query) {
            Some(p) => Ok(p),
            None => {
                let bare = strip_leading_string(query, '@');
                match self.lookup(bare.as_str()) {
                    Some(p) => Ok(p),
                    None => Err(TelegramCliError::Message(concat3("peer ", query, " was not found"))),
                }
            },
        }
    }

    /// A copy of the peer registered under an alias.
    fn lookup(&self, alias: &str) -> (r: Option<ResolvedPeer>)
        ensures
            match peer_lookup(self.resolved_peers@, alias@) {
                Some(p) => r is Some && peer_view(r->0) == peer_view(p),
                None => r is None,
            },
    {
        let ghost all = self.resolved_peers@;
        let mut i: usize = 0;
        assert(all.subrange(0, all.len() as int) =~= all);
        while i < self.resolved_peers.len()
            invariant
                all == self.resolved_peers@,
                i <= all.len(),
                peer_lookup(all, alias@) == peer_lookup(all.subrange(i as int, all.len() as int), alias@),
            decreases all.len() - i,
        {
            let ghost rest = all.subrange(i as int, all.len() as int);
            assert(rest[0] == all[i as int]);
            assert(rest.subrange(1, rest.len() as int) =~= all.subrange(i + 1, all.len() as int));
            if str_eq(self.resolved_peers[i].0.as_str(), alias) {
                return Some(self.resolved_peers[i].1.duplicate());
            }
            i = i + 1;
        }
        None
    }

    /// A copy of some registered peer with the given id, if any.
    fn peer_by_id(&self, peer_id: i64) -> (r: Option<ResolvedPeer>)
        ensures
            match r {
                Some(p) => exists|k: int| 0 <= k < self.resolved_peers@.len() && (#[trigger] self.resolved_peers@[k]).1.peer_id == peer_id
                    && peer_view(p) == peer_view(self.resolved_peers@[k].1),
                None => forall|k: int| 0 <= k < self.resolved_peers@.len() ==> (#[trigger] self.resolved_peers@[k]).1.peer_id != peer_id,
            },
    {
        let mut i: usize = 0;
        while i < self.resolved_peers.len()
            invariant
                i <= self.resolved_peers@.len(),
                forall|k: int| 0 <= k < i ==> (#[trigger] self.resolved_peers@[k]).1.peer_id != peer_id,
            decreases self.resolved_peers@.len() - i,
        {
            if self.resolved_peers[i].1.peer_id == peer_id {
                return Some(self.resolved_peers[i].1.duplicate());
            }
            i = i + 1;
        }
        None
    }

    /// Records a sent message (and its peer, when registered) with the next id.
    fn record_sent(
        &mut self,
        account_name: &str,
        peer_id: i64,
        text: Option<String>,
        file_path: Option<String>,
        caption: Option<String>,
    ) -> (r: SentMessage)
        requires
            old(self).wf(),
            old(self).next_message_id < i64::MAX,
        ensures
            final(self).wf(),
            r.message_id == old(self).next_message_id + 1,
            final(self).next_message_id == r.message_id,
            r.account_name@ == account_name@,
            r.peer_id == peer_id,
            opt_chars(r.text) == opt_chars(text),
            opt_chars(r.file_path) == opt_chars(file_path),
            opt_chars(r.caption) == opt_chars(caption),
            final(self).sent_messages@.len() == old(self).sent_messages@.len() + 1,
            final(self).sent_messages@.drop_last() == old(self).sent_messages@,
            sent_view(final(self).sent_messages@.last()) == sent_view(r),
            (exists|k: int| 0 <= k < old(self).resolved_peers@.len() && (#[trigger] old(self).resolved_peers@[k]).1.peer_id == peer_id)
                ==> final(self).sent_peers@.len() == old(self).sent_peers@.len() + 1
                && final(self).sent_peers@.drop_last() == old(self).sent_peers@
                && final(self).sent_peers@.last().peer_id == peer_id,
            !(exists|k: int| 0 <= k < old(self).resolved_peers@.len() && (#[trigger] old(self).resolved_peers@[k]).1.peer_id == peer_id)
                ==> final(self).sent_peers == old(self).sent_peers,
            final(self).resolved_peers == old(self).resolved_peers,
            final(self).incoming_messages == old(self).incoming_messages,
            final(self).message_history == old(self).message_history,
            final(self).bot_actions == old(self).bot_actions,
    {
        let message_id = self.next_id();
        match self.peer_by_id(peer_id) {
            Some(p) => {
                self.sent_peers.push(p);
                assert(self.sent_peers@.drop_last() =~= old(self).sent_peers@);
            },
            None => {},
        }
        let message = SentMessage {
            message_id,
            account_name: owned(account_name),
            peer_id,
            text,
            file_path,
            caption,
            timestamp: now_rfc3339(),
        };
        let copy = SentMessage {
            message_id,
            account_name: owned(message.account_name.as_str()),
            peer_id,
            text: copy_opt(&message.text),
            file_path: copy_opt(&message.file_path),
            caption: copy_opt(&message.caption),
            timestamp: owned(message.timestamp.as_str()),
        };
        self.sent_messages.push(message);
        assert(self.sent_messages@.drop_last() =~= old(self).sent_messages@);
        copy
    }

    /// Sends a text message: it is recorded with the next message id.
    pub fn send_text(&mut self, account_name: &str, peer_id: i64, text: &str) -> (r: SentMessage)
        requires
            old(self).wf(),
            old(self).next_message_id < i64::MAX,
        ensures
            final(self).wf(),
            r.message_id == old(self).next_message_id + 1,
            r.account_name@ == account_name@,
            r.peer_id == peer_id,
            r.text is Some && r.text->0@ == text@,
            r.file_path is None && r.caption is None,
            final(self).sent_messages@.len() == old(self).sent_messages@.len() + 1,
            final(self).sent_messages@.drop_last() == old(self).sent_messages@,
            sent_view(final(self).sent_messages@.last()) == sent_view(r),
            final(self).incoming_messages == old(self).incoming_messages,
            final(self).message_history == old(self).message_history,
            final(self).resolved_peers == old(self).resolved_peers,
            final(self).bot_actions == old(self).bot_actions,
            final(self).next_message_id == old(self).next_message_id + 1,
    {
        self.record_sent(account_name, peer_id, Some(owned(text)), None, None)
    }

    /// Sends a file: it is recorded with its path and caption.
    pub fn send_file(&mut self, account_name: &str, peer_id: i64, path: &str, caption: Option<&str>) -> (r: SentMessage)
        requires
            old(self).wf(),
            old(self).next_message_id < i64::MAX,
        ensures
            final(self).wf(),
            r.message_id == old(self).next_message_id + 1,
            r.account_name@ == account_name@,
            r.peer_id == peer_id,
            r.text is None,
            r.file_path is Some && r.file_path->0@ == path@,
            match caption {
                Some(c) => r.caption is Some && r.caption->0@ == c@,
                None => r.caption is None,
            },
            final(self).sent_messages@.len() == old(self).sent_messages@.len() + 1,
            final(self).sent_messages@.drop_last() == old(self).sent_messages@,
            sent_view(final(self).sent_messages@.last()) == sent_view(r),
            final(self).incoming_messages == old(self).incoming_messages,
            final(self).resolved_peers == old(self).resolved_peers,
            final(self).next_message_id == old(self).next_message_id + 1,
    {
        let c = match caption {
            Some(c) => Some(owned(c)),
            None => None,
        };
        self.record_sent(account_name, peer_id, None, Some(owned(path)), c)
    }

    /// Sends a photo: it is recorded with its path, and its caption as text too.
    pub fn send_photo(&mut self, account_name: &str, peer_id: i64, path: &str, caption: Option<&str>) -> (r: SentMessage)
        requires
            old(self).wf(),
            old(self).next_message_id < i64::MAX,
        ensures
            final(self).wf(),
            r.message_id == old(self).next_message_id + 1,
            r.account_name@ == account_name@,
            r.peer_id == peer_id,
            r.file_path is Some && r.file_path->0@ == path@,
            match caption {
                Some(c) => r.caption is Some && r.caption->0@ == c@ && r.text is Some && r.text->0@ == c@,
                None => r.caption is None && r.text is None,
            },
            final(self).sent_messages@.len() == old(self).sent_messages@.len() + 1,
            final(self).sent_messages@.drop_last() == old(self).sent_messages@,
            sent_view(final(self).sent_messages@.last()) == sent_view(r),
            final(self).incoming_messages == old(self).incoming_messages,
            final(self).resolved_peers == old(self).resolved_peers,
            final(self).next_message_id == old(self).next_message_id + 1,
    {
        let (t, c) = match caption {
            Some(c) => (Some(owned(c)), Some(owned(c))),
            None => (None, None),
        };
        self.record_sent(account_name, peer_id, t, Some(owned(path)), c)
    }

    /// The pending messages of a peer, newest first, at most `limit`.
    pub fn recent_messages(&self, peer_id: i64, limit: usize) -> (r: Vec<IncomingMessage>)
        ensures
            r@.len() == recent_of(self.incoming_messages@, peer_id, limit as nat).len(),
            forall|i: int| 0 <= i < r@.len() ==> message_view(#[trigger] r@[i]) == message_view(recent_of(self.incoming_messages@, peer_id, limit as nat)[i]),
    {
        let ghost all = self.incoming_messages@;
        let mut out: Vec<IncomingMessage> = Vec::new();
        let mut i: usize = self.incoming_messages.len();
        let mut left: usize = limit;
        assert(all.subrange(0, all.len() as int) =~= all);
        while i > 0 && left > 0
            invariant
                all == self.incoming_messages@,
                i <= all.len(),
                left <= limit,
                out@.len() + recent_of(all.subrange(0, i as int), peer_id, left as nat).len() == recent_of(all, peer_id, limit as nat).len(),
                forall|k: int| 0 <= k < out@.len() ==> message_view(#[trigger] out@[k]) == message_view(recent_of(all, peer_id, limit as nat)[k]),
                forall|k: int| 0 <= k < recent_of(all.subrange(0, i as int), peer_id, left as nat).len() ==>
                    recent_of(all, peer_id, limit as nat)[out@.len() + k] == #[trigger] recent_of(all.subrange(0, i as int), peer_id, left as nat)[k],
            decreases i,
        {
            let ghost pre = all.subrange(0, i as int);
            assert(pre.drop_last() =~= all.subrange(0, i - 1));
            assert(pre.last() == all[i - 1]);
            if self.incoming_messages[i - 1].peer_id == peer_id {
                let m = self.incoming_messages[i - 1].duplicate();
                proof {
                    assert(recent_of(pre, peer_id, left as nat)[0] == all[i - 1]);
                }
                out.push(m);
                left = left - 1;
                proof {
                    assert forall|k: int| 0 <= k < recent_of(all.subrange(0, i - 1), peer_id, left as nat).len() implies
                        recent_of(all, peer_id, limit as nat)[out@.len() + k] == #[trigger] recent_of(all.subrange(0, i - 1), peer_id, left as nat)[k] by {
                        assert(recent_of(pre, peer_id, (left + 1) as nat)[k + 1] == recent_of(all.subrange(0, i - 1), peer_id, left as nat)[k]);
                    }
                }
            }
            i = i - 1;
        }
        proof {
            assert(recent_of(all.subrange(0, i as int), peer_id, left as nat).len() == 0);
        }
        out
    }

    /// Takes the oldest pending message of a peer that meets the filter, if any.
    pub fn take_matching_message(&mut self, peer_id: i64, filter: &MessageFilter) -> (r: Option<IncomingMessage>)
        requires
            old(self).wf(),
        ensures
            final(self).wf(),
            match r {
                Some(m) => exists|k: int| 0 <= k < old(self).incoming_messages@.len()
                    && wanted(#[trigger] old(self).incoming_messages@[k], peer_id, *filter)
                    && (forall|j: int| 0 <= j < k ==> !wanted(#[trigger] old(self).incoming_messages@[j], peer_id, *filter))
                    && m == old(self).incoming_messages@[k]
                    && final(self).incoming_messages@ == old(self).incoming_messages@.remove(k),
                None => (forall|k: int| 0 <= k < old(self).incoming_messages@.len()
                    ==> !wanted(#[trigger] old(self).incoming_messages@[k], peer_id, *filter))
                    && final(self).incoming_messages == old(self).incoming_messages,
            },
            final(self).resolved_peers == old(self).resolved_peers,
            final(self).message_history == old(self).message_history,
            final(self).sent_messages == old(self).sent_messages,
            final(self).next_message_id == old(self).next_message_id,
            final(self).bot_actions == old(self).bot_actions,
    {
        match self.first_wanted(peer_id, filter) {
            Some(i) => {
                let m = self.incoming_messages.remove(i);
                proof {
                    assert(wanted(old(self).incoming_messages@[i as int], peer_id, *filter));
                }
                Some(m)
            },
            None => None,
        }
    }

    /// The position of the oldest pending message a wait would take.
    fn first_wanted(&self, peer_id: i64, filter: &MessageFilter) -> (r: Option<usize>)
        ensures
            match r {
                Some(i) => i < self.incoming_messages@.len() && wanted(self.incoming_messages@[i as int], peer_id, *filter)
                    && forall|j: int| 0 <= j < i ==> !wanted(#[trigger] self.incoming_messages@[j], peer_id, *filter),
                None => forall|k: int| 0 <= k < self.incoming_messages@.len() ==> !wanted(#[trigger] self.incoming_messages@[k], peer_id, *filter),
            },
    {
        let mut i: usize = 0;
        while i < self.incoming_messages.len()
            invariant
                i <= self.incoming_messages@.len(),
                forall|j: int| 0 <= j < i ==> !wanted(#[trigger] self.incoming_messages@[j], peer_id, *filter),
            decreases self.incoming_messages@.len() - i,
        {
            if self.incoming_messages[i].peer_id == peer_id && filter.matches(&self.incoming_messages[i]) {
                return Some(i);
            }
            i = i + 1;
        }
        None
    }

    /// Waits for a pending message of a peer that meets the filter: the oldest
    /// such message, or a timeout error when none is pending.
    pub fn wait_for_message(&mut self, peer_id: i64, filter: &MessageFilter, timeout: WaitDuration) -> (r: Result<IncomingMessage>)
        requires
            old(self).wf(),
            timeout.secs + timeout.nanos / 1_000_000_000 <= u64::MAX,
        ensures
            final(self).wf(),
            match r {
                Ok(m) => exists|k: int| 0 <= k < old(self).incoming_messages@.len()
                    && wanted(#[trigger] old(self).incoming_messages@[k], peer_id, *filter)
                    && (forall|j: int| 0 <= j < k ==> !wanted(#[trigger] old(self).incoming_messages@[j], peer_id, *filter))
                    && m == old(self).incoming_messages@[k]
                    && final(self).incoming_messages@ == old(self).incoming_messages@.remove(k),
                Err(e) => (forall|k: int| 0 <= k < old(self).incoming_messages@.len()
                    ==> !wanted(#[trigger] old(self).incoming_messages@[k], peer_id, *filter))
                    && final(self).incoming_messages == old(self).incoming_messages
                    && is_message_error(e, "timed out waiting for message after "@ + spec_duration_debug(timeout.secs, timeout.nanos)),
            },
            final(self).resolved_peers == old(self).resolved_peers,
            final(self).message_history == old(self).message_history,
            final(self).sent_messages == old(self).sent_messages,
            final(self).next_message_id == old(self).next_message_id,
            final(self).bot_actions == old(self).bot_actions,
    {
        match self.take_matching_message(peer_id, filter) {
            Some(m) => Ok(m),
            None => {
                let d = duration_debug(timeout);
                Err(TelegramCliError::Message(crate::text::concat2("timed out waiting for message after ", d.as_str())))
            },
        }
    }

    /// The oldest pending message of a peer, taken off the queue, if any.
    fn take_response(&mut self, peer_id: i64) -> (r: Option<IncomingMessage>)
        requires
            old(self).wf(),
        ensures
            final(self).wf(),
            match r {
                Some(m) => exists|k: int| 0 <= k < old(self).incoming_messages@.len()
                    && (#[trigger] old(self).incoming_messages@[k]).peer_id == peer_id
                    && (forall|j: int| 0 <= j < k ==> (#[trigger] old(self).incoming_messages@[j]).peer_id != peer_id)
                    && m == old(self).incoming_messages@[k]
                    && final(self).incoming_messages@ == old(self).incoming_messages@.remove(k),
                None => (forall|k: int| 0 <= k < old(self).incoming_messages@.len()
                    ==> (#[trigger] old(self).incoming_messages@[k]).peer_id != peer_id)
                    && final(self).incoming_messages == old(self).incoming_messages,
            },
            final(self).resolved_peers == old(self).resolved_peers,
            final(self).message_history == old(self).message_history,
            final(self).sent_messages == old(self).sent_messages,
            final(self).next_message_id == old(self).next_message_id,
            final(self).bot_actions == old(self).bot_actions,
    {
        let filter = MessageFilter::any();
        proof {
            assert forall|m: IncomingMessage| wanted(m, peer_id, filter) == (m.peer_id == peer_id) by {
                law_empty_filter_matches_all(filter, m);
            }
        }
        self.take_matching_message(peer_id, &filter)
    }

    /// Clicking a button in the mock takes the oldest pending message of the
    /// peer as the bot's answer, if there is one.
    pub fn click_button(&mut self, peer_id: i64) -> (r: Option<IncomingMessage>)
        requires
            old(self).wf(),
        ensures
            final(self).wf(),
            match r {
                Some(m) => exists|k: int| 0 <= k < old(self).incoming_messages@.len()
                    && (#[trigger] old(self).incoming_messages@[k]).peer_id == peer_id
                    && (forall|j: int| 0 <= j < k ==> (#[trigger] old(self).incoming_messages@[j]).peer_id != peer_id)
                    && m == old(self).incoming_messages@[k]
                    && final(self).incoming_messages@ == old(self).incoming_messages@.remove(k),
                None => (forall|k: int| 0 <= k < old(self).incoming_messages@.len()
                    ==> (#[trigger] old(self).incoming_messages@[k]).peer_id != peer_id)
                    && final(self).incoming_messages == old(self).incoming_messages,
            },
            final(self).sent_messages == old(self).sent_messages,
            final(self).next_message_id == old(self).next_message_id,
    {
        self.take_response(peer_id)
    }

    /// Triggers the one action of a chat that answers to a query, among those
    /// of the given message (or the 50 newest messages) and the bot's menu:
    /// a callback takes the bot's pending answer, a keyboard text or command is
    /// sent and then takes it, a URL is handed back.
    pub fn trigger_action(&mut self, account_name: &str, peer_id: i64, action: &str, message_id: Option<i64>) -> (r: Result<ActionInvocationResult>)
        requires
            old(self).wf(),
            old(self).next_message_id < i64::MAX,
        ensures
            final(self).wf(),
            ({
                let av = history_actions(old(self).message_history@, peer_id, message_id, 50)
                    + bot_actions_of(old(self).bot_actions@, peer_id);
                let q = trim(action@);
                let m = matching_positions(av, q);
                &&& m.len() == 0 ==> r is Err && is_message_error(r->Err_0, action_not_found_message(q))
                &&& m.len() > 1 ==> r is Err && is_message_error(r->Err_0, action_ambiguous_message(q))
                &&& m.len() == 1 ==> match spec_trigger_step(av[m[0]]) {
                    Err(e) => r is Err && is_message_error(r->Err_0, e),
                    Ok(step) => r is Ok
                        && r->Ok_0.action_id@ == av[m[0]].action_id
                        && r->Ok_0.action_kind == av[m[0]].action_kind
                        && r->Ok_0.label@ == av[m[0]].label
                        && r->Ok_0.effect@ == spec_effect(step)
                        && opt_chars(r->Ok_0.sent_text) == (match step { StepView::SendText(t) => Some(t), _ => None::<Seq<char>> })
                        && opt_chars(r->Ok_0.url) == (match step { StepView::OpenUrl => av[m[0]].url, _ => None::<Seq<char>> })
                        && r->Ok_0.response_received == r->Ok_0.response is Some
                        && (step is OpenUrl ==> r->Ok_0.response is None && final(self).incoming_messages == old(self).incoming_messages)
                        && (step !is OpenUrl ==> match r->Ok_0.response {
                            Some(m) => exists|k: int| 0 <= k < old(self).incoming_messages@.len()
                                && (#[trigger] old(self).incoming_messages@[k]).peer_id == peer_id
                                && (forall|j: int| 0 <= j < k ==> (#[trigger] old(self).incoming_messages@[j]).peer_id != peer_id)
                                && m == old(self).incoming_messages@[k]
                                && final(self).incoming_messages@ == old(self).incoming_messages@.remove(k),
                            None => (forall|k: int| 0 <= k < old(self).incoming_messages@.len()
                                ==> (#[trigger] old(self).incoming_messages@[k]).peer_id != peer_id)
                                && final(self).incoming_messages == old(self).incoming_messages,
                        })
                        && (step is SendText ==> final(self).sent_messages@.len() == old(self).sent_messages@.len() + 1
                            && final(self).sent_messages@.drop_last() == old(self).sent_messages@
                            && final(self).sent_messages@.last().message_id == old(self).next_message_id + 1
                            && final(self).sent_messages@.last().account_name@ == account_name@
                            && final(self).sent_messages@.last().peer_id == peer_id
                            && opt_chars(final(self).sent_messages@.last().text) == Some(step->SendText_0)
                            && final(self).sent_messages@.last().file_path is None
                            && final(self).sent_messages@.last().caption is None
                            && final(self).next_message_id == old(self).next_message_id + 1)
                        && (step !is SendText ==> final(self).sent_messages == old(self).sent_messages
                            && final(self).next_message_id == old(self).next_message_id),
                }
            }),
            r is Err ==> final(self).incoming_messages == old(self).incoming_messages
                && final(self).sent_messages == old(self).sent_messages,
            final(self).resolved_peers == old(self).resolved_peers,
            final(self).message_history == old(self).message_history,
            final(self).bot_actions == old(self).bot_actions,
    {
        let actions = self.list_actions(peer_id, message_id, 50);
        let ghost av = history_actions(self.message_history@, peer_id, message_id, 50)
            + bot_actions_of(self.bot_actions@, peer_id);
        assert(actions_view(actions@) =~= av);
        let (i, step) = match plan_trigger(actions.as_slice(), action) {
            Ok(p) => p,
            Err(e) => {
                return Err(e);
            },
        };
        let chosen = &actions[i];
        let response = match &step {
            TriggerStep::Callback => self.take_response(peer_id),
            TriggerStep::SendText(text) => {
                self.send_text(account_name, peer_id, text.as_str());
                self.take_response(peer_id)
            },
            TriggerStep::OpenUrl => None,
        };
        proof {
            crate::telegram::actions::lemma_matching_positions_in_range(av, trim(action@));
            if response is Some {
                let k = choose|k: int| 0 <= k < old(self).incoming_messages@.len()
                    && (#[trigger] old(self).incoming_messages@[k]).peer_id == peer_id
                    && response->0 == old(self).incoming_messages@[k];
                assert(response->0.peer_id == peer_id);
            }
        }
        let ghost q = trim(action@);
        let ghost mm = matching_positions(av, q);
        assert(mm.len() == 1);
        assert(mm[0] == i as int);
        assert(av[mm[0]] == action_view(*chosen));
        assert(spec_trigger_step(av[mm[0]]) == Ok::<StepView, Seq<char>>(step_view(step)));
        let res = invocation_result(chosen, &step, response);
        Ok(res)
    }

    /// Records a deletion.
    pub fn delete_message(&mut self, peer_id: i64, message_id: i64)
        ensures
            final(self).deleted_messages@ == old(self).deleted_messages@.push((peer_id, message_id)),
            final(self).resolved_peers == old(self).resolved_peers,
            final(self).incoming_messages == old(self).incoming_messages,
            final(self).message_history == old(self).message_history,
            final(self).next_message_id == old(self).next_message_id,
    {
        self.deleted_messages.push((peer_id, message_id));
    }

    /// Forwarding in the mock hands the ids back as they are.
    pub fn forward_messages(&self, message_ids: &[i32]) -> (r: Vec<i64>)
        ensures
            r@.len() == message_ids@.len(),
            forall|i: int| 0 <= i < r@.len() ==> r@[i] == message_ids@[i] as i64,
    {
        let mut out: Vec<i64> = Vec::new();
        let mut i: usize = 0;
        while i < message_ids.len()
            invariant
                i <= message_ids@.len(),
                out@.len() == i,
                forall|k: int| 0 <= k < i ==> out@[k] == message_ids@[k] as i64,
            decreases message_ids@.len() - i,
        {
            out.push(message_ids[i] as i64);
            i = i + 1;
        }
        out
    }

    /// The actions available in a chat: those of the given message, or of the
    /// `search_limit` newest messages (newest first), then the bot's commands and menu.
    pub fn list_actions(&self, peer_id: i64, message_id: Option<i64>, search_limit: usize) -> (r: Vec<InteractiveAction>)
        ensures
            views_of(r@) == history_actions(self.message_history@, peer_id, message_id, search_limit as nat)
                + bot_actions_of(self.bot_actions@, peer_id),
    {
        let ghost h = self.message_history@;
        let mut out: Vec<InteractiveAction> = Vec::new();
        let mut i: usize = self.message_history.len();
        let mut left: usize = search_limit;
        let ghost want = history_actions(h, peer_id, message_id, search_limit as nat);
        assert(h.subrange(0, h.len() as int) =~= h);
        assert(views_of(out@) =~= Seq::<ActionView>::empty());
        loop
            invariant
                h == self.message_history@,
                i <= h.len(),
                left <= search_limit,
                want == history_actions(h, peer_id, message_id, search_limit as nat),
                want == views_of(out@) + history_actions(h.subrange(0, i as int), peer_id, message_id, left as nat),
            ensures
                want == views_of(out@),
            decreases i,
        {
            if i == 0 {
                assert(history_actions(h.subrange(0, 0), peer_id, message_id, left as nat) =~= Seq::<ActionView>::empty());
                assert(want =~= views_of(out@));
                break;
            }
            let ghost pre = h.subrange(0, i as int);
            assert(pre.drop_last() =~= h.subrange(0, i - 1));
            assert(pre.last() == h[i - 1]);
            let stored = &self.message_history[i - 1];
            if stored.message.peer_id == peer_id {
                let take_it = match message_id {
                    Some(expected) => stored.message.message_id == expected,
                    None => {
                        if left == 0 {
                            assert(history_actions(pre, peer_id, message_id, left as nat) =~= Seq::<ActionView>::empty());
                            assert(want =~= views_of(out@));
                            break;
                        }
                        left = left - 1;
                        true
                    },
                };
                if take_it {
                    let ghost before = views_of(out@);
                    let mut j: usize = 0;
                    while j < stored.actions.len()
                        invariant
                            j <= stored.actions@.len(),
                            views_of(out@) == before + views_of(stored.actions@.subrange(0, j as int)),
                        decreases stored.actions@.len() - j,
                    {
                        let a = copy_action(&stored.actions[j]);
                        proof {
                            lemma_views_of_push(out@, a);
                            assert(views_of(stored.actions@.subrange(0, j + 1)) =~= views_of(stored.actions@.subrange(0, j as int)).push(action_view(stored.actions@[j as int])));
                        }
                        out.push(a);
                        j = j + 1;
                    }
                    assert(stored.actions@.subrange(0, stored.actions@.len() as int) =~= stored.actions@);
                }
            }
            i = i - 1;
        }
        let ghost b = self.bot_actions@;
        let ghost hist = views_of(out@);
        let mut k: usize = 0;
        assert(bot_actions_of(b.subrange(0, 0), peer_id) =~= Seq::<ActionView>::empty());
        while k < self.bot_actions.len()
            invariant
                b == self.bot_actions@,
                k <= b.len(),
                views_of(out@) == hist + bot_actions_of(b.subrange(0, k as int), peer_id),
            decreases b.len() - k,
        {
            assert(b.subrange(0, k + 1).drop_last() =~= b.subrange(0, k as int));
            assert(b.subrange(0, k + 1).last() == b[k as int]);
            if self.bot_actions[k].0 == peer_id {
                let a = copy_action(&self.bot_actions[k].1);
                proof {
                    lemma_views_of_push(out@, a);
                }
                out.push(a);
            }
            k = k + 1;
        }
        assert(b.subrange(0, b.len() as int) =~= b);
        out
    }
}

/// Replacing the entry at a position where the alias already is.
proof fn lemma_lookup_set(peers: Seq<(String, ResolvedPeer)>, i: int, key: String, p: ResolvedPeer)
    requires
        0 <= i < peers.len(),
        peers[i].0@ == key@,
        forall|k: int| 0 <= k < i ==> peers[k].0@ != key@,
    ensures
        peer_lookup(peers.update(i, (key, p)), key@) == Some(p),
        forall|a: Seq<char>| a != key@ ==> peer_lookup(peers.update(i, (key, p)), a) == peer_lookup(peers, a),
    decreases peers.len(),
{
    let u = peers.update(i, (key, p));
    assert(u.subrange(1, u.len() as int) =~= if i == 0 {
        peers.subrange(1, peers.len() as int)
    } else {
        peers.subrange(1, peers.len() as int).update(i - 1, (key, p))
    });
    if i > 0 {
        lemma_lookup_set(peers.subrange(1, peers.len() as int), i - 1, key, p);
    }
    assert forall|a: Seq<char>| a != key@ implies peer_lookup(u, a) == peer_lookup(peers, a) by {
        let su = u.subrange(1, u.len() as int);
        let sp = peers.subrange(1, peers.len() as int);
        assert(peer_lookup(u, a) == if u[0].0@ == a { Some(u[0].1) } else { peer_lookup(su, a) });
        assert(peer_lookup(peers, a) == if peers[0].0@ == a { Some(peers[0].1) } else { peer_lookup(sp, a) });
        if i > 0 {
            assert(u[0] == peers[0]);
            assert(su =~= sp.update(i - 1, (key, p)));
            assert(peer_lookup(su, a) == peer_lookup(sp, a));
        } else {
            assert(su =~= sp);
        }
    }
}

/// Appending an alias that is not yet present.
proof fn lemma_lookup_push(peers: Seq<(String, ResolvedPeer)>, key: String, p: ResolvedPeer)
    requires
        forall|k: int| 0 <= k < peers.len() ==> peers[k].0@ != key@,
    ensures
        peer_lookup(peers.push((key, p)), key@) == Some(p),
        forall|a: Seq<char>| a != key@ ==> peer_lookup(peers.push((key, p)), a) == peer_lookup(peers, a),
    decreases peers.len(),
{
    let u = peers.push((key, p));
    if peers.len() > 0 {
        assert(u.subrange(1, u.len() as int) =~= peers.subrange(1, peers.len() as int).push((key, p)));
        lemma_lookup_push(peers.subrange(1, peers.len() as int), key, p);
        assert forall|a: Seq<char>| a != key@ implies peer_lookup(u, a) == peer_lookup(peers, a) by {
            assert(u[0] == peers[0]);
            let su = u.subrange(1, u.len() as int);
            let sp = peers.subrange(1, peers.len() as int);
            assert(su == sp.push((key, p)));
            assert(peer_lookup(su, a) == peer_lookup(sp, a));
            assert(peer_lookup(u, a) == if u[0].0@ == a { Some(u[0].1) } else { peer_lookup(su, a) });
        }
    } else {
        assert(u.subrange(1, u.len() as int) =~= Seq::<(String, ResolvedPeer)>::empty());
        assert forall|a: Seq<char>| a != key@ implies peer_lookup(u, a) == peer_lookup(peers, a) by {
            let su = u.subrange(1, u.len() as int);
            assert(u[0].0@ == key@);
            assert(su =~= Seq::<(String, ResolvedPeer)>::empty());
            assert(peer_lookup(u, a) == if u[0].0@ == a { Some(u[0].1) } else { peer_lookup(su, a) });
        }
    }
}

} // verus!
