//! The interactive REPL: how a typed line is read, and what the session prints.
use vstd::prelude::*;
use crate::json::{Json, JsonValue, ObjectBuilder, entries_view, items_view, lemma_items_view_push, u64_decimal, i64_decimal};
use crate::output::contract::{
    GuidanceKind, GuidanceSurface, NextStep, ResultEnvelope, redact, render_result_table,
    steps_view, errors_view, surface_lines, table_text,
};
use crate::output::guidance::{
    repl_actions, repl_examples, repl_next_steps, repl_prerequisites, repl_related_commands, repl_surface,
    repl_when_to_use,
    runtime_steps_to_contract,
};
use crate::telegram::messages::{IncomingMessage, InteractiveAction, spec_action_entries, spec_incoming_json};
use crate::text::{
    concat2, concat3, first_char_is, int_decimal, nat_decimal, owned, parse_i64,
    parse_usize, spec_parse_signed, spec_parse_unsigned, split_once, split_once_str, str_eq,
    trim, trim_string, join_seqs, views,
};

verus! {

/// What one line typed into the REPL asks for.
#[derive(Debug, Clone, PartialEq, Eq)]
pub enum ReplInput {
    /// Blank line: nothing to do.
    Empty,
    /// `/exit` or `/quit`.
    Exit,
    /// `/help`.
    Help,
    /// `/<command>`: the text after the slash.
    Command(String),
    /// Any other text: sent as a message.
    Text(String),
}

/// An interactive `/command`, read from the text after the slash.
#[derive(Debug, Clone, PartialEq, Eq)]
pub enum ReplCommand {
    Send(String),
    Recv(usize),
    Wait(String),
    Actions(Option<i64>),
    Click(String),
    Trigger(String),
    Unread,
    /// A command that needs an argument was given none; the usage to show.
    Usage(String),
    Unknown(String),
}

/// How a typed line is read: trimmed, then matched against the built-in commands.
pub open spec fn spec_classify_input(line: Seq<char>) -> ReplInputView {
    let input = trim(line);
    if input.len() == 0 {
        ReplInputView::Empty
    } else if input == "/exit"@ || input == "/quit"@ {
        ReplInputView::Exit
    } else if input == "/help"@ {
        ReplInputView::Help
    } else if input[0] == '/' {
        ReplInputView::Command(input.subrange(1, input.len() as int))
    } else {
        ReplInputView::Text(input)
    }
}

/// The mathematical form of a typed line's reading.
pub ghost enum ReplInputView {
    Empty,
    Exit,
    Help,
    Command(Seq<char>),
    Text(Seq<char>),
}

/// The mathematical form of a reading.
pub open spec fn input_view(i: ReplInput) -> ReplInputView {
    match i {
        ReplInput::Empty => ReplInputView::Empty,
        ReplInput::Exit => ReplInputView::Exit,
        ReplInput::Help => ReplInputView::Help,
        ReplInput::Command(c) => ReplInputView::Command(c@),
        ReplInput::Text(t) => ReplInputView::Text(t@),
    }
}

/// Reads one typed line.
pub fn classify_repl_input(line: &str) -> (r: ReplInput)
    ensures
        input_view(r) == spec_classify_input(line@),
{
    let input = trim_string(line);
    let chars = crate::text::chars_of(input.as_str());
    if chars.len() == 0 {
        ReplInput::Empty
    } else if str_eq(input.as_str(), "/exit") || str_eq(input.as_str(), "/quit") {
        ReplInput::Exit
    } else if str_eq(input.as_str(), "/help") {
        ReplInput::Help
    } else if chars[0] == '/' {
        ReplInput::Command(crate::text::string_of_range(chars.as_slice(), 1, chars.len()))
    } else {
        ReplInput::Text(input)
    }
}

/// The mathematical form of a command reading.
pub ghost enum ReplCommandView {
    Send(Seq<char>),
    Recv(nat),
    Wait(Seq<char>),
    Actions(Option<int>),
    Click(Seq<char>),
    Trigger(Seq<char>),
    Unread,
    Usage(Seq<char>),
    Unknown(Seq<char>),
}

/// The mathematical form of a command reading.
pub open spec fn command_view(c: ReplCommand) -> ReplCommandView {
    match c {
        ReplCommand::Send(t) => ReplCommandView::Send(t@),
        ReplCommand::Recv(n) => ReplCommandView::Recv(n as nat),
        ReplCommand::Wait(t) => ReplCommandView::Wait(t@),
        ReplCommand::Actions(m) => ReplCommandView::Actions(
            match m {
                Some(k) => Some(k as int),
                None => None,
            },
        ),
        ReplCommand::Click(t) => ReplCommandView::Click(t@),
        ReplCommand::Trigger(t) => ReplCommandView::Trigger(t@),
        ReplCommand::Unread => ReplCommandView::Unread,
        ReplCommand::Usage(u) => ReplCommandView::Usage(u@),
        ReplCommand::Unknown(c) => ReplCommandView::Unknown(c@),
    }
}

/// How the text after `/` is read: the word before the first space names the
/// command, the rest (if any) is its argument.
pub open spec fn spec_parse_repl_command(cmd: Seq<char>) -> ReplCommandView {
    let (command, rest): (Seq<char>, Option<Seq<char>>) = match split_once(cmd, ' ') {
        Some((a, b)) => (a, Some(b)),
        None => (cmd, None),
    };
    if command == "send"@ {
        match rest {
            Some(t) => ReplCommandView::Send(t),
            None => ReplCommandView::Usage("/send <text>"@),
        }
    } else if command == "recv"@ {
        ReplCommandView::Recv(
            match rest {
                Some(t) => match spec_parse_unsigned(t, usize::MAX as nat) {
                    Some(n) => n,
                    None => 5,
                },
                None => 5,
            },
        )
    } else if command == "wait"@ {
        match rest {
            Some(t) => ReplCommandView::Wait(t),
            None => ReplCommandView::Usage("/wait <text>"@),
        }
    } else if command == "actions"@ {
        ReplCommandView::Actions(
            match rest {
                Some(t) => spec_parse_signed(t, i64::MAX as nat),
                None => None,
            },
        )
    } else if command == "click"@ {
        match rest {
            Some(t) => ReplCommandView::Click(t),
            None => ReplCommandView::Usage("/click <button>"@),
        }
    } else if command == "trigger"@ {
        match rest {
            Some(t) => ReplCommandView::Trigger(t),
            None => ReplCommandView::Usage("/trigger <action>"@),
        }
    } else if command == "unread"@ {
        ReplCommandView::Unread
    } else {
        ReplCommandView::Unknown(command)
    }
}

/// Reads the text after `/` as an interactive command.
pub fn parse_repl_command(cmd: &str) -> (r: ReplCommand)
    ensures
        command_view(r) == spec_parse_repl_command(cmd@),
{
    let (command, rest) = match split_once_str(cmd, ' ') {
        Some((a, b)) => (a, Some(b)),
        None => (owned(cmd), None),
    };
    let c = command.as_str();
    if str_eq(c, "send") {
        match rest {
            Some(t) => ReplCommand::Send(t),
            None => ReplCommand::Usage(owned("/send <text>")),
        }
    } else if str_eq(c, "recv") {
        let limit: usize = match &rest {
            Some(t) => match parse_usize(t.as_str()) {
                Some(n) => n,
                None => 5,
            },
            None => 5,
        };
        ReplCommand::Recv(limit)
    } else if str_eq(c, "wait") {
        match rest {
            Some(t) => ReplCommand::Wait(t),
            None => ReplCommand::Usage(owned("/wait <text>")),
        }
    } else if str_eq(c, "actions") {
        let message_id = match &rest {
            Some(t) => parse_i64(t.as_str()),
            None => None,
        };
        ReplCommand::Actions(message_id)
    } else if str_eq(c, "click") {
        match rest {
            Some(t) => ReplCommand::Click(t),
            None => ReplCommand::Usage(owned("/click <button>")),
        }
    } else if str_eq(c, "trigger") {
        match rest {
            Some(t) => ReplCommand::Trigger(t),
            None => ReplCommand::Usage(owned("/trigger <action>")),
        }
    } else if str_eq(c, "unread") {
        ReplCommand::Unread
    } else {
        ReplCommand::Unknown(command)
    }
}

// ---------------------------------------------------------------------------
// What the session prints
// ---------------------------------------------------------------------------

/// The (action, command) pairs of `next_step` steps.
pub open spec fn next_step_pairs(steps: Seq<Seq<char>>) -> Seq<(Seq<char>, Seq<char>)> {
    Seq::new(steps.len(), |i: int| ("next_step"@, steps[i]))
}

/// The texts of a list of step literals.
pub open spec fn step_texts(steps: Seq<&str>) -> Seq<Seq<char>> {
    Seq::new(steps.len(), |i: int| steps[i]@)
}

/// The table a successful REPL outcome prints.
pub open spec fn repl_success_text(summary: Seq<char>, steps: Seq<Seq<char>>) -> Seq<char> {
    table_text("telegram-agent-cli repl"@, "ok"@, summary, Json::Object(Seq::empty()), next_step_pairs(steps), Seq::empty())
}

/// The table a failed REPL outcome prints.
pub open spec fn repl_error_text(summary: Seq<char>, steps: Seq<Seq<char>>) -> Seq<char> {
    table_text(
        "telegram-agent-cli repl"@,
        "error"@,
        "Command failed."@,
        Json::Null,
        next_step_pairs(steps),
        seq![("runtime_error"@, summary)],
    )
}

/// The success table of the REPL with no data.
pub fn render_repl_success(summary: &str, next_steps: &[&str]) -> (r: String)
    ensures
        r@ == repl_success_text(summary@, step_texts(next_steps@)),
{
    let steps = runtime_steps_to_contract(next_steps);
    let envelope = ResultEnvelope::success("telegram-agent-cli repl", summary, JsonValue::empty_object(), steps);
    proof {
        assert(crate::output::contract::redact_entries(Seq::empty()) =~= Seq::<(Seq<char>, Json)>::empty());
        assert(steps_view(envelope.next_steps@) =~= next_step_pairs(step_texts(next_steps@)));
        assert(errors_view(envelope.errors@) =~= Seq::<(Seq<char>, Seq<char>)>::empty());
    }
    render_result_table(&envelope)
}

/// The error table of the REPL.
pub fn render_repl_error_status(summary: &str, next_steps: &[&str]) -> (r: String)
    ensures
        r@ == repl_error_text(summary@, step_texts(next_steps@)),
{
    let steps = runtime_steps_to_contract(next_steps);
    let envelope = ResultEnvelope::error("telegram-agent-cli repl", "Command failed.", "runtime_error", summary, steps);
    proof {
        assert(steps_view(envelope.next_steps@) =~= next_step_pairs(step_texts(next_steps@)));
        assert(errors_view(envelope.errors@) =~= seq![("runtime_error"@, summary@)]);
    }
    render_result_table(&envelope)
}

/// A usage error for a command given without its argument.
pub fn render_usage_error(usage: &str) -> (r: String)
    ensures
        r@ == repl_error_text(
            "Interactive command usage is invalid. Expected: "@ + usage@,
            seq!["Run /help to inspect the interactive command set."@],
        ),
{
    let steps = ["Run /help to inspect the interactive command set."];
    let summary = concat2("Interactive command usage is invalid. Expected: ", usage);
    assert(step_texts(steps@) =~= seq!["Run /help to inspect the interactive command set."@]);
    render_repl_error_status(summary.as_str(), &steps)
}

/// The error for an unknown `/command`.
pub fn render_unknown_command(command: &str) -> (r: String)
    ensures
        r@ == repl_error_text(
            "Unknown interactive command /"@ + command@ + "."@,
            seq!["Run /help to inspect the interactive command set."@],
        ),
{
    let steps = ["Run /help to inspect the interactive command set."];
    let summary = concat3("Unknown interactive command /", command, ".");
    assert(step_texts(steps@) =~= seq!["Run /help to inspect the interactive command set."@]);
    render_repl_error_status(summary.as_str(), &steps)
}

/// The error table for a failed operation.
pub fn render_repl_error(summary: &str) -> (r: String)
    ensures
        r@ == repl_error_text(
            summary@,
            seq!["Run /help to inspect the interactive command set."@, "Run /exit to leave the REPL if the current chat context is wrong."@],
        ),
{
    let steps = [
        "Run /help to inspect the interactive command set.",
        "Run /exit to leave the REPL if the current chat context is wrong.",
    ];
    assert(step_texts(steps@) =~= seq!["Run /help to inspect the interactive command set."@, "Run /exit to leave the REPL if the current chat context is wrong."@]);
    render_repl_error_status(summary, &steps)
}

/// The table after a message was sent.
pub fn render_send_success(message_id: i64) -> (r: String)
    ensures
        r@ == repl_success_text(
            "Interactive message was sent with message id "@ + int_decimal(message_id as int) + "."@,
            seq!["Run /recv 5 to inspect recent replies."@, "Run /wait <text> to block on one matching reply."@],
        ),
{
    let steps = [
        "Run /recv 5 to inspect recent replies.",
        "Run /wait <text> to block on one matching reply.",
    ];
    let id = i64_decimal(message_id);
    let summary = concat3("Interactive message was sent with message id ", id.as_str(), ".");
    assert(step_texts(steps@) =~= seq!["Run /recv 5 to inspect recent replies."@, "Run /wait <text> to block on one matching reply."@]);
    render_repl_success(summary.as_str(), &steps)
}

/// The table after a wait matched a message.
pub fn render_wait_success(message_text: &str) -> (r: String)
    ensures
        r@ == repl_success_text(
            "Interactive wait matched the message: "@ + message_text@,
            seq!["Run /recv 5 to inspect additional recent replies."@, "Run /send <text> to continue the session."@],
        ),
{
    let steps = [
        "Run /recv 5 to inspect additional recent replies.",
        "Run /send <text> to continue the session.",
    ];
    let summary = concat2("Interactive wait matched the message: ", message_text);
    assert(step_texts(steps@) =~= seq!["Run /recv 5 to inspect additional recent replies."@, "Run /send <text> to continue the session."@]);
    render_repl_success(summary.as_str(), &steps)
}

/// The summary after a button click.
pub open spec fn click_summary(button: Seq<char>, response: Option<Seq<char>>) -> Seq<char> {
    match response {
        Some(text) => "Button \""@ + button + "\" clicked. Response: "@ + text,
        None => "Button \""@ + button + "\" clicked."@,
    }
}

/// The table after a button click with a response (or a response without text).
pub fn render_click_success(button: &str, response_text: Option<&str>) -> (r: String)
    ensures
        r@ == repl_success_text(
            click_summary(
                button@,
                match response_text {
                    Some(t) => Some(t@),
                    None => None,
                },
            ),
            seq!["/recv 5"@, "/actions"@],
        ),
{
    let steps = ["/recv 5", "/actions"];
    let head = concat3("Button \"", button, "\" clicked.");
    let summary = match response_text {
        Some(text) => {
            let h = concat3("Button \"", button, "\" clicked. Response: ");
            concat2(h.as_str(), text)
        },
        None => head,
    };
    assert(step_texts(steps@) =~= seq!["/recv 5"@, "/actions"@]);
    render_repl_success(summary.as_str(), &steps)
}

/// The table after a button click that brought no follow-up message.
pub fn render_click_without_followup(button: &str) -> (r: String)
    ensures
        r@ == repl_success_text(
            "Button \""@ + button@ + "\" clicked, no follow-up received."@,
            seq!["/recv 5"@],
        ),
{
    let steps = ["/recv 5"];
    let summary = concat3("Button \"", button, "\" clicked, no follow-up received.");
    assert(step_texts(steps@) =~= seq!["/recv 5"@]);
    render_repl_success(summary.as_str(), &steps)
}

/// The data of the `/actions` table: the actions and their count.
pub open spec fn actions_data(actions: Seq<InteractiveAction>) -> Json {
    Json::Object(seq![
        ("actions"@, Json::Array(Seq::new(actions.len(), |i: int| Json::Object(spec_action_entries(actions[i]))))),
        ("total"@, Json::Number(nat_decimal(actions.len()))),
    ])
}

/// The data of the `/recv` table: up to three messages and the count of all.
pub open spec fn recv_data(messages: Seq<IncomingMessage>) -> Json {
    let shown = if messages.len() <= 3 { messages } else { messages.subrange(0, 3) };
    Json::Object(seq![
        ("messages"@, Json::Array(Seq::new(shown.len(), |i: int| spec_incoming_json(shown[i])))),
        ("total"@, Json::Number(nat_decimal(messages.len()))),
    ])
}

/// The table listing discovered actions.
pub fn render_actions_result(actions: &Vec<InteractiveAction>) -> (r: String)
    ensures
        exists|steps: Seq<(Seq<char>, Seq<char>)>| steps == seq![
            ("click_button"@, "/click <button>"@),
            ("trigger_action"@, "/trigger <action>"@),
        ] && r@ == table_text(
            "telegram-agent-cli repl actions"@,
            "ok"@,
            "Found "@ + nat_decimal(actions@.len()) + " interactive action(s)."@,
            redact(actions_data(actions@)),
            steps,
            Seq::empty(),
        ),
{
    let mut items: Vec<JsonValue> = Vec::new();
    let mut i: usize = 0;
    while i < actions.len()
        invariant
            i <= actions@.len(),
            items_view(items@) == Seq::new(i as nat, |k: int| Json::Object(spec_action_entries(actions@[k]))),
        decreases actions@.len() - i,
    {
        let x = actions[i].to_json();
        proof {
            lemma_items_view_push(items@, x);
        }
        items.push(x);
        i = i + 1;
        assert(items_view(items@) =~= Seq::new(i as nat, |k: int| Json::Object(spec_action_entries(actions@[k]))));
    }
    let total = u64_decimal(actions.len() as u64);
    let mut b = ObjectBuilder::new();
    b.field("actions", JsonValue::Array(items));
    b.field("total", JsonValue::Number(owned(total.as_str())));
    let ghost e = entries_view(b.entries@);
    let data = b.build();
    assert(e =~= actions_data(actions@)->Object_0);
    let summary = concat3("Found ", total.as_str(), " interactive action(s).");
    let mut steps: Vec<NextStep> = Vec::new();
    steps.push(NextStep::new("click_button", "/click <button>"));
    steps.push(NextStep::new("trigger_action", "/trigger <action>"));
    let envelope = ResultEnvelope::success("telegram-agent-cli repl actions", summary.as_str(), data, steps);
    proof {
        assert(steps_view(envelope.next_steps@) =~= seq![
            ("click_button"@, "/click <button>"@),
            ("trigger_action"@, "/trigger <action>"@),
        ]);
        assert(errors_view(envelope.errors@) =~= Seq::<(Seq<char>, Seq<char>)>::empty());
    }
    render_result_table(&envelope)
}

/// The table listing received messages (the first three are shown).
pub fn render_recv_result(messages: &Vec<IncomingMessage>) -> (r: String)
    ensures
        exists|steps: Seq<(Seq<char>, Seq<char>)>| steps == seq![
            ("send_message"@, "/send <text>"@),
            ("wait_for_reply"@, "/wait <text>"@),
        ] && r@ == table_text(
            "telegram-agent-cli repl recv"@,
            "ok"@,
            "Interactive receive collected recent messages."@,
            redact(recv_data(messages@)),
            steps,
            Seq::empty(),
        ),
{
    let ghost shown = if messages@.len() <= 3 { messages@ } else { messages@.subrange(0, 3) };
    let n: usize = if messages.len() <= 3 { messages.len() } else { 3 };
    let mut items: Vec<JsonValue> = Vec::new();
    let mut i: usize = 0;
    while i < n
        invariant
            n == shown.len(),
            n <= messages@.len(),
            shown == if messages@.len() <= 3 { messages@ } else { messages@.subrange(0, 3) },
            i <= n,
            items_view(items@) == Seq::new(i as nat, |k: int| spec_incoming_json(shown[k])),
        decreases n - i,
    {
        let x = messages[i].to_json();
        proof {
            lemma_items_view_push(items@, x);
            assert(shown[i as int] == messages@[i as int]);
        }
        items.push(x);
        i = i + 1;
        assert(items_view(items@) =~= Seq::new(i as nat, |k: int| spec_incoming_json(shown[k])));
    }
    let total = u64_decimal(messages.len() as u64);
    let mut b = ObjectBuilder::new();
    b.field("messages", JsonValue::Array(items));
    b.field("total", JsonValue::Number(total));
    let ghost e = entries_view(b.entries@);
    let data = b.build();
    assert(e =~= recv_data(messages@)->Object_0);
    let mut steps: Vec<NextStep> = Vec::new();
    steps.push(NextStep::new("send_message", "/send <text>"));
    steps.push(NextStep::new("wait_for_reply", "/wait <text>"));
    let envelope = ResultEnvelope::success(
        "telegram-agent-cli repl recv",
        "Interactive receive collected recent messages.",
        data,
        steps,
    );
    proof {
        assert(steps_view(envelope.next_steps@) =~= seq![
            ("send_message"@, "/send <text>"@),
            ("wait_for_reply"@, "/wait <text>"@),
        ]);
        assert(errors_view(envelope.errors@) =~= Seq::<(Seq<char>, Seq<char>)>::empty());
    }
    render_result_table(&envelope)
}

/// The banner printed when the session opens: the REPL guidance with a summary
/// naming the chat and peer.
pub fn render_repl_banner(chat_name: &str, peer_id: i64) -> (r: String)
    ensures
        exists|s: GuidanceSurface|
            s.guidance_kind == GuidanceKind::ReplHelp && s.command_path is Some
                && s.command_path->0@ == "telegram-agent-cli repl"@ && s.summary@
                == "Interactive REPL session is ready for chat "@ + chat_name@ + " (peer "@ + int_decimal(peer_id as int) + ")."@
                && views(s.actions@) == repl_actions() && views(s.examples@) == repl_examples()
                && views(s.next_steps@) == repl_next_steps() && views(s.related_commands@) == repl_related_commands()
                && views(s.when_to_use@) == repl_when_to_use() && views(s.prerequisites@) == repl_prerequisites()
                && s.related_terms@.len() == 0 && s.status is None && r@ == join_seqs(surface_lines(s), "\n"@),
{
    let mut surface = repl_surface();
    let id = i64_decimal(peer_id);
    let head = concat3("Interactive REPL session is ready for chat ", chat_name, " (peer ");
    surface.summary = concat3(head.as_str(), id.as_str(), ").");
    surface.render_text()
}

/// The REPL commands offered for completion, with their help text.
pub open spec fn repl_command_table() -> Seq<(Seq<char>, Seq<char>)> {
    seq![
        ("/send "@, "Send a message: /send <text>"@),
        ("/recv "@, "Receive recent messages: /recv [limit]"@),
        ("/wait "@, "Wait for a matching message: /wait <text>"@),
        ("/actions"@, "List interactive actions: /actions [message_id]"@),
        ("/click "@, "Click a button: /click <button>"@),
        ("/trigger "@, "Trigger an action: /trigger <action>"@),
        ("/unread"@, "Show unread messages"@),
        ("/help"@, "Show REPL help"@),
        ("/exit"@, "Exit the REPL"@),
        ("/quit"@, "Exit the REPL"@),
    ]
}

/// A completion candidate: what is shown and what replaces the typed text.
#[derive(Debug, Clone, PartialEq, Eq)]
pub struct ReplCompletion {
    pub display: String,
    pub replacement: String,
}

/// The commands whose name starts with `prefix`, in table order.
pub open spec fn completions_for(table: Seq<(Seq<char>, Seq<char>)>, prefix: Seq<char>) -> Seq<(Seq<char>, Seq<char>)>
    decreases table.len(),
{
    if table.len() == 0 {
        Seq::empty()
    } else {
        completions_for(table.drop_last(), prefix) + if crate::text::seq_starts_with(table.last().0, prefix) {
            seq![(table.last().0 + "  -- "@ + table.last().1, table.last().0)]
        } else {
            Seq::empty()
        }
    }
}

/// Completion of the first `pos` characters of a line: nothing unless the line
/// starts with `/`, else every command whose name starts with that text.
pub fn repl_completions(line: &str, pos: usize) -> (r: Vec<ReplCompletion>)
    requires
        pos <= line@.len(),
    ensures
        !(line@.len() > 0 && line@[0] == '/') ==> r@.len() == 0,
        line@.len() > 0 && line@[0] == '/' ==> Seq::new(r@.len(), |i: int| (r@[i].display@, r@[i].replacement@))
            == completions_for(repl_command_table(), line@.subrange(0, pos as int)),
{
    if !first_char_is(line, '/') {
        return Vec::new();
    }
    let chars = crate::text::chars_of(line);
    let prefix = crate::text::string_of_range(chars.as_slice(), 0, pos);
    let table = vec![
        ("/send ", "Send a message: /send <text>"),
        ("/recv ", "Receive recent messages: /recv [limit]"),
        ("/wait ", "Wait for a matching message: /wait <text>"),
        ("/actions", "List interactive actions: /actions [message_id]"),
        ("/click ", "Click a button: /click <button>"),
        ("/trigger ", "Trigger an action: /trigger <action>"),
        ("/unread", "Show unread messages"),
        ("/help", "Show REPL help"),
        ("/exit", "Exit the REPL"),
        ("/quit", "Exit the REPL"),
    ];
    let ghost tv = Seq::new(table@.len(), |i: int| (table@[i].0@, table@[i].1@));
    assert(tv =~= repl_command_table());
    let mut out: Vec<ReplCompletion> = Vec::new();
    let mut i: usize = 0;
    while i < table.len()
        invariant
            tv == Seq::new(table@.len(), |k: int| (table@[k].0@, table@[k].1@)),
            i <= table@.len(),
            Seq::new(out@.len(), |k: int| (out@[k].display@, out@[k].replacement@)) == completions_for(
                tv.subrange(0, i as int),
                prefix@,
            ),
        decreases table@.len() - i,
    {
        let (cmd, help) = table[i];
        let ghost before = Seq::new(out@.len(), |k: int| (out@[k].display@, out@[k].replacement@));
        assert(tv.subrange(0, i + 1).drop_last() =~= tv.subrange(0, i as int));
        if crate::text::str_starts_with(cmd, prefix.as_str()) {
            let d = concat3(cmd, "  -- ", help);
            out.push(ReplCompletion { display: d, replacement: owned(cmd) });
            assert(Seq::new(out@.len(), |k: int| (out@[k].display@, out@[k].replacement@)) =~= before.push((cmd@ + "  -- "@ + help@, cmd@)));
        }
        i = i + 1;
        assert(Seq::new(out@.len(), |k: int| (out@[k].display@, out@[k].replacement@)) =~= completions_for(
            tv.subrange(0, i as int),
            prefix@,
        ));
    }
    assert(tv.subrange(0, table@.len() as int) =~= tv);
    out
}

} // verus!
