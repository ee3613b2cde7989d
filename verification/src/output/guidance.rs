//! Guidance: which help surface a command path has, how a command line maps
//! to a command path, and the follow-up steps suggested after a failure.
use vstd::prelude::*;
use crate::cli::{
    lemma_group_found, lemma_leaf_found, lemma_top_level_summary, static_views, spec_group_help, spec_leaf_help, top_level_actions, top_level_next_steps,
    top_level_prerequisites, top_level_summary, top_level_when_to_use, CommandGroupHelpMetadata, LeafHelpMetadata, TopLevelHelpMetadata, command_group_help_metadata,
    group_help_paths, leaf_help_metadata, leaf_help_paths, top_level_help_metadata,
};
use crate::errors::{Result, TelegramCliError, is_message_error};
use crate::json::JsonValue;
use crate::output::format::{OutputFormat, spec_detect_from};
use crate::output::contract::{
    GuidanceKind, GuidanceSurface, HelpArgumentEntry, HelpCommandEntry, HelpDocument,
    HelpOptionEntry, HelpRuntimeState, NextStep, ResultEnvelope,
};
use crate::text::{
    before_first, before_first_string, concat3, strip_trailing, strip_trailing_string, trim,
    trim_end, trim_end_string, trim_string, concat2, first_char_is, join_lines, join_seqs, owned, seq_contains, seq_starts_with,
    str_contains, str_eq, str_starts_with, views,
};

verus! {

// ---------------------------------------------------------------------------
// Command paths
// ---------------------------------------------------------------------------

/// The full command path of a sequence of command words.
pub open spec fn command_path_text(path: Seq<Seq<char>>) -> Seq<char> {
    if path.len() == 0 {
        "telegram-agent-cli"@
    } else {
        "telegram-agent-cli "@ + join_seqs(path, " "@)
    }
}

/// The help command for a sequence of command words.
pub open spec fn help_command_text(path: Seq<Seq<char>>) -> Seq<char> {
    if path.len() == 0 {
        "telegram-agent-cli help"@
    } else {
        "telegram-agent-cli help "@ + join_seqs(path, " "@)
    }
}

/// The command-word sequences that have help guidance.
pub open spec fn help_keys() -> Seq<Seq<Seq<char>>> {
    seq![
        seq!["paths"@],
        seq!["context"@],
        seq!["account"@],
        seq!["alias"@],
        seq!["list"@],
        seq!["message"@],
        seq!["peer"@],
        seq!["doctor"@],
        seq!["export"@],
        seq!["send"@],
        seq!["send-file"@],
        seq!["wait"@],
        seq!["run"@],
        seq!["repl"@],
        seq!["mcp"@],
        seq!["send-photo"@],
        seq!["bot"@],
        seq!["daemon"@],
        seq!["context"@, "show"@],
        seq!["account"@, "add-user"@],
        seq!["account"@, "add-bot"@],
        seq!["account"@, "list"@],
        seq!["account"@, "use"@],
        seq!["account"@, "login"@],
        seq!["account"@, "logout"@],
        seq!["alias"@, "set"@],
        seq!["alias"@, "list"@],
        seq!["peer"@, "resolve"@],
        seq!["list"@, "contacts"@],
        seq!["list"@, "chats"@],
        seq!["message"@, "click-button"@],
        seq!["message"@, "list-actions"@],
        seq!["message"@, "trigger-action"@],
        seq!["message"@, "recv"@],
        seq!["message"@, "follow"@],
        seq!["message"@, "wait"@],
        seq!["message"@, "unread"@],
        seq!["message"@, "forward"@],
        seq!["message"@, "edit"@],
        seq!["message"@, "pin"@],
        seq!["message"@, "unpin"@],
        seq!["message"@, "download"@],
        seq!["bot"@, "set-commands"@],
        seq!["bot"@, "set-info"@],
        seq!["daemon"@, "start"@],
        seq!["daemon"@, "stop"@],
        seq!["daemon"@, "restart"@],
        seq!["daemon"@, "status"@],
    ]
}

/// The kind of help surface a command-word sequence has, if any.
pub open spec fn spec_help_kind(path: Seq<Seq<char>>) -> Option<GuidanceKind> {
    if path.len() == 0 {
        Some(GuidanceKind::TopLevelHelp)
    } else if help_keys().contains(path) {
        if group_help_paths().contains(command_path_text(path)) {
            Some(GuidanceKind::CommandGroupHelp)
        } else if leaf_help_paths().contains(command_path_text(path)) {
            Some(GuidanceKind::LeafHelp)
        } else {
            None
        }
    } else {
        None
    }
}

/// The full command path of a sequence of command words (`telegram-agent-cli` and the words).
pub fn render_command_path(path: &[String]) -> (r: String)
    ensures
        r@ == command_path_text(views(path@)),
{
    if path.len() == 0 {
        return owned("telegram-agent-cli");
    }
    let v = slice_to_vec(path);
    let joined = join_lines(&v, " ");
    concat2("telegram-agent-cli ", joined.as_str())
}

/// The help command for a sequence of command words.
pub fn help_command_for_path(path: &[String]) -> (r: String)
    ensures
        r@ == help_command_text(views(path@)),
{
    if path.len() == 0 {
        return owned("telegram-agent-cli help");
    }
    let v = slice_to_vec(path);
    let joined = join_lines(&v, " ");
    concat2("telegram-agent-cli help ", joined.as_str())
}

/// A vector holding copies of the strings.
pub fn slice_to_vec(s: &[String]) -> (r: Vec<String>)
    ensures
        views(r@) == views(s@),
{
    let mut out: Vec<String> = Vec::new();
    let mut i: usize = 0;
    while i < s.len()
        invariant
            i <= s@.len(),
            views(out@) == views(s@.subrange(0, i as int)),
        decreases s@.len() - i,
    {
        let x = owned(s[i].as_str());
        proof {
            crate::text::lemma_views_push(out@, x);
        }
        out.push(x);
        i = i + 1;
        assert(views(out@) =~= views(s@.subrange(0, i as int)));
    }
    assert(s@.subrange(0, s@.len() as int) =~= s@);
    out
}

/// Whether the words equal the key.
fn words_equal(words: &[String], key: &Vec<&'static str>) -> (r: bool)
    ensures
        r == (views(words@) == Seq::new(key@.len(), |i: int| key@[i]@)),
{
    if words.len() != key.len() {
        assert(views(words@).len() != Seq::new(key@.len(), |i: int| key@[i]@).len());
        return false;
    }
    let mut i: usize = 0;
    while i < words.len()
        invariant
            words@.len() == key@.len(),
            i <= words@.len(),
            forall|k: int| 0 <= k < i ==> words@[k]@ == key@[k]@,
        decreases words@.len() - i,
    {
        if !str_eq(words[i].as_str(), key[i]) {
            assert(views(words@)[i as int] != Seq::new(key@.len(), |j: int| key@[j]@)[i as int]);
            return false;
        }
        i = i + 1;
    }
    assert(views(words@) =~= Seq::new(key@.len(), |k: int| key@[k]@));
    true
}

/// The table of command-word sequences that have help guidance.
fn help_key_table() -> (r: Vec<Vec<&'static str>>)
    ensures
        r@.len() == help_keys().len(),
        forall|i: int| 0 <= i < r@.len() ==> Seq::new((#[trigger] r@[i])@.len(), |j: int| r@[i]@[j]@) == help_keys()[i],
{
    let r = vec![
            vec!["paths"],
            vec!["context"],
            vec!["account"],
            vec!["alias"],
            vec!["list"],
            vec!["message"],
            vec!["peer"],
            vec!["doctor"],
            vec!["export"],
            vec!["send"],
            vec!["send-file"],
            vec!["wait"],
            vec!["run"],
            vec!["repl"],
            vec!["mcp"],
            vec!["send-photo"],
            vec!["bot"],
            vec!["daemon"],
            vec!["context", "show"],
            vec!["account", "add-user"],
            vec!["account", "add-bot"],
            vec!["account", "list"],
            vec!["account", "use"],
            vec!["account", "login"],
            vec!["account", "logout"],
            vec!["alias", "set"],
            vec!["alias", "list"],
            vec!["peer", "resolve"],
            vec!["list", "contacts"],
            vec!["list", "chats"],
            vec!["message", "click-button"],
            vec!["message", "list-actions"],
            vec!["message", "trigger-action"],
            vec!["message", "recv"],
            vec!["message", "follow"],
            vec!["message", "wait"],
            vec!["message", "unread"],
            vec!["message", "forward"],
            vec!["message", "edit"],
            vec!["message", "pin"],
            vec!["message", "unpin"],
            vec!["message", "download"],
            vec!["bot", "set-commands"],
            vec!["bot", "set-info"],
            vec!["daemon", "start"],
            vec!["daemon", "stop"],
            vec!["daemon", "restart"],
            vec!["daemon", "status"],
    ];
    proof {
        assert forall|i: int| 0 <= i < r@.len() implies Seq::new((#[trigger] r@[i])@.len(), |j: int| r@[i]@[j]@) == help_keys()[i] by {
            assert(Seq::new(r@[i]@.len(), |j: int| r@[i]@[j]@) =~= help_keys()[i]);
        }
    }
    r
}

/// Whether the command words have help guidance.
fn is_help_key(path: &[String]) -> (r: bool)
    ensures
        r == help_keys().contains(views(path@)),
{
    let table = help_key_table();
    let mut i: usize = 0;
    while i < table.len()
        invariant
            i <= table@.len(),
            table@.len() == help_keys().len(),
            forall|k: int| 0 <= k < table@.len() ==> Seq::new((#[trigger] table@[k])@.len(), |j: int| table@[k]@[j]@) == help_keys()[k],
            forall|k: int| 0 <= k < i ==> help_keys()[k] != views(path@),
        decreases table@.len() - i,
    {
        if words_equal(path, &table[i]) {
            assert(help_keys()[i as int] == views(path@));
            return true;
        }
        i = i + 1;
    }
    false
}

/// The full command path that has help guidance for the command words, if any.
pub fn help_command_path_for_key(key: &[String]) -> (r: Option<String>)
    ensures
        r is Some <==> help_keys().contains(views(key@)),
        r is Some ==> r->0@ == command_path_text(views(key@)),
{
    if is_help_key(key) {
        Some(render_command_path(key))
    } else {
        None
    }
}

// ---------------------------------------------------------------------------
// Help surfaces
// ---------------------------------------------------------------------------

/// Copies of the texts.
pub fn static_strings(items: &Vec<&'static str>) -> (r: Vec<String>)
    ensures
        views(r@) == Seq::new(items@.len(), |i: int| items@[i]@),
        r@.len() == items@.len(),
{
    let mut out: Vec<String> = Vec::new();
    let mut i: usize = 0;
    while i < items.len()
        invariant
            i <= items@.len(),
            views(out@) == Seq::new(i as nat, |k: int| items@[k]@),
        decreases items@.len() - i,
    {
        let x = owned(items[i]);
        proof {
            crate::text::lemma_views_push(out@, x);
        }
        out.push(x);
        i = i + 1;
        assert(views(out@) =~= Seq::new(i as nat, |k: int| items@[k]@));
    }
    out
}

/// The top-level surface built from its metadata.
pub fn top_level_surface(metadata: &TopLevelHelpMetadata) -> (r: GuidanceSurface)
    ensures
        r.guidance_kind == GuidanceKind::TopLevelHelp,
        r.command_path is Some && r.command_path->0@ == "telegram-agent-cli"@,
        r.summary@ == metadata.summary@,
        views(r.when_to_use@) == static_views(metadata.when_to_use@),
        views(r.prerequisites@) == static_views(metadata.prerequisites@),
        views(r.actions@) == static_views(metadata.actions@),
        r.examples@.len() == 0,
        views(r.next_steps@) == static_views(metadata.next_steps@),
        r.related_terms@.len() == 0,
        r.related_commands@.len() == 0,
        r.status is None,
{
    GuidanceSurface {
        guidance_kind: GuidanceKind::TopLevelHelp,
        command_path: Some(owned("telegram-agent-cli")),
        summary: owned(metadata.summary),
        when_to_use: static_strings(&metadata.when_to_use),
        prerequisites: static_strings(&metadata.prerequisites),
        actions: static_strings(&metadata.actions),
        examples: Vec::new(),
        next_steps: static_strings(&metadata.next_steps),
        related_terms: Vec::new(),
        related_commands: Vec::new(),
        status: None,
    }
}

/// One-line vector holding a copy of `s`.
fn one_line(s: &str) -> (r: Vec<String>)
    ensures
        views(r@) == seq![s@],
        r@.len() == 1,
{
    let mut v: Vec<String> = Vec::new();
    v.push(owned(s));
    assert(views(v@) =~= seq![s@]);
    v
}

/// The text telling when group guidance applies.
pub open spec fn group_when_to_use() -> Seq<char> {
    "Use this surface to choose the right child command before executing a leaf command."@
}

/// The prerequisite shown on every group surface.
pub open spec fn group_prerequisite() -> Seq<char> {
    "If a child command acts on Telegram state, ensure the selected account and target context already exist."@
}

/// The text telling when leaf guidance applies.
pub open spec fn leaf_when_to_use() -> Seq<char> {
    "Use this leaf command when you already know the target action and need a runnable invocation."@
}

/// The action shown on every leaf surface.
pub open spec fn leaf_action() -> Seq<char> {
    "Review flags, confirm prerequisites, then run one of the example invocations."@
}

/// A command-group surface built from its metadata.
pub fn group_surface(metadata: &CommandGroupHelpMetadata) -> (r: GuidanceSurface)
    ensures
        r.guidance_kind == GuidanceKind::CommandGroupHelp,
        r.command_path is Some && r.command_path->0@ == metadata.command_path@,
        r.summary@ == metadata.summary@,
        views(r.when_to_use@) == seq![group_when_to_use()],
        views(r.prerequisites@) == seq![group_prerequisite()],
        views(r.actions@) == static_views(metadata.actions@),
        r.examples@.len() == 0,
        views(r.next_steps@) == static_views(metadata.next_steps@),
        r.related_terms@.len() == 0,
        views(r.related_commands@) == static_views(metadata.related_commands@),
        r.status is None,
{
    GuidanceSurface {
        guidance_kind: GuidanceKind::CommandGroupHelp,
        command_path: Some(owned(metadata.command_path)),
        summary: owned(metadata.summary),
        when_to_use: one_line("Use this surface to choose the right child command before executing a leaf command."),
        prerequisites: one_line("If a child command acts on Telegram state, ensure the selected account and target context already exist."),
        actions: static_strings(&metadata.actions),
        examples: Vec::new(),
        next_steps: static_strings(&metadata.next_steps),
        related_terms: Vec::new(),
        related_commands: static_strings(&metadata.related_commands),
        status: None,
    }
}

/// A leaf-command surface built from its metadata; its related commands are its next steps.
pub fn leaf_surface(metadata: &LeafHelpMetadata) -> (r: GuidanceSurface)
    ensures
        r.guidance_kind == GuidanceKind::LeafHelp,
        r.command_path is Some && r.command_path->0@ == metadata.command_path@,
        r.summary@ == metadata.summary@,
        views(r.when_to_use@) == seq![leaf_when_to_use()],
        views(r.prerequisites@) == static_views(metadata.prerequisites@),
        views(r.actions@) == seq![leaf_action()],
        views(r.examples@) == static_views(metadata.examples@),
        views(r.next_steps@) == static_views(metadata.next_steps@),
        r.related_terms@.len() == 0,
        views(r.related_commands@) == static_views(metadata.next_steps@),
        r.status is None,
{
    GuidanceSurface {
        guidance_kind: GuidanceKind::LeafHelp,
        command_path: Some(owned(metadata.command_path)),
        summary: owned(metadata.summary),
        when_to_use: one_line("Use this leaf command when you already know the target action and need a runnable invocation."),
        prerequisites: static_strings(&metadata.prerequisites),
        actions: one_line("Review flags, confirm prerequisites, then run one of the example invocations."),
        examples: static_strings(&metadata.examples),
        next_steps: static_strings(&metadata.next_steps),
        related_terms: Vec::new(),
        related_commands: static_strings(&metadata.next_steps),
        status: None,
    }
}

/// The texts of a help surface, beyond its kind, path and status.
pub ghost struct SurfaceText {
    pub summary: Seq<char>,
    pub when_to_use: Seq<Seq<char>>,
    pub prerequisites: Seq<Seq<char>>,
    pub actions: Seq<Seq<char>>,
    pub examples: Seq<Seq<char>>,
    pub next_steps: Seq<Seq<char>>,
    pub related_terms: Seq<Seq<char>>,
    pub related_commands: Seq<Seq<char>>,
}

/// The texts a surface holds.
pub open spec fn surface_text(s: GuidanceSurface) -> SurfaceText {
    SurfaceText {
        summary: s.summary@,
        when_to_use: views(s.when_to_use@),
        prerequisites: views(s.prerequisites@),
        actions: views(s.actions@),
        examples: views(s.examples@),
        next_steps: views(s.next_steps@),
        related_terms: views(s.related_terms@),
        related_commands: views(s.related_commands@),
    }
}

/// The texts of the help surface of a command path: the top-level guidance
/// for no words, else the group or leaf guidance of its command path.
pub open spec fn spec_help_text(path: Seq<Seq<char>>) -> Option<SurfaceText> {
    match spec_help_kind(path) {
        Some(GuidanceKind::TopLevelHelp) => Some(SurfaceText {
            summary: top_level_summary(),
            when_to_use: top_level_when_to_use(),
            prerequisites: top_level_prerequisites(),
            actions: top_level_actions(),
            examples: Seq::empty(),
            next_steps: top_level_next_steps(),
            related_terms: Seq::empty(),
            related_commands: Seq::empty(),
        }),
        Some(GuidanceKind::CommandGroupHelp) => match spec_group_help(command_path_text(path)) {
            Some(m) => Some(SurfaceText {
                summary: m.summary,
                when_to_use: seq![group_when_to_use()],
                prerequisites: seq![group_prerequisite()],
                actions: m.actions,
                examples: Seq::empty(),
                next_steps: m.next_steps,
                related_terms: Seq::empty(),
                related_commands: m.related_commands,
            }),
            None => None,
        },
        Some(GuidanceKind::LeafHelp) => match spec_leaf_help(command_path_text(path)) {
            Some(m) => Some(SurfaceText {
                summary: m.summary,
                when_to_use: seq![leaf_when_to_use()],
                prerequisites: m.prerequisites,
                actions: seq![leaf_action()],
                examples: m.examples,
                next_steps: m.next_steps,
                related_terms: Seq::empty(),
                related_commands: m.next_steps,
            }),
            None => None,
        },
        _ => None,
    }
}

// ---------------------------------------------------------------------------
// The help tables, taken together
// ---------------------------------------------------------------------------

/// The command paths with group guidance, then those with leaf guidance.
pub open spec fn all_help_paths() -> Seq<Seq<char>> {
    group_help_paths() + leaf_help_paths()
}

/// A number that tells the help command paths apart: their length, twentieth
/// character, and last and third-last characters.
spec fn help_path_key(s: Seq<char>) -> int {
    s.len() * 1_000_000_000 + (s[19] as int) * 1_000_000 + (s[s.len() - 1] as int) * 1000 + (s[s.len() - 3] as int)
}

/// The index in `all_help_paths` a command path's key points to.
spec fn help_path_index(s: Seq<char>) -> int {
    let k = help_path_key(s);
    if k == 26099116101 {
        0
    } else if k == 26097116117 {
        1
    } else if k == 24097115105 {
        2
    } else if k == 23108116105 {
        3
    } else if k == 26109101097 {
        4
    } else if k == 23112114101 {
        5
    } else if k == 22098116098 {
        6
    } else if k == 25100110109 {
        7
    } else if k == 24112115116 {
        8
    } else if k == 31099119104 {
        9
    } else if k == 25100114116 {
        10
    } else if k == 25101116111 {
        11
    } else if k == 23115100101 {
        12
    } else if k == 28115101105 {
        13
    } else if k == 23119116097 {
        14
    } else if k == 22114110114 {
        15
    } else if k == 23114108101 {
        16
    } else if k == 22109112109 {
        17
    } else if k == 31100116097 {
        18
    } else if k == 30100112116 {
        19
    } else if k == 33100116097 {
        20
    } else if k == 32100115116 {
        21
    } else if k == 35097114115 {
        22
    } else if k == 34097116098 {
        23
    } else if k == 31097116105 {
        24
    } else if k == 30097101117 {
        25
    } else if k == 32097110103 {
        26
    } else if k == 33097116111 {
        27
    } else if k == 28097116115 {
        28
    } else if k == 29097116105 {
        29
    } else if k == 31112101108 {
        30
    } else if k == 32108115099 {
        31
    } else if k == 29108115097 {
        32
    } else if k == 39109110116 {
        33
    } else if k == 39109115111 {
        34
    } else if k == 41109110105 {
        35
    } else if k == 31109118101 {
        36
    } else if k == 33109119108 {
        37
    } else if k == 31109116097 {
        38
    } else if k == 33109100101 {
        39
    } else if k == 34109100097 {
        40
    } else if k == 31109116100 {
        41
    } else if k == 30109110112 {
        42
    } else if k == 32109110112 {
        43
    } else if k == 35109100111 {
        44
    } else if k == 29115111111 {
        45
    } else if k == 35098115110 {
        46
    } else if k == 31098111110 {
        47
    } else {
        -1
    }
}

/// Each help command path's key points back to its own index.
proof fn lemma_help_path_index(i: int)
    requires
        0 <= i < all_help_paths().len(),
    ensures
        help_path_index(all_help_paths()[i]) == i,
{
    assert(all_help_paths().len() == 48);
    if i == 0 {
        assert(all_help_paths()[0] == group_help_paths()[0]);
        reveal_strlit("telegram-agent-cli context");
    } else if i == 1 {
        assert(all_help_paths()[1] == group_help_paths()[1]);
        reveal_strlit("telegram-agent-cli account");
    } else if i == 2 {
        assert(all_help_paths()[2] == group_help_paths()[2]);
        reveal_strlit("telegram-agent-cli alias");
    } else if i == 3 {
        assert(all_help_paths()[3] == group_help_paths()[3]);
        reveal_strlit("telegram-agent-cli list");
    } else if i == 4 {
        assert(all_help_paths()[4] == group_help_paths()[4]);
        reveal_strlit("telegram-agent-cli message");
    } else if i == 5 {
        assert(all_help_paths()[5] == group_help_paths()[5]);
        reveal_strlit("telegram-agent-cli peer");
    } else if i == 6 {
        assert(all_help_paths()[6] == group_help_paths()[6]);
        reveal_strlit("telegram-agent-cli bot");
    } else if i == 7 {
        assert(all_help_paths()[7] == group_help_paths()[7]);
        reveal_strlit("telegram-agent-cli daemon");
    } else if i == 8 {
        assert(all_help_paths()[8] == leaf_help_paths()[0]);
        reveal_strlit("telegram-agent-cli paths");
    } else if i == 9 {
        assert(all_help_paths()[9] == leaf_help_paths()[1]);
        reveal_strlit("telegram-agent-cli context show");
    } else if i == 10 {
        assert(all_help_paths()[10] == leaf_help_paths()[2]);
        reveal_strlit("telegram-agent-cli doctor");
    } else if i == 11 {
        assert(all_help_paths()[11] == leaf_help_paths()[3]);
        reveal_strlit("telegram-agent-cli export");
    } else if i == 12 {
        assert(all_help_paths()[12] == leaf_help_paths()[4]);
        reveal_strlit("telegram-agent-cli send");
    } else if i == 13 {
        assert(all_help_paths()[13] == leaf_help_paths()[5]);
        reveal_strlit("telegram-agent-cli send-file");
    } else if i == 14 {
        assert(all_help_paths()[14] == leaf_help_paths()[6]);
        reveal_strlit("telegram-agent-cli wait");
    } else if i == 15 {
        assert(all_help_paths()[15] == leaf_help_paths()[7]);
        reveal_strlit("telegram-agent-cli run");
    } else if i == 16 {
        assert(all_help_paths()[16] == leaf_help_paths()[8]);
        reveal_strlit("telegram-agent-cli repl");
    } else if i == 17 {
        assert(all_help_paths()[17] == leaf_help_paths()[9]);
        reveal_strlit("telegram-agent-cli mcp");
    } else if i == 18 {
        assert(all_help_paths()[18] == leaf_help_paths()[10]);
        reveal_strlit("telegram-agent-cli daemon start");
    } else if i == 19 {
        assert(all_help_paths()[19] == leaf_help_paths()[11]);
        reveal_strlit("telegram-agent-cli daemon stop");
    } else if i == 20 {
        assert(all_help_paths()[20] == leaf_help_paths()[12]);
        reveal_strlit("telegram-agent-cli daemon restart");
    } else if i == 21 {
        assert(all_help_paths()[21] == leaf_help_paths()[13]);
        reveal_strlit("telegram-agent-cli daemon status");
    } else if i == 22 {
        assert(all_help_paths()[22] == leaf_help_paths()[14]);
        reveal_strlit("telegram-agent-cli account add-user");
    } else if i == 23 {
        assert(all_help_paths()[23] == leaf_help_paths()[15]);
        reveal_strlit("telegram-agent-cli account add-bot");
    } else if i == 24 {
        assert(all_help_paths()[24] == leaf_help_paths()[16]);
        reveal_strlit("telegram-agent-cli account list");
    } else if i == 25 {
        assert(all_help_paths()[25] == leaf_help_paths()[17]);
        reveal_strlit("telegram-agent-cli account use");
    } else if i == 26 {
        assert(all_help_paths()[26] == leaf_help_paths()[18]);
        reveal_strlit("telegram-agent-cli account login");
    } else if i == 27 {
        assert(all_help_paths()[27] == leaf_help_paths()[19]);
        reveal_strlit("telegram-agent-cli account logout");
    } else if i == 28 {
        assert(all_help_paths()[28] == leaf_help_paths()[20]);
        reveal_strlit("telegram-agent-cli alias set");
    } else if i == 29 {
        assert(all_help_paths()[29] == leaf_help_paths()[21]);
        reveal_strlit("telegram-agent-cli alias list");
    } else if i == 30 {
        assert(all_help_paths()[30] == leaf_help_paths()[22]);
        reveal_strlit("telegram-agent-cli peer resolve");
    } else if i == 31 {
        assert(all_help_paths()[31] == leaf_help_paths()[23]);
        reveal_strlit("telegram-agent-cli list contacts");
    } else if i == 32 {
        assert(all_help_paths()[32] == leaf_help_paths()[24]);
        reveal_strlit("telegram-agent-cli list chats");
    } else if i == 33 {
        assert(all_help_paths()[33] == leaf_help_paths()[25]);
        reveal_strlit("telegram-agent-cli message click-button");
    } else if i == 34 {
        assert(all_help_paths()[34] == leaf_help_paths()[26]);
        reveal_strlit("telegram-agent-cli message list-actions");
    } else if i == 35 {
        assert(all_help_paths()[35] == leaf_help_paths()[27]);
        reveal_strlit("telegram-agent-cli message trigger-action");
    } else if i == 36 {
        assert(all_help_paths()[36] == leaf_help_paths()[28]);
        reveal_strlit("telegram-agent-cli message recv");
    } else if i == 37 {
        assert(all_help_paths()[37] == leaf_help_paths()[29]);
        reveal_strlit("telegram-agent-cli message follow");
    } else if i == 38 {
        assert(all_help_paths()[38] == leaf_help_paths()[30]);
        reveal_strlit("telegram-agent-cli message wait");
    } else if i == 39 {
        assert(all_help_paths()[39] == leaf_help_paths()[31]);
        reveal_strlit("telegram-agent-cli message unread");
    } else if i == 40 {
        assert(all_help_paths()[40] == leaf_help_paths()[32]);
        reveal_strlit("telegram-agent-cli message forward");
    } else if i == 41 {
        assert(all_help_paths()[41] == leaf_help_paths()[33]);
        reveal_strlit("telegram-agent-cli message edit");
    } else if i == 42 {
        assert(all_help_paths()[42] == leaf_help_paths()[34]);
        reveal_strlit("telegram-agent-cli message pin");
    } else if i == 43 {
        assert(all_help_paths()[43] == leaf_help_paths()[35]);
        reveal_strlit("telegram-agent-cli message unpin");
    } else if i == 44 {
        assert(all_help_paths()[44] == leaf_help_paths()[36]);
        reveal_strlit("telegram-agent-cli message download");
    } else if i == 45 {
        assert(all_help_paths()[45] == leaf_help_paths()[37]);
        reveal_strlit("telegram-agent-cli send-photo");
    } else if i == 46 {
        assert(all_help_paths()[46] == leaf_help_paths()[38]);
        reveal_strlit("telegram-agent-cli bot set-commands");
    } else if i == 47 {
        assert(all_help_paths()[47] == leaf_help_paths()[39]);
        reveal_strlit("telegram-agent-cli bot set-info");
    }
}

/// Law: no command path has two group entries or two leaf entries, and none
/// has both.
pub proof fn law_help_paths_distinct(i: int, k: int)
    requires
        0 <= i < all_help_paths().len(),
        0 <= k < all_help_paths().len(),
        i != k,
    ensures
        all_help_paths()[i] != all_help_paths()[k],
{
    lemma_help_path_index(i);
    lemma_help_path_index(k);
}

/// Whether no word of a sequence is empty or holds a space: the words are
/// what splitting their joined text at each space gives.
pub open spec fn plain_words(words: Seq<Seq<char>>) -> bool {
    forall|k: int, m: int| 0 <= k < words.len() && 0 <= m < words[k].len() ==> #[trigger] words[k][m] != ' '
        && words[k].len() > 0
}

/// The index in `all_help_paths` of the command path of each help key.
spec fn help_key_targets() -> Seq<int> {
    seq![8, 0, 1, 2, 3, 4, 5, 10, 11, 12, 13, 14, 15, 16, 17, 45, 6, 7, 9, 22, 23, 24, 25, 26, 27, 28, 29, 30, 31, 32, 33, 34, 35, 36, 37, 38, 39, 40, 41, 42, 43, 44, 46, 47, 18, 19, 20, 21]
}

/// The help key of each entry of `all_help_paths`.
spec fn help_entry_keys() -> Seq<int> {
    seq![1, 2, 3, 4, 5, 6, 16, 17, 0, 18, 7, 8, 9, 10, 11, 12, 13, 14, 44, 45, 46, 47, 19, 20, 21, 22, 23, 24, 25, 26, 27, 28, 29, 30, 31, 32, 33, 34, 35, 36, 37, 38, 39, 40, 41, 15, 42, 43]
}

/// The command path of each help key is the table entry it targets.
proof fn lemma_help_key_path(j: int)
    requires
        0 <= j < help_keys().len(),
    ensures
        0 <= help_key_targets()[j] < all_help_paths().len(),
        help_entry_keys()[help_key_targets()[j]] == j,
        command_path_text(help_keys()[j]) == all_help_paths()[help_key_targets()[j]],
        plain_words(help_keys()[j]),
{
    assert(all_help_paths().len() == 48);
    if j == 0 {
        assert(all_help_paths()[8] == leaf_help_paths()[0]);
        assert(command_path_text(help_keys()[0]) == leaf_help_paths()[0]) by {
            reveal_strlit("telegram-agent-cli ");
            reveal_strlit("paths");
            reveal_strlit("telegram-agent-cli paths");
            assert(command_path_text(help_keys()[0]) =~= leaf_help_paths()[0]);
        }
        assert(plain_words(help_keys()[0])) by {
            reveal_strlit("paths");
        }
    } else if j == 1 {
        assert(all_help_paths()[0] == group_help_paths()[0]);
        assert(command_path_text(help_keys()[1]) == group_help_paths()[0]) by {
            reveal_strlit("telegram-agent-cli ");
            reveal_strlit("context");
            reveal_strlit("telegram-agent-cli context");
            assert(command_path_text(help_keys()[1]) =~= group_help_paths()[0]);
        }
        assert(plain_words(help_keys()[1])) by {
            reveal_strlit("context");
        }
    } else if j == 2 {
        assert(all_help_paths()[1] == group_help_paths()[1]);
        assert(command_path_text(help_keys()[2]) == group_help_paths()[1]) by {
            reveal_strlit("telegram-agent-cli ");
            reveal_strlit("account");
            reveal_strlit("telegram-agent-cli account");
            assert(command_path_text(help_keys()[2]) =~= group_help_paths()[1]);
        }
        assert(plain_words(help_keys()[2])) by {
            reveal_strlit("account");
        }
    } else if j == 3 {
        assert(all_help_paths()[2] == group_help_paths()[2]);
        assert(command_path_text(help_keys()[3]) == group_help_paths()[2]) by {
            reveal_strlit("telegram-agent-cli ");
            reveal_strlit("alias");
            reveal_strlit("telegram-agent-cli alias");
            assert(command_path_text(help_keys()[3]) =~= group_help_paths()[2]);
        }
        assert(plain_words(help_keys()[3])) by {
            reveal_strlit("alias");
        }
    } else if j == 4 {
        assert(all_help_paths()[3] == group_help_paths()[3]);
        assert(command_path_text(help_keys()[4]) == group_help_paths()[3]) by {
            reveal_strlit("telegram-agent-cli ");
            reveal_strlit("list");
            reveal_strlit("telegram-agent-cli list");
            assert(command_path_text(help_keys()[4]) =~= group_help_paths()[3]);
        }
        assert(plain_words(help_keys()[4])) by {
            reveal_strlit("list");
        }
    } else if j == 5 {
        assert(all_help_paths()[4] == group_help_paths()[4]);
        assert(command_path_text(help_keys()[5]) == group_help_paths()[4]) by {
            reveal_strlit("telegram-agent-cli ");
            reveal_strlit("message");
            reveal_strlit("telegram-agent-cli message");
            assert(command_path_text(help_keys()[5]) =~= group_help_paths()[4]);
        }
        assert(plain_words(help_keys()[5])) by {
            reveal_strlit("message");
        }
    } else if j == 6 {
        assert(all_help_paths()[5] == group_help_paths()[5]);
        assert(command_path_text(help_keys()[6]) == group_help_paths()[5]) by {
            reveal_strlit("telegram-agent-cli ");
            reveal_strlit("peer");
            reveal_strlit("telegram-agent-cli peer");
            assert(command_path_text(help_keys()[6]) =~= group_help_paths()[5]);
        }
        assert(plain_words(help_keys()[6])) by {
            reveal_strlit("peer");
        }
    } else if j == 7 {
        assert(all_help_paths()[10] == leaf_help_paths()[2]);
        assert(command_path_text(help_keys()[7]) == leaf_help_paths()[2]) by {
            reveal_strlit("telegram-agent-cli ");
            reveal_strlit("doctor");
            reveal_strlit("telegram-agent-cli doctor");
            assert(command_path_text(help_keys()[7]) =~= leaf_help_paths()[2]);
        }
        assert(plain_words(help_keys()[7])) by {
            reveal_strlit("doctor");
        }
    } else if j == 8 {
        assert(all_help_paths()[11] == leaf_help_paths()[3]);
        assert(command_path_text(help_keys()[8]) == leaf_help_paths()[3]) by {
            reveal_strlit("telegram-agent-cli ");
            reveal_strlit("export");
            reveal_strlit("telegram-agent-cli export");
            assert(command_path_text(help_keys()[8]) =~= leaf_help_paths()[3]);
        }
        assert(plain_words(help_keys()[8])) by {
            reveal_strlit("export");
        }
    } else if j == 9 {
        assert(all_help_paths()[12] == leaf_help_paths()[4]);
        assert(command_path_text(help_keys()[9]) == leaf_help_paths()[4]) by {
            reveal_strlit("telegram-agent-cli ");
            reveal_strlit("send");
            reveal_strlit("telegram-agent-cli send");
            assert(command_path_text(help_keys()[9]) =~= leaf_help_paths()[4]);
        }
        assert(plain_words(help_keys()[9])) by {
            reveal_strlit("send");
        }
    } else if j == 10 {
        assert(all_help_paths()[13] == leaf_help_paths()[5]);
        assert(command_path_text(help_keys()[10]) == leaf_help_paths()[5]) by {
            reveal_strlit("telegram-agent-cli ");
            reveal_strlit("send-file");
            reveal_strlit("telegram-agent-cli send-file");
            assert(command_path_text(help_keys()[10]) =~= leaf_help_paths()[5]);
        }
        assert(plain_words(help_keys()[10])) by {
            reveal_strlit("send-file");
        }
    } else if j == 11 {
        assert(all_help_paths()[14] == leaf_help_paths()[6]);
        assert(command_path_text(help_keys()[11]) == leaf_help_paths()[6]) by {
            reveal_strlit("telegram-agent-cli ");
            reveal_strlit("wait");
            reveal_strlit("telegram-agent-cli wait");
            assert(command_path_text(help_keys()[11]) =~= leaf_help_paths()[6]);
        }
        assert(plain_words(help_keys()[11])) by {
            reveal_strlit("wait");
        }
    } else if j == 12 {
        assert(all_help_paths()[15] == leaf_help_paths()[7]);
        assert(command_path_text(help_keys()[12]) == leaf_help_paths()[7]) by {
            reveal_strlit("telegram-agent-cli ");
            reveal_strlit("run");
            reveal_strlit("telegram-agent-cli run");
            assert(command_path_text(help_keys()[12]) =~= leaf_help_paths()[7]);
        }
        assert(plain_words(help_keys()[12])) by {
            reveal_strlit("run");
        }
    } else if j == 13 {
        assert(all_help_paths()[16] == leaf_help_paths()[8]);
        assert(command_path_text(help_keys()[13]) == leaf_help_paths()[8]) by {
            reveal_strlit("telegram-agent-cli ");
            reveal_strlit("repl");
            reveal_strlit("telegram-agent-cli repl");
            assert(command_path_text(help_keys()[13]) =~= leaf_help_paths()[8]);
        }
        assert(plain_words(help_keys()[13])) by {
            reveal_strlit("repl");
        }
    } else if j == 14 {
        assert(all_help_paths()[17] == leaf_help_paths()[9]);
        assert(command_path_text(help_keys()[14]) == leaf_help_paths()[9]) by {
            reveal_strlit("telegram-agent-cli ");
            reveal_strlit("mcp");
            reveal_strlit("telegram-agent-cli mcp");
            assert(command_path_text(help_keys()[14]) =~= leaf_help_paths()[9]);
        }
        assert(plain_words(help_keys()[14])) by {
            reveal_strlit("mcp");
        }
    } else if j == 15 {
        assert(all_help_paths()[45] == leaf_help_paths()[37]);
        assert(command_path_text(help_keys()[15]) == leaf_help_paths()[37]) by {
            reveal_strlit("telegram-agent-cli ");
            reveal_strlit("send-photo");
            reveal_strlit("telegram-agent-cli send-photo");
            assert(command_path_text(help_keys()[15]) =~= leaf_help_paths()[37]);
        }
        assert(plain_words(help_keys()[15])) by {
            reveal_strlit("send-photo");
        }
    } else if j == 16 {
        assert(all_help_paths()[6] == group_help_paths()[6]);
        assert(command_path_text(help_keys()[16]) == group_help_paths()[6]) by {
            reveal_strlit("telegram-agent-cli ");
            reveal_strlit("bot");
            reveal_strlit("telegram-agent-cli bot");
            assert(command_path_text(help_keys()[16]) =~= group_help_paths()[6]);
        }
        assert(plain_words(help_keys()[16])) by {
            reveal_strlit("bot");
        }
    } else if j == 17 {
        assert(all_help_paths()[7] == group_help_paths()[7]);
        assert(command_path_text(help_keys()[17]) == group_help_paths()[7]) by {
            reveal_strlit("telegram-agent-cli ");
            reveal_strlit("daemon");
            reveal_strlit("telegram-agent-cli daemon");
            assert(command_path_text(help_keys()[17]) =~= group_help_paths()[7]);
        }
        assert(plain_words(help_keys()[17])) by {
            reveal_strlit("daemon");
        }
    } else if j == 18 {
        assert(all_help_paths()[9] == leaf_help_paths()[1]);
        assert(command_path_text(help_keys()[18]) == leaf_help_paths()[1]) by {
            reveal_strlit("telegram-agent-cli ");
            reveal_strlit("context");
            reveal_strlit("show");
            reveal_strlit("telegram-agent-cli context show");
            reveal_strlit(" ");
            let key = help_keys()[18];
            assert(key == seq!["context"@, "show"@]);
            assert(key.drop_last() =~= seq!["context"@]);
            assert(join_seqs(key.drop_last(), " "@) == "context"@);
            assert(join_seqs(help_keys()[18], " "@) == "context"@ + " "@ + "show"@);
            assert(command_path_text(help_keys()[18]) =~= leaf_help_paths()[1]);
        }
        assert(plain_words(help_keys()[18])) by {
            reveal_strlit("context");
            reveal_strlit("show");
        }
    } else if j == 19 {
        assert(all_help_paths()[22] == leaf_help_paths()[14]);
        assert(command_path_text(help_keys()[19]) == leaf_help_paths()[14]) by {
            reveal_strlit("telegram-agent-cli ");
            reveal_strlit("account");
            reveal_strlit("add-user");
            reveal_strlit("telegram-agent-cli account add-user");
            reveal_strlit(" ");
            let key = help_keys()[19];
            assert(key == seq!["account"@, "add-user"@]);
            assert(key.drop_last() =~= seq!["account"@]);
            assert(join_seqs(key.drop_last(), " "@) == "account"@);
            assert(join_seqs(help_keys()[19], " "@) == "account"@ + " "@ + "add-user"@);
            assert(command_path_text(help_keys()[19]) =~= leaf_help_paths()[14]);
        }
        assert(plain_words(help_keys()[19])) by {
            reveal_strlit("account");
            reveal_strlit("add-user");
        }
    } else if j == 20 {
        assert(all_help_paths()[23] == leaf_help_paths()[15]);
        assert(command_path_text(help_keys()[20]) == leaf_help_paths()[15]) by {
            reveal_strlit("telegram-agent-cli ");
            reveal_strlit("account");
            reveal_strlit("add-bot");
            reveal_strlit("telegram-agent-cli account add-bot");
            reveal_strlit(" ");
            let key = help_keys()[20];
            assert(key == seq!["account"@, "add-bot"@]);
            assert(key.drop_last() =~= seq!["account"@]);
            assert(join_seqs(key.drop_last(), " "@) == "account"@);
            assert(join_seqs(help_keys()[20], " "@) == "account"@ + " "@ + "add-bot"@);
            assert(command_path_text(help_keys()[20]) =~= leaf_help_paths()[15]);
        }
        assert(plain_words(help_keys()[20])) by {
            reveal_strlit("account");
            reveal_strlit("add-bot");
        }
    } else if j == 21 {
        assert(all_help_paths()[24] == leaf_help_paths()[16]);
        assert(command_path_text(help_keys()[21]) == leaf_help_paths()[16]) by {
            reveal_strlit("telegram-agent-cli ");
            reveal_strlit("account");
            reveal_strlit("list");
            reveal_strlit("telegram-agent-cli account list");
            reveal_strlit(" ");
            let key = help_keys()[21];
            assert(key == seq!["account"@, "list"@]);
            assert(key.drop_last() =~= seq!["account"@]);
            assert(join_seqs(key.drop_last(), " "@) == "account"@);
            assert(join_seqs(help_keys()[21], " "@) == "account"@ + " "@ + "list"@);
            assert(command_path_text(help_keys()[21]) =~= leaf_help_paths()[16]);
        }
        assert(plain_words(help_keys()[21])) by {
            reveal_strlit("account");
            reveal_strlit("list");
        }
    } else if j == 22 {
        assert(all_help_paths()[25] == leaf_help_paths()[17]);
        assert(command_path_text(help_keys()[22]) == leaf_help_paths()[17]) by {
            reveal_strlit("telegram-agent-cli ");
            reveal_strlit("account");
            reveal_strlit("use");
            reveal_strlit("telegram-agent-cli account use");
            reveal_strlit(" ");
            let key = help_keys()[22];
            assert(key == seq!["account"@, "use"@]);
            assert(key.drop_last() =~= seq!["account"@]);
            assert(join_seqs(key.drop_last(), " "@) == "account"@);
            assert(join_seqs(help_keys()[22], " "@) == "account"@ + " "@ + "use"@);
            assert(command_path_text(help_keys()[22]) =~= leaf_help_paths()[17]);
        }
        assert(plain_words(help_keys()[22])) by {
            reveal_strlit("account");
            reveal_strlit("use");
        }
    } else if j == 23 {
        assert(all_help_paths()[26] == leaf_help_paths()[18]);
        assert(command_path_text(help_keys()[23]) == leaf_help_paths()[18]) by {
            reveal_strlit("telegram-agent-cli ");
            reveal_strlit("account");
            reveal_strlit("login");
            reveal_strlit("telegram-agent-cli account login");
            reveal_strlit(" ");
            let key = help_keys()[23];
            assert(key == seq!["account"@, "login"@]);
            assert(key.drop_last() =~= seq!["account"@]);
            assert(join_seqs(key.drop_last(), " "@) == "account"@);
            assert(join_seqs(help_keys()[23], " "@) == "account"@ + " "@ + "login"@);
            assert(command_path_text(help_keys()[23]) =~= leaf_help_paths()[18]);
        }
        assert(plain_words(help_keys()[23])) by {
            reveal_strlit("account");
            reveal_strlit("login");
        }
    } else if j == 24 {
        assert(all_help_paths()[27] == leaf_help_paths()[19]);
        assert(command_path_text(help_keys()[24]) == leaf_help_paths()[19]) by {
            reveal_strlit("telegram-agent-cli ");
            reveal_strlit("account");
            reveal_strlit("logout");
            reveal_strlit("telegram-agent-cli account logout");
            reveal_strlit(" ");
            let key = help_keys()[24];
            assert(key == seq!["account"@, "logout"@]);
            assert(key.drop_last() =~= seq!["account"@]);
            assert(join_seqs(key.drop_last(), " "@) == "account"@);
            assert(join_seqs(help_keys()[24], " "@) == "account"@ + " "@ + "logout"@);
            assert(command_path_text(help_keys()[24]) =~= leaf_help_paths()[19]);
        }
        assert(plain_words(help_keys()[24])) by {
            reveal_strlit("account");
            reveal_strlit("logout");
        }
    } else if j == 25 {
        assert(all_help_paths()[28] == leaf_help_paths()[20]);
        assert(command_path_text(help_keys()[25]) == leaf_help_paths()[20]) by {
            reveal_strlit("telegram-agent-cli ");
            reveal_strlit("alias");
            reveal_strlit("set");
            reveal_strlit("telegram-agent-cli alias set");
            reveal_strlit(" ");
            let key = help_keys()[25];
            assert(key == seq!["alias"@, "set"@]);
            assert(key.drop_last() =~= seq!["alias"@]);
            assert(join_seqs(key.drop_last(), " "@) == "alias"@);
            assert(join_seqs(help_keys()[25], " "@) == "alias"@ + " "@ + "set"@);
            assert(command_path_text(help_keys()[25]) =~= leaf_help_paths()[20]);
        }
        assert(plain_words(help_keys()[25])) by {
            reveal_strlit("alias");
            reveal_strlit("set");
        }
    } else if j == 26 {
        assert(all_help_paths()[29] == leaf_help_paths()[21]);
        assert(command_path_text(help_keys()[26]) == leaf_help_paths()[21]) by {
            reveal_strlit("telegram-agent-cli ");
            reveal_strlit("alias");
            reveal_strlit("list");
            reveal_strlit("telegram-agent-cli alias list");
            reveal_strlit(" ");
            let key = help_keys()[26];
            assert(key == seq!["alias"@, "list"@]);
            assert(key.drop_last() =~= seq!["alias"@]);
            assert(join_seqs(key.drop_last(), " "@) == "alias"@);
            assert(join_seqs(help_keys()[26], " "@) == "alias"@ + " "@ + "list"@);
            assert(command_path_text(help_keys()[26]) =~= leaf_help_paths()[21]);
        }
        assert(plain_words(help_keys()[26])) by {
            reveal_strlit("alias");
            reveal_strlit("list");
        }
    } else if j == 27 {
        assert(all_help_paths()[30] == leaf_help_paths()[22]);
        assert(command_path_text(help_keys()[27]) == leaf_help_paths()[22]) by {
            reveal_strlit("telegram-agent-cli ");
            reveal_strlit("peer");
            reveal_strlit("resolve");
            reveal_strlit("telegram-agent-cli peer resolve");
            reveal_strlit(" ");
            let key = help_keys()[27];
            assert(key == seq!["peer"@, "resolve"@]);
            assert(key.drop_last() =~= seq!["peer"@]);
            assert(join_seqs(key.drop_last(), " "@) == "peer"@);
            assert(join_seqs(help_keys()[27], " "@) == "peer"@ + " "@ + "resolve"@);
            assert(command_path_text(help_keys()[27]) =~= leaf_help_paths()[22]);
        }
        assert(plain_words(help_keys()[27])) by {
            reveal_strlit("peer");
            reveal_strlit("resolve");
        }
    } else if j == 28 {
        assert(all_help_paths()[31] == leaf_help_paths()[23]);
        assert(command_path_text(help_keys()[28]) == leaf_help_paths()[23]) by {
            reveal_strlit("telegram-agent-cli ");
            reveal_strlit("list");
            reveal_strlit("contacts");
            reveal_strlit("telegram-agent-cli list contacts");
            reveal_strlit(" ");
            let key = help_keys()[28];
            assert(key == seq!["list"@, "contacts"@]);
            assert(key.drop_last() =~= seq!["list"@]);
            assert(join_seqs(key.drop_last(), " "@) == "list"@);
            assert(join_seqs(help_keys()[28], " "@) == "list"@ + " "@ + "contacts"@);
            assert(command_path_text(help_keys()[28]) =~= leaf_help_paths()[23]);
        }
        assert(plain_words(help_keys()[28])) by {
            reveal_strlit("list");
            reveal_strlit("contacts");
        }
    } else if j == 29 {
        assert(all_help_paths()[32] == leaf_help_paths()[24]);
        assert(command_path_text(help_keys()[29]) == leaf_help_paths()[24]) by {
            reveal_strlit("telegram-agent-cli ");
            reveal_strlit("list");
            reveal_strlit("chats");
            reveal_strlit("telegram-agent-cli list chats");
            reveal_strlit(" ");
            let key = help_keys()[29];
            assert(key == seq!["list"@, "chats"@]);
            assert(key.drop_last() =~= seq!["list"@]);
            assert(join_seqs(key.drop_last(), " "@) == "list"@);
            assert(join_seqs(help_keys()[29], " "@) == "list"@ + " "@ + "chats"@);
            assert(command_path_text(help_keys()[29]) =~= leaf_help_paths()[24]);
        }
        assert(plain_words(help_keys()[29])) by {
            reveal_strlit("list");
            reveal_strlit("chats");
        }
    } else if j == 30 {
        assert(all_help_paths()[33] == leaf_help_paths()[25]);
        assert(command_path_text(help_keys()[30]) == leaf_help_paths()[25]) by {
            reveal_strlit("telegram-agent-cli ");
            reveal_strlit("message");
            reveal_strlit("click-button");
            reveal_strlit("telegram-agent-cli message click-button");
            reveal_strlit(" ");
            let key = help_keys()[30];
            assert(key == seq!["message"@, "click-button"@]);
            assert(key.drop_last() =~= seq!["message"@]);
            assert(join_seqs(key.drop_last(), " "@) == "message"@);
            assert(join_seqs(help_keys()[30], " "@) == "message"@ + " "@ + "click-button"@);
            assert(command_path_text(help_keys()[30]) =~= leaf_help_paths()[25]);
        }
        assert(plain_words(help_keys()[30])) by {
            reveal_strlit("message");
            reveal_strlit("click-button");
        }
    } else if j == 31 {
        assert(all_help_paths()[34] == leaf_help_paths()[26]);
        assert(command_path_text(help_keys()[31]) == leaf_help_paths()[26]) by {
            reveal_strlit("telegram-agent-cli ");
            reveal_strlit("message");
            reveal_strlit("list-actions");
            reveal_strlit("telegram-agent-cli message list-actions");
            reveal_strlit(" ");
            let key = help_keys()[31];
            assert(key == seq!["message"@, "list-actions"@]);
            assert(key.drop_last() =~= seq!["message"@]);
            assert(join_seqs(key.drop_last(), " "@) == "message"@);
            assert(join_seqs(help_keys()[31], " "@) == "message"@ + " "@ + "list-actions"@);
            assert(command_path_text(help_keys()[31]) =~= leaf_help_paths()[26]);
        }
        assert(plain_words(help_keys()[31])) by {
            reveal_strlit("message");
            reveal_strlit("list-actions");
        }
    } else if j == 32 {
        assert(all_help_paths()[35] == leaf_help_paths()[27]);
        assert(command_path_text(help_keys()[32]) == leaf_help_paths()[27]) by {
            reveal_strlit("telegram-agent-cli ");
            reveal_strlit("message");
            reveal_strlit("trigger-action");
            reveal_strlit("telegram-agent-cli message trigger-action");
            reveal_strlit(" ");
            let key = help_keys()[32];
            assert(key == seq!["message"@, "trigger-action"@]);
            assert(key.drop_last() =~= seq!["message"@]);
            assert(join_seqs(key.drop_last(), " "@) == "message"@);
            assert(join_seqs(help_keys()[32], " "@) == "message"@ + " "@ + "trigger-action"@);
            assert(command_path_text(help_keys()[32]) =~= leaf_help_paths()[27]);
        }
        assert(plain_words(help_keys()[32])) by {
            reveal_strlit("message");
            reveal_strlit("trigger-action");
        }
    } else if j == 33 {
        assert(all_help_paths()[36] == leaf_help_paths()[28]);
        assert(command_path_text(help_keys()[33]) == leaf_help_paths()[28]) by {
            reveal_strlit("telegram-agent-cli ");
            reveal_strlit("message");
            reveal_strlit("recv");
            reveal_strlit("telegram-agent-cli message recv");
            reveal_strlit(" ");
            let key = help_keys()[33];
            assert(key == seq!["message"@, "recv"@]);
            assert(key.drop_last() =~= seq!["message"@]);
            assert(join_seqs(key.drop_last(), " "@) == "message"@);
            assert(join_seqs(help_keys()[33], " "@) == "message"@ + " "@ + "recv"@);
            assert(command_path_text(help_keys()[33]) =~= leaf_help_paths()[28]);
        }
        assert(plain_words(help_keys()[33])) by {
            reveal_strlit("message");
            reveal_strlit("recv");
        }
    } else if j == 34 {
        assert(all_help_paths()[37] == leaf_help_paths()[29]);
        assert(command_path_text(help_keys()[34]) == leaf_help_paths()[29]) by {
            reveal_strlit("telegram-agent-cli ");
            reveal_strlit("message");
            reveal_strlit("follow");
            reveal_strlit("telegram-agent-cli message follow");
            reveal_strlit(" ");
            let key = help_keys()[34];
            assert(key == seq!["message"@, "follow"@]);
            assert(key.drop_last() =~= seq!["message"@]);
            assert(join_seqs(key.drop_last(), " "@) == "message"@);
            assert(join_seqs(help_keys()[34], " "@) == "message"@ + " "@ + "follow"@);
            assert(command_path_text(help_keys()[34]) =~= leaf_help_paths()[29]);
        }
        assert(plain_words(help_keys()[34])) by {
            reveal_strlit("message");
            reveal_strlit("follow");
        }
    } else if j == 35 {
        assert(all_help_paths()[38] == leaf_help_paths()[30]);
        assert(command_path_text(help_keys()[35]) == leaf_help_paths()[30]) by {
            reveal_strlit("telegram-agent-cli ");
            reveal_strlit("message");
            reveal_strlit("wait");
            reveal_strlit("telegram-agent-cli message wait");
            reveal_strlit(" ");
            let key = help_keys()[35];
            assert(key == seq!["message"@, "wait"@]);
            assert(key.drop_last() =~= seq!["message"@]);
            assert(join_seqs(key.drop_last(), " "@) == "message"@);
            assert(join_seqs(help_keys()[35], " "@) == "message"@ + " "@ + "wait"@);
            assert(command_path_text(help_keys()[35]) =~= leaf_help_paths()[30]);
        }
        assert(plain_words(help_keys()[35])) by {
            reveal_strlit("message");
            reveal_strlit("wait");
        }
    } else if j == 36 {
        assert(all_help_paths()[39] == leaf_help_paths()[31]);
        assert(command_path_text(help_keys()[36]) == leaf_help_paths()[31]) by {
            reveal_strlit("telegram-agent-cli ");
            reveal_strlit("message");
            reveal_strlit("unread");
            reveal_strlit("telegram-agent-cli message unread");
            reveal_strlit(" ");
            let key = help_keys()[36];
            assert(key == seq!["message"@, "unread"@]);
            assert(key.drop_last() =~= seq!["message"@]);
            assert(join_seqs(key.drop_last(), " "@) == "message"@);
            assert(join_seqs(help_keys()[36], " "@) == "message"@ + " "@ + "unread"@);
            assert(command_path_text(help_keys()[36]) =~= leaf_help_paths()[31]);
        }
        assert(plain_words(help_keys()[36])) by {
            reveal_strlit("message");
            reveal_strlit("unread");
        }
    } else if j == 37 {
        assert(all_help_paths()[40] == leaf_help_paths()[32]);
        assert(command_path_text(help_keys()[37]) == leaf_help_paths()[32]) by {
            reveal_strlit("telegram-agent-cli ");
            reveal_strlit("message");
            reveal_strlit("forward");
            reveal_strlit("telegram-agent-cli message forward");
            reveal_strlit(" ");
            let key = help_keys()[37];
            assert(key == seq!["message"@, "forward"@]);
            assert(key.drop_last() =~= seq!["message"@]);
            assert(join_seqs(key.drop_last(), " "@) == "message"@);
            assert(join_seqs(help_keys()[37], " "@) == "message"@ + " "@ + "forward"@);
            assert(command_path_text(help_keys()[37]) =~= leaf_help_paths()[32]);
        }
        assert(plain_words(help_keys()[37])) by {
            reveal_strlit("message");
            reveal_strlit("forward");
        }
    } else if j == 38 {
        assert(all_help_paths()[41] == leaf_help_paths()[33]);
        assert(command_path_text(help_keys()[38]) == leaf_help_paths()[33]) by {
            reveal_strlit("telegram-agent-cli ");
            reveal_strlit("message");
            reveal_strlit("edit");
            reveal_strlit("telegram-agent-cli message edit");
            reveal_strlit(" ");
            let key = help_keys()[38];
            assert(key == seq!["message"@, "edit"@]);
            assert(key.drop_last() =~= seq!["message"@]);
            assert(join_seqs(key.drop_last(), " "@) == "message"@);
            assert(join_seqs(help_keys()[38], " "@) == "message"@ + " "@ + "edit"@);
            assert(command_path_text(help_keys()[38]) =~= leaf_help_paths()[33]);
        }
        assert(plain_words(help_keys()[38])) by {
            reveal_strlit("message");
            reveal_strlit("edit");
        }
    } else if j == 39 {
        assert(all_help_paths()[42] == leaf_help_paths()[34]);
        assert(command_path_text(help_keys()[39]) == leaf_help_paths()[34]) by {
            reveal_strlit("telegram-agent-cli ");
            reveal_strlit("message");
            reveal_strlit("pin");
            reveal_strlit("telegram-agent-cli message pin");
            reveal_strlit(" ");
            let key = help_keys()[39];
            assert(key == seq!["message"@, "pin"@]);
            assert(key.drop_last() =~= seq!["message"@]);
            assert(join_seqs(key.drop_last(), " "@) == "message"@);
            assert(join_seqs(help_keys()[39], " "@) == "message"@ + " "@ + "pin"@);
            assert(command_path_text(help_keys()[39]) =~= leaf_help_paths()[34]);
        }
        assert(plain_words(help_keys()[39])) by {
            reveal_strlit("message");
            reveal_strlit("pin");
        }
    } else if j == 40 {
        assert(all_help_paths()[43] == leaf_help_paths()[35]);
        assert(command_path_text(help_keys()[40]) == leaf_help_paths()[35]) by {
            reveal_strlit("telegram-agent-cli ");
            reveal_strlit("message");
            reveal_strlit("unpin");
            reveal_strlit("telegram-agent-cli message unpin");
            reveal_strlit(" ");
            let key = help_keys()[40];
            assert(key == seq!["message"@, "unpin"@]);
            assert(key.drop_last() =~= seq!["message"@]);
            assert(join_seqs(key.drop_last(), " "@) == "message"@);
            assert(join_seqs(help_keys()[40], " "@) == "message"@ + " "@ + "unpin"@);
            assert(command_path_text(help_keys()[40]) =~= leaf_help_paths()[35]);
        }
        assert(plain_words(help_keys()[40])) by {
            reveal_strlit("message");
            reveal_strlit("unpin");
        }
    } else if j == 41 {
        assert(all_help_paths()[44] == leaf_help_paths()[36]);
        assert(command_path_text(help_keys()[41]) == leaf_help_paths()[36]) by {
            reveal_strlit("telegram-agent-cli ");
            reveal_strlit("message");
            reveal_strlit("download");
            reveal_strlit("telegram-agent-cli message download");
            reveal_strlit(" ");
            let key = help_keys()[41];
            assert(key == seq!["message"@, "download"@]);
            assert(key.drop_last() =~= seq!["message"@]);
            assert(join_seqs(key.drop_last(), " "@) == "message"@);
            assert(join_seqs(help_keys()[41], " "@) == "message"@ + " "@ + "download"@);
            assert(command_path_text(help_keys()[41]) =~= leaf_help_paths()[36]);
        }
        assert(plain_words(help_keys()[41])) by {
            reveal_strlit("message");
            reveal_strlit("download");
        }
    } else if j == 42 {
        assert(all_help_paths()[46] == leaf_help_paths()[38]);
        assert(command_path_text(help_keys()[42]) == leaf_help_paths()[38]) by {
            reveal_strlit("telegram-agent-cli ");
            reveal_strlit("bot");
            reveal_strlit("set-commands");
            reveal_strlit("telegram-agent-cli bot set-commands");
            reveal_strlit(" ");
            let key = help_keys()[42];
            assert(key == seq!["bot"@, "set-commands"@]);
            assert(key.drop_last() =~= seq!["bot"@]);
            assert(join_seqs(key.drop_last(), " "@) == "bot"@);
            assert(join_seqs(help_keys()[42], " "@) == "bot"@ + " "@ + "set-commands"@);
            assert(command_path_text(help_keys()[42]) =~= leaf_help_paths()[38]);
        }
        assert(plain_words(help_keys()[42])) by {
            reveal_strlit("bot");
            reveal_strlit("set-commands");
        }
    } else if j == 43 {
        assert(all_help_paths()[47] == leaf_help_paths()[39]);
        assert(command_path_text(help_keys()[43]) == leaf_help_paths()[39]) by {
            reveal_strlit("telegram-agent-cli ");
            reveal_strlit("bot");
            reveal_strlit("set-info");
            reveal_strlit("telegram-agent-cli bot set-info");
            reveal_strlit(" ");
            let key = help_keys()[43];
            assert(key == seq!["bot"@, "set-info"@]);
            assert(key.drop_last() =~= seq!["bot"@]);
            assert(join_seqs(key.drop_last(), " "@) == "bot"@);
            assert(join_seqs(help_keys()[43], " "@) == "bot"@ + " "@ + "set-info"@);
            assert(command_path_text(help_keys()[43]) =~= leaf_help_paths()[39]);
        }
        assert(plain_words(help_keys()[43])) by {
            reveal_strlit("bot");
            reveal_strlit("set-info");
        }
    } else if j == 44 {
        assert(all_help_paths()[18] == leaf_help_paths()[10]);
        assert(command_path_text(help_keys()[44]) == leaf_help_paths()[10]) by {
            reveal_strlit("telegram-agent-cli ");
            reveal_strlit("daemon");
            reveal_strlit("start");
            reveal_strlit("telegram-agent-cli daemon start");
            reveal_strlit(" ");
            let key = help_keys()[44];
            assert(key == seq!["daemon"@, "start"@]);
            assert(key.drop_last() =~= seq!["daemon"@]);
            assert(join_seqs(key.drop_last(), " "@) == "daemon"@);
            assert(join_seqs(help_keys()[44], " "@) == "daemon"@ + " "@ + "start"@);
            assert(command_path_text(help_keys()[44]) =~= leaf_help_paths()[10]);
        }
        assert(plain_words(help_keys()[44])) by {
            reveal_strlit("daemon");
            reveal_strlit("start");
        }
    } else if j == 45 {
        assert(all_help_paths()[19] == leaf_help_paths()[11]);
        assert(command_path_text(help_keys()[45]) == leaf_help_paths()[11]) by {
            reveal_strlit("telegram-agent-cli ");
            reveal_strlit("daemon");
            reveal_strlit("stop");
            reveal_strlit("telegram-agent-cli daemon stop");
            reveal_strlit(" ");
            let key = help_keys()[45];
            assert(key == seq!["daemon"@, "stop"@]);
            assert(key.drop_last() =~= seq!["daemon"@]);
            assert(join_seqs(key.drop_last(), " "@) == "daemon"@);
            assert(join_seqs(help_keys()[45], " "@) == "daemon"@ + " "@ + "stop"@);
            assert(command_path_text(help_keys()[45]) =~= leaf_help_paths()[11]);
        }
        assert(plain_words(help_keys()[45])) by {
            reveal_strlit("daemon");
            reveal_strlit("stop");
        }
    } else if j == 46 {
        assert(all_help_paths()[20] == leaf_help_paths()[12]);
        assert(command_path_text(help_keys()[46]) == leaf_help_paths()[12]) by {
            reveal_strlit("telegram-agent-cli ");
            reveal_strlit("daemon");
            reveal_strlit("restart");
            reveal_strlit("telegram-agent-cli daemon restart");
            reveal_strlit(" ");
            let key = help_keys()[46];
            assert(key == seq!["daemon"@, "restart"@]);
            assert(key.drop_last() =~= seq!["daemon"@]);
            assert(join_seqs(key.drop_last(), " "@) == "daemon"@);
            assert(join_seqs(help_keys()[46], " "@) == "daemon"@ + " "@ + "restart"@);
            assert(command_path_text(help_keys()[46]) =~= leaf_help_paths()[12]);
        }
        assert(plain_words(help_keys()[46])) by {
            reveal_strlit("daemon");
            reveal_strlit("restart");
        }
    } else if j == 47 {
        assert(all_help_paths()[21] == leaf_help_paths()[13]);
        assert(command_path_text(help_keys()[47]) == leaf_help_paths()[13]) by {
            reveal_strlit("telegram-agent-cli ");
            reveal_strlit("daemon");
            reveal_strlit("status");
            reveal_strlit("telegram-agent-cli daemon status");
            reveal_strlit(" ");
            let key = help_keys()[47];
            assert(key == seq!["daemon"@, "status"@]);
            assert(key.drop_last() =~= seq!["daemon"@]);
            assert(join_seqs(key.drop_last(), " "@) == "daemon"@);
            assert(join_seqs(help_keys()[47], " "@) == "daemon"@ + " "@ + "status"@);
            assert(command_path_text(help_keys()[47]) =~= leaf_help_paths()[13]);
        }
        assert(plain_words(help_keys()[47])) by {
            reveal_strlit("daemon");
            reveal_strlit("status");
        }
    }
}

/// Each entry of `all_help_paths` is the command path of its help key.
proof fn lemma_help_entry_key(i: int)
    requires
        0 <= i < all_help_paths().len(),
    ensures
        0 <= help_entry_keys()[i] < help_keys().len(),
        help_key_targets()[help_entry_keys()[i]] == i,
{
    assert(all_help_paths().len() == 48);
    if i == 0 {
        assert(help_entry_keys()[0] == 1 && help_key_targets()[1] == 0);
    } else if i == 1 {
        assert(help_entry_keys()[1] == 2 && help_key_targets()[2] == 1);
    } else if i == 2 {
        assert(help_entry_keys()[2] == 3 && help_key_targets()[3] == 2);
    } else if i == 3 {
        assert(help_entry_keys()[3] == 4 && help_key_targets()[4] == 3);
    } else if i == 4 {
        assert(help_entry_keys()[4] == 5 && help_key_targets()[5] == 4);
    } else if i == 5 {
        assert(help_entry_keys()[5] == 6 && help_key_targets()[6] == 5);
    } else if i == 6 {
        assert(help_entry_keys()[6] == 16 && help_key_targets()[16] == 6);
    } else if i == 7 {
        assert(help_entry_keys()[7] == 17 && help_key_targets()[17] == 7);
    } else if i == 8 {
        assert(help_entry_keys()[8] == 0 && help_key_targets()[0] == 8);
    } else if i == 9 {
        assert(help_entry_keys()[9] == 18 && help_key_targets()[18] == 9);
    } else if i == 10 {
        assert(help_entry_keys()[10] == 7 && help_key_targets()[7] == 10);
    } else if i == 11 {
        assert(help_entry_keys()[11] == 8 && help_key_targets()[8] == 11);
    } else if i == 12 {
        assert(help_entry_keys()[12] == 9 && help_key_targets()[9] == 12);
    } else if i == 13 {
        assert(help_entry_keys()[13] == 10 && help_key_targets()[10] == 13);
    } else if i == 14 {
        assert(help_entry_keys()[14] == 11 && help_key_targets()[11] == 14);
    } else if i == 15 {
        assert(help_entry_keys()[15] == 12 && help_key_targets()[12] == 15);
    } else if i == 16 {
        assert(help_entry_keys()[16] == 13 && help_key_targets()[13] == 16);
    } else if i == 17 {
        assert(help_entry_keys()[17] == 14 && help_key_targets()[14] == 17);
    } else if i == 18 {
        assert(help_entry_keys()[18] == 44 && help_key_targets()[44] == 18);
    } else if i == 19 {
        assert(help_entry_keys()[19] == 45 && help_key_targets()[45] == 19);
    } else if i == 20 {
        assert(help_entry_keys()[20] == 46 && help_key_targets()[46] == 20);
    } else if i == 21 {
        assert(help_entry_keys()[21] == 47 && help_key_targets()[47] == 21);
    } else if i == 22 {
        assert(help_entry_keys()[22] == 19 && help_key_targets()[19] == 22);
    } else if i == 23 {
        assert(help_entry_keys()[23] == 20 && help_key_targets()[20] == 23);
    } else if i == 24 {
        assert(help_entry_keys()[24] == 21 && help_key_targets()[21] == 24);
    } else if i == 25 {
        assert(help_entry_keys()[25] == 22 && help_key_targets()[22] == 25);
    } else if i == 26 {
        assert(help_entry_keys()[26] == 23 && help_key_targets()[23] == 26);
    } else if i == 27 {
        assert(help_entry_keys()[27] == 24 && help_key_targets()[24] == 27);
    } else if i == 28 {
        assert(help_entry_keys()[28] == 25 && help_key_targets()[25] == 28);
    } else if i == 29 {
        assert(help_entry_keys()[29] == 26 && help_key_targets()[26] == 29);
    } else if i == 30 {
        assert(help_entry_keys()[30] == 27 && help_key_targets()[27] == 30);
    } else if i == 31 {
        assert(help_entry_keys()[31] == 28 && help_key_targets()[28] == 31);
    } else if i == 32 {
        assert(help_entry_keys()[32] == 29 && help_key_targets()[29] == 32);
    } else if i == 33 {
        assert(help_entry_keys()[33] == 30 && help_key_targets()[30] == 33);
    } else if i == 34 {
        assert(help_entry_keys()[34] == 31 && help_key_targets()[31] == 34);
    } else if i == 35 {
        assert(help_entry_keys()[35] == 32 && help_key_targets()[32] == 35);
    } else if i == 36 {
        assert(help_entry_keys()[36] == 33 && help_key_targets()[33] == 36);
    } else if i == 37 {
        assert(help_entry_keys()[37] == 34 && help_key_targets()[34] == 37);
    } else if i == 38 {
        assert(help_entry_keys()[38] == 35 && help_key_targets()[35] == 38);
    } else if i == 39 {
        assert(help_entry_keys()[39] == 36 && help_key_targets()[36] == 39);
    } else if i == 40 {
        assert(help_entry_keys()[40] == 37 && help_key_targets()[37] == 40);
    } else if i == 41 {
        assert(help_entry_keys()[41] == 38 && help_key_targets()[38] == 41);
    } else if i == 42 {
        assert(help_entry_keys()[42] == 39 && help_key_targets()[39] == 42);
    } else if i == 43 {
        assert(help_entry_keys()[43] == 40 && help_key_targets()[40] == 43);
    } else if i == 44 {
        assert(help_entry_keys()[44] == 41 && help_key_targets()[41] == 44);
    } else if i == 45 {
        assert(help_entry_keys()[45] == 15 && help_key_targets()[15] == 45);
    } else if i == 46 {
        assert(help_entry_keys()[46] == 42 && help_key_targets()[42] == 46);
    } else if i == 47 {
        assert(help_entry_keys()[47] == 43 && help_key_targets()[43] == 47);
    }
}

/// Law: the command words of every help key have help guidance of the kind
/// its table gives, with texts: group guidance for a group path, leaf
/// guidance for a leaf path.
pub proof fn law_help_keys_have_guidance(j: int)
    requires
        0 <= j < help_keys().len(),
    ensures
        spec_help_text(help_keys()[j]) is Some,
        group_help_paths().contains(command_path_text(help_keys()[j]))
            ==> spec_help_kind(help_keys()[j]) == Some(GuidanceKind::CommandGroupHelp),
        leaf_help_paths().contains(command_path_text(help_keys()[j]))
            ==> spec_help_kind(help_keys()[j]) == Some(GuidanceKind::LeafHelp),
        group_help_paths().contains(command_path_text(help_keys()[j]))
            || leaf_help_paths().contains(command_path_text(help_keys()[j])),
{
    let path = help_keys()[j];
    let cp = command_path_text(path);
    lemma_help_key_path(j);
    let t = help_key_targets()[j];
    lemma_help_path_index(t);
    assert(help_keys().contains(path));
    assert(path.len() > 0);
    if t < 8 {
        assert(group_help_paths()[t] == all_help_paths()[t]);
        assert(group_help_paths().contains(cp));
        if leaf_help_paths().contains(cp) {
            let k = choose|k: int| 0 <= k < leaf_help_paths().len() && leaf_help_paths()[k] == cp;
            assert(all_help_paths()[k + 8] == leaf_help_paths()[k]);
            lemma_help_path_index(k + 8);
        }
    } else {
        assert(leaf_help_paths()[t - 8] == all_help_paths()[t]);
        assert(leaf_help_paths().contains(cp));
        if group_help_paths().contains(cp) {
            let i = choose|i: int| 0 <= i < group_help_paths().len() && group_help_paths()[i] == cp;
            assert(all_help_paths()[i] == group_help_paths()[i]);
            lemma_help_path_index(i);
        }
    }
    law_help_summary_nonempty(path);
}

/// Law: every group or leaf entry of the help tables is reached by the words
/// of its command path (the path after `telegram-agent-cli`, split at each
/// space), and the help surface of those words has the entry's command path
/// and kind.
pub proof fn law_help_entries_reachable(i: int)
    requires
        0 <= i < all_help_paths().len(),
    ensures
        exists|j: int| 0 <= j < help_keys().len()
            && #[trigger] command_path_text(help_keys()[j]) == all_help_paths()[i]
            && plain_words(help_keys()[j])
            && spec_help_kind(help_keys()[j]) == Some(if i < group_help_paths().len() {
                GuidanceKind::CommandGroupHelp
            } else {
                GuidanceKind::LeafHelp
            })
            && spec_help_text(help_keys()[j]) is Some,
{
    lemma_help_entry_key(i);
    let j = help_entry_keys()[i];
    lemma_help_key_path(j);
    law_help_keys_have_guidance(j);
    if i < 8 {
        assert(all_help_paths()[i] == group_help_paths()[i]);
        assert(group_help_paths().contains(all_help_paths()[i]));
    } else {
        assert(all_help_paths()[i] == leaf_help_paths()[i - 8]);
        assert(leaf_help_paths().contains(all_help_paths()[i]));
    }
}

/// Law: every command path with help guidance has help texts, and their
/// summary is never empty.
pub proof fn law_help_summary_nonempty(path: Seq<Seq<char>>)
    requires
        spec_help_kind(path) is Some,
    ensures
        spec_help_text(path) is Some,
        spec_help_text(path)->0.summary.len() > 0,
{
    let cp = command_path_text(path);
    if path.len() == 0 {
        lemma_top_level_summary();
    } else if group_help_paths().contains(cp) {
        let k = choose|k: int| 0 <= k < group_help_paths().len() && group_help_paths()[k] == cp;
        lemma_group_found(0, k, cp);
    } else {
        let k = choose|k: int| 0 <= k < leaf_help_paths().len() && leaf_help_paths()[k] == cp;
        lemma_leaf_found(0, k, cp);
    }
}

/// The help surface of a command path: top-level for no words, else the group
/// or leaf guidance of the command the words name.
pub fn help_surface_for_path(path: &[String]) -> (r: Option<GuidanceSurface>)
    ensures
        r is Some <==> spec_help_kind(views(path@)) is Some,
        r is Some ==> r->0.guidance_kind == spec_help_kind(views(path@))->0
            && r->0.command_path is Some && r->0.command_path->0@ == command_path_text(views(path@))
            && r->0.status is None
            && spec_help_text(views(path@)) == Some(surface_text(r->0)),
{
    if path.len() == 0 {
        let r = top_level_surface(&top_level_help_metadata());
        assert(views(r.examples@) =~= Seq::<Seq<char>>::empty());
        assert(views(r.related_terms@) =~= Seq::<Seq<char>>::empty());
        assert(views(r.related_commands@) =~= Seq::<Seq<char>>::empty());
        return Some(r);
    }
    let command_path = match help_command_path_for_key(path) {
        Some(p) => p,
        None => {
            return None;
        },
    };
    match command_group_help_metadata(command_path.as_str()) {
        Some(m) => {
            let r = group_surface(&m);
            assert(views(r.examples@) =~= Seq::<Seq<char>>::empty());
            assert(views(r.related_terms@) =~= Seq::<Seq<char>>::empty());
            return Some(r);
        },
        None => {},
    }
    match leaf_help_metadata(command_path.as_str()) {
        Some(m) => {
            let r = leaf_surface(&m);
            assert(views(r.related_terms@) =~= Seq::<Seq<char>>::empty());
            Some(r)
        },
        None => None,
    }
}

/// Whether a command path has leaf guidance.
pub fn is_leaf_help_path(path: &[String]) -> (r: bool)
    ensures
        r == (spec_help_kind(views(path@)) == Some(GuidanceKind::LeafHelp)),
{
    match help_surface_for_path(path) {
        Some(surface) => match surface.guidance_kind {
            GuidanceKind::LeafHelp => true,
            _ => false,
        },
        None => false,
    }
}

// ---------------------------------------------------------------------------
// Reading command lines
// ---------------------------------------------------------------------------

/// An argument that starts with `-`.
pub open spec fn is_flag(a: Seq<char>) -> bool {
    a.len() > 0 && a[0] == '-'
}

/// The positional words of `args[i..]`: flags are skipped, and `--format` skips its value too.
pub open spec fn positionals_from(args: Seq<Seq<char>>, i: int) -> Seq<Seq<char>>
    decreases args.len() + 1 - i,
{
    if i < 0 || i >= args.len() {
        Seq::empty()
    } else if args[i] == "--format"@ {
        positionals_from(args, i + 2)
    } else if is_flag(args[i]) {
        positionals_from(args, i + 1)
    } else {
        seq![args[i]] + positionals_from(args, i + 1)
    }
}

/// The words after `help` when the first positional word is `help`.
pub open spec fn spec_explicit_help_path(args: Seq<Seq<char>>) -> Option<Seq<Seq<char>>> {
    let p = positionals_from(args, 0);
    if p.len() > 0 && p[0] == "help"@ {
        Some(p.subrange(1, p.len() as int))
    } else {
        None
    }
}

/// The words before the first `-h`/`--help` in `args[i..]`, appended to `path`.
pub open spec fn help_flag_scan(args: Seq<Seq<char>>, i: int, path: Seq<Seq<char>>) -> Option<Seq<Seq<char>>>
    decreases args.len() + 1 - i,
{
    if i < 0 || i >= args.len() {
        None
    } else if args[i] == "-h"@ || args[i] == "--help"@ {
        Some(path)
    } else if args[i] == "--format"@ {
        help_flag_scan(args, i + 2, path)
    } else if is_flag(args[i]) {
        help_flag_scan(args, i + 1, path)
    } else {
        help_flag_scan(args, i + 1, path.push(args[i]))
    }
}

/// The command path that a command line asks help for, if it asks for help.
pub open spec fn spec_maybe_help_path(args: Seq<Seq<char>>) -> Option<Seq<Seq<char>>> {
    if args.len() == 0 {
        None
    } else if spec_explicit_help_path(args) is Some {
        spec_explicit_help_path(args)
    } else {
        help_flag_scan(args, 0, Seq::empty())
    }
}

/// The index of the first command word in `args[i..]`.
pub open spec fn first_command_index(args: Seq<Seq<char>>, i: int) -> Option<int>
    decreases args.len() + 1 - i,
{
    if i < 0 || i >= args.len() {
        None
    } else if args[i] == "--format"@ {
        first_command_index(args, i + 2)
    } else if is_flag(args[i]) {
        first_command_index(args, i + 1)
    } else {
        Some(i)
    }
}

/// The index of the first argument of `args[j..]` that is not a flag.
pub open spec fn first_non_flag_index(args: Seq<Seq<char>>, j: int) -> Option<int>
    decreases args.len() - j,
{
    if j < 0 || j >= args.len() {
        None
    } else if !is_flag(args[j]) {
        Some(j)
    } else {
        first_non_flag_index(args, j + 1)
    }
}

/// The commands whose canonical path includes their subcommand.
pub open spec fn grouped_commands() -> Seq<Seq<char>> {
    seq!["account"@, "alias"@, "bot"@, "list"@, "message"@, "peer"@]
}

/// The canonical command path of a command line.
pub open spec fn spec_canonical_command_path(args: Seq<Seq<char>>) -> Seq<char> {
    match spec_explicit_help_path(args) {
        Some(path) => command_path_text(path),
        None => match first_command_index(args, 0) {
            None => "telegram-agent-cli"@,
            Some(k) => if grouped_commands().contains(args[k]) {
                match first_non_flag_index(args, k + 1) {
                    Some(j) => "telegram-agent-cli "@ + args[k] + " "@ + args[j],
                    None => "telegram-agent-cli "@ + args[k],
                }
            } else {
                "telegram-agent-cli "@ + args[k]
            },
        },
    }
}

/// The longest prefix of the positional words, extended one word at a time,
/// that has help guidance; extension stops at the first leaf command.
pub open spec fn closest_scan(pos: Seq<Seq<char>>, k: int) -> Seq<Seq<char>>
    decreases pos.len() - k,
{
    if k < 0 || k >= pos.len() {
        if 0 <= k <= pos.len() {
            pos.subrange(0, k)
        } else {
            Seq::empty()
        }
    } else if spec_help_kind(pos.subrange(0, k + 1)) is Some {
        if leaf_help_paths().contains(command_path_text(pos.subrange(0, k + 1))) {
            pos.subrange(0, k + 1)
        } else {
            closest_scan(pos, k + 1)
        }
    } else {
        pos.subrange(0, k)
    }
}

/// The closest command path with help guidance for a command line.
pub open spec fn spec_closest_help_path(args: Seq<Seq<char>>) -> Seq<Seq<char>> {
    closest_scan(positionals_from(args, 0), 0)
}

/// Whether the argument is a flag.
fn is_flag_exec(a: &str) -> (r: bool)
    ensures
        r == is_flag(a@),
{
    first_char_is(a, '-')
}

/// The positional words of a command line.
pub fn positional_args(args: &[String]) -> (r: Vec<String>)
    ensures
        views(r@) == positionals_from(views(args@), 0),
{
    let ghost a = views(args@);
    let mut out: Vec<String> = Vec::new();
    let mut i: usize = 0;
    while i < args.len()
        invariant
            a == views(args@),
            i <= args@.len(),
            positionals_from(a, 0) == views(out@) + positionals_from(a, i as int),
        decreases args@.len() - i,
    {
        assert(a[i as int] == args@[i as int]@);
        if str_eq(args[i].as_str(), "--format") {
            if i + 1 < args.len() {
                i = i + 2;
            } else {
                proof {
                    assert(positionals_from(a, i + 2) == Seq::<Seq<char>>::empty());
                    assert(positionals_from(a, args@.len() as int) == Seq::<Seq<char>>::empty());
                }
                i = args.len();
            }
        } else if is_flag_exec(args[i].as_str()) {
            i = i + 1;
        } else {
            let x = owned(args[i].as_str());
            proof {
                crate::text::lemma_views_push(out@, x);
                assert(views(out@).push(x@) + positionals_from(a, i + 1) =~= views(out@) + (
                seq![a[i as int]] + positionals_from(a, i + 1)));
            }
            out.push(x);
            i = i + 1;
        }
    }
    assert(views(out@) + positionals_from(a, i as int) =~= views(out@));
    out
}

/// The words after `help` when the first positional word is `help`.
pub fn explicit_help_subcommand_path(args: &[String]) -> (r: Option<Vec<String>>)
    ensures
        match spec_explicit_help_path(views(args@)) {
            Some(p) => r is Some && views(r->0@) == p,
            None => r is None,
        },
{
    let mut pos = positional_args(args);
    if pos.len() > 0 && str_eq(pos[0].as_str(), "help") {
        let ghost p = views(pos@);
        pos.remove(0);
        assert(views(pos@) =~= p.subrange(1, p.len() as int));
        Some(pos)
    } else {
        None
    }
}

/// The command path a command line asks help for: the words after `help`, or
/// the words before `-h`/`--help`; `None` when it asks for none.
pub fn maybe_help_path(args: &[String]) -> (r: Option<Vec<String>>)
    ensures
        match spec_maybe_help_path(views(args@)) {
            Some(p) => r is Some && views(r->0@) == p,
            None => r is None,
        },
{
    if args.len() == 0 {
        return None;
    }
    match explicit_help_subcommand_path(args) {
        Some(path) => {
            return Some(path);
        },
        None => {},
    }
    let ghost a = views(args@);
    let mut path: Vec<String> = Vec::new();
    let mut i: usize = 0;
    assert(views(path@) =~= Seq::<Seq<char>>::empty());
    while i < args.len()
        invariant
            a == views(args@),
            a.len() > 0,
            spec_explicit_help_path(a) is None,
            i <= args@.len(),
            spec_maybe_help_path(a) == help_flag_scan(a, i as int, views(path@)),
        decreases args@.len() - i,
    {
        let arg = args[i].as_str();
        assert(a[i as int] == arg@);
        if str_eq(arg, "-h") || str_eq(arg, "--help") {
            return Some(path);
        } else if str_eq(arg, "--format") {
            if i + 1 < args.len() {
                i = i + 2;
            } else {
                proof {
                    assert(help_flag_scan(a, i + 2, views(path@)) is None);
                    assert(help_flag_scan(a, args@.len() as int, views(path@)) is None);
                }
                i = args.len();
            }
        } else if is_flag_exec(arg) {
            i = i + 1;
        } else {
            let x = owned(arg);
            proof {
                crate::text::lemma_views_push(path@, x);
            }
            path.push(x);
            i = i + 1;
        }
    }
    None
}

proof fn lemma_first_command_index_bounds(args: Seq<Seq<char>>, i: int)
    ensures
        first_command_index(args, i) matches Some(k) ==> i <= k < args.len() && 0 <= k,
    decreases args.len() + 1 - i,
{
    if 0 <= i < args.len() {
        if args[i] == "--format"@ {
            lemma_first_command_index_bounds(args, i + 2);
        } else if is_flag(args[i]) {
            lemma_first_command_index_bounds(args, i + 1);
        }
    }
}

proof fn lemma_first_non_flag_bounds(args: Seq<Seq<char>>, j: int)
    ensures
        first_non_flag_index(args, j) matches Some(k) ==> j <= k < args.len() && 0 <= k,
    decreases args.len() - j,
{
    if 0 <= j < args.len() && is_flag(args[j]) {
        lemma_first_non_flag_bounds(args, j + 1);
    }
}

/// The position of the first command word of a command line.
fn first_command_position(args: &[String]) -> (r: Option<usize>)
    ensures
        match first_command_index(views(args@), 0) {
            Some(k) => r == Some(k as usize),
            None => r is None,
        },
{
    let ghost a = views(args@);
    let mut i: usize = 0;
    while i < args.len()
        invariant
            a == views(args@),
            i <= args@.len(),
            first_command_index(a, 0) == first_command_index(a, i as int),
        decreases args@.len() - i,
    {
        assert(a[i as int] == args@[i as int]@);
        if str_eq(args[i].as_str(), "--format") {
            if i + 1 < args.len() {
                i = i + 2;
            } else {
                proof {
                    assert(first_command_index(a, i + 2) is None);
                    assert(first_command_index(a, args@.len() as int) is None);
                }
                i = args.len();
            }
        } else if is_flag_exec(args[i].as_str()) {
            i = i + 1;
        } else {
            return Some(i);
        }
    }
    None
}

/// The canonical command path of a command line: `telegram-agent-cli`, its
/// first command word, and for grouped commands the next non-flag word.
pub fn canonical_command_path_from_args(args: &[String]) -> (r: String)
    ensures
        r@ == spec_canonical_command_path(views(args@)),
{
    match explicit_help_subcommand_path(args) {
        Some(path) => {
            return render_command_path(path.as_slice());
        },
        None => {},
    }
    let ghost a = views(args@);
    let command = first_command_position(args);
    proof {
        lemma_first_command_index_bounds(a, 0);
    }
    match command {
        None => owned("telegram-agent-cli"),
        Some(k) => {
            let word = args[k].as_str();
            assert(a[k as int] == word@);
            let grouped = str_eq(word, "account") || str_eq(word, "alias") || str_eq(word, "bot")
                || str_eq(word, "list") || str_eq(word, "message") || str_eq(word, "peer");
            proof {
                reveal_strlit("account");
                reveal_strlit("alias");
                reveal_strlit("bot");
                reveal_strlit("list");
                reveal_strlit("message");
                reveal_strlit("peer");
                if grouped {
                    assert(grouped_commands().contains(a[k as int]));
                } else {
                    assert forall|m: int| 0 <= m < grouped_commands().len() implies grouped_commands()[m] != a[k as int] by {}
                }
            }
            if grouped {
                let mut j: usize = k + 1;
                while j < args.len()
                    invariant
                        a == views(args@),
                        k < j <= args@.len(),
                        word@ == a[k as int],
                        spec_explicit_help_path(a) is None,
                        first_command_index(a, 0) == Some(k as int),
                        grouped_commands().contains(a[k as int]),
                        first_non_flag_index(a, k + 1) == first_non_flag_index(a, j as int),
                    decreases args@.len() - j,
                {
                    assert(a[j as int] == args@[j as int]@);
                    if !is_flag_exec(args[j].as_str()) {
                        let head = concat2("telegram-agent-cli ", word);
                        let head2 = concat2(head.as_str(), " ");
                        let r = concat2(head2.as_str(), args[j].as_str());
                        assert(r@ =~= "telegram-agent-cli "@ + a[k as int] + " "@ + a[j as int]);
                        return r;
                    }
                    j = j + 1;
                }
                assert(first_non_flag_index(a, j as int) is None);
                concat2("telegram-agent-cli ", word)
            } else {
                concat2("telegram-agent-cli ", word)
            }
        },
    }
}

/// The deepest command path with help guidance that a command line reaches.
pub fn closest_help_path_from_args(args: &[String]) -> (r: Vec<String>)
    ensures
        views(r@) == spec_closest_help_path(views(args@)),
{
    let pos = positional_args(args);
    let ghost p = views(pos@);
    let mut current: Vec<String> = Vec::new();
    let mut k: usize = 0;
    assert(views(current@) =~= p.subrange(0, 0));
    while k < pos.len()
        invariant
            p == views(pos@),
            p == positionals_from(views(args@), 0),
            k <= pos@.len(),
            views(current@) == p.subrange(0, k as int),
            closest_scan(p, 0) == closest_scan(p, k as int),
        decreases pos@.len() - k,
    {
        let x = owned(pos[k].as_str());
        proof {
            crate::text::lemma_views_push(current@, x);
        }
        current.push(x);
        assert(views(current@) =~= p.subrange(0, k + 1));
        if help_surface_for_path(current.as_slice()).is_some() {
            let cp = render_command_path(current.as_slice());
            if leaf_help_metadata(cp.as_str()).is_some() {
                assert(closest_scan(p, k as int) == p.subrange(0, k + 1));
                assert(views(current@) == spec_closest_help_path(views(args@)));
                return current;
            }
            assert(closest_scan(p, k as int) == closest_scan(p, k + 1));
        } else {
            current.pop();
            assert(views(current@) =~= p.subrange(0, k as int));
            assert(closest_scan(p, k as int) == p.subrange(0, k as int));
            assert(views(current@) == spec_closest_help_path(views(args@)));
            return current;
        }
        k = k + 1;
    }
    current
}

/// Law: the closest help path is a prefix of the command line's positional
/// words, and it always has a help surface.
pub proof fn law_closest_help_path_has_surface(args: Seq<Seq<char>>)
    ensures
        spec_closest_help_path(args).len() <= positionals_from(args, 0).len(),
        spec_closest_help_path(args) == positionals_from(args, 0).subrange(0, spec_closest_help_path(args).len() as int),
        spec_help_kind(spec_closest_help_path(args)) is Some,
{
    lemma_closest_scan(positionals_from(args, 0), 0);
}

proof fn lemma_closest_scan(pos: Seq<Seq<char>>, k: int)
    requires
        0 <= k <= pos.len(),
        spec_help_kind(pos.subrange(0, k)) is Some,
    ensures
        closest_scan(pos, k).len() <= pos.len(),
        closest_scan(pos, k) == pos.subrange(0, closest_scan(pos, k).len() as int),
        spec_help_kind(closest_scan(pos, k)) is Some,
    decreases pos.len() - k,
{
    if k < pos.len() && spec_help_kind(pos.subrange(0, k + 1)) is Some && !leaf_help_paths().contains(
        command_path_text(pos.subrange(0, k + 1)),
    ) {
        lemma_closest_scan(pos, k + 1);
    }
}

// ---------------------------------------------------------------------------
// Follow-up steps after failures
// ---------------------------------------------------------------------------

/// The step that lists accounts.
pub open spec fn step_account_list() -> Seq<char> {
    "Run telegram-agent-cli account list to inspect configured accounts."@
}

/// The step that chooses the default account.
pub open spec fn step_account_use() -> Seq<char> {
    "Run telegram-agent-cli account use <name> to choose the default account."@
}

/// The step that shows the login flows.
pub open spec fn step_login_help() -> Seq<char> {
    "Run telegram-agent-cli account login --help to inspect supported login flows."@
}

/// The step shown when nothing more specific applies.
pub open spec fn step_generic_help() -> Seq<char> {
    "Use --help on the current command path to inspect prerequisites and examples."@
}

/// The follow-up steps for a runtime failure of a command.
pub open spec fn spec_runtime_error_steps(command_path: Seq<char>, summary: Seq<char>) -> Seq<Seq<char>> {
    let a: Seq<Seq<char>> = if seq_contains(summary, "no default account set"@) {
        seq![step_account_list(), step_account_use()]
    } else {
        Seq::empty()
    };
    let b: Seq<Seq<char>> = if command_path == "telegram-agent-cli account login"@ {
        a.push(step_login_help())
    } else {
        a
    };
    if b.len() == 0 {
        seq![step_generic_help()]
    } else {
        b
    }
}

/// The help command a follow-up step points at.
pub open spec fn spec_step_command(step: Seq<char>) -> Seq<char> {
    if seq_contains(step, "account list"@) {
        "telegram-agent-cli account list"@
    } else if seq_contains(step, "account use"@) {
        "telegram-agent-cli account use <name>"@
    } else if seq_contains(step, "account login --help"@) {
        "telegram-agent-cli account login --help"@
    } else {
        "telegram-agent-cli --help"@
    }
}

/// The follow-up steps for a runtime failure: what to check, given the
/// command path and the failure's summary.
pub fn runtime_error_steps(command_path: &str, summary: &str) -> (r: Vec<String>)
    ensures
        views(r@) == spec_runtime_error_steps(command_path@, summary@),
{
    let mut steps: Vec<String> = Vec::new();
    assert(views(steps@) =~= Seq::<Seq<char>>::empty());
    if str_contains(summary, "no default account set") {
        let x = owned("Run telegram-agent-cli account list to inspect configured accounts.");
        proof { crate::text::lemma_views_push(steps@, x); }
        steps.push(x);
        let y = owned("Run telegram-agent-cli account use <name> to choose the default account.");
        proof { crate::text::lemma_views_push(steps@, y); }
        steps.push(y);
    }
    if str_eq(command_path, "telegram-agent-cli account login") {
        let x = owned("Run telegram-agent-cli account login --help to inspect supported login flows.");
        proof { crate::text::lemma_views_push(steps@, x); }
        steps.push(x);
    }
    if steps.len() == 0 {
        let x = owned("Use --help on the current command path to inspect prerequisites and examples.");
        proof { crate::text::lemma_views_push(steps@, x); }
        steps.push(x);
    }
    steps
}

/// The help command a follow-up step points at.
pub fn step_command(step: &str) -> (r: &'static str)
    ensures
        r@ == spec_step_command(step@),
{
    if str_contains(step, "account list") {
        "telegram-agent-cli account list"
    } else if str_contains(step, "account use") {
        "telegram-agent-cli account use <name>"
    } else if str_contains(step, "account login --help") {
        "telegram-agent-cli account login --help"
    } else {
        "telegram-agent-cli --help"
    }
}

/// The follow-up steps for a runtime failure, as `inspect_help` next steps.
pub fn runtime_error_next_steps(command_path: &str, summary: &str) -> (r: Vec<NextStep>)
    ensures
        r@.len() == spec_runtime_error_steps(command_path@, summary@).len(),
        forall|i: int| 0 <= i < r@.len() ==> (#[trigger] r@[i]).action@ == "inspect_help"@
            && r@[i].command@ == spec_step_command(spec_runtime_error_steps(command_path@, summary@)[i]),
{
    let steps = runtime_error_steps(command_path, summary);
    let ghost want = spec_runtime_error_steps(command_path@, summary@);
    let mut out: Vec<NextStep> = Vec::new();
    let mut i: usize = 0;
    while i < steps.len()
        invariant
            views(steps@) == want,
            i <= steps@.len(),
            out@.len() == i,
            forall|k: int| 0 <= k < i ==> (#[trigger] out@[k]).action@ == "inspect_help"@
                && out@[k].command@ == spec_step_command(want[k]),
        decreases steps@.len() - i,
    {
        assert(want[i as int] == steps@[i as int]@);
        out.push(NextStep::new("inspect_help", step_command(steps[i].as_str())));
        i = i + 1;
    }
    out
}

/// Next steps of kind `next_step`, one per command.
pub fn runtime_steps_to_contract(next_steps: &[&str]) -> (r: Vec<NextStep>)
    ensures
        r@.len() == next_steps@.len(),
        forall|i: int| 0 <= i < r@.len() ==> (#[trigger] r@[i]).action@ == "next_step"@
            && r@[i].command@ == next_steps@[i]@,
{
    let mut out: Vec<NextStep> = Vec::new();
    let mut i: usize = 0;
    while i < next_steps.len()
        invariant
            i <= next_steps@.len(),
            out@.len() == i,
            forall|k: int| 0 <= k < i ==> (#[trigger] out@[k]).action@ == "next_step"@
                && out@[k].command@ == next_steps@[k]@,
        decreases next_steps@.len() - i,
    {
        out.push(NextStep::new("next_step", next_steps[i]));
        i = i + 1;
    }
    out
}

/// The envelope reporting a runtime failure of a command; it is printed in
/// the format the command line asked for.
pub fn runtime_error(command_path: &str, summary: &str, next_steps: &[&str]) -> (r: ResultEnvelope)
    ensures
        r.command@ == command_path@,
        r.status@ == "error"@,
        r.summary@ == "Command failed."@,
        r.data@ == crate::json::Json::Null,
        r.errors@.len() == 1,
        r.errors@[0].code@ == "runtime_error"@,
        r.errors@[0].message@ == summary@,
        r.next_steps@.len() == next_steps@.len(),
        forall|i: int| 0 <= i < r.next_steps@.len() ==> (#[trigger] r.next_steps@[i]).action@ == "next_step"@
            && r.next_steps@[i].command@ == next_steps@[i]@,
{
    ResultEnvelope::error(command_path, "Command failed.", "runtime_error", summary, runtime_steps_to_contract(next_steps))
}

/// The envelope reporting a runtime success of a command with no data.
pub fn runtime_success(command_path: &str, summary: &str, next_steps: &[&str]) -> (r: ResultEnvelope)
    ensures
        r.command@ == command_path@,
        r.status@ == "ok"@,
        r.summary@ == summary@,
        r.data@ == crate::json::Json::Object(Seq::empty()),
        r.errors@.len() == 0,
        r.next_steps@.len() == next_steps@.len(),
        forall|i: int| 0 <= i < r.next_steps@.len() ==> (#[trigger] r.next_steps@[i]).action@ == "next_step"@
            && r.next_steps@[i].command@ == next_steps@[i]@,
{
    let data = JsonValue::empty_object();
    proof {
        assert(crate::output::contract::redact_entries(Seq::empty()) =~= Seq::<(Seq<char>, crate::json::Json)>::empty());
    }
    ResultEnvelope::success(command_path, summary, data, runtime_steps_to_contract(next_steps))
}

// ---------------------------------------------------------------------------
// The REPL surface
// ---------------------------------------------------------------------------

/// When the REPL guidance applies.
pub open spec fn repl_when_to_use() -> Seq<Seq<char>> {
    seq!["Use the REPL after you already know the account and chat you want to exercise."@]
}

/// What to check before entering the REPL.
pub open spec fn repl_prerequisites() -> Seq<Seq<char>> {
    seq!["Ensure the selected account exists and the requested chat can be resolved before entering the REPL."@]
}

/// The REPL's interactive commands, as its help lists them.
pub open spec fn repl_actions() -> Seq<Seq<char>> {
    seq![
        "/send <text>: Send one text message in the active chat."@,
        "/recv [limit]: Inspect recent incoming messages (default 5)."@,
        "/wait <text>: Wait for one incoming message containing the text."@,
        "/actions [msg_id]: Discover inline buttons, keyboards, and bot commands."@,
        "/click <button>: Click an inline button by label or callback data."@,
        "/trigger <action>: Trigger a discovered action by ID or label."@,
        "/unread: Show unread messages in the active chat."@,
        "/help: Show this help."@,
        "/exit: Leave the REPL session."@,
    ]
}

/// The REPL's example inputs.
pub open spec fn repl_examples() -> Seq<Seq<char>> {
    seq![
        "/send /start"@,
        "/recv 5"@,
        "/wait Welcome"@,
        "/actions"@,
        "/click Start"@,
    ]
}

/// The REPL's next steps.
pub open spec fn repl_next_steps() -> Seq<Seq<char>> {
    seq![
        "Run /help whenever you need to rediscover the interactive commands."@,
        "Run /exit to close the REPL when the session is complete."@,
    ]
}

/// The commands related to the REPL.
pub open spec fn repl_related_commands() -> Seq<Seq<char>> {
    seq![
        "telegram-agent-cli send --help"@,
        "telegram-agent-cli message recv --help"@,
        "telegram-agent-cli message wait --help"@,
    ]
}

/// The guidance of the interactive REPL: its commands, examples and next steps.
pub fn repl_surface() -> (r: GuidanceSurface)
    ensures
        r.guidance_kind == GuidanceKind::ReplHelp,
        r.command_path is Some && r.command_path->0@ == "telegram-agent-cli repl"@,
        r.summary@ == "Use the interactive chat REPL to send messages, inspect replies, and test bot behavior in one session."@,
        views(r.when_to_use@) == repl_when_to_use(),
        views(r.prerequisites@) == repl_prerequisites(),
        views(r.actions@) == repl_actions(),
        views(r.examples@) == repl_examples(),
        views(r.next_steps@) == repl_next_steps(),
        r.related_terms@.len() == 0,
        views(r.related_commands@) == repl_related_commands(),
        r.status is None,
{
    let actions = static_strings(&vec![
        "/send <text>: Send one text message in the active chat.",
        "/recv [limit]: Inspect recent incoming messages (default 5).",
        "/wait <text>: Wait for one incoming message containing the text.",
        "/actions [msg_id]: Discover inline buttons, keyboards, and bot commands.",
        "/click <button>: Click an inline button by label or callback data.",
        "/trigger <action>: Trigger a discovered action by ID or label.",
        "/unread: Show unread messages in the active chat.",
        "/help: Show this help.",
        "/exit: Leave the REPL session.",
    ]);
    assert(views(actions@) =~= repl_actions());
    let examples = static_strings(&vec!["/send /start", "/recv 5", "/wait Welcome", "/actions", "/click Start"]);
    assert(views(examples@) =~= repl_examples());
    let next_steps = static_strings(&vec![
        "Run /help whenever you need to rediscover the interactive commands.",
        "Run /exit to close the REPL when the session is complete.",
    ]);
    assert(views(next_steps@) =~= repl_next_steps());
    let related_commands = static_strings(&vec![
        "telegram-agent-cli send --help",
        "telegram-agent-cli message recv --help",
        "telegram-agent-cli message wait --help",
    ]);
    assert(views(related_commands@) =~= repl_related_commands());
    GuidanceSurface {
        guidance_kind: GuidanceKind::ReplHelp,
        command_path: Some(owned("telegram-agent-cli repl")),
        summary: owned("Use the interactive chat REPL to send messages, inspect replies, and test bot behavior in one session."),
        when_to_use: one_line("Use the REPL after you already know the account and chat you want to exercise."),
        prerequisites: one_line("Ensure the selected account exists and the requested chat can be resolved before entering the REPL."),
        actions,
        examples,
        next_steps,
        related_terms: Vec::new(),
        related_commands,
        status: None,
    }
}

// ---------------------------------------------------------------------------
// Human-readable help
// ---------------------------------------------------------------------------

/// The `- item` lines of a help section, each ending with a newline.
pub open spec fn section_body(items: Seq<Seq<char>>) -> Seq<char>
    decreases items.len(),
{
    if items.len() == 0 {
        Seq::empty()
    } else {
        section_body(items.drop_last()) + "- "@ + items.last() + "\n"@
    }
}

/// `rendered` with the section `title` appended, trailing newlines removed;
/// unchanged when there are no items.
pub open spec fn with_section(rendered: Seq<char>, title: Seq<char>, items: Seq<Seq<char>>) -> Seq<char> {
    if items.len() == 0 {
        rendered
    } else {
        strip_trailing(rendered + "\n\n"@ + title + "\n"@ + section_body(items), '\n')
    }
}

/// The footer sections that human-readable help ends with, by guidance kind.
pub open spec fn with_footer_text(rendered: Seq<char>, kind: GuidanceKind, s: SurfaceText) -> Seq<char> {
    match kind {
        GuidanceKind::TopLevelHelp => with_section(rendered, "Start with:"@, s.next_steps),
        GuidanceKind::CommandGroupHelp => with_section(
            with_section(rendered, "See also:"@, s.related_commands),
            "Try next:"@,
            s.next_steps,
        ),
        GuidanceKind::LeafHelp => with_section(
            with_section(
                with_section(
                    with_section(rendered, "Before you run it:"@, s.prerequisites),
                    "Examples:"@,
                    s.examples,
                ),
                "See also:"@,
                s.related_commands,
            ),
            "Try next:"@,
            s.next_steps,
        ),
        GuidanceKind::ReplHelp => with_section(
            with_section(
                with_section(
                    with_section(
                        with_section(rendered, "Before you run it:"@, s.prerequisites),
                        "Interactive commands:"@,
                        s.actions,
                    ),
                    "Examples:"@,
                    s.examples,
                ),
                "See also:"@,
                s.related_commands,
            ),
            "Try next:"@,
            s.next_steps,
        ),
        _ => rendered,
    }
}

/// The footer sections of a surface's own kind and texts.
pub open spec fn with_footer(rendered: Seq<char>, s: GuidanceSurface) -> Seq<char> {
    with_footer_text(rendered, s.guidance_kind, surface_text(s))
}

/// Appends a titled `- item` section, then removes trailing newlines.
pub fn append_help_section(rendered: &mut String, title: &str, items: &Vec<String>)
    ensures
        final(rendered)@ == with_section(old(rendered)@, title@, views(items@)),
{
    if items.len() == 0 {
        return;
    }
    let mut out = concat3(rendered.as_str(), "\n\n", title);
    out.append("\n");
    let ghost head = out@;
    let mut i: usize = 0;
    while i < items.len()
        invariant
            i <= items@.len(),
            out@ == head + section_body(views(items@.subrange(0, i as int))),
        decreases items@.len() - i,
    {
        out.append("- ");
        out.append(items[i].as_str());
        out.append("\n");
        proof {
            let now = views(items@.subrange(0, i + 1));
            assert(now.drop_last() =~= views(items@.subrange(0, i as int)));
        }
        i = i + 1;
    }
    assert(items@.subrange(0, items@.len() as int) =~= items@);
    *rendered = strip_trailing_string(out.as_str(), '\n');
}

/// Appends the footer sections of a surface to human-readable help.
pub fn append_help_footer(rendered: &mut String, surface: &GuidanceSurface)
    ensures
        final(rendered)@ == with_footer(old(rendered)@, *surface),
{
    match surface.guidance_kind {
        GuidanceKind::TopLevelHelp => {
            append_help_section(rendered, "Start with:", &surface.next_steps);
        },
        GuidanceKind::CommandGroupHelp => {
            append_help_section(rendered, "See also:", &surface.related_commands);
            append_help_section(rendered, "Try next:", &surface.next_steps);
        },
        GuidanceKind::LeafHelp => {
            append_help_section(rendered, "Before you run it:", &surface.prerequisites);
            append_help_section(rendered, "Examples:", &surface.examples);
            append_help_section(rendered, "See also:", &surface.related_commands);
            append_help_section(rendered, "Try next:", &surface.next_steps);
        },
        GuidanceKind::ReplHelp => {
            append_help_section(rendered, "Before you run it:", &surface.prerequisites);
            append_help_section(rendered, "Interactive commands:", &surface.actions);
            append_help_section(rendered, "Examples:", &surface.examples);
            append_help_section(rendered, "See also:", &surface.related_commands);
            append_help_section(rendered, "Try next:", &surface.next_steps);
        },
        _ => {},
    }
}

/// The error text for a command path without help guidance.
pub open spec fn unsupported_help_message(path: Seq<Seq<char>>) -> Seq<char> {
    "unsupported help path: "@ + join_seqs(path, " "@)
}

/// The error for a command path without help guidance.
fn unsupported_help_path(path: &[String]) -> (r: TelegramCliError)
    ensures
        is_message_error(r, unsupported_help_message(views(path@))),
{
    let v = slice_to_vec(path);
    let joined = join_lines(&v, " ");
    TelegramCliError::Message(concat2("unsupported help path: ", joined.as_str()))
}

/// Human-readable help for a command path with help guidance: the long help
/// text without trailing whitespace, then the footer of the path's own
/// guidance.
pub open spec fn spec_table_help(path: Seq<Seq<char>>, long_help: Seq<char>) -> Seq<char> {
    with_footer_text(trim_end(long_help), spec_help_kind(path)->0, spec_help_text(path)->0)
}

/// Human-readable help for a command path: the command's long help text
/// (`long_help`, as the argument parser renders it) without trailing
/// whitespace, followed by the guidance footer.
pub fn render_table_help_for_path(path: &[String], long_help: &str) -> (r: Result<String>)
    ensures
        spec_help_kind(views(path@)) is None ==> r is Err && is_message_error(
            r->Err_0,
            unsupported_help_message(views(path@)),
        ),
        spec_help_kind(views(path@)) is Some ==> r is Ok && r->Ok_0@ == spec_table_help(views(path@), long_help@),
{
    let surface = match help_surface_for_path(path) {
        Some(s) => s,
        None => {
            return Err(unsupported_help_path(path));
        },
    };
    let mut rendered = trim_end_string(long_help);
    append_help_footer(&mut rendered, &surface);
    Ok(rendered)
}

// ---------------------------------------------------------------------------
// Structured help documents
// ---------------------------------------------------------------------------

/// What the argument parser knows of one command: its usage line, long help
/// text, and its visible subcommands, positional arguments and options.
#[derive(Debug, Clone)]
pub struct ParsedCommandInfo {
    pub usage: String,
    pub long_help: String,
    pub commands: Vec<HelpCommandEntry>,
    pub arguments: Vec<HelpArgumentEntry>,
    pub options: Vec<HelpOptionEntry>,
}

/// The output formats every command supports.
pub open spec fn spec_supported_output_formats() -> Seq<Seq<char>> {
    seq!["table"@, "yaml"@, "toml"@, "json"@, "ndjson"@]
}

/// The default-behaviour notes of a command path.
pub open spec fn spec_default_behavior(path: Seq<Seq<char>>) -> Seq<Seq<char>> {
    if path.len() == 0 {
        seq![
            "Default `--help` renders human-readable guidance."@,
            "Use `telegram-agent-cli help <command>` for structured help documents."@,
            "YAML is the default structured result format."@,
        ]
    } else if path == seq!["paths"@] {
        seq![
            "Reports the resolved config, data, state, and cache directories."@,
            "Marks each runtime directory as `default` or `override`."@,
        ]
    } else if path == seq!["context"@] || path == seq!["context"@, "show"@] {
        seq![
            "Shows the persisted default account and any one-shot `--as` override."@,
            "Does not mutate the persisted default account."@,
        ]
    } else {
        seq!["YAML is the default structured result format."@]
    }
}

/// The context behaviour reported by the context commands.
pub open spec fn context_behavior_text() -> Seq<char> {
    "Reports the persisted default account plus any one-shot `--as` override without mutating stored state."@
}

/// The runtime state a help document reports: directories for `paths`, the
/// context behaviour for `context`.
pub open spec fn spec_runtime_state(path: Seq<Seq<char>>) -> Option<(Seq<Seq<char>>, Option<Seq<char>>)> {
    if path == seq!["paths"@] {
        Some((seq!["config"@, "data"@, "state"@, "cache"@], None))
    } else if path == seq!["context"@] || path == seq!["context"@, "show"@] {
        Some((Seq::empty(), Some(context_behavior_text())))
    } else {
        None
    }
}

/// The output formats every command supports.
pub fn supported_output_formats() -> (r: Vec<String>)
    ensures
        views(r@) == spec_supported_output_formats(),
{
    let r = static_strings(&vec!["table", "yaml", "toml", "json", "ndjson"]);
    assert(views(r@) =~= spec_supported_output_formats());
    r
}

/// Whether the words are exactly `[a]`.
fn words_are1(path: &[String], a: &str) -> (r: bool)
    ensures
        r == (views(path@) == seq![a@]),
{
    if path.len() != 1 {
        assert(views(path@).len() != 1);
        return false;
    }
    let r = str_eq(path[0].as_str(), a);
    assert(views(path@)[0] == path@[0]@);
    assert(r == (views(path@) =~= seq![a@]));
    r
}

/// Whether the words are exactly `[a, b]`.
fn words_are2(path: &[String], a: &str, b: &str) -> (r: bool)
    ensures
        r == (views(path@) == seq![a@, b@]),
{
    if path.len() != 2 {
        assert(views(path@).len() != 2);
        return false;
    }
    let r = str_eq(path[0].as_str(), a) && str_eq(path[1].as_str(), b);
    assert(views(path@)[0] == path@[0]@);
    assert(views(path@)[1] == path@[1]@);
    assert(r == (views(path@) =~= seq![a@, b@]));
    r
}

/// The default-behaviour notes of a command path.
pub fn default_behavior_for_path(path: &[String]) -> (r: Vec<String>)
    ensures
        views(r@) == spec_default_behavior(views(path@)),
{
    let r = if path.len() == 0 {
        static_strings(&vec![
            "Default `--help` renders human-readable guidance.",
            "Use `telegram-agent-cli help <command>` for structured help documents.",
            "YAML is the default structured result format.",
        ])
    } else if words_are1(path, "paths") {
        static_strings(&vec![
            "Reports the resolved config, data, state, and cache directories.",
            "Marks each runtime directory as `default` or `override`.",
        ])
    } else if words_are1(path, "context") || words_are2(path, "context", "show") {
        static_strings(&vec![
            "Shows the persisted default account and any one-shot `--as` override.",
            "Does not mutate the persisted default account.",
        ])
    } else {
        static_strings(&vec!["YAML is the default structured result format."])
    };
    assert(views(r@) =~= spec_default_behavior(views(path@)));
    r
}

/// The runtime state a help document reports for a command path.
pub fn runtime_state_for_path(path: &[String]) -> (r: Option<HelpRuntimeState>)
    ensures
        match spec_runtime_state(views(path@)) {
            Some((dirs, behavior)) => r is Some && views(r->0.directories@) == dirs && match behavior {
                Some(b) => r->0.context_behavior is Some && r->0.context_behavior->0@ == b,
                None => r->0.context_behavior is None,
            },
            None => r is None,
        },
{
    if words_are1(path, "paths") {
        let dirs = static_strings(&vec!["config", "data", "state", "cache"]);
        assert(views(dirs@) =~= seq!["config"@, "data"@, "state"@, "cache"@]);
        Some(HelpRuntimeState { directories: dirs, context_behavior: None })
    } else if words_are1(path, "context") || words_are2(path, "context", "show") {
        let dirs: Vec<String> = Vec::new();
        assert(views(dirs@) =~= Seq::<Seq<char>>::empty());
        Some(HelpRuntimeState {
            directories: dirs,
            context_behavior: Some(owned("Reports the persisted default account plus any one-shot `--as` override without mutating stored state.")),
        })
    } else {
        None
    }
}

/// Whether `d` is the structured help document of a command path: its
/// command path, the parser's usage (trimmed), subcommands, arguments and
/// options, the texts of the path's guidance, and the path's notes.
pub open spec fn help_document_of(d: HelpDocument, path: Seq<Seq<char>>, command: ParsedCommandInfo) -> bool {
    &&& spec_help_text(path) is Some
    &&& d.command@ == command_path_text(path)
    &&& d.usage@ == trim(command.usage@)
    &&& d.commands@ == command.commands@
    &&& d.arguments@ == command.arguments@
    &&& d.options@ == command.options@
    &&& d.summary@ == spec_help_text(path)->0.summary
    &&& views(d.before_you_run_it@) == spec_help_text(path)->0.prerequisites
    &&& views(d.examples@) == spec_help_text(path)->0.examples
    &&& views(d.see_also@) == spec_help_text(path)->0.related_commands
    &&& views(d.try_next@) == spec_help_text(path)->0.next_steps
    &&& views(d.default_behavior@) == spec_default_behavior(path)
    &&& views(d.supported_output_formats@) == spec_supported_output_formats()
    &&& match spec_runtime_state(path) {
        Some((dirs, behavior)) => d.runtime_state is Some && views(d.runtime_state->0.directories@) == dirs
            && match behavior {
                Some(b) => d.runtime_state->0.context_behavior is Some && d.runtime_state->0.context_behavior->0@ == b,
                None => d.runtime_state->0.context_behavior is None,
            },
        None => d.runtime_state is None,
    }
}

/// Law: all structured help documents of a command path have the same JSON,
/// so the rendered help of a path is one text.
pub proof fn law_help_document_json_unique(d1: HelpDocument, d2: HelpDocument, path: Seq<Seq<char>>, command: ParsedCommandInfo)
    requires
        help_document_of(d1, path, command),
        help_document_of(d2, path, command),
    ensures
        crate::output::help_json::help_document_json(d1) == crate::output::help_json::help_document_json(d2),
{
    match (d1.runtime_state, d2.runtime_state) {
        (Some(x1), Some(x2)) => {
            assert(crate::output::help_json::runtime_state_json(x1) == crate::output::help_json::runtime_state_json(x2));
        },
        _ => {},
    }
}

/// The structured help document of a command path, from its guidance and what
/// the argument parser knows of the command.
pub fn render_help_document_for_path(path: &[String], command: ParsedCommandInfo) -> (r: Result<HelpDocument>)
    ensures
        spec_help_kind(views(path@)) is None ==> r is Err && is_message_error(
            r->Err_0,
            unsupported_help_message(views(path@)),
        ),
        spec_help_kind(views(path@)) is Some ==> r is Ok && help_document_of(r->Ok_0, views(path@), command),
{
    let surface = match help_surface_for_path(path) {
        Some(s) => s,
        None => {
            return Err(unsupported_help_path(path));
        },
    };
    let command_path = match surface.command_path {
        Some(p) => p,
        None => render_command_path(path),
    };
    Ok(HelpDocument {
        command: command_path,
        summary: surface.summary,
        usage: trim_string(command.usage.as_str()),
        commands: command.commands,
        arguments: command.arguments,
        options: command.options,
        before_you_run_it: surface.prerequisites,
        examples: surface.examples,
        see_also: surface.related_commands,
        try_next: surface.next_steps,
        default_behavior: default_behavior_for_path(path),
        supported_output_formats: supported_output_formats(),
        runtime_state: runtime_state_for_path(path),
    })
}

// ---------------------------------------------------------------------------
// Usage errors
// ---------------------------------------------------------------------------

/// The message of a rendered argument-parser error: its first paragraph,
/// trimmed, without the `error: ` prefix; `None` when that is empty.
pub open spec fn spec_clap_error_message(rendered: Seq<char>) -> Option<Seq<char>> {
    let first = trim(before_first(rendered, "\n\n"@));
    let body = if seq_starts_with(first, "error: "@) {
        first.subrange(7, first.len() as int)
    } else {
        first
    };
    if trim(body).len() == 0 {
        None
    } else {
        Some(trim(body))
    }
}

/// The message of a rendered argument-parser error.
pub fn clap_error_message(rendered: &str) -> (r: Option<String>)
    ensures
        match spec_clap_error_message(rendered@) {
            Some(m) => r is Some && r->0@ == m,
            None => r is None,
        },
{
    let first_raw = before_first_string(rendered, "\n\n");
    let first = trim_string(first_raw.as_str());
    let body = if str_starts_with(first.as_str(), "error: ") {
        proof {
            reveal_strlit("error: ");
        }
        let chars = crate::text::chars_of(first.as_str());
        crate::text::string_of_range(chars.as_slice(), 7, chars.len())
    } else {
        first
    };
    let message = trim_string(body.as_str());
    if message.unicode_len() == 0 {
        None
    } else {
        Some(message)
    }
}

/// The message of a usage error: a prompt to choose a (sub)command when one is
/// missing, else the parser's own message.
pub open spec fn spec_cli_usage_message(missing_subcommand: bool, error_text: Seq<char>, help_path: Seq<Seq<char>>) -> Seq<char> {
    if missing_subcommand {
        if help_path.len() == 0 {
            "Choose a command to continue."@
        } else {
            "Choose a subcommand to continue."@
        }
    } else {
        match spec_clap_error_message(error_text) {
            Some(m) => m,
            None => "Command usage is invalid."@,
        }
    }
}

/// The message of a usage error; `missing_subcommand` tells whether the parser
/// stopped because no (sub)command was given, `error_text` is its rendered error.
pub fn cli_usage_message(missing_subcommand: bool, error_text: &str, help_path: &[String]) -> (r: String)
    ensures
        r@ == spec_cli_usage_message(missing_subcommand, error_text@, views(help_path@)),
{
    if missing_subcommand {
        if help_path.len() == 0 {
            owned("Choose a command to continue.")
        } else {
            owned("Choose a subcommand to continue.")
        }
    } else {
        match clap_error_message(error_text) {
            Some(m) => m,
            None => owned("Command usage is invalid."),
        }
    }
}

/// The help of a command path in an output format: the parser's long help
/// with the guidance footer as a table, else the structured document.
pub fn render_help_for_path_with_format(path: &[String], format: OutputFormat, command: ParsedCommandInfo) -> (r: Result<String>)
    ensures
        spec_help_kind(views(path@)) is None ==> r is Err && is_message_error(
            r->Err_0,
            unsupported_help_message(views(path@)),
        ),
        spec_help_kind(views(path@)) is Some && format == OutputFormat::Table ==> r is Ok
            && r->Ok_0@ == spec_table_help(views(path@), command.long_help@),
        spec_help_kind(views(path@)) is Some && format != OutputFormat::Table ==> (exists|d: HelpDocument|
            help_document_of(d, views(path@), command)
            && match crate::output::render::spec_render_value(crate::output::help_json::help_document_json(d), format) {
                Ok(t) => r is Ok && r->Ok_0@ == t,
                Err(m) => r is Err && is_message_error(r->Err_0, m),
            }),
{
    let long_help = owned(command.long_help.as_str());
    let document = render_help_document_for_path(path, command)?;
    match format {
        OutputFormat::Table => render_table_help_for_path(path, long_help.as_str()),
        _ => crate::output::render::render_value(&document.to_json(), format),
    }
}

/// The help of a command path in the format its arguments ask for (YAML by default).
pub fn render_help_for_path(path: &[String], args: &[String], command: ParsedCommandInfo) -> (r: Result<String>)
    ensures
        spec_help_kind(views(path@)) is None ==> r is Err && is_message_error(
            r->Err_0,
            unsupported_help_message(views(path@)),
        ),
        spec_help_kind(views(path@)) is Some && spec_detect_from(views(args@), 0, OutputFormat::Yaml) == OutputFormat::Table
            ==> r is Ok && r->Ok_0@ == spec_table_help(views(path@), command.long_help@),
        spec_help_kind(views(path@)) is Some && spec_detect_from(views(args@), 0, OutputFormat::Yaml) != OutputFormat::Table
            ==> (exists|d: HelpDocument|
            help_document_of(d, views(path@), command)
            && match crate::output::render::spec_render_value(
                crate::output::help_json::help_document_json(d),
                spec_detect_from(views(args@), 0, OutputFormat::Yaml),
            ) {
                Ok(t) => r is Ok && r->Ok_0@ == t,
                Err(m) => r is Err && is_message_error(r->Err_0, m),
            }),
{
    let format = OutputFormat::detect_requested_format_or(args, OutputFormat::Yaml);
    render_help_for_path_with_format(path, format, command)
}

/// Value names written as `<name>`, space separated.
pub open spec fn bracketed_names(names: Seq<Seq<char>>) -> Seq<char> {
    join_seqs(Seq::new(names.len(), |i: int| "<"@ + names[i] + ">"@), " "@)
}

/// Value names written as `<name>`, space separated.
fn bracketed(names: &Vec<String>) -> (r: String)
    ensures
        r@ == bracketed_names(views(names@)),
{
    let ghost want = Seq::new(names@.len(), |i: int| "<"@ + names@[i]@ + ">"@);
    let mut parts: Vec<String> = Vec::new();
    let mut i: usize = 0;
    while i < names.len()
        invariant
            i <= names@.len(),
            want == Seq::new(names@.len(), |i: int| "<"@ + names@[i]@ + ">"@),
            views(parts@) == want.subrange(0, i as int),
        decreases names@.len() - i,
    {
        let t = concat3("<", names[i].as_str(), ">");
        proof {
            crate::text::lemma_views_push(parts@, t);
        }
        parts.push(t);
        i = i + 1;
        assert(views(parts@) =~= want.subrange(0, i as int));
    }
    assert(want.subrange(0, names@.len() as int) =~= want);
    assert(Seq::new(views(names@).len(), |i: int| "<"@ + views(names@)[i] + ">"@) =~= want);
    join_lines(&parts, " ")
}

/// How an argument's value is shown: its value names, else its id upper-cased.
pub open spec fn spec_value_display(value_names: Option<Seq<Seq<char>>>, id: Seq<char>) -> Seq<char> {
    match value_names {
        Some(names) => bracketed_names(names),
        None => "<"@ + crate::text::ascii_upper_seq(id) + ">"@,
    }
}

/// An optional list of names by their characters.
pub open spec fn opt_names(v: Option<Vec<String>>) -> Option<Seq<Seq<char>>> {
    match v {
        Some(n) => Some(views(n@)),
        None => None,
    }
}

/// How an argument's value is shown.
fn value_display(value_names: &Option<Vec<String>>, id: &str) -> (r: String)
    ensures
        r@ == spec_value_display(opt_names(*value_names), id@),
{
    match value_names {
        Some(names) => bracketed(names),
        None => concat3("<", crate::text::to_ascii_uppercase(id).as_str(), ">"),
    }
}

/// A positional argument in a help document.
pub fn positional_display(value_names: &Option<Vec<String>>, id: &str) -> (r: String)
    ensures
        r@ == spec_value_display(opt_names(*value_names), id@),
{
    value_display(value_names, id)
}

/// An option's flags in a help document: `-s, --long` (or its id), then
/// its value when it takes one.
pub open spec fn spec_option_display(
    short: Option<char>,
    long: Option<Seq<char>>,
    id: Seq<char>,
    takes_values: bool,
    value_names: Option<Seq<Seq<char>>>,
) -> Seq<char> {
    let parts = (match short { Some(c) => seq![seq!['-', c]], None => Seq::<Seq<char>>::empty() })
        + (match long { Some(l) => seq!["--"@ + l], None => Seq::<Seq<char>>::empty() });
    let flag = if parts.len() == 0 { id } else { join_seqs(parts, ", "@) };
    if takes_values { flag + " "@ + spec_value_display(value_names, id) } else { flag }
}

/// An option's flags in a help document.
pub fn option_display(
    short: Option<char>,
    long: Option<&str>,
    id: &str,
    takes_values: bool,
    value_names: &Option<Vec<String>>,
) -> (r: String)
    ensures
        r@ == spec_option_display(short, match long { Some(l) => Some(l@), None => None }, id@, takes_values, opt_names(*value_names)),
{
    let mut parts: Vec<String> = Vec::new();
    let ghost short_part = match short { Some(c) => seq![seq!['-', c]], None => Seq::<Seq<char>>::empty() };
    let ghost long_part = match long { Some(l) => seq!["--"@ + l@], None => Seq::<Seq<char>>::empty() };
    assert(views(parts@) =~= Seq::<Seq<char>>::empty());
    match short {
        Some(c) => {
            let mut t = owned("-");
            crate::text::push_char(&mut t, c);
            proof {
                reveal_strlit("-");
                assert(t@ =~= seq!['-', c]);
                crate::text::lemma_views_push(parts@, t);
            }
            parts.push(t);
        },
        None => {},
    }
    assert(views(parts@) =~= short_part);
    match long {
        Some(l) => {
            let t = concat2("--", l);
            proof {
                crate::text::lemma_views_push(parts@, t);
            }
            parts.push(t);
        },
        None => {},
    }
    assert(views(parts@) =~= short_part + long_part);
    let mut flag = if parts.len() == 0 { owned(id) } else { join_lines(&parts, ", ") };
    if takes_values {
        crate::text::append_str(&mut flag, " ");
        crate::text::append_str(&mut flag, value_display(value_names, id).as_str());
    }
    flag
}

} // verus!
