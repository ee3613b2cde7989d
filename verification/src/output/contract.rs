//! The output contract: guidance surfaces, help documents, result envelopes and
//! their plain-text rendering.
use vstd::prelude::*;
use crate::json::{
    Json, JsonValue, ObjectBuilder, entries_view, items_view, lemma_entries_view_push,
    lemma_items_view_push, nonempty_entry, some_entry, str_list,
};
use crate::text::{
    ascii_lower_seq, concat2, concat3, join_lines, join_seqs, lemma_views_add, lemma_views_push,
    owned, seq_contains, str_contains, views,
};

verus! {

/// Which kind of guidance a surface carries.
#[derive(Debug, Clone, Copy, PartialEq, Eq, Structural)]
pub enum GuidanceKind {
    TopLevelHelp,
    CommandGroupHelp,
    LeafHelp,
    ReplHelp,
    RuntimeSuccess,
    RuntimeError,
}

/// The status a guidance surface reports.
#[derive(Debug, Clone, Copy, PartialEq, Eq, Structural)]
pub enum GuidanceStatus {
    Okay,
    Warning,
    Error,
}

/// Human-oriented guidance: what a command is for, what to check first and what to run next.
#[derive(Debug, Clone, PartialEq, Eq)]
pub struct GuidanceSurface {
    pub guidance_kind: GuidanceKind,
    pub command_path: Option<String>,
    pub summary: String,
    pub when_to_use: Vec<String>,
    pub prerequisites: Vec<String>,
    pub actions: Vec<String>,
    pub examples: Vec<String>,
    pub next_steps: Vec<String>,
    pub related_terms: Vec<String>,
    pub related_commands: Vec<String>,
    pub status: Option<GuidanceStatus>,
}

/// One subcommand listed in a help document.
#[derive(Debug, Clone, PartialEq, Eq)]
pub struct HelpCommandEntry {
    pub name: String,
    pub summary: String,
}

/// One positional argument listed in a help document.
#[derive(Debug, Clone, PartialEq, Eq)]
pub struct HelpArgumentEntry {
    pub name: String,
    pub help: String,
    pub required: bool,
    pub defaults: Vec<String>,
}

/// One option listed in a help document.
#[derive(Debug, Clone, PartialEq, Eq)]
pub struct HelpOptionEntry {
    pub flag: String,
    pub help: String,
    pub required: bool,
    pub defaults: Vec<String>,
}

/// A structured help document for one command path.
#[derive(Debug, Clone, PartialEq, Eq)]
pub struct HelpDocument {
    pub command: String,
    pub summary: String,
    pub usage: String,
    pub commands: Vec<HelpCommandEntry>,
    pub arguments: Vec<HelpArgumentEntry>,
    pub options: Vec<HelpOptionEntry>,
    pub before_you_run_it: Vec<String>,
    pub examples: Vec<String>,
    pub see_also: Vec<String>,
    pub try_next: Vec<String>,
    pub default_behavior: Vec<String>,
    pub supported_output_formats: Vec<String>,
    pub runtime_state: Option<HelpRuntimeState>,
}

/// Runtime facts that a help document reports for some paths.
#[derive(Debug, Clone, PartialEq, Eq)]
pub struct HelpRuntimeState {
    pub directories: Vec<String>,
    pub context_behavior: Option<String>,
}

/// One resolved runtime directory.
#[derive(Debug, Clone, PartialEq, Eq)]
pub struct RuntimeDirectoryView {
    pub path: String,
    pub source: String,
    pub description: String,
    pub user_scoped: bool,
}

/// The four runtime directories.
#[derive(Debug, Clone, PartialEq, Eq)]
pub struct RuntimePathsView {
    pub config: RuntimeDirectoryView,
    pub data: RuntimeDirectoryView,
    pub state: RuntimeDirectoryView,
    pub cache: RuntimeDirectoryView,
}

/// The persisted and the effective account context.
#[derive(Debug, Clone, PartialEq, Eq)]
pub struct ActiveContextView {
    pub persisted_context: Option<String>,
    pub effective_context: Option<String>,
    pub override_applied: bool,
    pub mutation_path: String,
    pub requires_context: bool,
    pub set_default_hint: Option<String>,
}

/// A suggested follow-up command.
#[derive(Debug, Clone, PartialEq, Eq)]
pub struct NextStep {
    pub action: String,
    pub command: String,
}

/// A machine-readable error inside a result envelope.
#[derive(Debug, Clone, PartialEq, Eq)]
pub struct StructuredError {
    pub code: String,
    pub message: String,
}

/// The normalized result of a command.
#[derive(Debug, PartialEq)]
pub struct ResultEnvelope {
    pub command: String,
    pub status: String,
    pub summary: String,
    pub data: JsonValue,
    pub next_steps: Vec<NextStep>,
    pub errors: Vec<StructuredError>,
}

/// One event of a streamed result.
#[derive(Debug, PartialEq)]
pub struct StreamEventEnvelope {
    pub command: String,
    pub event: String,
    pub sequence: u64,
    pub status: String,
    pub summary: String,
    pub data: JsonValue,
    pub next_steps: Vec<NextStep>,
    pub final_: bool,
}

// ---------------------------------------------------------------------------
// Labels
// ---------------------------------------------------------------------------

/// The snake-case label of a guidance kind.
pub open spec fn spec_kind_label(k: GuidanceKind) -> Seq<char> {
    match k {
        GuidanceKind::TopLevelHelp => "top_level_help"@,
        GuidanceKind::CommandGroupHelp => "command_group_help"@,
        GuidanceKind::LeafHelp => "leaf_help"@,
        GuidanceKind::ReplHelp => "repl_help"@,
        GuidanceKind::RuntimeSuccess => "runtime_success"@,
        GuidanceKind::RuntimeError => "runtime_error"@,
    }
}

/// The snake-case label of a guidance status.
pub open spec fn spec_status_label(s: GuidanceStatus) -> Seq<char> {
    match s {
        GuidanceStatus::Okay => "ok"@,
        GuidanceStatus::Warning => "warning"@,
        GuidanceStatus::Error => "error"@,
    }
}

/// The label of a guidance kind.
pub fn guidance_kind_label(kind: GuidanceKind) -> (r: &'static str)
    ensures
        r@ == spec_kind_label(kind),
{
    match kind {
        GuidanceKind::TopLevelHelp => "top_level_help",
        GuidanceKind::CommandGroupHelp => "command_group_help",
        GuidanceKind::LeafHelp => "leaf_help",
        GuidanceKind::ReplHelp => "repl_help",
        GuidanceKind::RuntimeSuccess => "runtime_success",
        GuidanceKind::RuntimeError => "runtime_error",
    }
}

/// The label of a guidance status.
pub fn guidance_status_label(status: GuidanceStatus) -> (r: &'static str)
    ensures
        r@ == spec_status_label(status),
{
    match status {
        GuidanceStatus::Okay => "ok",
        GuidanceStatus::Warning => "warning",
        GuidanceStatus::Error => "error",
    }
}

// ---------------------------------------------------------------------------
// Plain-text guidance
// ---------------------------------------------------------------------------

/// `LABEL:` followed by one `- item` line per item; nothing when there are no items.
pub open spec fn list_block(label: Seq<char>, items: Seq<Seq<char>>) -> Seq<Seq<char>> {
    if items.len() == 0 {
        Seq::empty()
    } else {
        seq![label + ":"@] + Seq::new(items.len(), |i: int| "- "@ + items[i])
    }
}

/// The `COMMAND_PATH:` line, when there is a path.
pub open spec fn command_path_line(p: Option<String>) -> Seq<Seq<char>> {
    match p {
        Some(p) => seq!["COMMAND_PATH: "@ + p@],
        None => Seq::empty(),
    }
}

/// The `STATUS:` line, when there is a status.
pub open spec fn status_line(s: Option<GuidanceStatus>) -> Seq<Seq<char>> {
    match s {
        Some(st) => seq!["STATUS: "@ + spec_status_label(st)],
        None => Seq::empty(),
    }
}

/// The lines of the plain-text form of a guidance surface.
pub open spec fn surface_lines(s: GuidanceSurface) -> Seq<Seq<char>> {
    seq!["GUIDANCE_KIND: "@ + spec_kind_label(s.guidance_kind)] + command_path_line(s.command_path)
        + status_line(s.status) + seq!["SUMMARY: "@ + s.summary@] + list_block("WHEN_TO_USE"@, views(s.when_to_use@))
        + list_block("PREREQUISITES"@, views(s.prerequisites@)) + list_block(
        "ACTIONS"@,
        views(s.actions@),
    ) + list_block("EXAMPLES"@, views(s.examples@)) + list_block(
        "RELATED_COMMANDS"@,
        views(s.related_commands@),
    ) + list_block("NEXT_STEPS"@, views(s.next_steps@))
}

/// Appends one line.
fn push_line(lines: &mut Vec<String>, line: String)
    ensures
        views(final(lines)@) == views(old(lines)@).push(line@),
{
    proof {
        lemma_views_push(lines@, line);
    }
    lines.push(line);
}

/// Appends the list block of `items` under `label`.
fn push_list_block(lines: &mut Vec<String>, label: &str, items: &Vec<String>)
    ensures
        views(final(lines)@) == views(old(lines)@) + list_block(label@, views(items@)),
{
    let ghost start = views(lines@);
    if items.len() == 0 {
        assert(start + list_block(label@, views(items@)) =~= start);
        return;
    }
    push_line(lines, concat2(label, ":"));
    let mut i: usize = 0;
    while i < items.len()
        invariant
            i <= items@.len(),
            items@.len() > 0,
            views(lines@) == start + seq![label@ + ":"@] + Seq::new(
                i as nat,
                |k: int| "- "@ + items@[k]@,
            ),
        decreases items@.len() - i,
    {
        push_line(lines, concat2("- ", items[i].as_str()));
        i = i + 1;
        assert(views(lines@) =~= start + seq![label@ + ":"@] + Seq::new(
            i as nat,
            |k: int| "- "@ + items@[k]@,
        ));
    }
    assert(Seq::new(items@.len(), |k: int| "- "@ + items@[k]@) =~= Seq::new(
        views(items@).len(),
        |k: int| "- "@ + views(items@)[k],
    ));
    assert(start + seq![label@ + ":"@] + Seq::new(items@.len(), |k: int| "- "@ + items@[k]@)
        =~= start + list_block(label@, views(items@)));
}

impl GuidanceSurface {
    /// The plain-text form: one `KEY: value` line per scalar and a `- item`
    /// block per non-empty list, joined with newlines.
    pub fn render_text(&self) -> (r: String)
        ensures
            r@ == join_seqs(surface_lines(*self), "\n"@),
    {
        let mut lines: Vec<String> = Vec::new();
        assert(views(lines@) =~= Seq::<Seq<char>>::empty());
        push_line(&mut lines, concat2("GUIDANCE_KIND: ", guidance_kind_label(self.guidance_kind)));
        let ghost a = views(lines@);
        match &self.command_path {
            Some(p) => {
                push_line(&mut lines, concat2("COMMAND_PATH: ", p.as_str()));
            },
            None => {},
        }
        let ghost b = views(lines@);
        match self.status {
            Some(st) => {
                push_line(&mut lines, concat2("STATUS: ", guidance_status_label(st)));
            },
            None => {},
        }
        let ghost c = views(lines@);
        push_line(&mut lines, concat2("SUMMARY: ", self.summary.as_str()));
        push_list_block(&mut lines, "WHEN_TO_USE", &self.when_to_use);
        push_list_block(&mut lines, "PREREQUISITES", &self.prerequisites);
        push_list_block(&mut lines, "ACTIONS", &self.actions);
        push_list_block(&mut lines, "EXAMPLES", &self.examples);
        push_list_block(&mut lines, "RELATED_COMMANDS", &self.related_commands);
        push_list_block(&mut lines, "NEXT_STEPS", &self.next_steps);
        proof {
            reveal_strlit("GUIDANCE_KIND: ");
            let cp = command_path_line(self.command_path);
            let st = status_line(self.status);
            assert(b =~= a + cp);
            assert(c =~= a + cp + st);
            assert(views(lines@) =~= surface_lines(*self));
        }
        join_lines(&lines, "\n")
    }
}

// ---------------------------------------------------------------------------
// Redaction
// ---------------------------------------------------------------------------

/// Key fragments whose values are never shown.
pub open spec fn sensitive_needles() -> Seq<Seq<char>> {
    seq!["phone"@, "token"@, "session"@, "password"@, "api_hash"@, "hash"@, "code"@, "qr"@]
}

/// A key is sensitive when its ASCII-lowercased form contains one of the needles.
pub open spec fn spec_is_sensitive_key(key: Seq<char>) -> bool {
    exists|i: int| 0 <= i < sensitive_needles().len() && seq_contains(ascii_lower_seq(key), #[trigger] sensitive_needles()[i])
}

/// Law: a key is sensitive whenever some piece of it, read in lower case, is
/// `phone`, `token`, `session`, `password`, `api_hash`, `hash`, `code` or
/// `qr`, whatever stands before and after that piece and whatever its case.
pub proof fn law_sensitive_key_pieces(before: Seq<char>, piece: Seq<char>, after: Seq<char>)
    requires
        ascii_lower_seq(piece) == "phone"@
            || ascii_lower_seq(piece) == "token"@
            || ascii_lower_seq(piece) == "session"@
            || ascii_lower_seq(piece) == "password"@
            || ascii_lower_seq(piece) == "api_hash"@
            || ascii_lower_seq(piece) == "hash"@
            || ascii_lower_seq(piece) == "code"@
            || ascii_lower_seq(piece) == "qr"@,
    ensures
        spec_is_sensitive_key(before + piece + after),
{
    let key = before + piece + after;
    let lowered = ascii_lower_seq(piece);
    assert(ascii_lower_seq(key) =~= ascii_lower_seq(before) + lowered + ascii_lower_seq(after));
    assert(ascii_lower_seq(key).subrange(before.len() as int, (before.len() + lowered.len()) as int) =~= lowered);
    assert(crate::text::occurs_at(ascii_lower_seq(key), lowered, before.len() as int));
    if lowered == "phone"@ {
        assert(sensitive_needles()[0] == lowered);
    } else if lowered == "token"@ {
        assert(sensitive_needles()[1] == lowered);
    } else if lowered == "session"@ {
        assert(sensitive_needles()[2] == lowered);
    } else if lowered == "password"@ {
        assert(sensitive_needles()[3] == lowered);
    } else if lowered == "api_hash"@ {
        assert(sensitive_needles()[4] == lowered);
    } else if lowered == "hash"@ {
        assert(sensitive_needles()[5] == lowered);
    } else if lowered == "code"@ {
        assert(sensitive_needles()[6] == lowered);
    } else if lowered == "qr"@ {
        assert(sensitive_needles()[7] == lowered);
    } else {
    }
}

/// Law: a key is not sensitive when its lower-case form contains none of
/// `phone`, `token`, `session`, `password`, `api_hash`, `hash`, `code` and
/// `qr`; its value is then shown.
pub proof fn law_plain_keys_not_sensitive(key: Seq<char>)
    requires
        !seq_contains(ascii_lower_seq(key), "phone"@),
        !seq_contains(ascii_lower_seq(key), "token"@),
        !seq_contains(ascii_lower_seq(key), "session"@),
        !seq_contains(ascii_lower_seq(key), "password"@),
        !seq_contains(ascii_lower_seq(key), "api_hash"@),
        !seq_contains(ascii_lower_seq(key), "hash"@),
        !seq_contains(ascii_lower_seq(key), "code"@),
        !seq_contains(ascii_lower_seq(key), "qr"@),
    ensures
        !spec_is_sensitive_key(key),
{
    assert forall|i: int| 0 <= i < sensitive_needles().len() implies !seq_contains(
        ascii_lower_seq(key),
        #[trigger] sensitive_needles()[i],
    ) by {
        if i == 0 {
            assert(sensitive_needles()[0] == "phone"@);
        } else if i == 1 {
            assert(sensitive_needles()[1] == "token"@);
        } else if i == 2 {
            assert(sensitive_needles()[2] == "session"@);
        } else if i == 3 {
            assert(sensitive_needles()[3] == "password"@);
        } else if i == 4 {
            assert(sensitive_needles()[4] == "api_hash"@);
        } else if i == 5 {
            assert(sensitive_needles()[5] == "hash"@);
        } else if i == 6 {
            assert(sensitive_needles()[6] == "code"@);
        } else if i == 7 {
            assert(sensitive_needles()[7] == "qr"@);
        }
    }
}

/// The text that replaces a sensitive value.
pub open spec fn redacted_text() -> Seq<char> {
    "[REDACTED]"@
}

/// A value with every entry under a sensitive key replaced, at every depth.
pub open spec fn redact(v: Json) -> Json
    decreases v,
{
    match v {
        Json::Array(items) => Json::Array(redact_items(items)),
        Json::Object(entries) => Json::Object(redact_entries(entries)),
        _ => v,
    }
}

/// `redact` on each element.
pub open spec fn redact_items(items: Seq<Json>) -> Seq<Json>
    decreases items,
{
    if items.len() == 0 {
        Seq::empty()
    } else {
        redact_items(items.drop_last()).push(redact(items.last()))
    }
}

/// `redact` on each entry; a sensitive key keeps only the redaction text.
pub open spec fn redact_entries(entries: Seq<(Seq<char>, Json)>) -> Seq<(Seq<char>, Json)>
    decreases entries,
{
    if entries.len() == 0 {
        Seq::empty()
    } else {
        redact_entries(entries.drop_last()).push(
            if spec_is_sensitive_key(entries.last().0) {
                (entries.last().0, Json::Str(redacted_text()))
            } else {
                (entries.last().0, redact(entries.last().1))
            },
        )
    }
}

/// ASCII lower-casing (`str::to_ascii_lowercase`).
pub fn to_ascii_lowercase(s: &str) -> (r: String)
    ensures
        r@ == ascii_lower_seq(s@),
{
    let chars = crate::text::chars_of(s);
    let mut out = String::new();
    let mut i: usize = 0;
    while i < chars.len()
        invariant
            chars@ == s@,
            i <= chars@.len(),
            out@ == ascii_lower_seq(s@.subrange(0, i as int)),
        decreases chars@.len() - i,
    {
        let c = chars[i];
        let l = crate::text::ascii_lower_exec(c);
        crate::text::push_char(&mut out, l);
        i = i + 1;
        assert(out@ =~= ascii_lower_seq(s@.subrange(0, i as int)));
    }
    assert(s@.subrange(0, s@.len() as int) =~= s@);
    out
}

/// Whether the values under `key` are hidden from output.
pub fn is_sensitive_key(key: &str) -> (r: bool)
    ensures
        r == spec_is_sensitive_key(key@),
{
    let lower = to_ascii_lowercase(key);
    let needles: [&str; 8] = ["phone", "token", "session", "password", "api_hash", "hash", "code", "qr"];
    let ghost want = sensitive_needles();
    proof {
        reveal_strlit("phone");
        reveal_strlit("token");
        reveal_strlit("session");
        reveal_strlit("password");
        reveal_strlit("api_hash");
        reveal_strlit("hash");
        reveal_strlit("code");
        reveal_strlit("qr");
        assert(needles@.len() == 8);
        assert(forall|i: int| 0 <= i < 8 ==> (#[trigger] needles@[i])@ == want[i]);
    }
    let mut i: usize = 0;
    while i < 8
        invariant
            i <= 8,
            lower@ == ascii_lower_seq(key@),
            want == sensitive_needles(),
            needles@.len() == 8,
            forall|k: int| 0 <= k < 8 ==> (#[trigger] needles@[k])@ == want[k],
            forall|k: int| 0 <= k < i ==> !seq_contains(ascii_lower_seq(key@), #[trigger] want[k]),
        decreases 8 - i,
    {
        if str_contains(lower.as_str(), needles[i]) {
            assert(seq_contains(ascii_lower_seq(key@), want[i as int]));
            return true;
        }
        i = i + 1;
    }
    false
}

/// `redact_items` of a pushed sequence.
proof fn lemma_redact_items_push(items: Seq<Json>, x: Json)
    ensures
        redact_items(items.push(x)) == redact_items(items).push(redact(x)),
{
    assert(items.push(x).drop_last() =~= items);
}

/// `redact_entries` of a pushed sequence.
proof fn lemma_redact_entries_push(entries: Seq<(Seq<char>, Json)>, k: Seq<char>, x: Json)
    ensures
        redact_entries(entries.push((k, x))) == redact_entries(entries).push(
            if spec_is_sensitive_key(k) {
                (k, Json::Str(redacted_text()))
            } else {
                (k, redact(x))
            },
        ),
{
    assert(entries.push((k, x)).drop_last() =~= entries);
}

/// Replaces the value of every sensitive key, at every depth.
pub fn redact_value(value: JsonValue) -> (r: JsonValue)
    ensures
        r@ == redact(value@),
    decreases value,
{
    match value {
        JsonValue::Array(items) => {
            let ghost all = items@;
            let mut out: Vec<JsonValue> = Vec::new();
            let mut rest = items;
            let mut i: usize = 0;
            let n = rest.len();
            while i < n
                invariant
                    n == all.len(),
                    i <= n,
                    rest@ == all.subrange(i as int, n as int),
                    items_view(out@) == redact_items(items_view(all.subrange(0, i as int))),
                    value is Array,
                    all == value->Array_0@,
                decreases n - i,
            {
                let x = rest.remove(0);
                proof {
                    assert(x == all[i as int]);
                    assert(decreases_to!(value => value->Array_0));
                    assert(decreases_to!(value->Array_0 => value->Array_0@));
                    assert(decreases_to!(all => all[i as int]));
                }
                let y = redact_value(x);
                proof {
                    assert(rest@ =~= all.subrange(i + 1, n as int));
                    lemma_items_view_push(out@, y);
                    lemma_items_view_push(all.subrange(0, i as int), all[i as int]);
                    assert(all.subrange(0, i as int).push(all[i as int]) =~= all.subrange(0, i + 1));
                    lemma_redact_items_push(items_view(all.subrange(0, i as int)), jv_of(all[i as int]));
                }
                out.push(y);
                i = i + 1;
            }
            assert(all.subrange(0, n as int) =~= all);
            JsonValue::Array(out)
        },
        JsonValue::Object(entries) => {
            let ghost all = entries@;
            let mut out: Vec<(String, JsonValue)> = Vec::new();
            let mut rest = entries;
            let mut i: usize = 0;
            let n = rest.len();
            while i < n
                invariant
                    n == all.len(),
                    i <= n,
                    rest@ == all.subrange(i as int, n as int),
                    entries_view(out@) == redact_entries(entries_view(all.subrange(0, i as int))),
                    value is Object,
                    all == value->Object_0@,
                decreases n - i,
            {
                let (key, x) = rest.remove(0);
                proof {
                    assert((key, x) == all[i as int]);
                    assert(decreases_to!(value => value->Object_0));
                    assert(decreases_to!(value->Object_0 => value->Object_0@));
                    assert(decreases_to!(all => all[i as int]));
                    assert(decreases_to!(all[i as int] => all[i as int].1));
                }
                let ghost xv = x@;
                let sensitive = is_sensitive_key(key.as_str());
                let y = if sensitive {
                    JsonValue::string("[REDACTED]")
                } else {
                    redact_value(x)
                };
                proof {
                    assert(rest@ =~= all.subrange(i + 1, n as int));
                    lemma_entries_view_push(out@, key, y);
                    lemma_entries_view_push(all.subrange(0, i as int), key, all[i as int].1);
                    assert(all.subrange(0, i as int).push((key, all[i as int].1)) =~= all.subrange(0, i + 1));
                    lemma_redact_entries_push(entries_view(all.subrange(0, i as int)), key@, xv);
                }
                out.push((key, y));
                i = i + 1;
            }
            assert(all.subrange(0, n as int) =~= all);
            JsonValue::Object(out)
        },
        other => other,
    }
}

/// The mathematical form of one value (a name usable inside proofs).
pub open spec fn jv_of(v: JsonValue) -> Json {
    v@
}

/// Law: redacting twice is redacting once.
pub proof fn law_redact_idempotent(v: Json)
    ensures
        redact(redact(v)) == redact(v),
    decreases v,
{
    match v {
        Json::Array(items) => {
            lemma_redact_items_idempotent(items);
        },
        Json::Object(entries) => {
            lemma_redact_entries_idempotent(entries);
        },
        _ => {},
    }
}

proof fn lemma_redact_items_idempotent(items: Seq<Json>)
    ensures
        redact_items(redact_items(items)) == redact_items(items),
    decreases items,
{
    if items.len() > 0 {
        lemma_redact_items_idempotent(items.drop_last());
        law_redact_idempotent(items.last());
        lemma_redact_items_push(redact_items(items.drop_last()), redact(items.last()));
    }
}

proof fn lemma_redact_entries_idempotent(entries: Seq<(Seq<char>, Json)>)
    ensures
        redact_entries(redact_entries(entries)) == redact_entries(entries),
    decreases entries,
{
    if entries.len() > 0 {
        let (k, x) = entries.last();
        lemma_redact_entries_idempotent(entries.drop_last());
        law_redact_idempotent(x);
        let e = if spec_is_sensitive_key(k) {
            (k, Json::Str(redacted_text()))
        } else {
            (k, redact(x))
        };
        lemma_redact_entries_push(redact_entries(entries.drop_last()), e.0, e.1);
    }
}

/// Whether no object in a value, at any depth and inside arrays too, holds a
/// sensitive key with a value other than the redaction text.
pub open spec fn fully_redacted(v: Json) -> bool
    decreases v,
{
    match v {
        Json::Array(items) => items_fully_redacted(items),
        Json::Object(entries) => entries_fully_redacted(entries),
        _ => true,
    }
}

/// `fully_redacted` of every element.
pub open spec fn items_fully_redacted(items: Seq<Json>) -> bool
    decreases items,
{
    if items.len() == 0 {
        true
    } else {
        items_fully_redacted(items.drop_last()) && fully_redacted(items.last())
    }
}

/// Every sensitive entry holds the redaction text, every other value is
/// `fully_redacted`.
pub open spec fn entries_fully_redacted(entries: Seq<(Seq<char>, Json)>) -> bool
    decreases entries,
{
    if entries.len() == 0 {
        true
    } else {
        entries_fully_redacted(entries.drop_last()) && if spec_is_sensitive_key(entries.last().0) {
            entries.last().1 == Json::Str(redacted_text())
        } else {
            fully_redacted(entries.last().1)
        }
    }
}

/// Law: after redaction no object at any depth, inside arrays included,
/// holds a sensitive key with a value other than the redaction text.
pub proof fn law_redact_leaves_no_secret(v: Json)
    ensures
        fully_redacted(redact(v)),
    decreases v,
{
    match v {
        Json::Array(items) => {
            lemma_items_redacted(items);
        },
        Json::Object(entries) => {
            lemma_entries_redacted(entries);
        },
        _ => {},
    }
}

proof fn lemma_items_redacted(items: Seq<Json>)
    ensures
        items_fully_redacted(redact_items(items)),
    decreases items,
{
    if items.len() > 0 {
        lemma_items_redacted(items.drop_last());
        law_redact_leaves_no_secret(items.last());
        lemma_redact_items_push(items.drop_last(), items.last());
        assert(items.drop_last().push(items.last()) =~= items);
        let r = redact_items(items);
        assert(r.drop_last() =~= redact_items(items.drop_last()));
    }
}

proof fn lemma_entries_redacted(entries: Seq<(Seq<char>, Json)>)
    ensures
        entries_fully_redacted(redact_entries(entries)),
    decreases entries,
{
    if entries.len() > 0 {
        lemma_entries_redacted(entries.drop_last());
        law_redact_leaves_no_secret(entries.last().1);
        let r = redact_entries(entries);
        assert(r.drop_last() =~= redact_entries(entries.drop_last()));
    }
}

/// Law: redaction keeps a value's shape: scalars stay as they are, an array
/// becomes the array of its redacted elements, and an object keeps its keys
/// in order, with the redaction text under each sensitive key and the
/// redacted value under every other.
pub proof fn law_redact_shape(v: Json)
    ensures
        match v {
            Json::Array(items) => redact(v) == Json::Array(Seq::new(items.len(), |i: int| redact(items[i]))),
            Json::Object(entries) => redact(v) == Json::Object(Seq::new(
                entries.len(),
                |i: int| if spec_is_sensitive_key(entries[i].0) {
                    (entries[i].0, Json::Str(redacted_text()))
                } else {
                    (entries[i].0, redact(entries[i].1))
                },
            )),
            _ => redact(v) == v,
        },
{
    match v {
        Json::Array(items) => {
            lemma_redact_items_each(items);
            assert(redact_items(items) =~= Seq::new(items.len(), |i: int| redact(items[i])));
        },
        Json::Object(entries) => {
            lemma_redact_entries_each(entries);
            assert(redact_entries(entries) =~= Seq::new(
                entries.len(),
                |i: int| if spec_is_sensitive_key(entries[i].0) {
                    (entries[i].0, Json::Str(redacted_text()))
                } else {
                    (entries[i].0, redact(entries[i].1))
                },
            ));
        },
        _ => {},
    }
}

proof fn lemma_redact_items_each(items: Seq<Json>)
    ensures
        redact_items(items).len() == items.len(),
        forall|i: int| 0 <= i < items.len() ==> #[trigger] redact_items(items)[i] == redact(items[i]),
    decreases items.len(),
{
    if items.len() > 0 {
        lemma_redact_items_each(items.drop_last());
    }
}

proof fn lemma_redact_entries_each(entries: Seq<(Seq<char>, Json)>)
    ensures
        redact_entries(entries).len() == entries.len(),
        forall|i: int| 0 <= i < entries.len() ==> #[trigger] redact_entries(entries)[i] == if spec_is_sensitive_key(entries[i].0) {
            (entries[i].0, Json::Str(redacted_text()))
        } else {
            (entries[i].0, redact(entries[i].1))
        },
    decreases entries.len(),
{
    if entries.len() > 0 {
        lemma_redact_entries_each(entries.drop_last());
    }
}

// ---------------------------------------------------------------------------
// Result envelopes
// ---------------------------------------------------------------------------

/// A next step suggested by its action name and command.
pub open spec fn step_view(s: NextStep) -> (Seq<char>, Seq<char>) {
    (s.action@, s.command@)
}

impl NextStep {
    /// A next step with copies of the action name and command.
    pub fn new(action: &str, command: &str) -> (r: NextStep)
        ensures
            r.action@ == action@,
            r.command@ == command@,
    {
        NextStep { action: owned(action), command: owned(command) }
    }

    /// A copy of the step.
    pub fn duplicate(&self) -> (r: NextStep)
        ensures
            r.action@ == self.action@,
            r.command@ == self.command@,
    {
        NextStep { action: owned(self.action.as_str()), command: owned(self.command.as_str()) }
    }
}

impl ResultEnvelope {
    /// A successful result; the data is redacted before it is stored.
    pub fn success(command: &str, summary: &str, data: JsonValue, next_steps: Vec<NextStep>) -> (r: ResultEnvelope)
        ensures
            r.command@ == command@,
            r.status@ == "ok"@,
            r.summary@ == summary@,
            r.data@ == redact(data@),
            r.next_steps@ == next_steps@,
            r.errors@.len() == 0,
    {
        ResultEnvelope {
            command: owned(command),
            status: owned("ok"),
            summary: owned(summary),
            data: redact_value(data),
            next_steps,
            errors: Vec::new(),
        }
    }

    /// A failed result carrying one structured error and no data.
    pub fn error(command: &str, summary: &str, code: &str, message: &str, next_steps: Vec<NextStep>) -> (r: ResultEnvelope)
        ensures
            r.command@ == command@,
            r.status@ == "error"@,
            r.summary@ == summary@,
            r.data@ == Json::Null,
            r.next_steps@ == next_steps@,
            r.errors@.len() == 1,
            r.errors@[0].code@ == code@,
            r.errors@[0].message@ == message@,
    {
        let mut errors: Vec<StructuredError> = Vec::new();
        errors.push(StructuredError { code: owned(code), message: owned(message) });
        ResultEnvelope {
            command: owned(command),
            status: owned("error"),
            summary: owned(summary),
            data: JsonValue::Null,
            next_steps,
            errors,
        }
    }
}

// ---------------------------------------------------------------------------
// Table rendering of values and envelopes
// ---------------------------------------------------------------------------

/// The one-line text of a scalar value.
pub open spec fn scalar_text(v: Json) -> Seq<char> {
    match v {
        Json::Null => "null"@,
        Json::Bool(b) => if b {
            "true"@
        } else {
            "false"@
        },
        Json::Number(n) => n,
        Json::Str(s) => s,
        _ => Seq::empty(),
    }
}

/// Arrays and objects are shown as nested blocks; everything else inline.
pub open spec fn is_compound(v: Json) -> bool {
    v is Array || v is Object
}

/// The indented lines that show a value, each line starting with `prefix`.
pub open spec fn value_block(v: Json, prefix: Seq<char>) -> Seq<Seq<char>>
    decreases v,
{
    match v {
        Json::Array(items) => if items.len() == 0 {
            seq![prefix + "[]"@]
        } else {
            array_block(items, prefix)
        },
        Json::Object(entries) => if entries.len() == 0 {
            seq![prefix + "{}"@]
        } else {
            object_block(entries, prefix)
        },
        _ => seq![prefix + scalar_text(v)],
    }
}

/// The lines of the items of a non-empty array: `- scalar`, or `-` and a nested block.
pub open spec fn array_block(items: Seq<Json>, prefix: Seq<char>) -> Seq<Seq<char>>
    decreases items,
{
    if items.len() == 0 {
        Seq::empty()
    } else {
        array_block(items.drop_last(), prefix) + if is_compound(items.last()) {
            seq![prefix + "-"@] + value_block(items.last(), prefix + "  "@)
        } else {
            seq![prefix + "- "@ + scalar_text(items.last())]
        }
    }
}

/// The lines of the entries of a non-empty object: `key: scalar`, or `key:` and a nested block.
pub open spec fn object_block(entries: Seq<(Seq<char>, Json)>, prefix: Seq<char>) -> Seq<Seq<char>>
    decreases entries,
{
    if entries.len() == 0 {
        Seq::empty()
    } else {
        object_block(entries.drop_last(), prefix) + if is_compound(entries.last().1) {
            seq![prefix + entries.last().0 + ":"@] + value_block(entries.last().1, prefix + "  "@)
        } else {
            seq![prefix + entries.last().0 + ": "@ + scalar_text(entries.last().1)]
        }
    }
}

/// The `NEXT_STEPS:` block of a table.
pub open spec fn next_step_lines(steps: Seq<NextStep>) -> Seq<Seq<char>> {
    seq!["NEXT_STEPS:"@] + if steps.len() == 0 {
        seq!["- none"@]
    } else {
        Seq::new(steps.len(), |i: int| "- "@ + steps[i].action@ + " => "@ + steps[i].command@)
    }
}

/// The `ERRORS:` block of a table.
pub open spec fn error_lines(errors: Seq<StructuredError>) -> Seq<Seq<char>> {
    seq!["ERRORS:"@] + if errors.len() == 0 {
        seq!["- none"@]
    } else {
        Seq::new(errors.len(), |i: int| "- "@ + errors[i].code@ + ": "@ + errors[i].message@)
    }
}

/// The lines of the table form of an envelope.
pub open spec fn table_lines(r: ResultEnvelope) -> Seq<Seq<char>> {
    seq![
        "COMMAND_PATH: "@ + r.command@,
        "STATUS: "@ + r.status@,
        "SUMMARY: "@ + r.summary@,
        "DATA:"@,
    ] + value_block(r.data@, Seq::empty()) + next_step_lines(r.next_steps@) + error_lines(r.errors@)
}

/// The table form of an envelope.
pub open spec fn spec_result_table(r: ResultEnvelope) -> Seq<char> {
    join_seqs(table_lines(r), "\n"@)
}

/// `- first<sep>second` lines.
pub open spec fn pair_lines(items: Seq<(Seq<char>, Seq<char>)>, sep: Seq<char>) -> Seq<Seq<char>> {
    Seq::new(items.len(), |i: int| "- "@ + items[i].0 + sep + items[i].1)
}

/// The table form of an envelope given by its parts; next steps are
/// (action, command) pairs and errors (code, message) pairs.
pub open spec fn table_text(
    command: Seq<char>,
    status: Seq<char>,
    summary: Seq<char>,
    data: Json,
    steps: Seq<(Seq<char>, Seq<char>)>,
    errors: Seq<(Seq<char>, Seq<char>)>,
) -> Seq<char> {
    join_seqs(
        seq!["COMMAND_PATH: "@ + command, "STATUS: "@ + status, "SUMMARY: "@ + summary, "DATA:"@]
            + value_block(data, Seq::empty()) + seq!["NEXT_STEPS:"@] + if steps.len() == 0 {
            seq!["- none"@]
        } else {
            pair_lines(steps, " => "@)
        } + seq!["ERRORS:"@] + if errors.len() == 0 {
            seq!["- none"@]
        } else {
            pair_lines(errors, ": "@)
        },
        "\n"@,
    )
}

/// The (action, command) pairs of next steps.
pub open spec fn steps_view(steps: Seq<NextStep>) -> Seq<(Seq<char>, Seq<char>)> {
    Seq::new(steps.len(), |i: int| (steps[i].action@, steps[i].command@))
}

/// The (code, message) pairs of errors.
pub open spec fn errors_view(errors: Seq<StructuredError>) -> Seq<(Seq<char>, Seq<char>)> {
    Seq::new(errors.len(), |i: int| (errors[i].code@, errors[i].message@))
}

/// The table form of an envelope is `table_text` of its parts.
pub proof fn lemma_result_table_text(r: ResultEnvelope)
    ensures
        spec_result_table(r) == table_text(
            r.command@,
            r.status@,
            r.summary@,
            r.data@,
            steps_view(r.next_steps@),
            errors_view(r.errors@),
        ),
{
    let sv = steps_view(r.next_steps@);
    let ev = errors_view(r.errors@);
    let a = seq!["NEXT_STEPS:"@] + if sv.len() == 0 {
        seq!["- none"@]
    } else {
        pair_lines(sv, " => "@)
    };
    let b = seq!["ERRORS:"@] + if ev.len() == 0 {
        seq!["- none"@]
    } else {
        pair_lines(ev, ": "@)
    };
    assert(next_step_lines(r.next_steps@) =~= a);
    assert(error_lines(r.errors@) =~= b);
    let head = seq!["COMMAND_PATH: "@ + r.command@, "STATUS: "@ + r.status@, "SUMMARY: "@ + r.summary@, "DATA:"@];
    assert(table_lines(r) =~= head + value_block(r.data@, Seq::empty()) + a + b);
    let x = if sv.len() == 0 {
        seq!["- none"@]
    } else {
        pair_lines(sv, " => "@)
    };
    let y = if ev.len() == 0 {
        seq!["- none"@]
    } else {
        pair_lines(ev, ": "@)
    };
    assert(head + value_block(r.data@, Seq::empty()) + seq!["NEXT_STEPS:"@] + x + seq!["ERRORS:"@] + y
        =~= head + value_block(r.data@, Seq::empty()) + a + b);
}

proof fn lemma_array_block_push(items: Seq<Json>, x: Json, prefix: Seq<char>)
    ensures
        array_block(items.push(x), prefix) == array_block(items, prefix) + if is_compound(x) {
            seq![prefix + "-"@] + value_block(x, prefix + "  "@)
        } else {
            seq![prefix + "- "@ + scalar_text(x)]
        },
{
    assert(items.push(x).drop_last() =~= items);
}

proof fn lemma_object_block_push(entries: Seq<(Seq<char>, Json)>, k: Seq<char>, x: Json, prefix: Seq<char>)
    ensures
        object_block(entries.push((k, x)), prefix) == object_block(entries, prefix) + if is_compound(x) {
            seq![prefix + k + ":"@] + value_block(x, prefix + "  "@)
        } else {
            seq![prefix + k + ": "@ + scalar_text(x)]
        },
{
    assert(entries.push((k, x)).drop_last() =~= entries);
}

/// The one-line text of a scalar.
pub fn scalar_string(v: &JsonValue) -> (r: String)
    requires
        !is_compound(v@),
    ensures
        r@ == scalar_text(v@),
{
    match v {
        JsonValue::Null => owned("null"),
        JsonValue::Bool(b) => if *b {
            owned("true")
        } else {
            owned("false")
        },
        JsonValue::Number(n) => owned(n.as_str()),
        JsonValue::Str(s) => owned(s.as_str()),
        _ => owned(""),
    }
}

/// Whether the value is an array or an object.
pub fn is_compound_value(v: &JsonValue) -> (r: bool)
    ensures
        r == is_compound(v@),
{
    match v {
        JsonValue::Array(_) => true,
        JsonValue::Object(_) => true,
        _ => false,
    }
}

/// Appends the lines that show `value` under `prefix`.
pub fn render_value_block(value: &JsonValue, prefix: &str, lines: &mut Vec<String>)
    ensures
        views(final(lines)@) == views(old(lines)@) + value_block(value@, prefix@),
    decreases value,
{
    let ghost start = views(lines@);
    match value {
        JsonValue::Array(items) => {
            if items.len() == 0 {
                push_line(lines, concat2(prefix, "[]"));
                return;
            }
            let child = concat2(prefix, "  ");
            let mut i: usize = 0;
            while i < items.len()
                invariant
                    *value == JsonValue::Array(*items),
                    i <= items@.len(),
                    child@ == prefix@ + "  "@,
                    views(lines@) == start + array_block(items_view(items@.subrange(0, i as int)), prefix@),
                decreases items@.len() - i,
            {
                let item = &items[i];
                proof {
                    assert(decreases_to!(*value => value->Array_0));
                    assert(decreases_to!(value->Array_0 => value->Array_0@));
                    assert(decreases_to!(value->Array_0@ => value->Array_0@[i as int]));
                    lemma_items_view_push(items@.subrange(0, i as int), *item);
                    assert(items@.subrange(0, i as int).push(*item) =~= items@.subrange(0, i + 1));
                    lemma_array_block_push(items_view(items@.subrange(0, i as int)), item@, prefix@);
                }
                if is_compound_value(item) {
                    push_line(lines, concat2(prefix, "-"));
                    render_value_block(item, child.as_str(), lines);
                } else {
                    push_line(lines, concat3(prefix, "- ", scalar_string(item).as_str()));
                }
                i = i + 1;
            }
            assert(items@.subrange(0, items@.len() as int) =~= items@);
        },
        JsonValue::Object(entries) => {
            if entries.len() == 0 {
                push_line(lines, concat2(prefix, "{}"));
                return;
            }
            let child = concat2(prefix, "  ");
            let mut i: usize = 0;
            while i < entries.len()
                invariant
                    *value == JsonValue::Object(*entries),
                    i <= entries@.len(),
                    child@ == prefix@ + "  "@,
                    views(lines@) == start + object_block(entries_view(entries@.subrange(0, i as int)), prefix@),
                decreases entries@.len() - i,
            {
                let key = &entries[i].0;
                let item = &entries[i].1;
                proof {
                    assert(decreases_to!(*value => value->Object_0));
                    assert(decreases_to!(value->Object_0 => value->Object_0@));
                    assert(decreases_to!(value->Object_0@ => value->Object_0@[i as int]));
                    assert(decreases_to!(value->Object_0@[i as int] => value->Object_0@[i as int].1));
                    lemma_entries_view_push(entries@.subrange(0, i as int), *key, *item);
                    assert(entries@.subrange(0, i as int).push((*key, *item)) =~= entries@.subrange(0, i + 1));
                    lemma_object_block_push(entries_view(entries@.subrange(0, i as int)), key@, item@, prefix@);
                }
                if is_compound_value(item) {
                    push_line(lines, concat3(prefix, key.as_str(), ":"));
                    render_value_block(item, child.as_str(), lines);
                } else {
                    let text = scalar_string(item);
                    let head = concat3(prefix, key.as_str(), ": ");
                    push_line(lines, concat2(head.as_str(), text.as_str()));
                }
                i = i + 1;
            }
            assert(entries@.subrange(0, entries@.len() as int) =~= entries@);
        },
        _ => {
            push_line(lines, concat2(prefix, scalar_string(value).as_str()));
        },
    }
}

/// Appends the `NEXT_STEPS:` block.
fn push_next_steps(lines: &mut Vec<String>, next_steps: &Vec<NextStep>)
    ensures
        views(final(lines)@) == views(old(lines)@) + next_step_lines(next_steps@),
{
    let ghost start = views(lines@);
    push_line(lines, owned("NEXT_STEPS:"));
    if next_steps.len() == 0 {
        push_line(lines, owned("- none"));
        assert(views(lines@) =~= start + next_step_lines(next_steps@));
        return;
    }
    let mut i: usize = 0;
    while i < next_steps.len()
        invariant
            i <= next_steps@.len(),
            next_steps@.len() > 0,
            views(lines@) == start + seq!["NEXT_STEPS:"@] + Seq::new(
                i as nat,
                |k: int| "- "@ + next_steps@[k].action@ + " => "@ + next_steps@[k].command@,
            ),
        decreases next_steps@.len() - i,
    {
        let head = concat3("- ", next_steps[i].action.as_str(), " => ");
        push_line(lines, concat2(head.as_str(), next_steps[i].command.as_str()));
        i = i + 1;
        assert(views(lines@) =~= start + seq!["NEXT_STEPS:"@] + Seq::new(
            i as nat,
            |k: int| "- "@ + next_steps@[k].action@ + " => "@ + next_steps@[k].command@,
        ));
    }
    assert(views(lines@) =~= start + next_step_lines(next_steps@));
}

/// Appends the `ERRORS:` block.
fn push_errors(lines: &mut Vec<String>, errors: &Vec<StructuredError>)
    ensures
        views(final(lines)@) == views(old(lines)@) + error_lines(errors@),
{
    let ghost start = views(lines@);
    push_line(lines, owned("ERRORS:"));
    if errors.len() == 0 {
        push_line(lines, owned("- none"));
        assert(views(lines@) =~= start + error_lines(errors@));
        return;
    }
    let mut i: usize = 0;
    while i < errors.len()
        invariant
            i <= errors@.len(),
            errors@.len() > 0,
            views(lines@) == start + seq!["ERRORS:"@] + Seq::new(
                i as nat,
                |k: int| "- "@ + errors@[k].code@ + ": "@ + errors@[k].message@,
            ),
        decreases errors@.len() - i,
    {
        let head = concat3("- ", errors[i].code.as_str(), ": ");
        push_line(lines, concat2(head.as_str(), errors[i].message.as_str()));
        i = i + 1;
        assert(views(lines@) =~= start + seq!["ERRORS:"@] + Seq::new(
            i as nat,
            |k: int| "- "@ + errors@[k].code@ + ": "@ + errors@[k].message@,
        ));
    }
    assert(views(lines@) =~= start + error_lines(errors@));
}

/// The human-readable table form of a result envelope.
pub fn render_result_table(result: &ResultEnvelope) -> (r: String)
    ensures
        r@ == spec_result_table(*result),
        r@ == table_text(
            result.command@,
            result.status@,
            result.summary@,
            result.data@,
            steps_view(result.next_steps@),
            errors_view(result.errors@),
        ),
{
    proof {
        lemma_result_table_text(*result);
    }
    let mut lines: Vec<String> = Vec::new();
    assert(views(lines@) =~= Seq::<Seq<char>>::empty());
    push_line(&mut lines, concat2("COMMAND_PATH: ", result.command.as_str()));
    push_line(&mut lines, concat2("STATUS: ", result.status.as_str()));
    push_line(&mut lines, concat2("SUMMARY: ", result.summary.as_str()));
    push_line(&mut lines, owned("DATA:"));
    let ghost head = views(lines@);
    render_value_block(&result.data, "", &mut lines);
    push_next_steps(&mut lines, &result.next_steps);
    push_errors(&mut lines, &result.errors);
    proof {
        reveal_strlit("");
        assert(""@ =~= Seq::<char>::empty());
        assert(views(lines@) =~= table_lines(*result));
    }
    join_lines(&lines, "\n")
}

// ---------------------------------------------------------------------------
// JSON forms
// ---------------------------------------------------------------------------

/// An entry holding an optional text, left out when absent.
pub open spec fn opt_text_entry(key: Seq<char>, value: Option<String>) -> Seq<(Seq<char>, Json)> {
    match value {
        Some(t) => seq![(key, Json::Str(t@))],
        None => Seq::empty(),
    }
}

/// The JSON form of a guidance surface; empty lists and absent fields are left out.
pub open spec fn surface_json(s: GuidanceSurface) -> Json {
    Json::Object(
        seq![("guidance_kind"@, Json::Str(spec_kind_label(s.guidance_kind)))] + opt_text_entry(
            "command_path"@,
            s.command_path,
        ) + seq![("summary"@, Json::Str(s.summary@))] + nonempty_entry("when_to_use"@, views(s.when_to_use@))
            + nonempty_entry("prerequisites"@, views(s.prerequisites@)) + nonempty_entry(
            "actions"@,
            views(s.actions@),
        ) + nonempty_entry("examples"@, views(s.examples@)) + nonempty_entry(
            "next_steps"@,
            views(s.next_steps@),
        ) + nonempty_entry("related_terms"@, views(s.related_terms@)) + nonempty_entry(
            "related_commands"@,
            views(s.related_commands@),
        ) + match s.status {
            Some(st) => seq![("status"@, Json::Str(spec_status_label(st)))],
            None => Seq::empty(),
        },
    )
}

/// The JSON form of a next step.
pub open spec fn step_json(s: NextStep) -> Json {
    Json::Object(seq![("action"@, Json::Str(s.action@)), ("command"@, Json::Str(s.command@))])
}

/// The JSON form of a structured error.
pub open spec fn error_json(e: StructuredError) -> Json {
    Json::Object(seq![("code"@, Json::Str(e.code@)), ("message"@, Json::Str(e.message@))])
}

/// The JSON form of a list of next steps.
pub open spec fn steps_json(steps: Seq<NextStep>) -> Json {
    Json::Array(Seq::new(steps.len(), |i: int| step_json(steps[i])))
}

/// The JSON form of a list of structured errors.
pub open spec fn errors_json(errors: Seq<StructuredError>) -> Json {
    Json::Array(Seq::new(errors.len(), |i: int| error_json(errors[i])))
}

/// The JSON form of a result envelope.
pub open spec fn envelope_json(r: ResultEnvelope) -> Json {
    Json::Object(seq![
        ("command"@, Json::Str(r.command@)),
        ("status"@, Json::Str(r.status@)),
        ("summary"@, Json::Str(r.summary@)),
        ("data"@, r.data@),
        ("next_steps"@, steps_json(r.next_steps@)),
        ("errors"@, errors_json(r.errors@)),
    ])
}

/// The JSON form of a stream event; the last flag is written `final`.
pub open spec fn event_json(e: StreamEventEnvelope) -> Json {
    Json::Object(seq![
        ("command"@, Json::Str(e.command@)),
        ("event"@, Json::Str(e.event@)),
        ("sequence"@, Json::Number(crate::text::nat_decimal(e.sequence as nat))),
        ("status"@, Json::Str(e.status@)),
        ("summary"@, Json::Str(e.summary@)),
        ("data"@, e.data@),
        ("next_steps"@, steps_json(e.next_steps@)),
        ("final"@, Json::Bool(e.final_)),
    ])
}

impl NextStep {
    /// The JSON form of the step.
    pub fn to_json(&self) -> (r: JsonValue)
        ensures
            r@ == step_json(*self),
    {
        let mut b = ObjectBuilder::new();
        b.field("action", JsonValue::string(self.action.as_str()));
        b.field("command", JsonValue::string(self.command.as_str()));
        let ghost e = entries_view(b.entries@);
        let r = b.build();
        assert(e =~= seq![("action"@, Json::Str(self.action@)), ("command"@, Json::Str(self.command@))]);
        r
    }
}

impl StructuredError {
    /// The JSON form of the error.
    pub fn to_json(&self) -> (r: JsonValue)
        ensures
            r@ == error_json(*self),
    {
        let mut b = ObjectBuilder::new();
        b.field("code", JsonValue::string(self.code.as_str()));
        b.field("message", JsonValue::string(self.message.as_str()));
        let ghost e = entries_view(b.entries@);
        let r = b.build();
        assert(e =~= seq![("code"@, Json::Str(self.code@)), ("message"@, Json::Str(self.message@))]);
        r
    }
}

/// The JSON list of next steps.
pub fn steps_to_json(steps: &Vec<NextStep>) -> (r: JsonValue)
    ensures
        r@ == steps_json(steps@),
{
    let mut out: Vec<JsonValue> = Vec::new();
    let mut i: usize = 0;
    while i < steps.len()
        invariant
            i <= steps@.len(),
            items_view(out@) == Seq::new(i as nat, |k: int| step_json(steps@[k])),
        decreases steps@.len() - i,
    {
        let x = steps[i].to_json();
        proof {
            lemma_items_view_push(out@, x);
        }
        out.push(x);
        i = i + 1;
        assert(items_view(out@) =~= Seq::new(i as nat, |k: int| step_json(steps@[k])));
    }
    JsonValue::Array(out)
}

/// The JSON list of structured errors.
pub fn errors_to_json(errors: &Vec<StructuredError>) -> (r: JsonValue)
    ensures
        r@ == errors_json(errors@),
{
    let mut out: Vec<JsonValue> = Vec::new();
    let mut i: usize = 0;
    while i < errors.len()
        invariant
            i <= errors@.len(),
            items_view(out@) == Seq::new(i as nat, |k: int| error_json(errors@[k])),
        decreases errors@.len() - i,
    {
        let x = errors[i].to_json();
        proof {
            lemma_items_view_push(out@, x);
        }
        out.push(x);
        i = i + 1;
        assert(items_view(out@) =~= Seq::new(i as nat, |k: int| error_json(errors@[k])));
    }
    JsonValue::Array(out)
}

impl ResultEnvelope {
    /// The JSON form of the envelope.
    pub fn to_json(&self) -> (r: JsonValue)
        ensures
            r@ == envelope_json(*self),
    {
        let mut b = ObjectBuilder::new();
        b.field("command", JsonValue::string(self.command.as_str()));
        b.field("status", JsonValue::string(self.status.as_str()));
        b.field("summary", JsonValue::string(self.summary.as_str()));
        b.field("data", self.data.duplicate());
        b.field("next_steps", steps_to_json(&self.next_steps));
        b.field("errors", errors_to_json(&self.errors));
        let ghost e = entries_view(b.entries@);
        let r = b.build();
        assert(e =~= seq![
            ("command"@, Json::Str(self.command@)),
            ("status"@, Json::Str(self.status@)),
            ("summary"@, Json::Str(self.summary@)),
            ("data"@, self.data@),
            ("next_steps"@, steps_json(self.next_steps@)),
            ("errors"@, errors_json(self.errors@)),
        ]);
        r
    }
}

impl StreamEventEnvelope {
    /// A successful stream event; the data is redacted before it is stored.
    pub fn ok(
        command: &str,
        event: &str,
        sequence: u64,
        summary: &str,
        data: JsonValue,
        next_steps: Vec<NextStep>,
        final_event: bool,
    ) -> (r: StreamEventEnvelope)
        ensures
            r.command@ == command@,
            r.event@ == event@,
            r.sequence == sequence,
            r.status@ == "ok"@,
            r.summary@ == summary@,
            r.data@ == redact(data@),
            r.next_steps@ == next_steps@,
            r.final_ == final_event,
    {
        StreamEventEnvelope {
            command: owned(command),
            event: owned(event),
            sequence,
            status: owned("ok"),
            summary: owned(summary),
            data: redact_value(data),
            next_steps,
            final_: final_event,
        }
    }

    /// The JSON form of the event.
    pub fn to_json(&self) -> (r: JsonValue)
        ensures
            r@ == event_json(*self),
    {
        let mut b = ObjectBuilder::new();
        b.field("command", JsonValue::string(self.command.as_str()));
        b.field("event", JsonValue::string(self.event.as_str()));
        b.field("sequence", JsonValue::natural(self.sequence));
        b.field("status", JsonValue::string(self.status.as_str()));
        b.field("summary", JsonValue::string(self.summary.as_str()));
        b.field("data", self.data.duplicate());
        b.field("next_steps", steps_to_json(&self.next_steps));
        b.field("final", JsonValue::Bool(self.final_));
        let ghost e = entries_view(b.entries@);
        let r = b.build();
        assert(e =~= seq![
            ("command"@, Json::Str(self.command@)),
            ("event"@, Json::Str(self.event@)),
            ("sequence"@, Json::Number(crate::text::nat_decimal(self.sequence as nat))),
            ("status"@, Json::Str(self.status@)),
            ("summary"@, Json::Str(self.summary@)),
            ("data"@, self.data@),
            ("next_steps"@, steps_json(self.next_steps@)),
            ("final"@, Json::Bool(self.final_)),
        ]);
        r
    }
}

impl GuidanceSurface {
    /// The JSON form of the surface.
    pub fn to_json(&self) -> (r: JsonValue)
        ensures
            r@ == surface_json(*self),
    {
        let mut b = ObjectBuilder::new();
        b.field("guidance_kind", JsonValue::string(guidance_kind_label(self.guidance_kind)));
        b.field_opt("command_path", &self.command_path);
        b.field("summary", JsonValue::string(self.summary.as_str()));
        b.field_nonempty("when_to_use", &self.when_to_use);
        b.field_nonempty("prerequisites", &self.prerequisites);
        b.field_nonempty("actions", &self.actions);
        b.field_nonempty("examples", &self.examples);
        b.field_nonempty("next_steps", &self.next_steps);
        b.field_nonempty("related_terms", &self.related_terms);
        b.field_nonempty("related_commands", &self.related_commands);
        let ghost before_status = entries_view(b.entries@);
        match self.status {
            Some(st) => {
                b.field("status", JsonValue::string(guidance_status_label(st)));
            },
            None => {},
        }
        let ghost e = entries_view(b.entries@);
        let r = b.build();
        proof {
            let tail: Seq<(Seq<char>, Json)> = match self.status {
                Some(st) => seq![("status"@, Json::Str(spec_status_label(st)))],
                None => Seq::empty(),
            };
            assert(e =~= before_status + tail);
            assert(opt_text_entry("command_path"@, self.command_path) == crate::json::opt_entry("command_path"@, self.command_path));
            assert(e =~= surface_json(*self)->Object_0);
        }
        r
    }
}

} // verus!
