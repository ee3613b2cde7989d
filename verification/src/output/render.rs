//! Rendering values as text: a TOML writer that keeps field order with
//! dotted keys, the plain table layout, and blank lines between YAML sections.
use vstd::prelude::*;
use crate::errors::{Result, TelegramCliError, is_message_error};
use crate::json::{Json, JsonValue, entries_view, items_view, lemma_entries_view, lemma_items_view};
use crate::output::contract::{ResultEnvelope, render_result_table, envelope_json, spec_result_table};
use crate::output::format::OutputFormat;
use crate::text::{append_str, chars_of, join_lines, join_seqs, owned, push_char, split_str, views, lemma_views_push};

verus! {

// ---------------------------------------------------------------------------
// TOML strings and keys
// ---------------------------------------------------------------------------

/// How a character is written inside a TOML basic string.
pub open spec fn toml_escape(c: char) -> Seq<char> {
    if c == '\\' {
        seq!['\\', '\\']
    } else if c == '"' {
        seq!['\\', '"']
    } else if c == '\n' {
        seq!['\\', 'n']
    } else if c == '\r' {
        seq!['\\', 'r']
    } else if c == '\t' {
        seq!['\\', 't']
    } else {
        seq![c]
    }
}

/// A text with every character escaped.
pub open spec fn toml_escaped(s: Seq<char>) -> Seq<char>
    decreases s.len(),
{
    if s.len() == 0 {
        Seq::empty()
    } else {
        toml_escaped(s.drop_last()) + toml_escape(s.last())
    }
}

/// A text as a TOML basic string.
pub open spec fn spec_toml_quote(s: Seq<char>) -> Seq<char> {
    seq!['"'] + toml_escaped(s) + seq!['"']
}

/// A text as a TOML basic string: backslash, quote, newline, carriage return
/// and tab are escaped.
pub fn toml_quote(s: &str) -> (r: String)
    ensures
        r@ == spec_toml_quote(s@),
{
    let chars = chars_of(s);
    let mut out = String::new();
    push_char(&mut out, '"');
    let mut i: usize = 0;
    while i < chars.len()
        invariant
            chars@ == s@,
            i <= chars@.len(),
            out@ == seq!['"'] + toml_escaped(s@.subrange(0, i as int)),
        decreases chars@.len() - i,
    {
        let c = chars[i];
        if c == '\\' {
            push_char(&mut out, '\\');
            push_char(&mut out, '\\');
        } else if c == '"' {
            push_char(&mut out, '\\');
            push_char(&mut out, '"');
        } else if c == '\n' {
            push_char(&mut out, '\\');
            push_char(&mut out, 'n');
        } else if c == '\r' {
            push_char(&mut out, '\\');
            push_char(&mut out, 'r');
        } else if c == '\t' {
            push_char(&mut out, '\\');
            push_char(&mut out, 't');
        } else {
            push_char(&mut out, c);
        }
        proof {
            assert(s@.subrange(0, i + 1).drop_last() =~= s@.subrange(0, i as int));
        }
        i = i + 1;
        assert(out@ =~= seq!['"'] + toml_escaped(s@.subrange(0, i as int)));
    }
    push_char(&mut out, '"');
    assert(s@.subrange(0, s@.len() as int) =~= s@);
    assert(out@ =~= spec_toml_quote(s@));
    out
}

/// Escaping leaves no raw newline, carriage return or tab.
proof fn lemma_escaped_no_breaks(s: Seq<char>)
    ensures
        forall|i: int| 0 <= i < toml_escaped(s).len() ==> {
            let c = #[trigger] toml_escaped(s)[i];
            c != '\n' && c != '\r' && c != '\t'
        },
    decreases s.len(),
{
    if s.len() > 0 {
        lemma_escaped_no_breaks(s.drop_last());
        let a = toml_escaped(s.drop_last());
        let b = toml_escape(s.last());
        assert(toml_escaped(s) == a + b);
        assert forall|i: int| 0 <= i < toml_escaped(s).len() implies {
            let c = #[trigger] toml_escaped(s)[i];
            c != '\n' && c != '\r' && c != '\t'
        } by {
            if i < a.len() {
                assert(toml_escaped(s)[i] == a[i]);
            } else {
                assert(toml_escaped(s)[i] == b[i - a.len()]);
            }
        }
    }
}

/// Law: a quoted TOML string stays on one line and holds no raw tab: every
/// newline, carriage return and tab of the text is escaped.
pub proof fn law_toml_quote_single_line(s: Seq<char>)
    ensures
        forall|i: int| 0 <= i < spec_toml_quote(s).len() ==> {
            let c = #[trigger] spec_toml_quote(s)[i];
            c != '\n' && c != '\r' && c != '\t'
        },
{
    lemma_escaped_no_breaks(s);
    let q = spec_toml_quote(s);
    let e = toml_escaped(s);
    assert forall|i: int| 0 <= i < q.len() implies {
        let c = #[trigger] q[i];
        c != '\n' && c != '\r' && c != '\t'
    } by {
        if i == 0 {
        } else if i <= e.len() {
            assert(q[i] == e[i - 1]);
        } else {
        }
    }
}

/// Law: a key made of key characters is written bare, as it is.
pub proof fn law_bare_key_unquoted(k: Seq<char>)
    requires
        k.len() > 0,
        forall|i: int| 0 <= i < k.len() ==> bare_key_char(#[trigger] k[i]),
    ensures
        spec_toml_key(k) == k,
{
}

/// A character a bare TOML key may hold.
pub open spec fn bare_key_char(c: char) -> bool {
    ('a' <= c && c <= 'z') || ('A' <= c && c <= 'Z') || ('0' <= c && c <= '9') || c == '_' || c == '-'
}

/// A key as written in TOML: bare when it is made of key characters, else quoted.
pub open spec fn spec_toml_key(k: Seq<char>) -> Seq<char> {
    if k.len() > 0 && forall|i: int| 0 <= i < k.len() ==> bare_key_char(#[trigger] k[i]) {
        k
    } else {
        spec_toml_quote(k)
    }
}

/// A key as written in TOML.
pub fn toml_key(key: &str) -> (r: String)
    ensures
        r@ == spec_toml_key(key@),
{
    let chars = chars_of(key);
    let mut bare = chars.len() > 0;
    let mut i: usize = 0;
    while i < chars.len()
        invariant
            chars@ == key@,
            i <= chars@.len(),
            bare == (chars@.len() > 0 && forall|j: int| 0 <= j < i ==> bare_key_char(#[trigger] key@[j])),
        decreases chars@.len() - i,
    {
        let c = chars[i];
        let ok = ('a' <= c && c <= 'z') || ('A' <= c && c <= 'Z') || ('0' <= c && c <= '9') || c == '_' || c == '-';
        if !ok {
            bare = false;
        }
        i = i + 1;
    }
    if bare {
        owned(key)
    } else {
        toml_quote(key)
    }
}

// ---------------------------------------------------------------------------
// TOML values
// ---------------------------------------------------------------------------

/// A value written inline: null as `false`, arrays in brackets, objects as
/// inline tables.
pub open spec fn spec_toml_inline(v: Json) -> Seq<char>
    decreases v,
{
    match v {
        Json::Null => "false"@,
        Json::Bool(b) => if b { "true"@ } else { "false"@ },
        Json::Number(n) => n,
        Json::Str(s) => spec_toml_quote(s),
        Json::Array(items) => "["@ + join_seqs(inline_items(items), ", "@) + "]"@,
        Json::Object(entries) => "{ "@ + join_seqs(inline_entries(entries), ", "@) + " }"@,
    }
}

/// Each element written inline.
pub open spec fn inline_items(items: Seq<Json>) -> Seq<Seq<char>>
    decreases items,
{
    if items.len() == 0 {
        Seq::empty()
    } else {
        inline_items(items.drop_last()).push(spec_toml_inline(items.last()))
    }
}

/// Each entry written as `key = value`.
pub open spec fn inline_entries(entries: Seq<(Seq<char>, Json)>) -> Seq<Seq<char>>
    decreases entries,
{
    if entries.len() == 0 {
        Seq::empty()
    } else {
        inline_entries(entries.drop_last()).push(
            spec_toml_key(entries.last().0) + " = "@ + spec_toml_inline(entries.last().1),
        )
    }
}

/// A value written inline.
pub fn toml_inline(value: &JsonValue) -> (r: String)
    ensures
        r@ == spec_toml_inline(value@),
    decreases value,
{
    match value {
        JsonValue::Null => {
            let r = owned("false");
            proof { reveal_strlit("false"); }
            r
        },
        JsonValue::Bool(b) => if *b { owned("true") } else { owned("false") },
        JsonValue::Number(n) => owned(n.as_str()),
        JsonValue::Str(t) => toml_quote(t.as_str()),
        JsonValue::Array(items) => {
            let mut parts: Vec<String> = Vec::new();
            let mut i: usize = 0;
            proof {
                lemma_items_view(items@);
            }
            while i < items.len()
                invariant
                    i <= items@.len(),
                    views(parts@) == inline_items(items_view(items@).subrange(0, i as int)),
                    items_view(items@).len() == items@.len(),
                    forall|k: int| 0 <= k < items@.len() ==> items_view(items@)[k] == #[trigger] items@[k]@,
                    value is Array,
                    *items == value->Array_0,
                decreases items@.len() - i,
            {
                proof {
                    assert(decreases_to!(*value => value->Array_0));
                    assert(decreases_to!(value->Array_0 => value->Array_0@));
                    assert(decreases_to!(value->Array_0@ => value->Array_0@[i as int]));
                }
                let t = toml_inline(&items[i]);
                proof {
                    lemma_views_push(parts@, t);
                    assert(items_view(items@).subrange(0, i + 1).drop_last() =~= items_view(items@).subrange(0, i as int));
                }
                parts.push(t);
                i = i + 1;
            }
            assert(items_view(items@).subrange(0, items@.len() as int) =~= items_view(items@));
            let mut out = owned("[");
            append_str(&mut out, join_lines(&parts, ", ").as_str());
            append_str(&mut out, "]");
            out
        },
        JsonValue::Object(entries) => {
            let mut parts: Vec<String> = Vec::new();
            let mut i: usize = 0;
            proof {
                lemma_entries_view(entries@);
            }
            while i < entries.len()
                invariant
                    i <= entries@.len(),
                    views(parts@) == inline_entries(entries_view(entries@).subrange(0, i as int)),
                    entries_view(entries@).len() == entries@.len(),
                    forall|k: int| 0 <= k < entries@.len() ==> entries_view(entries@)[k] == (#[trigger] entries@[k].0@, entries@[k].1@),
                    value is Object,
                    *entries == value->Object_0,
                decreases entries@.len() - i,
            {
                proof {
                    assert(decreases_to!(*value => value->Object_0));
                    assert(decreases_to!(value->Object_0 => value->Object_0@));
                    assert(decreases_to!(value->Object_0@ => value->Object_0@[i as int]));
                    assert(decreases_to!(value->Object_0@[i as int] => value->Object_0@[i as int].1));
                }
                let mut t = toml_key(entries[i].0.as_str());
                append_str(&mut t, " = ");
                let v = toml_inline(&entries[i].1);
                append_str(&mut t, v.as_str());
                proof {
                    lemma_views_push(parts@, t);
                    assert(entries_view(entries@).subrange(0, i + 1).drop_last() =~= entries_view(entries@).subrange(0, i as int));
                }
                parts.push(t);
                i = i + 1;
            }
            assert(entries_view(entries@).subrange(0, entries@.len() as int) =~= entries_view(entries@));
            let mut out = owned("{ ");
            append_str(&mut out, join_lines(&parts, ", ").as_str());
            append_str(&mut out, " }");
            out
        },
    }
}

// ---------------------------------------------------------------------------
// TOML documents
// ---------------------------------------------------------------------------

/// Neither an object nor an array.
pub open spec fn is_scalar(v: Json) -> bool {
    !(v is Object) && !(v is Array)
}

/// The lines `  <inline>,` of an array written one element per line.
pub open spec fn bulleted(items: Seq<Json>) -> Seq<Seq<char>>
    decreases items.len(),
{
    if items.len() == 0 {
        Seq::empty()
    } else {
        bulleted(items.drop_last()).push("  "@ + spec_toml_inline(items.last()) + ","@)
    }
}

/// The lines of a field: `prefix = value`; null writes nothing, a single
/// scalar in an array stays on one line, other arrays take a line per
/// element, and objects become dotted keys.
pub open spec fn spec_toml_field(prefix: Seq<char>, v: Json) -> Seq<Seq<char>>
    decreases v,
{
    match v {
        Json::Null => Seq::empty(),
        Json::Str(s) => seq![prefix + " = "@ + spec_toml_quote(s)],
        Json::Number(n) => seq![prefix + " = "@ + n],
        Json::Bool(b) => seq![prefix + " = "@ + if b { "true"@ } else { "false"@ }],
        Json::Array(items) => if items.len() == 0 {
            seq![prefix + " = []"@]
        } else if items.len() == 1 && is_scalar(items[0]) {
            seq![prefix + " = ["@ + spec_toml_inline(items[0]) + "]"@]
        } else {
            seq![prefix + " = ["@] + bulleted(items) + seq!["]"@]
        },
        Json::Object(entries) => field_entries(prefix, entries),
    }
}

/// The lines of each entry under a prefix.
pub open spec fn field_entries(prefix: Seq<char>, entries: Seq<(Seq<char>, Json)>) -> Seq<Seq<char>>
    decreases entries,
{
    if entries.len() == 0 {
        Seq::empty()
    } else {
        field_entries(prefix, entries.drop_last()) + spec_toml_field(
            prefix + "."@ + spec_toml_key(entries.last().0),
            entries.last().1,
        )
    }
}

/// Appends `  <inline>,` for each element.
fn push_bulleted(lines: &mut Vec<String>, items: &Vec<JsonValue>)
    ensures
        views(final(lines)@) == views(old(lines)@) + bulleted(items_view(items@)),
{
    proof {
        lemma_items_view(items@);
    }
    let ghost start = views(lines@);
    let mut i: usize = 0;
    while i < items.len()
        invariant
            i <= items@.len(),
            views(lines@) == start + bulleted(items_view(items@).subrange(0, i as int)),
            items_view(items@).len() == items@.len(),
            forall|k: int| 0 <= k < items@.len() ==> items_view(items@)[k] == #[trigger] items@[k]@,
        decreases items@.len() - i,
    {
        let mut t = owned("  ");
        append_str(&mut t, toml_inline(&items[i]).as_str());
        append_str(&mut t, ",");
        proof {
            lemma_views_push(lines@, t);
            assert(items_view(items@).subrange(0, i + 1).drop_last() =~= items_view(items@).subrange(0, i as int));
        }
        lines.push(t);
        i = i + 1;
    }
    assert(items_view(items@).subrange(0, items@.len() as int) =~= items_view(items@));
}

/// Appends a line.
fn push_line(lines: &mut Vec<String>, line: String)
    ensures
        views(final(lines)@) == views(old(lines)@).push(line@),
{
    proof {
        lemma_views_push(lines@, line);
    }
    lines.push(line);
}

/// Appends the lines of a field.
pub fn toml_field(lines: &mut Vec<String>, prefix: &str, value: &JsonValue)
    ensures
        views(final(lines)@) == views(old(lines)@) + spec_toml_field(prefix@, value@),
    decreases value,
{
    match value {
        JsonValue::Null => {
            assert(views(lines@) + Seq::<Seq<char>>::empty() =~= views(lines@));
        },
        JsonValue::Str(t) => {
            let mut line = owned(prefix);
            append_str(&mut line, " = ");
            append_str(&mut line, toml_quote(t.as_str()).as_str());
            push_line(lines, line);
        },
        JsonValue::Number(n) => {
            let mut line = owned(prefix);
            append_str(&mut line, " = ");
            append_str(&mut line, n.as_str());
            push_line(lines, line);
        },
        JsonValue::Bool(b) => {
            let mut line = owned(prefix);
            append_str(&mut line, " = ");
            append_str(&mut line, if *b { "true" } else { "false" });
            push_line(lines, line);
        },
        JsonValue::Array(items) => {
            proof {
                lemma_items_view(items@);
            }
            if items.len() == 0 {
                let mut line = owned(prefix);
                append_str(&mut line, " = []");
                push_line(lines, line);
            } else if items.len() == 1 && !is_object(&items[0]) && !is_array(&items[0]) {
                let mut line = owned(prefix);
                append_str(&mut line, " = [");
                append_str(&mut line, toml_inline(&items[0]).as_str());
                append_str(&mut line, "]");
                push_line(lines, line);
            } else {
                let mut head = owned(prefix);
                append_str(&mut head, " = [");
                push_line(lines, head);
                push_bulleted(lines, items);
                push_line(lines, owned("]"));
                assert(views(lines@) =~= views(old(lines)@) + spec_toml_field(prefix@, value@));
            }
        },
        JsonValue::Object(entries) => {
            proof {
                lemma_entries_view(entries@);
            }
            let ghost start = views(lines@);
            let mut i: usize = 0;
            assert(field_entries(prefix@, entries_view(entries@).subrange(0, 0)) =~= Seq::<Seq<char>>::empty());
            while i < entries.len()
                invariant
                    i <= entries@.len(),
                    views(lines@) == start + field_entries(prefix@, entries_view(entries@).subrange(0, i as int)),
                    entries_view(entries@).len() == entries@.len(),
                    forall|k: int| 0 <= k < entries@.len() ==> entries_view(entries@)[k] == (#[trigger] entries@[k].0@, entries@[k].1@),
                    value is Object,
                    *entries == value->Object_0,
                decreases entries@.len() - i,
            {
                proof {
                    assert(decreases_to!(*value => value->Object_0));
                    assert(decreases_to!(value->Object_0 => value->Object_0@));
                    assert(decreases_to!(value->Object_0@ => value->Object_0@[i as int]));
                    assert(decreases_to!(value->Object_0@[i as int] => value->Object_0@[i as int].1));
                }
                let mut p = owned(prefix);
                append_str(&mut p, ".");
                append_str(&mut p, toml_key(entries[i].0.as_str()).as_str());
                toml_field(lines, p.as_str(), &entries[i].1);
                proof {
                    assert(entries_view(entries@).subrange(0, i + 1).drop_last() =~= entries_view(entries@).subrange(0, i as int));
                }
                i = i + 1;
            }
            assert(entries_view(entries@).subrange(0, entries@.len() as int) =~= entries_view(entries@));
        },
    }
}

/// A value that starts a new block in a TOML document: an object, or an
/// array holding an object.
pub open spec fn is_compound(v: Json) -> bool {
    v is Object || (v is Array && exists|i: int| 0 <= i < v->Array_0.len() && #[trigger] v->Array_0[i] is Object)
}

/// The lines of a document's top-level entries; a blank line stands before
/// a block and after one.
pub open spec fn toml_doc_lines(entries: Seq<(Seq<char>, Json)>) -> Seq<Seq<char>>
    decreases entries.len(),
{
    if entries.len() == 0 {
        Seq::empty()
    } else {
        let pre = toml_doc_lines(entries.drop_last());
        let blank = (is_compound(entries.last().1) || (entries.len() > 1 && is_compound(entries[entries.len() - 2].1)))
            && pre.len() > 0;
        pre + (if blank { seq![Seq::<char>::empty()] } else { Seq::<Seq<char>>::empty() })
            + spec_toml_field(spec_toml_key(entries.last().0), entries.last().1)
    }
}

/// A value as a TOML document, ending with a newline; a value that is not
/// an object is written inline.
pub open spec fn spec_render_toml(v: Json) -> Seq<char> {
    let lines = match v {
        Json::Object(entries) => toml_doc_lines(entries),
        _ => seq![spec_toml_inline(v)],
    };
    let out = join_seqs(lines, "\n"@);
    if out.len() > 0 && out.last() == '\n' { out } else { out.push('\n') }
}

/// Whether a value is an object.
fn is_object(v: &JsonValue) -> (r: bool)
    ensures
        r == (v@ is Object),
{
    match v {
        JsonValue::Object(_) => true,
        _ => false,
    }
}

/// Whether a value is an array.
fn is_array(v: &JsonValue) -> (r: bool)
    ensures
        r == (v@ is Array),
{
    match v {
        JsonValue::Array(_) => true,
        _ => false,
    }
}

/// Whether a value starts a new block.
fn compound(v: &JsonValue) -> (r: bool)
    ensures
        r == is_compound(v@),
{
    match v {
        JsonValue::Object(_) => true,
        JsonValue::Array(items) => {
            proof {
                lemma_items_view(items@);
            }
            let mut i: usize = 0;
            while i < items.len()
                invariant
                    i <= items@.len(),
                    items_view(items@).len() == items@.len(),
                    forall|k: int| 0 <= k < items@.len() ==> items_view(items@)[k] == #[trigger] items@[k]@,
                    forall|k: int| 0 <= k < i ==> !(#[trigger] items_view(items@)[k] is Object),
                    v@ == Json::Array(items_view(items@)),
                decreases items@.len() - i,
            {
                if is_object(&items[i]) {
                    assert(items_view(items@)[i as int] is Object);
                    assert(v@->Array_0[i as int] is Object);
                    return true;
                }
                i = i + 1;
            }
            false
        },
        _ => false,
    }
}

/// A value as a TOML document that keeps the order of its fields.
pub fn render_toml_ordered(value: &JsonValue) -> (r: String)
    ensures
        r@ == spec_render_toml(value@),
{
    let mut lines: Vec<String> = Vec::new();
    match value {
        JsonValue::Object(entries) => {
            proof {
                lemma_entries_view(entries@);
            }
            let ghost ev = entries_view(entries@);
            let mut prev_was_compound = false;
            let mut i: usize = 0;
            assert(toml_doc_lines(ev.subrange(0, 0)) =~= Seq::<Seq<char>>::empty());
            while i < entries.len()
                invariant
                    i <= entries@.len(),
                    ev == entries_view(entries@),
                    ev.len() == entries@.len(),
                    forall|k: int| 0 <= k < entries@.len() ==> ev[k] == (#[trigger] entries@[k].0@, entries@[k].1@),
                    views(lines@) == toml_doc_lines(ev.subrange(0, i as int)),
                    prev_was_compound == (i > 0 && is_compound(ev[i - 1].1)),
                decreases entries@.len() - i,
            {
                let is_compound_now = compound(&entries[i].1);
                let ghost pre = views(lines@);
                if (is_compound_now || prev_was_compound) && lines.len() > 0 {
                    push_line(&mut lines, String::new());
                }
                let key = toml_key(entries[i].0.as_str());
                toml_field(&mut lines, key.as_str(), &entries[i].1);
                proof {
                    let sub = ev.subrange(0, i + 1);
                    assert(sub.drop_last() =~= ev.subrange(0, i as int));
                    assert(sub.last() == ev[i as int]);
                    if i > 0 {
                        assert(sub[sub.len() - 2] == ev[i - 1]);
                    }
                    assert(views(lines@) =~= toml_doc_lines(sub));
                }
                prev_was_compound = is_compound_now;
                i = i + 1;
            }
            assert(ev.subrange(0, entries@.len() as int) =~= ev);
        },
        _ => {
            push_line(&mut lines, toml_inline(value));
            assert(views(lines@) =~= seq![spec_toml_inline(value@)]);
        },
    }
    let mut out = join_lines(&lines, "\n");
    let chars = chars_of(out.as_str());
    if !(chars.len() > 0 && chars[chars.len() - 1] == '\n') {
        push_char(&mut out, '\n');
    }
    out
}

// ---------------------------------------------------------------------------
// YAML spacing
// ---------------------------------------------------------------------------

/// A line without its `\r` line ending, as `str::lines` gives it.
pub open spec fn strip_cr(line: Seq<char>) -> Seq<char> {
    if line.len() > 0 && line.last() == '\r' { line.drop_last() } else { line }
}

/// The lines of a text (`str::lines`): split at newlines, without a last
/// empty piece, each without a trailing carriage return.
pub open spec fn spec_lines(text: Seq<char>) -> Seq<Seq<char>> {
    let parts = crate::text::split_all(text, '\n');
    let kept = if parts.len() > 0 && parts.last().len() == 0 { parts.drop_last() } else { parts };
    Seq::new(kept.len(), |i: int| strip_cr(kept[i]))
}

/// A line that opens a top-level YAML section: not empty, not indented, not
/// a list item, holding a colon, and not a document marker.
pub open spec fn spec_is_top_level_section(line: Seq<char>) -> bool {
    line.len() > 0 && line[0] != ' ' && line[0] != '\t' && line[0] != '-'
        && crate::text::seq_contains(line, ":"@) && line != "---"@ && line != "..."@
}

/// The spaced text of some lines, and whether a section was seen.
pub open spec fn yaml_fold(lines: Seq<Seq<char>>) -> (Seq<char>, bool)
    decreases lines.len(),
{
    if lines.len() == 0 {
        (Seq::empty(), false)
    } else {
        let (text, seen) = yaml_fold(lines.drop_last());
        let line = lines.last();
        let top = spec_is_top_level_section(line);
        let spaced = if top && seen && !crate::text::seq_ends_with(text, "\n\n"@) { text.push('\n') } else { text };
        (spaced + line + "\n"@, seen || top)
    }
}

/// Whether a line opens a top-level YAML section.
fn is_yaml_top_level_section(line: &str) -> (r: bool)
    ensures
        r == spec_is_top_level_section(line@),
{
    let chars = chars_of(line);
    proof {
        reveal_strlit(":");
        reveal_strlit("---");
        reveal_strlit("...");
    }
    chars.len() > 0 && chars[0] != ' ' && chars[0] != '\t' && chars[0] != '-'
        && crate::text::str_contains(line, ":") && !crate::text::str_eq(line, "---") && !crate::text::str_eq(line, "...")
}

/// YAML output with a blank line before every top-level section after the
/// first, unless one is already there; every line ends with a newline.
pub fn insert_blank_lines_between_yaml_sections(rendered: &str) -> (r: String)
    ensures
        r@ == yaml_fold(spec_lines(rendered@)).0,
{
    let parts = split_str(rendered, '\n');
    let ghost pv = views(parts@);
    let mut n: usize = parts.len();
    if n > 0 && parts[n - 1].unicode_len() == 0 {
        n = n - 1;
    }
    let ghost kept = if pv.len() > 0 && pv.last().len() == 0 { pv.drop_last() } else { pv };
    assert(kept.len() == n);
    let ghost ls = spec_lines(rendered@);
    let mut out = String::new();
    let mut seen = false;
    let mut i: usize = 0;
    assert(ls.subrange(0, 0) =~= Seq::<Seq<char>>::empty());
    while i < n
        invariant
            pv == views(parts@),
            pv == crate::text::split_all(rendered@, '\n'),
            n <= parts@.len(),
            kept.len() == n,
            forall|k: int| 0 <= k < n ==> kept[k] == #[trigger] parts@[k]@,
            ls == spec_lines(rendered@),
            ls.len() == n,
            forall|k: int| 0 <= k < n ==> #[trigger] ls[k] == strip_cr(kept[k]),
            i <= n,
            (out@, seen) == yaml_fold(ls.subrange(0, i as int)),
        decreases n - i,
    {
        let piece = chars_of(parts[i].as_str());
        let line = if piece.len() > 0 && piece[piece.len() - 1] == '\r' {
            crate::text::string_of_range(piece.as_slice(), 0, piece.len() - 1)
        } else {
            owned(parts[i].as_str())
        };
        assert(line@ == ls[i as int]) by {
            assert(kept[i as int] == parts@[i as int]@);
            if piece@.len() > 0 && piece@.last() == '\r' {
                assert(piece@.subrange(0, piece@.len() - 1) =~= piece@.drop_last());
            }
        }
        let top = is_yaml_top_level_section(line.as_str());
        let tail = chars_of(out.as_str());
        let ends_blank = tail.len() >= 2 && tail[tail.len() - 1] == '\n' && tail[tail.len() - 2] == '\n';
        proof {
            reveal_strlit("\n\n");
            reveal_strlit("\n");
            assert("\n\n"@ =~= seq!['\n', '\n']);
            assert("\n"@ =~= seq!['\n']);
            let t = out@;
            assert(tail@ == t);
            assert(ends_blank == crate::text::seq_ends_with(t, "\n\n"@)) by {
                if t.len() >= 2 {
                    assert(t.subrange(t.len() - 2, t.len() as int) =~= seq![t[t.len() - 2], t[t.len() - 1]]);
                }
            }
            let sub = ls.subrange(0, i + 1);
            assert(sub.drop_last() =~= ls.subrange(0, i as int));
            assert(sub.last() == ls[i as int]);
        }
        if top && seen && !ends_blank {
            push_char(&mut out, '\n');
        }
        append_str(&mut out, line.as_str());
        push_char(&mut out, '\n');
        if top {
            seen = true;
        }
        i = i + 1;
        assert(out@ =~= yaml_fold(ls.subrange(0, i as int)).0);
    }
    assert(ls.subrange(0, n as int) =~= ls);
    out
}

// ---------------------------------------------------------------------------
// Compact JSON and the plain table layout
// ---------------------------------------------------------------------------

#[verifier::external_type_specification]
#[verifier::external_body]
pub struct ExSerdeJsonValue(serde_json::Value);

/// What `serde_json::to_string` writes for a value.
pub uninterp spec fn spec_json_compact(v: Json) -> Seq<char>;

/// The `serde_json::Value` a value stands for, field for field.
#[verifier::external_body]
fn serde_value(v: &JsonValue) -> serde_json::Value {
    match v {
        JsonValue::Null => serde_json::Value::Null,
        JsonValue::Bool(b) => serde_json::Value::Bool(*b),
        JsonValue::Number(n) => match n.parse::<serde_json::Number>() {
            Ok(x) => serde_json::Value::Number(x),
            Err(_) => serde_json::Value::String(n.clone()),
        },
        JsonValue::Str(s) => serde_json::Value::String(s.clone()),
        JsonValue::Array(items) => serde_json::Value::Array(items.iter().map(serde_value).collect()),
        JsonValue::Object(entries) => serde_json::Value::Object(entries.iter().map(|(k, x)| (k.clone(), serde_value(x))).collect()),
    }
}

/// Writes a value as compact JSON with `serde_json::to_string`; the text is
/// the named function of the value.
#[verifier::external_body]
fn json_compact(v: &JsonValue) -> (r: String)
    ensures
        r@ == spec_json_compact(v@),
{
    serde_json::to_string(&serde_value(v)).unwrap_or_default()
}

/// A value as one line of compact JSON.
pub fn json_line(v: &JsonValue) -> (r: String)
    ensures
        r@ == spec_json_compact(v@),
{
    json_compact(v)
}

/// A value as a table cell: scalars as their text, others as compact JSON.
pub open spec fn spec_cell_value(v: Json) -> Seq<char> {
    match v {
        Json::Null => "null"@,
        Json::Bool(b) => if b { "true"@ } else { "false"@ },
        Json::Number(n) => n,
        Json::Str(s) => s,
        _ => spec_json_compact(v),
    }
}

/// A value as a table cell.
pub fn cell_value(value: &JsonValue) -> (r: String)
    ensures
        r@ == spec_cell_value(value@),
{
    match value {
        JsonValue::Null => owned("null"),
        JsonValue::Bool(b) => if *b { owned("true") } else { owned("false") },
        JsonValue::Number(n) => owned(n.as_str()),
        JsonValue::Str(t) => owned(t.as_str()),
        _ => json_compact(value),
    }
}

/// Object entries as `key<sep>cell` pieces.
pub open spec fn cell_pairs(entries: Seq<(Seq<char>, Json)>, sep: Seq<char>) -> Seq<Seq<char>> {
    Seq::new(entries.len(), |i: int| entries[i].0 + sep + spec_cell_value(entries[i].1))
}

/// One row of an array in the plain table layout.
pub open spec fn spec_table_row(item: Json) -> Seq<char> {
    match item {
        Json::Object(entries) => join_seqs(cell_pairs(entries, "="@), " "@),
        _ => spec_cell_value(item),
    }
}

/// A value in the plain table layout: an object as `key: value` lines, an
/// array as one row per element, anything else as one cell.
pub open spec fn spec_table_plain(v: Json) -> Seq<char> {
    match v {
        Json::Object(entries) => join_seqs(cell_pairs(entries, ": "@), "\n"@),
        Json::Array(items) => join_seqs(Seq::new(items.len(), |i: int| spec_table_row(items[i])), "\n"@),
        _ => spec_cell_value(v),
    }
}

/// Object entries joined as `key<sep>cell` pieces.
fn join_cells(entries: &Vec<(String, JsonValue)>, sep: &str, between: &str) -> (r: String)
    ensures
        r@ == join_seqs(cell_pairs(entries_view(entries@), sep@), between@),
{
    proof {
        lemma_entries_view(entries@);
    }
    let ghost ev = entries_view(entries@);
    let mut parts: Vec<String> = Vec::new();
    let mut i: usize = 0;
    while i < entries.len()
        invariant
            i <= entries@.len(),
            ev == entries_view(entries@),
            ev.len() == entries@.len(),
            forall|k: int| 0 <= k < entries@.len() ==> ev[k] == (#[trigger] entries@[k].0@, entries@[k].1@),
            views(parts@) == cell_pairs(ev, sep@).subrange(0, i as int),
        decreases entries@.len() - i,
    {
        let mut t = owned(entries[i].0.as_str());
        append_str(&mut t, sep);
        append_str(&mut t, cell_value(&entries[i].1).as_str());
        proof {
            lemma_views_push(parts@, t);
        }
        parts.push(t);
        i = i + 1;
        assert(views(parts@) =~= cell_pairs(ev, sep@).subrange(0, i as int));
    }
    assert(cell_pairs(ev, sep@).subrange(0, entries@.len() as int) =~= cell_pairs(ev, sep@));
    join_lines(&parts, between)
}

/// One row of an array in the plain table layout.
fn table_row(item: &JsonValue) -> (r: String)
    ensures
        r@ == spec_table_row(item@),
{
    match item {
        JsonValue::Object(entries) => join_cells(entries, "=", " "),
        _ => cell_value(item),
    }
}

/// A value that is not a result envelope, in the plain table layout.
pub fn render_table_plain(value: &JsonValue) -> (r: String)
    ensures
        r@ == spec_table_plain(value@),
{
    match value {
        JsonValue::Object(entries) => join_cells(entries, ": ", "\n"),
        JsonValue::Array(items) => {
            proof {
                lemma_items_view(items@);
            }
            let ghost iv = items_view(items@);
            let ghost want = Seq::new(iv.len(), |i: int| spec_table_row(iv[i]));
            let mut rows: Vec<String> = Vec::new();
            let mut i: usize = 0;
            while i < items.len()
                invariant
                    i <= items@.len(),
                    iv == items_view(items@),
                    iv.len() == items@.len(),
                    forall|k: int| 0 <= k < items@.len() ==> iv[k] == #[trigger] items@[k]@,
                    want == Seq::new(iv.len(), |i: int| spec_table_row(iv[i])),
                    views(rows@) == want.subrange(0, i as int),
                decreases items@.len() - i,
            {
                let t = table_row(&items[i]);
                proof {
                    lemma_views_push(rows@, t);
                }
                rows.push(t);
                i = i + 1;
                assert(views(rows@) =~= want.subrange(0, i as int));
            }
            assert(want.subrange(0, items@.len() as int) =~= want);
            join_lines(&rows, "\n")
        },
        _ => cell_value(value),
    }
}

/// Rows of newline-delimited JSON: each element of an array on its own
/// line, or the value itself on one line.
pub open spec fn spec_render_ndjson(v: Json) -> Seq<char> {
    match v {
        Json::Array(items) => join_seqs(Seq::new(items.len(), |i: int| spec_json_compact(items[i])), "\n"@),
        _ => spec_json_compact(v),
    }
}

/// A value as newline-delimited JSON.
pub fn render_ndjson(value: &JsonValue) -> (r: String)
    ensures
        r@ == spec_render_ndjson(value@),
{
    match value {
        JsonValue::Array(items) => {
            proof {
                lemma_items_view(items@);
            }
            let ghost iv = items_view(items@);
            let ghost want = Seq::new(iv.len(), |i: int| spec_json_compact(iv[i]));
            let mut rows: Vec<String> = Vec::new();
            let mut i: usize = 0;
            while i < items.len()
                invariant
                    i <= items@.len(),
                    iv == items_view(items@),
                    iv.len() == items@.len(),
                    forall|k: int| 0 <= k < items@.len() ==> iv[k] == #[trigger] items@[k]@,
                    want == Seq::new(iv.len(), |i: int| spec_json_compact(iv[i])),
                    views(rows@) == want.subrange(0, i as int),
                decreases items@.len() - i,
            {
                let t = json_compact(&items[i]);
                proof {
                    lemma_views_push(rows@, t);
                }
                rows.push(t);
                i = i + 1;
                assert(views(rows@) =~= want.subrange(0, i as int));
            }
            assert(want.subrange(0, items@.len() as int) =~= want);
            join_lines(&rows, "\n")
        },
        _ => json_compact(value),
    }
}

// ---------------------------------------------------------------------------
// Values in every output format
// ---------------------------------------------------------------------------

/// What `serde_json::to_string_pretty` writes for a value.
pub uninterp spec fn spec_json_pretty(v: Json) -> Seq<char>;

/// What `serde_yaml::to_string` writes for a value, or the text of its error.
pub uninterp spec fn spec_yaml(v: Json) -> core::result::Result<Seq<char>, Seq<char>>;

/// Writes a value as indented JSON with `serde_json::to_string_pretty`.
#[verifier::external_body]
fn json_pretty(v: &JsonValue) -> (r: String)
    ensures
        r@ == spec_json_pretty(v@),
{
    serde_json::to_string_pretty(&serde_value(v)).unwrap_or_default()
}

/// Writes a value as YAML with `serde_yaml::to_string`.
#[verifier::external_body]
fn yaml_text(v: &JsonValue) -> (r: core::result::Result<String, String>)
    ensures
        match spec_yaml(v@) {
            Ok(t) => r is Ok && r->Ok_0@ == t,
            Err(e) => r is Err && r->Err_0@ == e,
        },
{
    serde_yaml::to_string(&serde_value(v)).map_err(|error| error.to_string())
}

/// A value in an output format; the table layout here is the plain one.
pub open spec fn spec_render_value(v: Json, format: OutputFormat) -> core::result::Result<Seq<char>, Seq<char>> {
    match format {
        OutputFormat::Yaml => match spec_yaml(v) {
            Ok(t) => Ok(yaml_fold(spec_lines(t)).0),
            Err(e) => Err("failed to serialize yaml output: "@ + e),
        },
        OutputFormat::Toml => Ok(spec_render_toml(v)),
        OutputFormat::Json => Ok(spec_json_pretty(v)),
        OutputFormat::Ndjson => Ok(spec_render_ndjson(v)),
        OutputFormat::Table => Ok(spec_table_plain(v)),
    }
}

/// A value in an output format.
pub fn render_value(value: &JsonValue, format: OutputFormat) -> (r: Result<String>)
    ensures
        match spec_render_value(value@, format) {
            Ok(t) => r is Ok && r->Ok_0@ == t,
            Err(m) => r is Err && is_message_error(r->Err_0, m),
        },
{
    match format {
        OutputFormat::Yaml => match yaml_text(value) {
            Ok(t) => Ok(insert_blank_lines_between_yaml_sections(t.as_str())),
            Err(e) => Err(TelegramCliError::Message(crate::text::concat2("failed to serialize yaml output: ", e.as_str()))),
        },
        OutputFormat::Toml => Ok(render_toml_ordered(value)),
        OutputFormat::Json => Ok(json_pretty(value)),
        OutputFormat::Ndjson => Ok(render_ndjson(value)),
        OutputFormat::Table => Ok(render_table_plain(value)),
    }
}

/// A result envelope in an output format: the table layout is the
/// envelope's own, every other format renders its JSON.
pub fn render_envelope(envelope: &ResultEnvelope, format: OutputFormat) -> (r: Result<String>)
    ensures
        format == OutputFormat::Table ==> r is Ok && r->Ok_0@ == spec_result_table(*envelope),
        format != OutputFormat::Table ==> match spec_render_value(envelope_json(*envelope), format) {
            Ok(t) => r is Ok && r->Ok_0@ == t,
            Err(m) => r is Err && is_message_error(r->Err_0, m),
        },
{
    match format {
        OutputFormat::Table => Ok(render_result_table(envelope)),
        _ => render_value(&envelope.to_json(), format),
    }
}

} // verus!
