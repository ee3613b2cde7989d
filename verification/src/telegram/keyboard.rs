//! Keyboards attached to outgoing messages, parsed from the command-line shorthand.
use vstd::prelude::*;
use crate::errors::{Result, TelegramCliError, is_message_error};
use crate::text::{concat2, concat3, owned, rsplit_once, rsplit_once_str, split_once, split_once_str, str_eq, views};

verus! {

/// A single reply-keyboard button specification.
///
/// Parsed from shorthand strings:
/// - `"Yes"` → plain text button
/// - `"Share:phone"` → request phone
/// - `"Location:geo"` → request geo location
/// - `"Vote:poll"` → request poll
#[derive(Debug, Clone, PartialEq, Eq)]
pub struct ReplyButtonSpec {
    pub label: String,
    pub kind: ReplyButtonKind,
}

/// What pressing a reply-keyboard button sends.
#[derive(Debug, Clone, Copy, PartialEq, Eq, Structural)]
pub enum ReplyButtonKind {
    Text,
    RequestPhone,
    RequestGeo,
    RequestPoll,
}

/// A single inline button specification.
///
/// Parsed from shorthand strings:
/// - `"Click:callback:data"` → callback button
/// - `"Open:url:https://example.com"` → URL button
#[derive(Debug, Clone, PartialEq, Eq)]
pub struct InlineButtonSpec {
    pub label: String,
    pub kind: InlineButtonKind,
}

/// What pressing an inline button does.
#[derive(Debug, Clone, PartialEq, Eq)]
pub enum InlineButtonKind {
    Callback { data: String },
    Url { url: String },
}

/// Keyboard configuration to attach to a message; at most one of the two is set.
#[derive(Debug, Clone, Default)]
pub struct ReplyMarkupConfig {
    pub reply_keyboard: Option<Vec<Vec<ReplyButtonSpec>>>,
    pub inline_keyboard: Option<Vec<Vec<InlineButtonSpec>>>,
}

/// The parse of one reply-button shorthand: the label and kind, or the error text.
pub open spec fn spec_reply_button(s: Seq<char>) -> core::result::Result<(Seq<char>, ReplyButtonKind), Seq<char>> {
    match rsplit_once(s, ':') {
        Some((label, kind)) => if kind == "phone"@ {
            Ok((label, ReplyButtonKind::RequestPhone))
        } else if kind == "geo"@ {
            Ok((label, ReplyButtonKind::RequestGeo))
        } else if kind == "poll"@ {
            Ok((label, ReplyButtonKind::RequestPoll))
        } else {
            Err("unknown reply button kind '"@ + kind + "'; expected 'phone', 'geo', or 'poll'"@)
        },
        None => Ok((s, ReplyButtonKind::Text)),
    }
}

/// The parse of one inline-button shorthand `label:kind:payload`.
pub open spec fn spec_inline_button(s: Seq<char>) -> core::result::Result<(Seq<char>, bool, Seq<char>), Seq<char>> {
    match split_once(s, ':') {
        Some((label, rest)) => match split_once(rest, ':') {
            Some((kind, payload)) => if kind == "callback"@ {
                Ok((label, true, payload))
            } else if kind == "url"@ {
                Ok((label, false, payload))
            } else {
                Err("unknown inline button kind '"@ + kind + "'; expected 'callback' or 'url'"@)
            },
            None => Err("inline button must be 'label:kind:payload'"@),
        },
        None => Err("inline button must be 'label:kind:payload'"@),
    }
}

/// The label, kind (`true` for callback) and payload of an inline button.
pub open spec fn inline_spec_view(b: InlineButtonSpec) -> (Seq<char>, bool, Seq<char>) {
    match b.kind {
        InlineButtonKind::Callback { data } => (b.label@, true, data@),
        InlineButtonKind::Url { url } => (b.label@, false, url@),
    }
}

impl ReplyButtonSpec {
    /// Parses the shorthand: the text after the last `:` names the kind, else a plain button.
    pub fn try_from(value: &str) -> (r: Result<ReplyButtonSpec>)
        ensures
            match spec_reply_button(value@) {
                Ok((label, kind)) => r is Ok && r->Ok_0.label@ == label && r->Ok_0.kind == kind,
                Err(m) => r is Err && is_message_error(r->Err_0, m),
            },
    {
        match rsplit_once_str(value, ':') {
            Some((label, kind_str)) => {
                let kind = if str_eq(kind_str.as_str(), "phone") {
                    ReplyButtonKind::RequestPhone
                } else if str_eq(kind_str.as_str(), "geo") {
                    ReplyButtonKind::RequestGeo
                } else if str_eq(kind_str.as_str(), "poll") {
                    ReplyButtonKind::RequestPoll
                } else {
                    return Err(
                        TelegramCliError::Message(
                            concat3(
                                "unknown reply button kind '",
                                kind_str.as_str(),
                                "'; expected 'phone', 'geo', or 'poll'",
                            ),
                        ),
                    );
                };
                Ok(ReplyButtonSpec { label, kind })
            },
            None => Ok(ReplyButtonSpec { label: owned(value), kind: ReplyButtonKind::Text }),
        }
    }
}

impl InlineButtonSpec {
    /// Parses the shorthand `label:kind:payload` with kind `callback` or `url`.
    pub fn try_from(value: &str) -> (r: Result<InlineButtonSpec>)
        ensures
            match spec_inline_button(value@) {
                Ok(v) => r is Ok && inline_spec_view(r->Ok_0) == v,
                Err(m) => r is Err && is_message_error(r->Err_0, m),
            },
    {
        let (label, rest) = match split_once_str(value, ':') {
            Some(p) => p,
            None => {
                return Err(TelegramCliError::message("inline button must be 'label:kind:payload'"));
            },
        };
        let (kind, payload) = match split_once_str(rest.as_str(), ':') {
            Some(p) => p,
            None => {
                return Err(TelegramCliError::message("inline button must be 'label:kind:payload'"));
            },
        };
        let kind = if str_eq(kind.as_str(), "callback") {
            InlineButtonKind::Callback { data: payload }
        } else if str_eq(kind.as_str(), "url") {
            InlineButtonKind::Url { url: payload }
        } else {
            return Err(
                TelegramCliError::Message(
                    concat3(
                        "unknown inline button kind '",
                        kind.as_str(),
                        "'; expected 'callback' or 'url'",
                    ),
                ),
            );
        };
        Ok(InlineButtonSpec { label, kind })
    }
}

/// The rows of a parsed JSON array of arrays of strings.
pub open spec fn rows_view(rows: Seq<Vec<String>>) -> Seq<Seq<Seq<char>>> {
    Seq::new(rows.len(), |i: int| Seq::new(rows[i]@.len(), |j: int| rows[i]@[j]@))
}

/// What `serde_json::from_str::<Vec<Vec<String>>>` returns for a text: the rows,
/// or the text of the parse error.
pub uninterp spec fn spec_json_string_rows(text: Seq<char>) -> core::result::Result<Seq<Seq<Seq<char>>>, Seq<char>>;

/// Parses a JSON array of arrays of strings with `serde_json::from_str`; the
/// result, rows or error text, is the named function of the input text.
#[verifier::external_body]
fn parse_string_rows(text: &str) -> (r: core::result::Result<Vec<Vec<String>>, String>)
    ensures
        match spec_json_string_rows(text@) {
            Ok(rows) => r is Ok && rows_view(r->Ok_0@) == rows,
            Err(m) => r is Err && r->Err_0@ == m,
        },
{
    serde_json::from_str::<Vec<Vec<String>>>(text).map_err(|e| e.to_string())
}

/// What `serde_json::from_str::<Vec<String>>` returns for a text: the strings,
/// or the text of the parse error.
pub uninterp spec fn spec_json_string_list(text: Seq<char>) -> core::result::Result<Seq<Seq<char>>, Seq<char>>;

/// Parses a flat JSON array of strings with `serde_json::from_str`; the
/// result, strings or error text, is the named function of the input text.
#[verifier::external_body]
fn parse_string_list(text: &str) -> (r: core::result::Result<Vec<String>, String>)
    ensures
        match spec_json_string_list(text@) {
            Ok(items) => r is Ok && views(r->Ok_0@) == items,
            Err(m) => r is Err && r->Err_0@ == m,
        },
{
    serde_json::from_str::<Vec<String>>(text).map_err(|e| e.to_string())
}

/// The keyboard rows a flag text gives: an array of arrays is one row per
/// inner array; a flat array of strings is a single row; any other text is
/// refused with the error of the array-of-arrays parse.
pub open spec fn spec_keyboard_rows(text: Seq<char>) -> core::result::Result<Seq<Seq<Seq<char>>>, Seq<char>> {
    match spec_json_string_rows(text) {
        Ok(rows) => Ok(rows),
        Err(e) => match spec_json_string_list(text) {
            Ok(items) => Ok(seq![items]),
            Err(_) => Err(e),
        },
    }
}

/// Reads the rows of a keyboard flag: nested arrays as they stand, a flat
/// array as one row.
pub fn parse_keyboard_rows(text: &str) -> (r: core::result::Result<Vec<Vec<String>>, String>)
    ensures
        match spec_keyboard_rows(text@) {
            Ok(rows) => r is Ok && rows_view(r->Ok_0@) == rows,
            Err(m) => r is Err && r->Err_0@ == m,
        },
{
    match parse_string_rows(text) {
        Ok(rows) => Ok(rows),
        Err(e) => match parse_string_list(text) {
            Ok(items) => {
                let ghost iv = views(items@);
                let mut rows: Vec<Vec<String>> = Vec::new();
                rows.push(items);
                assert(rows_view(rows@) =~= seq![iv]);
                Ok(rows)
            },
            Err(_) => Err(e),
        },
    }
}

/// The first error of a row-major scan of reply-button shorthands, if any.
pub open spec fn first_reply_error(rows: Seq<Seq<Seq<char>>>) -> Option<Seq<char>>
    decreases rows.len(),
{
    if rows.len() == 0 {
        None
    } else {
        match first_reply_error_in_row(rows[0]) {
            Some(m) => Some(m),
            None => first_reply_error(rows.subrange(1, rows.len() as int)),
        }
    }
}

/// The first error among the reply-button shorthands of one row, if any.
pub open spec fn first_reply_error_in_row(row: Seq<Seq<char>>) -> Option<Seq<char>>
    decreases row.len(),
{
    if row.len() == 0 {
        None
    } else {
        match spec_reply_button(row[0]) {
            Err(m) => Some(m),
            Ok(_) => first_reply_error_in_row(row.subrange(1, row.len() as int)),
        }
    }
}

/// The first error of a row-major scan of inline-button shorthands, if any.
pub open spec fn first_inline_error(rows: Seq<Seq<Seq<char>>>) -> Option<Seq<char>>
    decreases rows.len(),
{
    if rows.len() == 0 {
        None
    } else {
        match first_inline_error_in_row(rows[0]) {
            Some(m) => Some(m),
            None => first_inline_error(rows.subrange(1, rows.len() as int)),
        }
    }
}

/// The first error among the inline-button shorthands of one row, if any.
pub open spec fn first_inline_error_in_row(row: Seq<Seq<char>>) -> Option<Seq<char>>
    decreases row.len(),
{
    if row.len() == 0 {
        None
    } else {
        match spec_inline_button(row[0]) {
            Err(m) => Some(m),
            Ok(_) => first_inline_error_in_row(row.subrange(1, row.len() as int)),
        }
    }
}

/// Every button of a parsed reply keyboard is the parse of its shorthand.
pub open spec fn reply_rows_match(out: Seq<Vec<ReplyButtonSpec>>, rows: Seq<Seq<Seq<char>>>) -> bool {
    &&& out.len() == rows.len()
    &&& forall|i: int|
        0 <= i < rows.len() ==> (#[trigger] out[i])@.len() == rows[i].len() && forall|j: int|
            0 <= j < rows[i].len() ==> spec_reply_button(rows[i][j]) == Ok::<(Seq<char>, ReplyButtonKind), Seq<char>>(
                ((#[trigger] out[i]@[j]).label@, out[i]@[j].kind),
            )
}

/// Every button of a parsed inline keyboard is the parse of its shorthand.
pub open spec fn inline_rows_match(out: Seq<Vec<InlineButtonSpec>>, rows: Seq<Seq<Seq<char>>>) -> bool {
    &&& out.len() == rows.len()
    &&& forall|i: int|
        0 <= i < rows.len() ==> (#[trigger] out[i])@.len() == rows[i].len() && forall|j: int|
            0 <= j < rows[i].len() ==> spec_inline_button(rows[i][j]) == Ok::<(Seq<char>, bool, Seq<char>), Seq<char>>(
                inline_spec_view(#[trigger] out[i]@[j]),
            )
}

proof fn lemma_row_error_scan(row: Seq<Seq<char>>, k: int)
    requires
        0 <= k <= row.len(),
        forall|j: int| 0 <= j < k ==> spec_reply_button(#[trigger] row[j]) is Ok,
    ensures
        first_reply_error_in_row(row) == first_reply_error_in_row(row.subrange(k, row.len() as int)),
    decreases k,
{
    if k > 0 {
        assert(spec_reply_button(row[0]) is Ok);
        let t = row.subrange(1, row.len() as int);
        assert forall|j: int| 0 <= j < k - 1 implies spec_reply_button(#[trigger] t[j]) is Ok by {
            assert(t[j] == row[j + 1]);
        }
        lemma_row_error_scan(t, k - 1);
        assert(first_reply_error_in_row(row) == first_reply_error_in_row(t));
        assert(t.subrange(k - 1, t.len() as int) =~= row.subrange(k, row.len() as int));
    } else {
        assert(row.subrange(0, row.len() as int) =~= row);
    }
}

proof fn lemma_rows_error_scan(rows: Seq<Seq<Seq<char>>>, k: int)
    requires
        0 <= k <= rows.len(),
        forall|i: int| 0 <= i < k ==> first_reply_error_in_row(#[trigger] rows[i]) is None,
    ensures
        first_reply_error(rows) == first_reply_error(rows.subrange(k, rows.len() as int)),
    decreases k,
{
    if k > 0 {
        assert(first_reply_error_in_row(rows[0]) is None);
        let t = rows.subrange(1, rows.len() as int);
        assert forall|i: int| 0 <= i < k - 1 implies first_reply_error_in_row(#[trigger] t[i]) is None by {
            assert(t[i] == rows[i + 1]);
        }
        lemma_rows_error_scan(t, k - 1);
        assert(first_reply_error(rows) == first_reply_error(t));
        assert(t.subrange(k - 1, t.len() as int) =~= rows.subrange(k, rows.len() as int));
    } else {
        assert(rows.subrange(0, rows.len() as int) =~= rows);
    }
}

proof fn lemma_inline_row_error_scan(row: Seq<Seq<char>>, k: int)
    requires
        0 <= k <= row.len(),
        forall|j: int| 0 <= j < k ==> spec_inline_button(#[trigger] row[j]) is Ok,
    ensures
        first_inline_error_in_row(row) == first_inline_error_in_row(row.subrange(k, row.len() as int)),
    decreases k,
{
    if k > 0 {
        assert(spec_inline_button(row[0]) is Ok);
        let t = row.subrange(1, row.len() as int);
        assert forall|j: int| 0 <= j < k - 1 implies spec_inline_button(#[trigger] t[j]) is Ok by {
            assert(t[j] == row[j + 1]);
        }
        lemma_inline_row_error_scan(t, k - 1);
        assert(first_inline_error_in_row(row) == first_inline_error_in_row(t));
        assert(t.subrange(k - 1, t.len() as int) =~= row.subrange(k, row.len() as int));
    } else {
        assert(row.subrange(0, row.len() as int) =~= row);
    }
}

proof fn lemma_inline_rows_error_scan(rows: Seq<Seq<Seq<char>>>, k: int)
    requires
        0 <= k <= rows.len(),
        forall|i: int| 0 <= i < k ==> first_inline_error_in_row(#[trigger] rows[i]) is None,
    ensures
        first_inline_error(rows) == first_inline_error(rows.subrange(k, rows.len() as int)),
    decreases k,
{
    if k > 0 {
        assert(first_inline_error_in_row(rows[0]) is None);
        let t = rows.subrange(1, rows.len() as int);
        assert forall|i: int| 0 <= i < k - 1 implies first_inline_error_in_row(#[trigger] t[i]) is None by {
            assert(t[i] == rows[i + 1]);
        }
        lemma_inline_rows_error_scan(t, k - 1);
        assert(first_inline_error(rows) == first_inline_error(t));
        assert(t.subrange(k - 1, t.len() as int) =~= rows.subrange(k, rows.len() as int));
    } else {
        assert(rows.subrange(0, rows.len() as int) =~= rows);
    }
}

/// Parses every shorthand of every row; the first failure (row-major) is the error.
pub fn parse_reply_rows(rows: &Vec<Vec<String>>) -> (r: Result<Vec<Vec<ReplyButtonSpec>>>)
    ensures
        match first_reply_error(rows_view(rows@)) {
            Some(m) => r is Err && is_message_error(r->Err_0, m),
            None => r is Ok && reply_rows_match(r->Ok_0@, rows_view(rows@)),
        },
{
    let ghost rv = rows_view(rows@);
    let mut out: Vec<Vec<ReplyButtonSpec>> = Vec::new();
    let mut i: usize = 0;
    while i < rows.len()
        invariant
            rv == rows_view(rows@),
            i <= rows@.len(),
            out@.len() == i,
            forall|a: int| 0 <= a < i ==> first_reply_error_in_row(#[trigger] rv[a]) is None,
            reply_rows_match(out@, rv.subrange(0, i as int)),
        decreases rows@.len() - i,
    {
        let row = &rows[i];
        let ghost rowv = rv[i as int];
        let mut parsed: Vec<ReplyButtonSpec> = Vec::new();
        let mut j: usize = 0;
        while j < row.len()
            invariant
                rv == rows_view(rows@),
                i < rows@.len(),
                row == rows@[i as int],
                rowv == rv[i as int],
                forall|a: int| 0 <= a < i ==> first_reply_error_in_row(#[trigger] rv[a]) is None,
                j <= row@.len(),
                parsed@.len() == j,
                forall|b: int| 0 <= b < j ==> spec_reply_button(#[trigger] rowv[b]) is Ok,
                forall|b: int|
                    0 <= b < j ==> spec_reply_button(rowv[b]) == Ok::<(Seq<char>, ReplyButtonKind), Seq<char>>(
                        ((#[trigger] parsed@[b]).label@, parsed@[b].kind),
                    ),
            decreases row@.len() - j,
        {
            let b = ReplyButtonSpec::try_from(row[j].as_str());
            assert(rowv[j as int] == row@[j as int]@);
            match b {
                Ok(spec) => {
                    parsed.push(spec);
                },
                Err(e) => {
                    proof {
                        lemma_row_error_scan(rowv, j as int);
                        lemma_rows_error_scan(rv, i as int);
                        assert(rowv.subrange(j as int, rowv.len() as int)[0] == rowv[j as int]);
                        assert(rv.subrange(i as int, rv.len() as int)[0] == rowv);
                    }
                    return Err(e);
                },
            }
            j = j + 1;
        }
        proof {
            lemma_row_error_scan(rowv, j as int);
            assert(first_reply_error_in_row(rowv.subrange(j as int, rowv.len() as int)) is None);
        }
        out.push(parsed);
        i = i + 1;
        proof {
            assert forall|a: int| 0 <= a < i implies #[trigger] out@[a]@.len() == rv.subrange(0, i as int)[a].len() && forall|b: int|
                0 <= b < rv.subrange(0, i as int)[a].len() ==> spec_reply_button(rv.subrange(0, i as int)[a][b]) == Ok::<(Seq<char>, ReplyButtonKind), Seq<char>>(
                    ((#[trigger] out@[a]@[b]).label@, out@[a]@[b].kind),
                ) by {
                if a < i - 1 {
                    assert(rv.subrange(0, i as int)[a] == rv.subrange(0, i - 1)[a]);
                }
            }
        }
    }
    proof {
        lemma_rows_error_scan(rv, i as int);
        assert(rv.subrange(0, i as int) =~= rv);
    }
    Ok(out)
}

/// Parses every shorthand of every row; the first failure (row-major) is the error.
pub fn parse_inline_rows(rows: &Vec<Vec<String>>) -> (r: Result<Vec<Vec<InlineButtonSpec>>>)
    ensures
        match first_inline_error(rows_view(rows@)) {
            Some(m) => r is Err && is_message_error(r->Err_0, m),
            None => r is Ok && inline_rows_match(r->Ok_0@, rows_view(rows@)),
        },
{
    let ghost rv = rows_view(rows@);
    let mut out: Vec<Vec<InlineButtonSpec>> = Vec::new();
    let mut i: usize = 0;
    while i < rows.len()
        invariant
            rv == rows_view(rows@),
            i <= rows@.len(),
            out@.len() == i,
            forall|a: int| 0 <= a < i ==> first_inline_error_in_row(#[trigger] rv[a]) is None,
            inline_rows_match(out@, rv.subrange(0, i as int)),
        decreases rows@.len() - i,
    {
        let row = &rows[i];
        let ghost rowv = rv[i as int];
        let mut parsed: Vec<InlineButtonSpec> = Vec::new();
        let mut j: usize = 0;
        while j < row.len()
            invariant
                rv == rows_view(rows@),
                i < rows@.len(),
                row == rows@[i as int],
                rowv == rv[i as int],
                forall|a: int| 0 <= a < i ==> first_inline_error_in_row(#[trigger] rv[a]) is None,
                j <= row@.len(),
                parsed@.len() == j,
                forall|b: int| 0 <= b < j ==> spec_inline_button(#[trigger] rowv[b]) is Ok,
                forall|b: int|
                    0 <= b < j ==> spec_inline_button(rowv[b]) == Ok::<(Seq<char>, bool, Seq<char>), Seq<char>>(
                        inline_spec_view(#[trigger] parsed@[b]),
                    ),
            decreases row@.len() - j,
        {
            let b = InlineButtonSpec::try_from(row[j].as_str());
            assert(rowv[j as int] == row@[j as int]@);
            match b {
                Ok(spec) => {
                    parsed.push(spec);
                },
                Err(e) => {
                    proof {
                        lemma_inline_row_error_scan(rowv, j as int);
                        lemma_inline_rows_error_scan(rv, i as int);
                        assert(rowv.subrange(j as int, rowv.len() as int)[0] == rowv[j as int]);
                        assert(rv.subrange(i as int, rv.len() as int)[0] == rowv);
                    }
                    return Err(e);
                },
            }
            j = j + 1;
        }
        proof {
            lemma_inline_row_error_scan(rowv, j as int);
            assert(first_inline_error_in_row(rowv.subrange(j as int, rowv.len() as int)) is None);
        }
        out.push(parsed);
        i = i + 1;
        proof {
            assert forall|a: int| 0 <= a < i implies #[trigger] out@[a]@.len() == rv.subrange(0, i as int)[a].len() && forall|b: int|
                0 <= b < rv.subrange(0, i as int)[a].len() ==> spec_inline_button(rv.subrange(0, i as int)[a][b]) == Ok::<(Seq<char>, bool, Seq<char>), Seq<char>>(
                    inline_spec_view(#[trigger] out@[a]@[b]),
                ) by {
                if a < i - 1 {
                    assert(rv.subrange(0, i as int)[a] == rv.subrange(0, i - 1)[a]);
                }
            }
        }
    }
    proof {
        lemma_inline_rows_error_scan(rv, i as int);
        assert(rv.subrange(0, i as int) =~= rv);
    }
    Ok(out)
}

/// What `from_flags` yields for the given flag texts, once the JSON parse of the
/// given flag is known: `Ok(None)`, an error text, or which keyboard is set.
pub open spec fn spec_from_flags_outcome(
    reply: Option<Seq<char>>,
    inline: Option<Seq<char>>,
) -> Option<core::result::Result<(), Seq<char>>> {
    match (reply, inline) {
        (None, None) => Some(Ok(())),
        (Some(_), Some(_)) => Some(Err("--reply-keyboard and --inline-keyboard cannot be used together"@)),
        _ => None,
    }
}

impl ReplyMarkupConfig {
    /// Builds a reply keyboard from already-parsed JSON rows.
    pub fn from_reply_rows(rows: &Vec<Vec<String>>) -> (r: Result<ReplyMarkupConfig>)
        ensures
            match first_reply_error(rows_view(rows@)) {
                Some(m) => r is Err && is_message_error(r->Err_0, m),
                None => r is Ok && r->Ok_0.inline_keyboard is None && r->Ok_0.reply_keyboard is Some
                    && reply_rows_match(r->Ok_0.reply_keyboard->0@, rows_view(rows@)),
            },
    {
        let parsed = parse_reply_rows(rows)?;
        Ok(ReplyMarkupConfig { reply_keyboard: Some(parsed), inline_keyboard: None })
    }

    /// Builds an inline keyboard from already-parsed JSON rows.
    pub fn from_inline_rows(rows: &Vec<Vec<String>>) -> (r: Result<ReplyMarkupConfig>)
        ensures
            match first_inline_error(rows_view(rows@)) {
                Some(m) => r is Err && is_message_error(r->Err_0, m),
                None => r is Ok && r->Ok_0.reply_keyboard is None && r->Ok_0.inline_keyboard is Some
                    && inline_rows_match(r->Ok_0.inline_keyboard->0@, rows_view(rows@)),
            },
    {
        let parsed = parse_inline_rows(rows)?;
        Ok(ReplyMarkupConfig { reply_keyboard: None, inline_keyboard: Some(parsed) })
    }

    /// Builds the keyboard from the command-line flags; both flags together are refused.
    pub fn from_flags(reply_keyboard_json: Option<&str>, inline_keyboard_json: Option<&str>) -> (r: Result<Option<ReplyMarkupConfig>>)
        ensures
            reply_keyboard_json is None && inline_keyboard_json is None ==> r == Ok::<Option<ReplyMarkupConfig>, TelegramCliError>(None),
            reply_keyboard_json is Some && inline_keyboard_json is Some ==> r is Err && is_message_error(
                r->Err_0,
                "--reply-keyboard and --inline-keyboard cannot be used together"@,
            ),
            reply_keyboard_json is Some && inline_keyboard_json is None ==> match spec_keyboard_rows(reply_keyboard_json->0@) {
                Err(e) => r is Err && is_message_error(r->Err_0, "invalid --reply-keyboard JSON: "@ + e),
                Ok(rows) => match first_reply_error(rows) {
                    Some(m) => r is Err && is_message_error(r->Err_0, m),
                    None => r is Ok && r->Ok_0 is Some && r->Ok_0->0.inline_keyboard is None
                        && r->Ok_0->0.reply_keyboard is Some && reply_rows_match(r->Ok_0->0.reply_keyboard->0@, rows),
                },
            },
            reply_keyboard_json is None && inline_keyboard_json is Some ==> match spec_keyboard_rows(inline_keyboard_json->0@) {
                Err(e) => r is Err && is_message_error(r->Err_0, "invalid --inline-keyboard JSON: "@ + e),
                Ok(rows) => match first_inline_error(rows) {
                    Some(m) => r is Err && is_message_error(r->Err_0, m),
                    None => r is Ok && r->Ok_0 is Some && r->Ok_0->0.reply_keyboard is None
                        && r->Ok_0->0.inline_keyboard is Some && inline_rows_match(r->Ok_0->0.inline_keyboard->0@, rows),
                },
            },
    {
        match (reply_keyboard_json, inline_keyboard_json) {
            (None, None) => Ok(None),
            (Some(_), Some(_)) => Err(TelegramCliError::message("--reply-keyboard and --inline-keyboard cannot be used together")),
            (Some(json), None) => {
                let rows = match parse_keyboard_rows(json) {
                    Ok(rows) => rows,
                    Err(e) => {
                        return Err(TelegramCliError::Message(concat2("invalid --reply-keyboard JSON: ", e.as_str())));
                    },
                };
                let config = ReplyMarkupConfig::from_reply_rows(&rows)?;
                Ok(Some(config))
            },
            (None, Some(json)) => {
                let rows = match parse_keyboard_rows(json) {
                    Ok(rows) => rows,
                    Err(e) => {
                        return Err(TelegramCliError::Message(concat2("invalid --inline-keyboard JSON: ", e.as_str())));
                    },
                };
                let config = ReplyMarkupConfig::from_inline_rows(&rows)?;
                Ok(Some(config))
            },
        }
    }
}

/// Law: a shorthand without `:` is a plain text button labelled by the whole text.
pub proof fn law_plain_reply_button(s: Seq<char>)
    requires
        forall|k: int| 0 <= k < s.len() ==> s[k] != ':',
    ensures
        spec_reply_button(s) == Ok::<(Seq<char>, ReplyButtonKind), Seq<char>>((s, ReplyButtonKind::Text)),
{
    crate::text::lemma_last_index_props(s, ':');
}

/// Law: `label:phone`, `label:geo` and `label:poll` parse back to the label when the
/// label holds no `:`, whatever the label.
pub proof fn law_reply_button_kinds(label: Seq<char>)
    requires
        forall|k: int| 0 <= k < label.len() ==> label[k] != ':',
    ensures
        spec_reply_button(label + ":phone"@) == Ok::<(Seq<char>, ReplyButtonKind), Seq<char>>((label, ReplyButtonKind::RequestPhone)),
        spec_reply_button(label + ":geo"@) == Ok::<(Seq<char>, ReplyButtonKind), Seq<char>>((label, ReplyButtonKind::RequestGeo)),
        spec_reply_button(label + ":poll"@) == Ok::<(Seq<char>, ReplyButtonKind), Seq<char>>((label, ReplyButtonKind::RequestPoll)),
{
    reveal_strlit(":phone");
    reveal_strlit(":geo");
    reveal_strlit(":poll");
    reveal_strlit("phone");
    reveal_strlit("geo");
    reveal_strlit("poll");
    lemma_suffix_split(label, "phone"@);
    lemma_suffix_split(label, "geo"@);
    lemma_suffix_split(label, "poll"@);
    assert(label + ":phone"@ =~= label + seq![':'] + "phone"@);
    assert(label + ":geo"@ =~= label + seq![':'] + "geo"@);
    assert(label + ":poll"@ =~= label + seq![':'] + "poll"@);
    assert("geo"@ != "phone"@) by { assert("geo"@.len() == 3); assert("phone"@.len() == 5); }
    assert("poll"@ != "phone"@) by { assert("poll"@.len() == 4); assert("phone"@.len() == 5); }
    assert("poll"@ != "geo"@) by { assert("poll"@.len() == 4); assert("geo"@.len() == 3); }
}

/// Splitting `label + ":" + kind` at its last `:`, when `kind` holds none.
proof fn lemma_suffix_split(label: Seq<char>, kind: Seq<char>)
    requires
        forall|k: int| 0 <= k < kind.len() ==> kind[k] != ':',
    ensures
        rsplit_once(label + seq![':'] + kind, ':') == Some((label, kind)),
{
    let s = label + seq![':'] + kind;
    let i = label.len() as int;
    assert(s[i] == ':');
    assert forall|k: int| i < k < s.len() implies s[k] != ':' by {
        assert(s[k] == kind[k - i - 1]);
    }
    crate::text::lemma_last_index_props(s, ':');
    assert(s.subrange(0, i) =~= label);
    assert(s.subrange(i + 1, s.len() as int) =~= kind);
}

// ---------------------------------------------------------------------------
// The client's keyboard values
// ---------------------------------------------------------------------------

#[verifier::external_type_specification]
#[verifier::external_body]
pub struct ExKey(grammers_client::message::Key);

#[verifier::external_type_specification]
#[verifier::external_body]
pub struct ExButton(grammers_client::message::Button);

#[verifier::external_type_specification]
#[verifier::external_body]
pub struct ExReplyMarkup(grammers_client::message::ReplyMarkup);

/// The key `Key::text` makes of a label.
pub uninterp spec fn spec_key_text(label: Seq<char>) -> grammers_client::message::Key;

/// The key `Key::request_phone` makes of a label.
pub uninterp spec fn spec_key_request_phone(label: Seq<char>) -> grammers_client::message::Key;

/// The key `Key::request_geo` makes of a label.
pub uninterp spec fn spec_key_request_geo(label: Seq<char>) -> grammers_client::message::Key;

/// The key `Key::request_poll` makes of a label.
pub uninterp spec fn spec_key_request_poll(label: Seq<char>) -> grammers_client::message::Key;

/// The button `Button::data` makes of a label and the bytes of a text.
pub uninterp spec fn spec_button_data(label: Seq<char>, data: Seq<char>) -> grammers_client::message::Button;

/// The button `Button::url` makes of a label and a URL.
pub uninterp spec fn spec_button_url(label: Seq<char>, url: Seq<char>) -> grammers_client::message::Button;

/// The markup `ReplyMarkup::from_keys` makes of rows of keys.
pub uninterp spec fn spec_markup_from_keys(rows: Seq<Seq<grammers_client::message::Key>>) -> grammers_client::message::ReplyMarkup;

/// The markup `ReplyMarkup::from_buttons` makes of rows of buttons.
pub uninterp spec fn spec_markup_from_buttons(rows: Seq<Seq<grammers_client::message::Button>>) -> grammers_client::message::ReplyMarkup;

/// `Key::text`: a reply key that sends its label; the key is the named
/// function of the label.
#[verifier::external_body]
fn key_text(label: &str) -> (r: grammers_client::message::Key)
    ensures
        r == spec_key_text(label@),
{
    grammers_client::message::Key::text(label)
}

/// `Key::request_phone`: a reply key that shares the phone number; the key
/// is the named function of the label.
#[verifier::external_body]
fn key_request_phone(label: &str) -> (r: grammers_client::message::Key)
    ensures
        r == spec_key_request_phone(label@),
{
    grammers_client::message::Key::request_phone(label)
}

/// `Key::request_geo`: a reply key that shares the location; the key is the
/// named function of the label.
#[verifier::external_body]
fn key_request_geo(label: &str) -> (r: grammers_client::message::Key)
    ensures
        r == spec_key_request_geo(label@),
{
    grammers_client::message::Key::request_geo(label)
}

/// `Key::request_poll`: a reply key that creates a poll; the key is the
/// named function of the label.
#[verifier::external_body]
fn key_request_poll(label: &str) -> (r: grammers_client::message::Key)
    ensures
        r == spec_key_request_poll(label@),
{
    grammers_client::message::Key::request_poll(label)
}

/// `Button::data`: an inline button carrying the bytes of `data` as its
/// callback data; the button is the named function of label and data.
#[verifier::external_body]
fn button_data(label: &str, data: &str) -> (r: grammers_client::message::Button)
    ensures
        r == spec_button_data(label@, data@),
{
    grammers_client::message::Button::data(label, data.as_bytes())
}

/// `Button::url`: an inline button opening a URL; the button is the named
/// function of label and URL.
#[verifier::external_body]
fn button_url(label: &str, url: &str) -> (r: grammers_client::message::Button)
    ensures
        r == spec_button_url(label@, url@),
{
    grammers_client::message::Button::url(label, url)
}

/// `ReplyMarkup::from_keys`: a reply keyboard of key rows; the markup is the
/// named function of the rows.
#[verifier::external_body]
fn markup_from_keys(keys: &Vec<Vec<grammers_client::message::Key>>) -> (r: grammers_client::message::ReplyMarkup)
    ensures
        r == spec_markup_from_keys(Seq::new(keys@.len(), |i: int| keys@[i]@)),
{
    grammers_client::message::ReplyMarkup::from_keys(keys)
}

/// `ReplyMarkup::from_buttons`: an inline keyboard of button rows; the
/// markup is the named function of the rows.
#[verifier::external_body]
fn markup_from_buttons(buttons: &Vec<Vec<grammers_client::message::Button>>) -> (r: grammers_client::message::ReplyMarkup)
    ensures
        r == spec_markup_from_buttons(Seq::new(buttons@.len(), |i: int| buttons@[i]@)),
{
    grammers_client::message::ReplyMarkup::from_buttons(buttons)
}

/// The client key of a reply button: of its kind, with its label.
pub open spec fn spec_client_key(b: ReplyButtonSpec) -> grammers_client::message::Key {
    match b.kind {
        ReplyButtonKind::Text => spec_key_text(b.label@),
        ReplyButtonKind::RequestPhone => spec_key_request_phone(b.label@),
        ReplyButtonKind::RequestGeo => spec_key_request_geo(b.label@),
        ReplyButtonKind::RequestPoll => spec_key_request_poll(b.label@),
    }
}

/// The client button of an inline button: callback data or URL, with its label.
pub open spec fn spec_client_button(b: InlineButtonSpec) -> grammers_client::message::Button {
    match b.kind {
        InlineButtonKind::Callback { data } => spec_button_data(b.label@, data@),
        InlineButtonKind::Url { url } => spec_button_url(b.label@, url@),
    }
}

/// The client keys of reply rows, row by row and button by button.
pub open spec fn spec_key_rows(rows: Seq<Vec<ReplyButtonSpec>>) -> Seq<Seq<grammers_client::message::Key>> {
    Seq::new(rows.len(), |i: int| Seq::new(rows[i]@.len(), |j: int| spec_client_key(rows[i]@[j])))
}

/// The client buttons of inline rows, row by row and button by button.
pub open spec fn spec_button_rows(rows: Seq<Vec<InlineButtonSpec>>) -> Seq<Seq<grammers_client::message::Button>> {
    Seq::new(rows.len(), |i: int| Seq::new(rows[i]@.len(), |j: int| spec_client_button(rows[i]@[j])))
}

/// The client keys of reply rows.
fn reply_keys(rows: &Vec<Vec<ReplyButtonSpec>>) -> (r: Vec<Vec<grammers_client::message::Key>>)
    ensures
        Seq::new(r@.len(), |i: int| r@[i]@) == spec_key_rows(rows@),
{
    let mut keys: Vec<Vec<grammers_client::message::Key>> = Vec::new();
    let mut i: usize = 0;
    while i < rows.len()
        invariant
            i <= rows@.len(),
            keys@.len() == i,
            forall|k: int| 0 <= k < i ==> (#[trigger] keys@[k])@ == spec_key_rows(rows@)[k],
        decreases rows@.len() - i,
    {
        let row = &rows[i];
        let mut out: Vec<grammers_client::message::Key> = Vec::new();
        let mut j: usize = 0;
        while j < row.len()
            invariant
                j <= row@.len(),
                *row == rows@[i as int],
                out@ == Seq::new(j as nat, |m: int| spec_client_key(row@[m])),
            decreases row@.len() - j,
        {
            let b = &row[j];
            let key = match b.kind {
                ReplyButtonKind::Text => key_text(b.label.as_str()),
                ReplyButtonKind::RequestPhone => key_request_phone(b.label.as_str()),
                ReplyButtonKind::RequestGeo => key_request_geo(b.label.as_str()),
                ReplyButtonKind::RequestPoll => key_request_poll(b.label.as_str()),
            };
            out.push(key);
            j = j + 1;
            assert(out@ =~= Seq::new(j as nat, |m: int| spec_client_key(row@[m])));
        }
        assert(out@ =~= spec_key_rows(rows@)[i as int]);
        keys.push(out);
        i = i + 1;
    }
    assert(Seq::new(keys@.len(), |k: int| keys@[k]@) =~= spec_key_rows(rows@));
    keys
}

/// The client buttons of inline rows.
fn inline_buttons(rows: &Vec<Vec<InlineButtonSpec>>) -> (r: Vec<Vec<grammers_client::message::Button>>)
    ensures
        Seq::new(r@.len(), |i: int| r@[i]@) == spec_button_rows(rows@),
{
    let mut buttons: Vec<Vec<grammers_client::message::Button>> = Vec::new();
    let mut i: usize = 0;
    while i < rows.len()
        invariant
            i <= rows@.len(),
            buttons@.len() == i,
            forall|k: int| 0 <= k < i ==> (#[trigger] buttons@[k])@ == spec_button_rows(rows@)[k],
        decreases rows@.len() - i,
    {
        let row = &rows[i];
        let mut out: Vec<grammers_client::message::Button> = Vec::new();
        let mut j: usize = 0;
        while j < row.len()
            invariant
                j <= row@.len(),
                *row == rows@[i as int],
                out@ == Seq::new(j as nat, |m: int| spec_client_button(row@[m])),
            decreases row@.len() - j,
        {
            let b = &row[j];
            let button = match &b.kind {
                InlineButtonKind::Callback { data } => button_data(b.label.as_str(), data.as_str()),
                InlineButtonKind::Url { url } => button_url(b.label.as_str(), url.as_str()),
            };
            out.push(button);
            j = j + 1;
            assert(out@ =~= Seq::new(j as nat, |m: int| spec_client_button(row@[m])));
        }
        assert(out@ =~= spec_button_rows(rows@)[i as int]);
        buttons.push(out);
        i = i + 1;
    }
    assert(Seq::new(buttons@.len(), |k: int| buttons@[k]@) =~= spec_button_rows(rows@));
    buttons
}

impl ReplyMarkupConfig {
    /// The keyboard the client attaches: the reply keyboard when one is
    /// set, else the inline keyboard, else none. Every button becomes the
    /// client's key or button of the same kind and label, row by row.
    pub fn to_reply_markup(&self) -> (r: Option<grammers_client::message::ReplyMarkup>)
        ensures
            r == match self.reply_keyboard {
                Some(rows) => Some(spec_markup_from_keys(spec_key_rows(rows@))),
                None => match self.inline_keyboard {
                    Some(rows) => Some(spec_markup_from_buttons(spec_button_rows(rows@))),
                    None => None,
                },
            },
    {
        match &self.reply_keyboard {
            Some(rows) => Some(markup_from_keys(&reply_keys(rows))),
            None => match &self.inline_keyboard {
                Some(rows) => Some(markup_from_buttons(&inline_buttons(rows))),
                None => None,
            },
        }
    }
}

} // verus!
