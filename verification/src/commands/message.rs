//! The message commands: their argument checks and what they report.
use vstd::prelude::*;
use crate::errors::{Result, TelegramCliError, is_message_error};
use crate::json::{Json, JsonValue, ObjectBuilder, entries_view, items_view, lemma_items_view_push};
use crate::output::contract::NextStep;
use crate::telegram::messages::{IncomingMessage, InteractiveAction, spec_action_entries, spec_incoming_json};
use crate::text::{int_decimal, nat_decimal};
use crate::text::{
    IntErrorKind, concat2, concat3, int_error_message, parse_i32_full, spec_int_error_message,
    spec_parse_i32_full, split_all, split_str, trim, trim_string, views,
};

verus! {

/// A wait duration: whole seconds and the remaining nanoseconds.
#[derive(Debug, Clone, Copy, PartialEq, Eq, Structural)]
pub struct WaitDuration {
    pub secs: u64,
    pub nanos: u32,
}

/// What `humantime::parse_duration` returns for a text: (seconds,
/// nanoseconds), or the text of its error.
pub uninterp spec fn spec_parse_duration(text: Seq<char>) -> core::result::Result<(u64, u32), Seq<char>>;

/// Whether a character is white space as `char::is_whitespace` defines it:
/// the characters with the Unicode `White_Space` property.
pub open spec fn is_white_space(c: char) -> bool {
    ('\u{9}' <= c && c <= '\u{d}') || c == ' ' || c == '\u{85}' || c == '\u{a0}' || c == '\u{1680}'
        || ('\u{2000}' <= c && c <= '\u{200a}') || c == '\u{2028}' || c == '\u{2029}' || c == '\u{202f}'
        || c == '\u{205f}' || c == '\u{3000}'
}

/// Ten to the power `n`.
pub open spec fn pow10(n: nat) -> nat
    decreases n,
{
    if n == 0 {
        1
    } else {
        10 * pow10((n - 1) as nat)
    }
}

/// The weight of `s[i..]`: over each group of digits and white space (the
/// characters a number of a duration text is read from), ten to the power
/// of its significant digits, those from its first nonzero digit on. `any`
/// tells whether the group begun before `i` holds a digit, and `sig` how many
/// significant digits it holds so far.
pub open spec fn weight_from(s: Seq<char>, i: int, any: bool, sig: nat) -> nat
    decreases s.len() - i,
{
    let close: nat = if any { pow10(sig) } else { 0 };
    if i < 0 || i >= s.len() {
        close
    } else if '0' <= s[i] && s[i] <= '9' {
        weight_from(s, i + 1, true, if sig > 0 || s[i] != '0' { sig + 1 } else { 0 })
    } else if is_white_space(s[i]) {
        weight_from(s, i + 1, any, sig)
    } else {
        close + weight_from(s, i + 1, false, 0)
    }
}

/// The weight of a duration text: each number in it is below the weight of
/// its group, so the text names less than its weight in years.
pub open spec fn duration_weight(s: Seq<char>) -> nat {
    weight_from(s, 0, false, 0)
}

/// The largest weight a duration text may have: that many years stay below
/// `u64::MAX` seconds, where the parser would otherwise panic on an exact
/// overflow.
pub open spec fn max_duration_weight() -> nat {
    500_000_000_000
}

/// The error for a duration text whose numbers are too large.
pub open spec fn too_many_digits_message() -> Seq<char> {
    "duration is too large"@
}

/// What a duration text gives: refused when its numbers are too large, else
/// what `humantime::parse_duration` gives.
pub open spec fn spec_duration_text(text: Seq<char>) -> core::result::Result<(u64, u32), Seq<char>> {
    if duration_weight(text) > max_duration_weight() {
        Err(too_many_digits_message())
    } else {
        spec_parse_duration(text)
    }
}

/// Parses a human duration such as `5s` or `1m 30s` with
/// `humantime::parse_duration`; the result, or the error text, is the named
/// function of the input. Every number in the text, read from digits and
/// white space up to a unit or a `.`, is below its group's weight, and each
/// unit is at most a year, so the sum of the spans stays below the seconds a
/// `Duration` holds, where the parser would otherwise panic on an exact
/// overflow.
#[verifier::external_body]
pub(crate) fn parse_duration(text: &str) -> (r: core::result::Result<WaitDuration, String>)
    requires
        duration_weight(text@) <= max_duration_weight(),
    ensures
        match spec_parse_duration(text@) {
            Ok((s, n)) => r == Ok::<WaitDuration, String>(WaitDuration { secs: s, nanos: n }),
            Err(e) => r is Err && r->Err_0@ == e,
        },
{
    match humantime::parse_duration(text) {
        Ok(d) => Ok(WaitDuration { secs: d.as_secs(), nanos: d.subsec_nanos() }),
        Err(error) => Err(error.to_string()),
    }
}

/// Whether a character is white space.
fn is_white_space_exec(c: char) -> (r: bool)
    ensures
        r == is_white_space(c),
{
    ('\u{9}' <= c && c <= '\u{d}') || c == ' ' || c == '\u{85}' || c == '\u{a0}' || c == '\u{1680}'
        || ('\u{2000}' <= c && c <= '\u{200a}') || c == '\u{2028}' || c == '\u{2029}' || c == '\u{202f}'
        || c == '\u{205f}' || c == '\u{3000}'
}

/// A weight, or one more than the largest allowed when it is larger.
pub open spec fn capped(x: nat) -> nat {
    if x > max_duration_weight() + 1 {
        max_duration_weight() + 1
    } else {
        x
    }
}

/// Whether a text's weight is within the largest allowed.
pub fn duration_digits_ok(text: &str) -> (r: bool)
    ensures
        r == (duration_weight(text@) <= max_duration_weight()),
{
    let chars = crate::text::chars_of(text);
    let cap: u64 = 500_000_000_001;
    let mut total: u64 = 0;
    let mut p: u64 = 1;
    let mut any: bool = false;
    let mut started: bool = false;
    let ghost mut sig: nat = 0;
    let ghost mut done: nat = 0;
    let mut i: usize = 0;
    while i < chars.len()
        invariant
            chars@ == text@,
            cap as nat == max_duration_weight() + 1,
            i <= chars@.len(),
            done + weight_from(text@, i as int, any, sig) == duration_weight(text@),
            total as nat == capped(done),
            p as nat == capped(pow10(sig)),
            started == (sig > 0),
            pow10(sig) >= 1,
            sig > 0 ==> pow10(sig) >= 10,
        decreases chars@.len() - i,
    {
        let c = chars[i];
        if '0' <= c && c <= '9' {
            if started || c != '0' {
                proof {
                    assert(pow10(sig + 1) == 10 * pow10(sig));
                }
                p = if p > cap / 10 { cap } else { p * 10 };
                proof {
                    sig = sig + 1;
                }
                started = true;
            }
            any = true;
        } else if is_white_space_exec(c) {
        } else {
            if any {
                proof {
                    done = done + pow10(sig);
                }
                total = if total > cap - p { cap } else { total + p };
            }
            any = false;
            started = false;
            p = 1;
            proof {
                sig = 0;
            }
        }
        i = i + 1;
    }
    let last: u64 = if any {
        if total > cap - p { cap } else { total + p }
    } else {
        total
    };
    last <= 500_000_000_000
}

/// Parses a human duration, refusing a text whose numbers are too large.
pub fn parse_duration_text(text: &str) -> (r: core::result::Result<WaitDuration, String>)
    ensures
        match spec_duration_text(text@) {
            Ok((s, n)) => r == Ok::<WaitDuration, String>(WaitDuration { secs: s, nanos: n }),
            Err(e) => r is Err && r->Err_0@ == e,
        },
{
    if duration_digits_ok(text) {
        parse_duration(text)
    } else {
        proof {
            reveal_strlit("duration is too large");
        }
        Err(crate::text::owned("duration is too large"))
    }
}

/// How `Debug` prints a `std::time::Duration` of these seconds and nanoseconds
/// (such as `5s` or `1.5s`).
pub uninterp spec fn spec_duration_debug(secs: u64, nanos: u32) -> Seq<char>;

/// Prints a duration the way `Debug` prints `std::time::Duration::new(secs, nanos)`.
#[verifier::external_body]
pub(crate) fn duration_debug(d: WaitDuration) -> (r: String)
    requires
        d.secs + d.nanos / 1_000_000_000 <= u64::MAX,
    ensures
        r@ == spec_duration_debug(d.secs, d.nanos),
{
    format!("{:?}", std::time::Duration::new(d.secs, d.nanos))
}

/// A timeout flag's duration; an error naming the flag value's problem.
pub fn parse_timeout(s: &str) -> (r: Result<WaitDuration>)
    ensures
        match spec_duration_text(s@) {
            Ok((secs, n)) => r == Ok::<WaitDuration, TelegramCliError>(WaitDuration { secs, nanos: n }),
            Err(e) => r is Err && is_message_error(r->Err_0, "invalid timeout duration: "@ + e),
        },
{
    match parse_duration_text(s) {
        Ok(d) => Ok(d),
        Err(e) => Err(TelegramCliError::Message(concat2("invalid timeout duration: ", e.as_str()))),
    }
}

/// The message for a comma-separated piece that is not a message id.
pub open spec fn invalid_id_message(piece: Seq<char>, k: IntErrorKind) -> Seq<char> {
    "invalid message ID '"@ + trim(piece) + "': "@ + spec_int_error_message(k)
}

/// The ids of a comma-separated list, each piece trimmed; the first piece that
/// is not an `i32` is the error.
pub open spec fn spec_parse_ids(pieces: Seq<Seq<char>>) -> core::result::Result<Seq<i32>, Seq<char>>
    decreases pieces.len(),
{
    if pieces.len() == 0 {
        Ok(Seq::empty())
    } else {
        match spec_parse_i32_full(trim(pieces[0])) {
            Err(k) => Err(invalid_id_message(pieces[0], k)),
            Ok(v) => match spec_parse_ids(pieces.subrange(1, pieces.len() as int)) {
                Ok(rest) => Ok(seq![v as i32] + rest),
                Err(e) => Err(e),
            },
        }
    }
}

/// Law: when every comma-separated piece, once trimmed of white space, is
/// the decimal text of an `i32`, the list gives those numbers in order,
/// whatever white space stands around the commas.
pub proof fn law_ids_read_after_trimming(pieces: Seq<Seq<char>>, ids: Seq<i32>)
    requires
        pieces.len() == ids.len(),
        forall|i: int| 0 <= i < pieces.len() ==> spec_parse_i32_full(trim(#[trigger] pieces[i])) == Ok::<int, IntErrorKind>(
            ids[i] as int,
        ),
    ensures
        spec_parse_ids(pieces) == Ok::<Seq<i32>, Seq<char>>(ids),
    decreases pieces.len(),
{
    if pieces.len() > 0 {
        let rest = pieces.subrange(1, pieces.len() as int);
        let tail = ids.subrange(1, ids.len() as int);
        assert forall|i: int| 0 <= i < rest.len() implies spec_parse_i32_full(trim(#[trigger] rest[i])) == Ok::<int, IntErrorKind>(
            tail[i] as int,
        ) by {
            assert(rest[i] == pieces[i + 1]);
        }
        law_ids_read_after_trimming(rest, tail);
        assert(spec_parse_i32_full(trim(pieces[0])) == Ok::<int, IntErrorKind>(ids[0] as int));
        assert(seq![ids[0]] + tail =~= ids);
        assert(((ids[0] as int) as i32) == ids[0]);
    } else {
        assert(ids =~= Seq::<i32>::empty());
    }
}

/// Law: the first piece that is not an `i32` once trimmed is the error, named
/// by its trimmed text; the pieces before it are all read.
pub proof fn law_first_bad_id_is_the_error(pieces: Seq<Seq<char>>, k: int)
    requires
        0 <= k < pieces.len(),
        forall|i: int| 0 <= i < k ==> (#[trigger] spec_parse_i32_full(trim(pieces[i]))) is Ok,
        spec_parse_i32_full(trim(pieces[k])) is Err,
    ensures
        spec_parse_ids(pieces) == Err::<Seq<i32>, Seq<char>>(
            invalid_id_message(pieces[k], spec_parse_i32_full(trim(pieces[k]))->Err_0),
        ),
    decreases k,
{
    if k > 0 {
        let rest = pieces.subrange(1, pieces.len() as int);
        assert forall|i: int| 0 <= i < k - 1 implies (#[trigger] spec_parse_i32_full(trim(rest[i]))) is Ok by {
            assert(rest[i] == pieces[i + 1]);
            assert(spec_parse_i32_full(trim(pieces[i + 1])) is Ok);
        }
        assert(rest[k - 1] == pieces[k]);
        law_first_bad_id_is_the_error(rest, k - 1);
        assert(spec_parse_i32_full(trim(pieces[0])) is Ok);
    }
}

/// The message ids of a comma-separated list such as `12, 13`.
pub fn parse_message_ids(text: &str) -> (r: Result<Vec<i32>>)
    ensures
        match spec_parse_ids(split_all(text@, ',')) {
            Ok(ids) => r is Ok && r->Ok_0@ == ids,
            Err(m) => r is Err && is_message_error(r->Err_0, m),
        },
{
    let pieces = split_str(text, ',');
    let ghost pv = views(pieces@);
    let mut ids: Vec<i32> = Vec::new();
    let mut i: usize = 0;
    assert(pv.subrange(0, pv.len() as int) =~= pv);
    while i < pieces.len()
        invariant
            pv == views(pieces@),
            pv == split_all(text@, ','),
            i <= pieces@.len(),
            match spec_parse_ids(pv) {
                Ok(all) => match spec_parse_ids(pv.subrange(i as int, pv.len() as int)) {
                    Ok(rest) => all == ids@ + rest,
                    Err(_) => false,
                },
                Err(m) => match spec_parse_ids(pv.subrange(i as int, pv.len() as int)) {
                    Ok(_) => false,
                    Err(m2) => m2 == m,
                },
            },
        decreases pieces@.len() - i,
    {
        let ghost rest = pv.subrange(i as int, pv.len() as int);
        assert(rest[0] == pieces@[i as int]@);
        assert(rest.subrange(1, rest.len() as int) =~= pv.subrange(i + 1, pv.len() as int));
        let piece = trim_string(pieces[i].as_str());
        match parse_i32_full(piece.as_str()) {
            Ok(v) => {
                ids.push(v);
                proof {
                    match spec_parse_ids(pv) {
                        Ok(all) => {
                            let tail = spec_parse_ids(pv.subrange(i + 1, pv.len() as int));
                            assert(tail is Ok);
                            assert(all =~= ids@ + tail->Ok_0);
                        },
                        Err(_) => {},
                    }
                }
            },
            Err(k) => {
                let head = concat3("invalid message ID '", piece.as_str(), "': ");
                return Err(TelegramCliError::Message(concat2(head.as_str(), int_error_message(k))));
            },
        }
        i = i + 1;
    }
    proof {
        assert(pv.subrange(pv.len() as int, pv.len() as int) =~= Seq::<Seq<char>>::empty());
        assert(ids@ + Seq::<i32>::empty() =~= ids@);
    }
    Ok(ids)
}

/// The summary of a triggered action: a response, a URL, or a timeout.
pub open spec fn spec_trigger_summary(response_received: bool, has_url: bool) -> Seq<char> {
    if response_received {
        "Interactive action triggered and response received."@
    } else if has_url {
        "Interactive action resolved to a URL target."@
    } else {
        "Interactive action triggered, but no response arrived before timeout."@
    }
}

/// The summary of a triggered action.
pub fn trigger_summary(response_received: bool, has_url: bool) -> (r: &'static str)
    ensures
        r@ == spec_trigger_summary(response_received, has_url),
{
    if response_received {
        "Interactive action triggered and response received."
    } else if has_url {
        "Interactive action resolved to a URL target."
    } else {
        "Interactive action triggered, but no response arrived before timeout."
    }
}

/// Forwarding needs at least one message id.
pub fn require_message_ids(ids: &Vec<i32>) -> (r: Result<()>)
    ensures
        ids@.len() == 0 ==> r is Err && is_message_error(r->Err_0, "at least one message ID is required"@),
        ids@.len() > 0 ==> r is Ok,
{
    if ids.len() == 0 {
        return Err(TelegramCliError::Message(crate::text::owned("at least one message ID is required")));
    }
    Ok(())
}

/// The data of `message forward`: how many were forwarded, and their new ids.
pub fn forward_output(forwarded_ids: &Vec<i64>) -> (r: JsonValue)
    ensures
        r@ == Json::Object(seq![
            ("forwarded_count"@, Json::Number(nat_decimal(forwarded_ids@.len() as nat))),
            ("forwarded_ids"@, Json::Array(Seq::new(forwarded_ids@.len(), |i: int| Json::Number(int_decimal(forwarded_ids@[i] as int))))),
        ]),
{
    let mut items: Vec<JsonValue> = Vec::new();
    let mut i: usize = 0;
    while i < forwarded_ids.len()
        invariant
            i <= forwarded_ids@.len(),
            items_view(items@) == Seq::new(i as nat, |k: int| Json::Number(int_decimal(forwarded_ids@[k] as int))),
        decreases forwarded_ids@.len() - i,
    {
        let item = JsonValue::integer(forwarded_ids[i]);
        proof {
            lemma_items_view_push(items@, item);
        }
        items.push(item);
        i = i + 1;
        assert(items_view(items@) =~= Seq::new(i as nat, |k: int| Json::Number(int_decimal(forwarded_ids@[k] as int))));
    }
    let ghost arr = items_view(items@);
    let mut b = ObjectBuilder::new();
    b.field("forwarded_count", JsonValue::natural(forwarded_ids.len() as u64));
    b.field("forwarded_ids", JsonValue::Array(items));
    assert(entries_view(b.entries@) =~= seq![
        ("forwarded_count"@, Json::Number(nat_decimal(forwarded_ids@.len() as nat))),
        ("forwarded_ids"@, Json::Array(arr)),
    ]);
    b.build()
}

/// The summary of `message forward`.
pub fn forward_summary(count: usize) -> (r: String)
    ensures
        r@ == nat_decimal(count as nat) + " message(s) forwarded."@,
{
    concat2(crate::json::u64_decimal(count as u64).as_str(), " message(s) forwarded.")
}

/// The data of a change to one message: the chat, the message, and for an
/// edit the new text.
pub fn message_change_output(chat_id: i64, message_id: i32, text: Option<&str>) -> (r: JsonValue)
    ensures
        r@ == Json::Object(seq![
            ("chat_id"@, Json::Number(int_decimal(chat_id as int))),
            ("message_id"@, Json::Number(int_decimal(message_id as int))),
        ] + match text {
            Some(t) => seq![("text"@, Json::Str(t@))],
            None => Seq::empty(),
        }),
{
    let mut b = ObjectBuilder::new();
    b.field("chat_id", JsonValue::integer(chat_id));
    b.field("message_id", JsonValue::integer(message_id as i64));
    let ghost e0 = entries_view(b.entries@);
    match text {
        Some(t) => {
            b.field("text", JsonValue::string(t));
        },
        None => {},
    }
    assert(entries_view(b.entries@) =~= seq![
        ("chat_id"@, Json::Number(int_decimal(chat_id as int))),
        ("message_id"@, Json::Number(int_decimal(message_id as int))),
    ] + match text {
        Some(t) => seq![("text"@, Json::Str(t@))],
        None => Seq::empty(),
    });
    b.build()
}

/// The data of `message download`: the output path when media was saved,
/// else `downloaded: false`.
pub fn download_output(chat_id: i64, message_id: i32, output: Option<&str>) -> (r: JsonValue)
    ensures
        r@ == Json::Object(seq![
            ("chat_id"@, Json::Number(int_decimal(chat_id as int))),
            ("message_id"@, Json::Number(int_decimal(message_id as int))),
            match output {
                Some(p) => ("output"@, Json::Str(p@)),
                None => ("downloaded"@, Json::Bool(false)),
            },
        ]),
{
    let mut b = ObjectBuilder::new();
    b.field("chat_id", JsonValue::integer(chat_id));
    b.field("message_id", JsonValue::integer(message_id as i64));
    match output {
        Some(p) => {
            b.field("output", JsonValue::string(p));
        },
        None => {
            b.field("downloaded", JsonValue::Bool(false));
        },
    }
    assert(entries_view(b.entries@) =~= seq![
        ("chat_id"@, Json::Number(int_decimal(chat_id as int))),
        ("message_id"@, Json::Number(int_decimal(message_id as int))),
        match output {
            Some(p) => ("output"@, Json::Str(p@)),
            None => ("downloaded"@, Json::Bool(false)),
        },
    ]);
    b.build()
}

/// The summary of `message download`.
pub fn download_summary(downloaded: bool) -> (r: &'static str)
    ensures
        r@ == if downloaded { "Media downloaded."@ } else { "No downloadable media found in the message."@ },
{
    if downloaded { "Media downloaded." } else { "No downloadable media found in the message." }
}

/// The data of a button click no response answered.
pub fn click_without_response_output(button: &str, message_id: Option<i64>) -> (r: JsonValue)
    ensures
        r@ == Json::Object(seq![
            ("button"@, Json::Str(button@)),
            ("message_id"@, match message_id {
                Some(m) => Json::Number(int_decimal(m as int)),
                None => Json::Null,
            }),
            ("response_received"@, Json::Bool(false)),
        ]),
{
    let mut b = ObjectBuilder::new();
    b.field("button", JsonValue::string(button));
    b.field("message_id", JsonValue::opt_int(message_id));
    b.field("response_received", JsonValue::Bool(false));
    assert(entries_view(b.entries@) =~= seq![
        ("button"@, Json::Str(button@)),
        ("message_id"@, match message_id {
            Some(m) => Json::Number(int_decimal(m as int)),
            None => Json::Null,
        }),
        ("response_received"@, Json::Bool(false)),
    ]);
    b.build()
}

/// The summary of a button click.
pub fn click_summary(response_received: bool) -> (r: &'static str)
    ensures
        r@ == if response_received {
            "Inline button clicked and response received."@
        } else {
            "Inline button clicked, but no response arrived before timeout."@
        },
{
    if response_received {
        "Inline button clicked and response received."
    } else {
        "Inline button clicked, but no response arrived before timeout."
    }
}

/// The data of `message unread`: the chat, how many unread messages it
/// holds, and the newest of them.
pub fn unread_output(chat_id: i64, chat_name: &str, messages: &Vec<IncomingMessage>) -> (r: JsonValue)
    ensures
        r@ == Json::Object(seq![
            ("chat_id"@, Json::Number(int_decimal(chat_id as int))),
            ("chat_name"@, Json::Str(chat_name@)),
            ("unread_count"@, Json::Number(nat_decimal(messages@.len() as nat))),
            ("latest_message"@, if messages@.len() > 0 { spec_incoming_json(messages@[0]) } else { Json::Null }),
        ]),
{
    let latest = if messages.len() > 0 { messages[0].to_json() } else { JsonValue::Null };
    let mut b = ObjectBuilder::new();
    b.field("chat_id", JsonValue::integer(chat_id));
    b.field("chat_name", JsonValue::string(chat_name));
    b.field("unread_count", JsonValue::natural(messages.len() as u64));
    b.field("latest_message", latest);
    assert(entries_view(b.entries@) =~= seq![
        ("chat_id"@, Json::Number(int_decimal(chat_id as int))),
        ("chat_name"@, Json::Str(chat_name@)),
        ("unread_count"@, Json::Number(nat_decimal(messages@.len() as nat))),
        ("latest_message"@, if messages@.len() > 0 { spec_incoming_json(messages@[0]) } else { Json::Null }),
    ]);
    b.build()
}

/// The data of `message recv` and `follow`: the messages.
pub fn messages_output(messages: &Vec<IncomingMessage>) -> (r: JsonValue)
    ensures
        r@ == Json::Object(seq![
            ("messages"@, Json::Array(Seq::new(messages@.len(), |i: int| spec_incoming_json(messages@[i])))),
        ]),
{
    let mut items: Vec<JsonValue> = Vec::new();
    let mut i: usize = 0;
    while i < messages.len()
        invariant
            i <= messages@.len(),
            items_view(items@) == Seq::new(i as nat, |k: int| spec_incoming_json(messages@[k])),
        decreases messages@.len() - i,
    {
        let item = messages[i].to_json();
        proof {
            lemma_items_view_push(items@, item);
        }
        items.push(item);
        i = i + 1;
        assert(items_view(items@) =~= Seq::new(i as nat, |k: int| spec_incoming_json(messages@[k])));
    }
    let ghost arr = items_view(items@);
    let mut b = ObjectBuilder::new();
    b.field("messages", JsonValue::Array(items));
    assert(entries_view(b.entries@) =~= seq![("messages"@, Json::Array(arr))]);
    b.build()
}

/// The data of `message list-actions`: the actions.
pub fn actions_output(actions: &Vec<InteractiveAction>) -> (r: JsonValue)
    ensures
        r@ == Json::Object(seq![
            ("actions"@, Json::Array(Seq::new(actions@.len(), |i: int| Json::Object(spec_action_entries(actions@[i]))))),
        ]),
{
    let mut items: Vec<JsonValue> = Vec::new();
    let mut i: usize = 0;
    while i < actions.len()
        invariant
            i <= actions@.len(),
            items_view(items@) == Seq::new(i as nat, |k: int| Json::Object(spec_action_entries(actions@[k]))),
        decreases actions@.len() - i,
    {
        let item = actions[i].to_json();
        proof {
            lemma_items_view_push(items@, item);
        }
        items.push(item);
        i = i + 1;
        assert(items_view(items@) =~= Seq::new(i as nat, |k: int| Json::Object(spec_action_entries(actions@[k]))));
    }
    let ghost arr = items_view(items@);
    let mut b = ObjectBuilder::new();
    b.field("actions", JsonValue::Array(items));
    assert(entries_view(b.entries@) =~= seq![("actions"@, Json::Array(arr))]);
    b.build()
}

/// The next step after sending: read the replies.
pub fn read_replies_step() -> (r: NextStep)
    ensures
        r.action@ == "read_replies"@,
        r.command@ == "telegram-agent-cli message recv --as <account> --chat <peer>"@,
{
    NextStep::new("read_replies", "telegram-agent-cli message recv --as <account> --chat <peer>")
}

} // verus!
