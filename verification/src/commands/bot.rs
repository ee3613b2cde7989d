//! The bot commands: their argument checks and what they report.
use vstd::prelude::*;
use crate::errors::{Result, TelegramCliError, is_message_error};
use crate::json::{Json, JsonValue, ObjectBuilder, entries_view, items_view, lemma_items_view_push};
use crate::output::contract::NextStep;
use crate::text::{concat2, concat3, int_decimal, nat_decimal, owned, split_all, split_once, split_once_str, split_str, trim, trim_string, views};

verus! {

/// The message for a piece that is not `name|description`.
pub open spec fn invalid_pair_message(piece: Seq<char>) -> Seq<char> {
    "invalid command pair '"@ + trim(piece) + "', expected name|description"@
}

/// The `(name, description)` pairs of comma-separated pieces, each trimmed
/// and split at its first `|`; the first piece without one is the error.
pub open spec fn spec_parse_pairs(pieces: Seq<Seq<char>>) -> core::result::Result<Seq<(Seq<char>, Seq<char>)>, Seq<char>>
    decreases pieces.len(),
{
    if pieces.len() == 0 {
        Ok(Seq::empty())
    } else {
        match split_once(trim(pieces[0]), '|') {
            None => Err(invalid_pair_message(pieces[0])),
            Some((a, b)) => match spec_parse_pairs(pieces.subrange(1, pieces.len() as int)) {
                Ok(rest) => Ok(seq![(trim(a), trim(b))] + rest),
                Err(e) => Err(e),
            },
        }
    }
}

/// The pairs of a list of strings by their characters.
pub open spec fn pairs_view(v: Seq<(String, String)>) -> Seq<(Seq<char>, Seq<char>)> {
    Seq::new(v.len(), |i: int| (v[i].0@, v[i].1@))
}

/// The bot commands of a `name|description,name|description` list; a piece
/// without `|` is refused, and so is an empty list.
pub fn parse_bot_commands(text: &str) -> (r: Result<Vec<(String, String)>>)
    ensures
        match spec_parse_pairs(split_all(text@, ',')) {
            Ok(pairs) => if pairs.len() == 0 {
                r is Err && is_message_error(r->Err_0, "at least one command is required"@)
            } else {
                r is Ok && pairs_view(r->Ok_0@) == pairs
            },
            Err(m) => r is Err && is_message_error(r->Err_0, m),
        },
{
    let pieces = split_str(text, ',');
    let ghost pv = views(pieces@);
    let mut out: Vec<(String, String)> = Vec::new();
    let mut i: usize = 0;
    assert(pv.subrange(0, pv.len() as int) =~= pv);
    assert(pairs_view(out@) =~= Seq::<(Seq<char>, Seq<char>)>::empty());
    while i < pieces.len()
        invariant
            pv == views(pieces@),
            pv == split_all(text@, ','),
            i <= pieces@.len(),
            match spec_parse_pairs(pv) {
                Ok(all) => match spec_parse_pairs(pv.subrange(i as int, pv.len() as int)) {
                    Ok(rest) => all == pairs_view(out@) + rest,
                    Err(_) => false,
                },
                Err(m) => match spec_parse_pairs(pv.subrange(i as int, pv.len() as int)) {
                    Ok(_) => false,
                    Err(m2) => m2 == m,
                },
            },
        decreases pieces@.len() - i,
    {
        let ghost rest = pv.subrange(i as int, pv.len() as int);
        assert(rest[0] == pieces@[i as int]@);
        assert(rest.subrange(1, rest.len() as int) =~= pv.subrange(i + 1, pv.len() as int));
        let piece = trim_string(pieces[i].as_str());
        match split_once_str(piece.as_str(), '|') {
            Some((a, b)) => {
                let pair = (trim_string(a.as_str()), trim_string(b.as_str()));
                let ghost before = out@;
                out.push(pair);
                proof {
                    assert(pairs_view(out@) =~= pairs_view(before).push((trim(a@), trim(b@))));
                    match spec_parse_pairs(pv) {
                        Ok(all) => {
                            let tail = spec_parse_pairs(pv.subrange(i + 1, pv.len() as int));
                            assert(tail is Ok);
                            assert(all =~= pairs_view(out@) + tail->Ok_0);
                        },
                        Err(_) => {},
                    }
                }
            },
            None => {
                return Err(TelegramCliError::Message(concat3(
                    "invalid command pair '",
                    piece.as_str(),
                    "', expected name|description",
                )));
            },
        }
        i = i + 1;
    }
    assert(pv.subrange(pv.len() as int, pv.len() as int) =~= Seq::<Seq<char>>::empty());
    if out.len() == 0 {
        return Err(TelegramCliError::Message(owned("at least one command is required")));
    }
    Ok(out)
}

/// The JSON of one bot command.
pub open spec fn command_json(p: (Seq<char>, Seq<char>)) -> Json {
    Json::Object(seq![("command"@, Json::Str(p.0)), ("description"@, Json::Str(p.1))])
}

/// What `bot set-commands` reports: the commands and their number.
pub fn set_commands_output(commands: &Vec<(String, String)>) -> (r: JsonValue)
    ensures
        r@ == Json::Object(seq![
            ("commands"@, Json::Array(Seq::new(commands@.len(), |i: int| command_json(pairs_view(commands@)[i])))),
            ("total"@, Json::Number(nat_decimal(commands@.len() as nat))),
        ]),
{
    let mut items: Vec<JsonValue> = Vec::new();
    let mut i: usize = 0;
    while i < commands.len()
        invariant
            i <= commands@.len(),
            items_view(items@) == Seq::new(i as nat, |k: int| command_json(pairs_view(commands@)[k])),
        decreases commands@.len() - i,
    {
        let mut b = ObjectBuilder::new();
        b.field("command", JsonValue::string(commands[i].0.as_str()));
        b.field("description", JsonValue::string(commands[i].1.as_str()));
        assert(entries_view(b.entries@) =~= seq![("command"@, Json::Str(commands@[i as int].0@)), ("description"@, Json::Str(commands@[i as int].1@))]);
        let item = b.build();
        proof {
            lemma_items_view_push(items@, item);
        }
        items.push(item);
        i = i + 1;
        assert(items_view(items@) =~= Seq::new(i as nat, |k: int| command_json(pairs_view(commands@)[k])));
    }
    let ghost arr = items_view(items@);
    let mut b = ObjectBuilder::new();
    b.field("commands", JsonValue::Array(items));
    b.field("total", JsonValue::natural(commands.len() as u64));
    assert(entries_view(b.entries@) =~= seq![
        ("commands"@, Json::Array(arr)),
        ("total"@, Json::Number(nat_decimal(commands@.len() as nat))),
    ]);
    b.build()
}

/// The summary of `bot set-commands`.
pub fn set_commands_summary(count: usize) -> (r: String)
    ensures
        r@ == nat_decimal(count as nat) + " bot command(s) set."@,
{
    concat2(crate::json::u64_decimal(count as u64).as_str(), " bot command(s) set.")
}

/// The next steps of `bot set-commands`.
pub fn set_commands_steps() -> (r: Vec<NextStep>)
    ensures
        r@.len() == 1,
        r@[0].action@ == "set_bot_info"@ && r@[0].command@ == "telegram-agent-cli bot set-info --as <account>"@,
{
    vec![NextStep::new("set_bot_info", "telegram-agent-cli bot set-info --as <account>")]
}

/// `bot set-info` needs a description or an about text.
pub fn check_bot_info(description: &Option<String>, about: &Option<String>) -> (r: Result<()>)
    ensures
        description is None && about is None ==> r is Err && is_message_error(
            r->Err_0,
            "at least one of --description or --about is required"@,
        ),
        !(description is None && about is None) ==> r is Ok,
{
    if description.is_none() && about.is_none() {
        return Err(TelegramCliError::Message(owned("at least one of --description or --about is required")));
    }
    Ok(())
}

/// An optional text as JSON.
pub open spec fn text_or_null(s: Option<String>) -> Json {
    match s {
        Some(t) => Json::Str(t@),
        None => Json::Null,
    }
}

/// What `bot set-info` reports: the texts it set.
pub fn set_info_output(description: &Option<String>, about: &Option<String>) -> (r: JsonValue)
    ensures
        r@ == Json::Object(seq![
            ("description"@, text_or_null(*description)),
            ("about"@, text_or_null(*about)),
        ]),
{
    let mut b = ObjectBuilder::new();
    b.field("description", JsonValue::opt_string(description));
    b.field("about", JsonValue::opt_string(about));
    assert(entries_view(b.entries@) =~= seq![
        ("description"@, text_or_null(*description)),
        ("about"@, text_or_null(*about)),
    ]);
    b.build()
}

/// The next steps of `bot set-info`.
pub fn set_info_steps() -> (r: Vec<NextStep>)
    ensures
        r@.len() == 1,
        r@[0].action@ == "set_bot_commands"@ && r@[0].command@ == "telegram-agent-cli bot set-commands --as <account>"@,
{
    vec![NextStep::new("set_bot_commands", "telegram-agent-cli bot set-commands --as <account>")]
}

} // verus!
