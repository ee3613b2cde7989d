//! The peer, alias, list and scenario commands: what they report.
use vstd::prelude::*;
use crate::json::{Json, JsonValue, ObjectBuilder, entries_view, items_view, lemma_items_view_push};
use crate::storage::models::AliasRecord;
use crate::telegram::peers::{opt_str_json, spec_peer_kind_str};
use crate::output::contract::{NextStep, steps_view};
use crate::text::{concat2, concat3, int_decimal, nat_decimal};

verus! {

/// The summary of `alias set`.
pub fn alias_set_summary(alias: &str, peer_id: i64) -> (r: String)
    ensures
        r@ == "Alias "@ + alias@ + " now points to peer "@ + int_decimal(peer_id as int) + "."@,
{
    let head = concat3("Alias ", alias, " now points to peer ");
    concat3(head.as_str(), crate::json::i64_decimal(peer_id).as_str(), ".")
}

/// The data of `alias set`.
pub fn alias_set_output(alias: &str, peer_id: i64) -> (r: JsonValue)
    ensures
        r@ == Json::Object(seq![("alias"@, Json::Str(alias@)), ("peer_id"@, Json::Number(int_decimal(peer_id as int)))]),
{
    let mut b = ObjectBuilder::new();
    b.field("alias", JsonValue::string(alias));
    b.field("peer_id", JsonValue::integer(peer_id));
    assert(entries_view(b.entries@) =~= seq![("alias"@, Json::Str(alias@)), ("peer_id"@, Json::Number(int_decimal(peer_id as int)))]);
    b.build()
}

/// Two next steps.
fn two_steps(a1: &str, c1: &str, a2: &str, c2: &str) -> (r: Vec<NextStep>)
    ensures
        steps_view(r@) == seq![(a1@, c1@), (a2@, c2@)],
{
    let r = vec![NextStep::new(a1, c1), NextStep::new(a2, c2)];
    assert(steps_view(r@) =~= seq![(a1@, c1@), (a2@, c2@)]);
    r
}

/// The next steps of `peer resolve`.
pub fn peer_resolve_steps() -> (r: Vec<NextStep>)
    ensures
        steps_view(r@) == seq![
            ("set_alias"@, "telegram-agent-cli alias set <alias> <query>"@),
            ("inspect_help"@, "telegram-agent-cli peer resolve --help"@),
        ],
{
    two_steps("set_alias", "telegram-agent-cli alias set <alias> <query>", "inspect_help", "telegram-agent-cli peer resolve --help")
}

/// The next steps of `alias set`.
pub fn alias_set_steps() -> (r: Vec<NextStep>)
    ensures
        steps_view(r@) == seq![
            ("inspect_aliases"@, "telegram-agent-cli alias list"@),
            ("inspect_help"@, "telegram-agent-cli peer resolve --help"@),
        ],
{
    two_steps("inspect_aliases", "telegram-agent-cli alias list", "inspect_help", "telegram-agent-cli peer resolve --help")
}

/// The next steps of `alias list`.
pub fn alias_list_steps() -> (r: Vec<NextStep>)
    ensures
        steps_view(r@) == seq![
            ("set_alias"@, "telegram-agent-cli alias set <alias> <query>"@),
            ("resolve_peer"@, "telegram-agent-cli peer resolve <query>"@),
        ],
{
    two_steps("set_alias", "telegram-agent-cli alias set <alias> <query>", "resolve_peer", "telegram-agent-cli peer resolve <query>")
}

/// The summary of a passed scenario run.
pub fn scenario_summary(run_id: i64) -> (r: String)
    ensures
        r@ == "Scenario run "@ + int_decimal(run_id as int) + " passed."@,
{
    concat3("Scenario run ", crate::json::i64_decimal(run_id).as_str(), " passed.")
}

/// The data of a passed scenario run.
pub fn scenario_output(run_id: i64) -> (r: JsonValue)
    ensures
        r@ == Json::Object(seq![("run_id"@, Json::Number(int_decimal(run_id as int))), ("status"@, Json::Str("passed"@))]),
{
    let mut b = ObjectBuilder::new();
    b.field("run_id", JsonValue::integer(run_id));
    b.field("status", JsonValue::string("passed"));
    assert(entries_view(b.entries@) =~= seq![("run_id"@, Json::Number(int_decimal(run_id as int))), ("status"@, Json::Str("passed"@))]);
    b.build()
}

/// The next steps of a passed scenario run.
pub fn scenario_steps(run_id: i64) -> (r: Vec<NextStep>)
    ensures
        steps_view(r@) == seq![
            ("inspect_export"@, "telegram-agent-cli export --run-id "@ + int_decimal(run_id as int)),
            ("inspect_help"@, "telegram-agent-cli run --help"@),
        ],
{
    let export = concat2("telegram-agent-cli export --run-id ", crate::json::i64_decimal(run_id).as_str());
    two_steps("inspect_export", export.as_str(), "inspect_help", "telegram-agent-cli run --help")
}

/// The next steps of `list contacts`.
pub fn contacts_steps() -> (r: Vec<NextStep>)
    ensures
        steps_view(r@) == seq![("resolve_peer"@, "telegram-agent-cli peer resolve <query>"@)],
{
    let r = vec![NextStep::new("resolve_peer", "telegram-agent-cli peer resolve <query>")];
    assert(steps_view(r@) =~= seq![("resolve_peer"@, "telegram-agent-cli peer resolve <query>"@)]);
    r
}

/// The next steps of `list chats`.
pub fn chats_steps() -> (r: Vec<NextStep>)
    ensures
        steps_view(r@) == seq![("set_alias"@, "telegram-agent-cli alias set <alias> <query>"@)],
{
    let r = vec![NextStep::new("set_alias", "telegram-agent-cli alias set <alias> <query>")];
    assert(steps_view(r@) =~= seq![("set_alias"@, "telegram-agent-cli alias set <alias> <query>"@)]);
    r
}

/// The JSON form of a saved alias.
pub open spec fn spec_alias_json(a: AliasRecord) -> Json {
    Json::Object(seq![
        ("alias"@, Json::Str(a.alias@)),
        ("peer_id"@, Json::Number(int_decimal(a.peer_id as int))),
        ("peer_kind"@, Json::Str(spec_peer_kind_str(a.peer_kind))),
        ("display_name"@, Json::Str(a.display_name@)),
        ("username"@, opt_str_json(a.username)),
        ("packed_hex"@, opt_str_json(a.packed_hex)),
    ])
}

/// The JSON form of a saved alias.
pub fn alias_json(a: &AliasRecord) -> (r: JsonValue)
    ensures
        r@ == spec_alias_json(*a),
{
    let mut b = ObjectBuilder::new();
    b.field("alias", JsonValue::string(a.alias.as_str()));
    b.field("peer_id", JsonValue::integer(a.peer_id));
    b.field("peer_kind", JsonValue::string(a.peer_kind.as_str()));
    b.field("display_name", JsonValue::string(a.display_name.as_str()));
    b.field("username", JsonValue::opt_string(&a.username));
    b.field("packed_hex", JsonValue::opt_string(&a.packed_hex));
    let ghost e = entries_view(b.entries@);
    let r = b.build();
    assert(e =~= seq![
        ("alias"@, Json::Str(a.alias@)),
        ("peer_id"@, Json::Number(int_decimal(a.peer_id as int))),
        ("peer_kind"@, Json::Str(spec_peer_kind_str(a.peer_kind))),
        ("display_name"@, Json::Str(a.display_name@)),
        ("username"@, opt_str_json(a.username)),
        ("packed_hex"@, opt_str_json(a.packed_hex)),
    ]);
    r
}

/// The data of `alias list`: the aliases and their number.
pub fn alias_list_output(aliases: &Vec<AliasRecord>) -> (r: JsonValue)
    ensures
        r@ == Json::Object(seq![
            ("aliases"@, Json::Array(Seq::new(aliases@.len(), |i: int| spec_alias_json(aliases@[i])))),
            ("total"@, Json::Number(nat_decimal(aliases@.len() as nat))),
        ]),
{
    let mut items: Vec<JsonValue> = Vec::new();
    let mut i: usize = 0;
    while i < aliases.len()
        invariant
            i <= aliases@.len(),
            items_view(items@) == Seq::new(i as nat, |k: int| spec_alias_json(aliases@[k])),
        decreases aliases@.len() - i,
    {
        let item = alias_json(&aliases[i]);
        proof {
            lemma_items_view_push(items@, item);
        }
        items.push(item);
        i = i + 1;
        assert(items_view(items@) =~= Seq::new(i as nat, |k: int| spec_alias_json(aliases@[k])));
    }
    let ghost arr = items_view(items@);
    let mut b = ObjectBuilder::new();
    b.field("aliases", JsonValue::Array(items));
    b.field("total", JsonValue::natural(aliases.len() as u64));
    assert(entries_view(b.entries@) =~= seq![
        ("aliases"@, Json::Array(arr)),
        ("total"@, Json::Number(nat_decimal(aliases@.len() as nat))),
    ]);
    b.build()
}

} // verus!
