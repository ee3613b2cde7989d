//! The active account context: which account a command acts as, and how
//! that context is attached to a command's output.
use vstd::prelude::*;
use crate::errors::{Result, TelegramCliError, is_message_error};
use crate::json::{Json, JsonValue, ObjectBuilder, entries_view, lemma_entries_view_push};
use crate::output::contract::{ActiveContextView, NextStep, redact, redact_value};
use crate::telegram::peers::{PeerKind, ResolvedPeer, copy_opt, opt_chars};
use crate::text::{owned, parse_i64, spec_parse_signed, str_eq};

verus! {

/// The command that sets the default account.
pub open spec fn use_account_command() -> Seq<char> {
    "telegram-agent-cli account use <name>"@
}

/// Whether a requested account names one explicitly (`default` does not).
pub open spec fn is_explicit(requested: Option<Seq<char>>) -> bool {
    requested matches Some(n) && n != "default"@
}

/// An optional text slice by its characters.
pub open spec fn opt_str(s: Option<&str>) -> Option<Seq<char>> {
    match s {
        Some(t) => Some(t@),
        None => None,
    }
}

/// Whether a requested account names one explicitly.
pub fn names_account(requested: Option<&str>) -> (r: bool)
    ensures
        r == is_explicit(opt_str(requested)),
{
    match requested {
        Some(n) => {
            let d = str_eq(n, "default");
            proof {
                reveal_strlit("default");
            }
            !d
        },
        None => false,
    }
}

/// The account a command acts as: an explicitly requested account, which must
/// exist, or else the stored default.
pub fn effective_account(requested: Option<&str>, requested_exists: bool, persisted: &Option<String>) -> (r: Result<Option<String>>)
    ensures
        is_explicit(opt_str(requested)) && requested_exists ==> r is Ok && opt_chars(r->Ok_0) == opt_str(requested),
        is_explicit(opt_str(requested)) && !requested_exists ==> r is Err && is_message_error(
            r->Err_0,
            "account "@ + requested->0@ + " was not found"@,
        ),
        !is_explicit(opt_str(requested)) ==> r is Ok && opt_chars(r->Ok_0) == opt_chars(*persisted),
{
    if names_account(requested) {
        let name = match requested {
            Some(n) => n,
            None => "",
        };
        if requested_exists {
            Ok(Some(owned(name)))
        } else {
            Err(TelegramCliError::Message(crate::text::concat3("account ", name, " was not found")))
        }
    } else {
        Ok(copy_opt(persisted))
    }
}

/// The account name a command's `--as` stands for: `default` is the stored
/// default, which must be set.
pub fn resolve_account_name(requested: &str, requested_exists: bool, persisted: &Option<String>) -> (r: Result<String>)
    ensures
        is_explicit(Some(requested@)) && requested_exists ==> r is Ok && r->Ok_0@ == requested@,
        is_explicit(Some(requested@)) && !requested_exists ==> r is Err && is_message_error(
            r->Err_0,
            "account "@ + requested@ + " was not found"@,
        ),
        !is_explicit(Some(requested@)) ==> match *persisted {
            Some(p) => r is Ok && r->Ok_0@ == p@,
            None => r is Err && is_message_error(
                r->Err_0,
                "no default account set; use `telegram-agent-cli account use <name>` to set one"@,
            ),
        },
{
    match effective_account(Some(requested), requested_exists, persisted)? {
        Some(name) => Ok(name),
        None => Err(TelegramCliError::Message(owned(
            "no default account set; use `telegram-agent-cli account use <name>` to set one",
        ))),
    }
}

/// The context view of a command: the stored and effective accounts, whether
/// an explicit account overrode the stored one, and a hint when none is stored.
pub fn active_context_view(
    requested: Option<&str>,
    requires_context: bool,
    requested_exists: bool,
    persisted: &Option<String>,
) -> (r: Result<ActiveContextView>)
    ensures
        is_explicit(opt_str(requested)) && !requested_exists ==> r is Err && is_message_error(
            r->Err_0,
            "account "@ + requested->0@ + " was not found"@,
        ),
        !(is_explicit(opt_str(requested)) && !requested_exists) ==> r is Ok && ({
            let v = r->Ok_0;
            let effective = if is_explicit(opt_str(requested)) { opt_str(requested) } else { opt_chars(*persisted) };
            &&& opt_chars(v.persisted_context) == opt_chars(*persisted)
            &&& opt_chars(v.effective_context) == effective
            &&& v.override_applied == (is_explicit(opt_str(requested)) && effective != opt_chars(*persisted))
            &&& v.mutation_path@ == use_account_command()
            &&& v.requires_context == requires_context
            &&& opt_chars(v.set_default_hint) == if persisted is None { Some(use_account_command()) } else { None }
        }),
{
    let effective = effective_account(requested, requested_exists, persisted)?;
    let explicit = names_account(requested);
    let same = match (&effective, persisted) {
        (Some(a), Some(b)) => str_eq(a.as_str(), b.as_str()),
        (None, None) => true,
        _ => false,
    };
    let hint = if persisted.is_none() { Some(owned("telegram-agent-cli account use <name>")) } else { None };
    Ok(ActiveContextView {
        persisted_context: copy_opt(persisted),
        effective_context: effective,
        override_applied: explicit && !same,
        mutation_path: owned("telegram-agent-cli account use <name>"),
        requires_context,
        set_default_hint: hint,
    })
}

/// A context view as JSON.
pub open spec fn opt_json(s: Option<String>) -> Json {
    match s {
        Some(t) => Json::Str(t@),
        None => Json::Null,
    }
}

/// The JSON form of a context view.
pub open spec fn spec_context_json(v: ActiveContextView) -> Json {
    Json::Object(seq![
        ("persisted_context"@, opt_json(v.persisted_context)),
        ("effective_context"@, opt_json(v.effective_context)),
        ("override_applied"@, Json::Bool(v.override_applied)),
        ("mutation_path"@, Json::Str(v.mutation_path@)),
        ("requires_context"@, Json::Bool(v.requires_context)),
        ("set_default_hint"@, opt_json(v.set_default_hint)),
    ])
}

/// The JSON form of a context view.
pub fn context_view_json(v: &ActiveContextView) -> (r: JsonValue)
    ensures
        r@ == spec_context_json(*v),
{
    let mut b = ObjectBuilder::new();
    b.field("persisted_context", JsonValue::opt_string(&v.persisted_context));
    b.field("effective_context", JsonValue::opt_string(&v.effective_context));
    b.field("override_applied", JsonValue::Bool(v.override_applied));
    b.field("mutation_path", JsonValue::string(v.mutation_path.as_str()));
    b.field("requires_context", JsonValue::Bool(v.requires_context));
    b.field("set_default_hint", JsonValue::opt_string(&v.set_default_hint));
    let ghost e = entries_view(b.entries@);
    assert(e =~= seq![
        ("persisted_context"@, opt_json(v.persisted_context)),
        ("effective_context"@, opt_json(v.effective_context)),
        ("override_applied"@, Json::Bool(v.override_applied)),
        ("mutation_path"@, Json::Str(v.mutation_path@)),
        ("requires_context"@, Json::Bool(v.requires_context)),
        ("set_default_hint"@, opt_json(v.set_default_hint)),
    ]);
    b.build()
}

/// Sets `key` in object entries: its value is replaced where it stands, or
/// the entry is appended.
pub open spec fn spec_set_entry(entries: Seq<(Seq<char>, Json)>, key: Seq<char>, value: Json) -> Seq<(Seq<char>, Json)> {
    if exists|i: int| 0 <= i < entries.len() && entries[i].0 == key {
        let i = choose|i: int| 0 <= i < entries.len() && entries[i].0 == key && forall|j: int| 0 <= j < i ==> entries[j].0 != key;
        entries.update(i, (key, value))
    } else {
        entries.push((key, value))
    }
}

/// Command output with its context attached: the redacted data with a
/// `context` entry when it is an object, else `{result, context}`.
pub open spec fn spec_attach_context(data: Json, context: Json) -> Json {
    match redact(data) {
        Json::Object(entries) => Json::Object(spec_set_entry(entries, "context"@, context)),
        other => Json::Object(seq![("result"@, other), ("context"@, context)]),
    }
}

/// Attaches the context view to command output.
pub fn attach_active_context(data: JsonValue, context: &ActiveContextView) -> (r: JsonValue)
    ensures
        r@ == spec_attach_context(data@, spec_context_json(*context)),
{
    let ctx = context_view_json(context);
    let value = redact_value(data);
    match value {
        JsonValue::Object(mut entries) => {
            let ghost ev = entries_view(entries@);
            let ghost cj = spec_context_json(*context);
            assert(redact(data@) == Json::Object(ev));
            proof {
                crate::json::lemma_entries_view(entries@);
                reveal_strlit("context");
            }
            let mut i: usize = 0;
            while i < entries.len()
                invariant
                    i <= entries@.len(),
                    ev == entries_view(entries@),
                    ev.len() == entries@.len(),
                    forall|j: int| 0 <= j < i ==> ev[j].0 != "context"@,
                    ctx@ == cj,
                    cj == spec_context_json(*context),
                    redact(data@) == Json::Object(ev),
                decreases entries@.len() - i,
            {
                proof {
                    crate::json::lemma_entries_view(entries@);
                }
                assert(ev[i as int].0 == entries@[i as int].0@);
                let hit = str_eq(entries[i].0.as_str(), "context");
                if hit {
                    let key = owned("context");
                    proof {
                        crate::json::lemma_entries_view_update(entries@, i as int, key, ctx);
                    }
                    let ghost before = entries@;
                    entries.set(i, (key, ctx));
                    assert(entries@ == before.update(i as int, (key, ctx)));
                    assert(exists|k: int| 0 <= k < ev.len() && ev[k].0 == "context"@) by {
                        assert(ev[i as int].0 == "context"@);
                    }
                    let ghost c = choose|k: int| 0 <= k < ev.len() && ev[k].0 == "context"@ && forall|j: int| 0 <= j < k ==> ev[j].0 != "context"@;
                    assert(exists|k: int| 0 <= k < ev.len() && ev[k].0 == "context"@ && forall|j: int| 0 <= j < k ==> ev[j].0 != "context"@) by {
                        assert(ev[i as int].0 == "context"@);
                    }
                    assert(c == i as int) by {
                        if c < i as int {
                            assert(ev[c].0 != "context"@);
                        } else if c > i as int {
                            assert(ev[i as int].0 == "context"@);
                        }
                    }
                    assert(spec_set_entry(ev, "context"@, cj) == ev.update(i as int, ("context"@, cj)));
                    let r = JsonValue::Object(entries);
                    assert(r@ == Json::Object(entries_view(entries@)));
                    return r;
                }
                i = i + 1;
            }
            let key = owned("context");
            proof {
                lemma_entries_view_push(entries@, key, ctx);
            }
            entries.push((key, ctx));
            assert(spec_set_entry(ev, "context"@, cj) == ev.push(("context"@, cj)));
            assert(entries_view(entries@) == ev.push(("context"@, cj)));
            let r = JsonValue::Object(entries);
            assert(r@ == Json::Object(entries_view(entries@)));
            r
        },
        other => {
            let ghost o = other@;
            let ghost cj = ctx@;
            let mut b = ObjectBuilder::new();
            b.field("result", other);
            b.field("context", ctx);
            assert(entries_view(b.entries@) =~= seq![("result"@, o), ("context"@, cj)]);
            b.build()
        },
    }
}

/// A peer query that is a number names that peer id directly, shown as a user.
pub fn numeric_peer(query: &str) -> (r: Option<ResolvedPeer>)
    ensures
        match spec_parse_signed(query@, i64::MAX as nat) {
            Some(n) => r is Some && r->0.peer_id == n && r->0.peer_kind == PeerKind::User
                && r->0.display_name@ == query@ && r->0.username is None && r->0.packed_hex is None,
            None => r is None,
        },
{
    match parse_i64(query) {
        Some(peer_id) => Some(ResolvedPeer {
            peer_id,
            peer_kind: PeerKind::User,
            display_name: owned(query),
            username: None,
            packed_hex: None,
        }),
        None => None,
    }
}

/// The next steps of `context show`.
pub fn context_show_steps() -> (r: Vec<NextStep>)
    ensures
        r@.len() == 2,
        r@[0].action@ == "set_default_context"@ && r@[0].command@ == use_account_command(),
        r@[1].action@ == "inspect_accounts"@ && r@[1].command@ == "telegram-agent-cli account list"@,
{
    let mut v: Vec<NextStep> = Vec::new();
    v.push(NextStep::new("set_default_context", "telegram-agent-cli account use <name>"));
    v.push(NextStep::new("inspect_accounts", "telegram-agent-cli account list"));
    v
}

} // verus!
