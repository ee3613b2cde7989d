//! Diagnostics, the runtime directories view, and scenario exports.
use vstd::prelude::*;
use crate::config::paths::{AppPaths, RuntimePathSource, spec_source_str};
use crate::errors::{Result, TelegramCliError, is_message_error};
use crate::json::{Json, JsonValue, ObjectBuilder, entries_view, items_view, lemma_items_view_push};
use crate::output::contract::{NextStep, RuntimeDirectoryView, RuntimePathsView, steps_view};
use crate::storage::models::{AccountRecord, RunEventRecord};
use crate::commands::account::{default_account, spec_default_account};
use crate::text::{concat2, concat3, int_decimal, nat_decimal, owned, parse_i64, spec_parse_signed, str_eq};

verus! {

/// A runtime directory with where it came from and what it holds.
pub fn runtime_directory(path: &str, source: RuntimePathSource, description: &str) -> (r: RuntimeDirectoryView)
    ensures
        r.path@ == path@,
        r.source@ == spec_source_str(source),
        r.description@ == description@,
        r.user_scoped,
{
    RuntimeDirectoryView {
        path: owned(path),
        source: owned(source.as_str()),
        description: owned(description),
        user_scoped: true,
    }
}

/// The four runtime directories of `paths`.
pub fn runtime_paths_view(paths: &AppPaths) -> (r: RuntimePathsView)
    ensures
        r.config.path@ == paths.config_dir@ && r.config.source@ == spec_source_str(paths.config_source),
        r.config.description@ == "Configuration files, account metadata, and local CLI settings."@,
        r.data.path@ == paths.data_dir@ && r.data.source@ == spec_source_str(paths.data_source),
        r.data.description@ == "Persistent application data such as the encrypted account database."@,
        r.state.path@ == paths.state_dir@ && r.state.source@ == spec_source_str(paths.state_source),
        r.state.description@ == "Mutable session state, REPL history, and local runtime artifacts."@,
        r.cache.path@ == paths.cache_dir@ && r.cache.source@ == spec_source_str(paths.cache_source),
        r.cache.description@ == "Disposable caches and ephemeral data that can be rebuilt locally."@,
        r.config.user_scoped && r.data.user_scoped && r.state.user_scoped && r.cache.user_scoped,
{
    RuntimePathsView {
        config: runtime_directory(
            paths.config_dir.as_str(),
            paths.config_source,
            "Configuration files, account metadata, and local CLI settings.",
        ),
        data: runtime_directory(
            paths.data_dir.as_str(),
            paths.data_source,
            "Persistent application data such as the encrypted account database.",
        ),
        state: runtime_directory(
            paths.state_dir.as_str(),
            paths.state_source,
            "Mutable session state, REPL history, and local runtime artifacts.",
        ),
        cache: runtime_directory(
            paths.cache_dir.as_str(),
            paths.cache_source,
            "Disposable caches and ephemeral data that can be rebuilt locally.",
        ),
    }
}

/// The next steps of `paths`.
pub fn paths_steps() -> (r: Vec<NextStep>)
    ensures
        steps_view(r@) == seq![
            ("inspect_context"@, "telegram-agent-cli context show"@),
            ("inspect_diagnostics"@, "telegram-agent-cli doctor"@),
        ],
{
    let r = vec![
        NextStep::new("inspect_context", "telegram-agent-cli context show"),
        NextStep::new("inspect_diagnostics", "telegram-agent-cli doctor"),
    ];
    assert(steps_view(r@) =~= seq![
        ("inspect_context"@, "telegram-agent-cli context show"@),
        ("inspect_diagnostics"@, "telegram-agent-cli doctor"@),
    ]);
    r
}

/// The diagnostics `doctor` reports.
pub open spec fn spec_doctor_payload(paths: AppPaths, db_exists: bool, accounts: Seq<AccountRecord>) -> Json {
    Json::Object(seq![
        ("config_dir"@, Json::Str(paths.config_dir@)),
        ("data_dir"@, Json::Str(paths.data_dir@)),
        ("state_dir"@, Json::Str(paths.state_dir@)),
        ("database"@, Json::Object(seq![("path"@, Json::Str(paths.db_path@)), ("exists"@, Json::Bool(db_exists))])),
        ("master_key_path"@, Json::Str(paths.master_key_path@)),
        ("accounts"@, Json::Object(seq![
            ("count"@, Json::Number(nat_decimal(accounts.len() as nat))),
            ("default"@, match spec_default_account(accounts) {
                Some(n) => Json::Str(n),
                None => Json::Null,
            }),
        ])),
        ("adapter"@, Json::Str("grammers_stub"@)),
    ])
}

/// The diagnostics `doctor` reports: the directories, the database, the key
/// file, the accounts and the adapter.
pub fn doctor_payload(paths: &AppPaths, db_exists: bool, accounts: &Vec<AccountRecord>) -> (r: JsonValue)
    ensures
        r@ == spec_doctor_payload(*paths, db_exists, accounts@),
{
    let mut db = ObjectBuilder::new();
    db.field("path", JsonValue::string(paths.db_path.as_str()));
    db.field("exists", JsonValue::Bool(db_exists));
    let ghost dbe = entries_view(db.entries@);
    let dbv = db.build();
    let d = default_account(accounts);
    let mut acc = ObjectBuilder::new();
    acc.field("count", JsonValue::natural(accounts.len() as u64));
    acc.field("default", JsonValue::opt_string(&d));
    let ghost ae = entries_view(acc.entries@);
    let accv = acc.build();
    let mut b = ObjectBuilder::new();
    b.field("config_dir", JsonValue::string(paths.config_dir.as_str()));
    b.field("data_dir", JsonValue::string(paths.data_dir.as_str()));
    b.field("state_dir", JsonValue::string(paths.state_dir.as_str()));
    b.field("database", dbv);
    b.field("master_key_path", JsonValue::string(paths.master_key_path.as_str()));
    b.field("accounts", accv);
    b.field("adapter", JsonValue::string("grammers_stub"));
    proof {
        assert(dbe =~= seq![("path"@, Json::Str(paths.db_path@)), ("exists"@, Json::Bool(db_exists))]);
        assert(ae =~= seq![
            ("count"@, Json::Number(nat_decimal(accounts@.len() as nat))),
            ("default"@, match spec_default_account(accounts@) {
                Some(n) => Json::Str(n),
                None => Json::Null,
            }),
        ]);
        assert(entries_view(b.entries@) =~= spec_doctor_payload(*paths, db_exists, accounts@)->Object_0);
    }
    b.build()
}

/// Which scenario run an export asks for.
#[derive(Debug, Clone, Copy, PartialEq, Eq, Structural)]
pub enum RunSelector {
    Latest,
    Id(i64),
}

/// The run an `--run-id` names: `latest`, or a run id.
pub fn parse_run_selector(run_id: &str) -> (r: Result<RunSelector>)
    ensures
        run_id@ == "latest"@ ==> r == Ok::<RunSelector, TelegramCliError>(RunSelector::Latest),
        run_id@ != "latest"@ ==> match crate::text::spec_parse_i64_full(run_id@) {
            Ok(n) => r == Ok::<RunSelector, TelegramCliError>(RunSelector::Id(n as i64)),
            Err(k) => r is Err && is_message_error(
                r->Err_0,
                "invalid run id "@ + run_id@ + ": "@ + crate::text::spec_int_error_message(k),
            ),
        },
{
    if str_eq(run_id, "latest") {
        return Ok(RunSelector::Latest);
    }
    match crate::text::parse_i64_full(run_id) {
        Ok(n) => Ok(RunSelector::Id(n)),
        Err(k) => {
            let head = concat3("invalid run id ", run_id, ": ");
            Err(TelegramCliError::Message(concat2(head.as_str(), crate::text::int_error_message(k))))
        },
    }
}

/// The error when the asked-for run does not exist.
pub fn missing_run_error(selector: RunSelector) -> (r: TelegramCliError)
    ensures
        is_message_error(r, match selector {
            RunSelector::Latest => "no scenario runs are available for export"@,
            RunSelector::Id(n) => "run "@ + int_decimal(n as int) + " was not found"@,
        }),
{
    match selector {
        RunSelector::Latest => TelegramCliError::Message(owned("no scenario runs are available for export")),
        RunSelector::Id(n) => TelegramCliError::Message(concat3("run ", crate::json::i64_decimal(n).as_str(), " was not found")),
    }
}

/// One exported event: its run, step, payload (the stored JSON, or the raw
/// text under `raw` when it does not parse) and time.
pub open spec fn spec_export_item(e: RunEventRecord, parsed: Option<Json>) -> Json {
    Json::Object(seq![
        ("run_id"@, Json::Number(int_decimal(e.run_id as int))),
        ("step_name"@, Json::Str(e.step_name@)),
        ("payload"@, match parsed {
            Some(p) => p,
            None => Json::Object(seq![("raw"@, Json::Str(e.payload_json@))]),
        }),
        ("created_at"@, Json::Str(e.created_at@)),
    ])
}

/// An optional value by its mathematical form.
pub open spec fn opt_json_view(v: Option<JsonValue>) -> Option<Json> {
    match v {
        Some(p) => Some(p@),
        None => None,
    }
}

/// One exported event, given its payload as parsed (if it parsed).
pub fn export_item(e: &RunEventRecord, parsed: Option<JsonValue>) -> (r: JsonValue)
    ensures
        r@ == spec_export_item(*e, opt_json_view(parsed)),
{
    let ghost pv = opt_json_view(parsed);
    let payload = match parsed {
        Some(p) => p,
        None => {
            let mut raw = ObjectBuilder::new();
            raw.field("raw", JsonValue::string(e.payload_json.as_str()));
            assert(entries_view(raw.entries@) =~= seq![("raw"@, Json::Str(e.payload_json@))]);
            raw.build()
        },
    };
    let mut b = ObjectBuilder::new();
    b.field("run_id", JsonValue::integer(e.run_id));
    b.field("step_name", JsonValue::string(e.step_name.as_str()));
    b.field("payload", payload);
    b.field("created_at", JsonValue::string(e.created_at.as_str()));
    assert(entries_view(b.entries@) =~= spec_export_item(*e, pv)->Object_0);
    b.build()
}

/// The next steps of `doctor`.
pub fn doctor_steps() -> (r: Vec<NextStep>)
    ensures
        steps_view(r@) == seq![("inspect_accounts"@, "telegram-agent-cli account list"@)],
{
    let r = vec![NextStep::new("inspect_accounts", "telegram-agent-cli account list")];
    assert(steps_view(r@) =~= seq![("inspect_accounts"@, "telegram-agent-cli account list"@)]);
    r
}

/// The next steps of `export`.
pub fn export_steps() -> (r: Vec<NextStep>)
    ensures
        steps_view(r@) == seq![("run_scenario"@, "telegram-agent-cli run <path>"@)],
{
    let r = vec![NextStep::new("run_scenario", "telegram-agent-cli run <path>")];
    assert(steps_view(r@) =~= seq![("run_scenario"@, "telegram-agent-cli run <path>"@)]);
    r
}

/// The JSON form of one runtime directory.
pub open spec fn spec_directory_json(d: RuntimeDirectoryView) -> Json {
    Json::Object(seq![
        ("path"@, Json::Str(d.path@)),
        ("source"@, Json::Str(d.source@)),
        ("description"@, Json::Str(d.description@)),
        ("user_scoped"@, Json::Bool(d.user_scoped)),
    ])
}

/// The JSON form of one runtime directory.
pub fn directory_json(d: &RuntimeDirectoryView) -> (r: JsonValue)
    ensures
        r@ == spec_directory_json(*d),
{
    let mut b = ObjectBuilder::new();
    b.field("path", JsonValue::string(d.path.as_str()));
    b.field("source", JsonValue::string(d.source.as_str()));
    b.field("description", JsonValue::string(d.description.as_str()));
    b.field("user_scoped", JsonValue::Bool(d.user_scoped));
    let ghost e = entries_view(b.entries@);
    let r = b.build();
    assert(e =~= seq![
        ("path"@, Json::Str(d.path@)),
        ("source"@, Json::Str(d.source@)),
        ("description"@, Json::Str(d.description@)),
        ("user_scoped"@, Json::Bool(d.user_scoped)),
    ]);
    r
}

/// The data of `paths`: the four directories by name.
pub fn runtime_paths_json(v: &RuntimePathsView) -> (r: JsonValue)
    ensures
        r@ == Json::Object(seq![
            ("config"@, spec_directory_json(v.config)),
            ("data"@, spec_directory_json(v.data)),
            ("state"@, spec_directory_json(v.state)),
            ("cache"@, spec_directory_json(v.cache)),
        ]),
{
    let mut b = ObjectBuilder::new();
    b.field("config", directory_json(&v.config));
    b.field("data", directory_json(&v.data));
    b.field("state", directory_json(&v.state));
    b.field("cache", directory_json(&v.cache));
    let ghost e = entries_view(b.entries@);
    let r = b.build();
    assert(e =~= seq![
        ("config"@, spec_directory_json(v.config)),
        ("data"@, spec_directory_json(v.data)),
        ("state"@, spec_directory_json(v.state)),
        ("cache"@, spec_directory_json(v.cache)),
    ]);
    r
}

} // verus!
