//! The background daemon: where it keeps its files, how its state is
//! reported, and the decisions of starting, stopping and serving it.
use vstd::prelude::*;
use crate::commands::mcp::{McpRequest, McpResponse};
use crate::commands::message::{WaitDuration, spec_duration_text, parse_duration_text};
use crate::config::paths::{join_path, spec_join};
use crate::errors::{Result, TelegramCliError, is_message_error};
use crate::json::{Json, JsonValue, ObjectBuilder, entries_view, u64_decimal};
use crate::output::contract::{NextStep, steps_view};
use crate::output::render::spec_json_compact;
use crate::telegram::peers::opt_chars;
use crate::text::{concat2, concat3, nat_decimal, owned, str_eq};

verus! {

/// What a running daemon records about itself.
#[derive(Debug, Clone, PartialEq, Eq)]
pub struct DaemonMetadata {
    pub pid: u32,
    pub port: u16,
    pub started_at: String,
    pub log_path: String,
}

/// The daemon's directory, metadata file and log file.
#[derive(Debug, Clone, PartialEq, Eq)]
pub struct DaemonPaths {
    pub root: String,
    pub metadata: String,
    pub log: String,
}

/// The daemon's files: `daemon/server.json` and `daemon/server.log` under
/// the state directory.
pub fn daemon_paths(state_dir: &str) -> (r: DaemonPaths)
    ensures
        r.root@ == spec_join(state_dir@, "daemon"@),
        r.metadata@ == spec_join(r.root@, "server.json"@),
        r.log@ == spec_join(r.root@, "server.log"@),
{
    let root = join_path(state_dir, "daemon");
    let metadata = join_path(root.as_str(), "server.json");
    let log = join_path(root.as_str(), "server.log");
    DaemonPaths { root, metadata, log }
}

/// Where the daemon listens.
pub fn endpoint_for_port(port: u16) -> (r: String)
    ensures
        r@ == "127.0.0.1:"@ + nat_decimal(port as nat),
{
    concat2("127.0.0.1:", u64_decimal(port as u64).as_str())
}

/// The message for a duration flag that does not parse.
pub open spec fn duration_error_message(label: Seq<char>, value: Seq<char>, error: Seq<char>) -> Seq<char> {
    "invalid "@ + label + " duration '"@ + value + "': "@ + error
}

/// A daemon timeout flag's duration.
pub fn parse_labeled_duration(value: &str, label: &str) -> (r: Result<WaitDuration>)
    ensures
        match spec_duration_text(value@) {
            Ok((secs, nanos)) => r == Ok::<WaitDuration, TelegramCliError>(WaitDuration { secs, nanos }),
            Err(e) => r is Err && is_message_error(r->Err_0, duration_error_message(label@, value@, e)),
        },
{
    match parse_duration_text(value) {
        Ok(d) => Ok(d),
        Err(e) => {
            let head = concat3("invalid ", label, " duration '");
            let mid = concat3(head.as_str(), value, "': ");
            Err(TelegramCliError::Message(concat2(mid.as_str(), e.as_str())))
        },
    }
}

/// The state of the daemon.
#[derive(Debug, Clone, Copy, PartialEq, Eq, Structural)]
pub enum DaemonState {
    /// It answers.
    Running,
    /// Its metadata is there, but it does not answer.
    Stale,
    /// There is no daemon.
    Stopped,
}

/// The state from whether metadata exists and whether the daemon answers.
pub open spec fn spec_daemon_state(has_metadata: bool, running: bool) -> DaemonState {
    if running {
        DaemonState::Running
    } else if has_metadata {
        DaemonState::Stale
    } else {
        DaemonState::Stopped
    }
}

/// The state from whether metadata exists and whether the daemon answers.
pub fn daemon_state(has_metadata: bool, running: bool) -> (r: DaemonState)
    ensures
        r == spec_daemon_state(has_metadata, running),
{
    if running {
        DaemonState::Running
    } else if has_metadata {
        DaemonState::Stale
    } else {
        DaemonState::Stopped
    }
}

/// The name of a state.
pub open spec fn spec_state_label(s: DaemonState) -> Seq<char> {
    match s {
        DaemonState::Running => "running"@,
        DaemonState::Stale => "stale"@,
        DaemonState::Stopped => "stopped"@,
    }
}

/// The name of a state.
pub fn state_label(s: DaemonState) -> (r: &'static str)
    ensures
        r@ == spec_state_label(s),
{
    match s {
        DaemonState::Running => "running",
        DaemonState::Stale => "stale",
        DaemonState::Stopped => "stopped",
    }
}

/// What `daemon status` shows.
#[derive(Debug, Clone, PartialEq, Eq)]
pub struct DaemonStatusView {
    pub state: String,
    pub running: bool,
    pub pid: Option<u32>,
    pub endpoint: Option<String>,
    pub started_at: Option<String>,
    pub log_path: Option<String>,
    pub metadata_path: String,
}

/// The status view of an inspection: the state, and what the metadata records.
pub fn daemon_status_view(metadata: &Option<DaemonMetadata>, running: bool, metadata_path: &str) -> (r: DaemonStatusView)
    ensures
        r.state@ == spec_state_label(spec_daemon_state(metadata is Some, running)),
        r.running == running,
        r.pid == match metadata { Some(m) => Some(m.pid), None => None::<u32> },
        opt_chars(r.endpoint) == match metadata {
            Some(m) => Some("127.0.0.1:"@ + nat_decimal(m.port as nat)),
            None => None::<Seq<char>>,
        },
        opt_chars(r.started_at) == match metadata { Some(m) => Some(m.started_at@), None => None::<Seq<char>> },
        opt_chars(r.log_path) == match metadata { Some(m) => Some(m.log_path@), None => None::<Seq<char>> },
        r.metadata_path@ == metadata_path@,
{
    let state = daemon_state(metadata.is_some(), running);
    match metadata {
        Some(m) => DaemonStatusView {
            state: owned(state_label(state)),
            running,
            pid: Some(m.pid),
            endpoint: Some(endpoint_for_port(m.port)),
            started_at: Some(owned(m.started_at.as_str())),
            log_path: Some(owned(m.log_path.as_str())),
            metadata_path: owned(metadata_path),
        },
        None => DaemonStatusView {
            state: owned(state_label(state)),
            running,
            pid: None,
            endpoint: None,
            started_at: None,
            log_path: None,
            metadata_path: owned(metadata_path),
        },
    }
}

/// An entry holding a text, left out when absent.
pub open spec fn opt_text_entry(key: Seq<char>, value: Option<String>) -> Seq<(Seq<char>, Json)> {
    match value {
        Some(t) => seq![(key, Json::Str(t@))],
        None => Seq::empty(),
    }
}

impl DaemonStatusView {
    /// The JSON of the view; absent fields are left out.
    pub fn to_json(&self) -> (r: JsonValue)
        ensures
            r@ == Json::Object(seq![("state"@, Json::Str(self.state@)), ("running"@, Json::Bool(self.running))]
                + match self.pid {
                    Some(p) => seq![("pid"@, Json::Number(nat_decimal(p as nat)))],
                    None => Seq::empty(),
                }
                + opt_text_entry("endpoint"@, self.endpoint)
                + opt_text_entry("started_at"@, self.started_at)
                + opt_text_entry("log_path"@, self.log_path)
                + seq![("metadata_path"@, Json::Str(self.metadata_path@))]),
    {
        let mut b = ObjectBuilder::new();
        b.field("state", JsonValue::string(self.state.as_str()));
        b.field("running", JsonValue::Bool(self.running));
        let ghost e0 = entries_view(b.entries@);
        match self.pid {
            Some(p) => {
                b.field("pid", JsonValue::natural(p as u64));
            },
            None => {},
        }
        let ghost e1 = entries_view(b.entries@);
        b.field_opt("endpoint", &self.endpoint);
        b.field_opt("started_at", &self.started_at);
        b.field_opt("log_path", &self.log_path);
        b.field("metadata_path", JsonValue::string(self.metadata_path.as_str()));
        proof {
            let pe: Seq<(Seq<char>, Json)> = match self.pid {
                Some(p) => seq![("pid"@, Json::Number(nat_decimal(p as nat)))],
                None => Seq::empty(),
            };
            assert(e1 =~= e0 + pe);
            assert(e0 =~= seq![("state"@, Json::Str(self.state@)), ("running"@, Json::Bool(self.running))]);
            assert(crate::json::opt_entry("endpoint"@, self.endpoint) == opt_text_entry("endpoint"@, self.endpoint));
            assert(crate::json::opt_entry("started_at"@, self.started_at) == opt_text_entry("started_at"@, self.started_at));
            assert(crate::json::opt_entry("log_path"@, self.log_path) == opt_text_entry("log_path"@, self.log_path));
        }
        let ghost e = entries_view(b.entries@);
        assert(e =~= seq![("state"@, Json::Str(self.state@)), ("running"@, Json::Bool(self.running))]
            + match self.pid {
                Some(p) => seq![("pid"@, Json::Number(nat_decimal(p as nat)))],
                None => Seq::empty(),
            }
            + opt_text_entry("endpoint"@, self.endpoint)
            + opt_text_entry("started_at"@, self.started_at)
            + opt_text_entry("log_path"@, self.log_path)
            + seq![("metadata_path"@, Json::Str(self.metadata_path@))]);
        b.build()
    }
}

/// The summary of `daemon status`.
pub open spec fn spec_status_summary(s: DaemonState) -> Seq<char> {
    match s {
        DaemonState::Running => "Daemon is running."@,
        DaemonState::Stale => "Daemon metadata exists, but the server is not responding."@,
        DaemonState::Stopped => "Daemon is not running."@,
    }
}

/// The summary of `daemon status`.
pub fn status_summary(s: DaemonState) -> (r: &'static str)
    ensures
        r@ == spec_status_summary(s),
{
    match s {
        DaemonState::Running => "Daemon is running.",
        DaemonState::Stale => "Daemon metadata exists, but the server is not responding.",
        DaemonState::Stopped => "Daemon is not running.",
    }
}

/// The next steps of `daemon status`.
pub open spec fn spec_status_steps(s: DaemonState) -> Seq<(Seq<char>, Seq<char>)> {
    match s {
        DaemonState::Running => seq![
            ("inspect_daemon"@, "telegram-agent-cli daemon status"@),
            ("stop_daemon"@, "telegram-agent-cli daemon stop"@),
        ],
        DaemonState::Stale => seq![
            ("restart_daemon"@, "telegram-agent-cli daemon restart"@),
            ("inspect_log"@, "telegram-agent-cli daemon status --format json"@),
        ],
        DaemonState::Stopped => seq![
            ("start_daemon"@, "telegram-agent-cli daemon start"@),
            ("inspect_mcp_help"@, "telegram-agent-cli mcp --help"@),
        ],
    }
}

/// The next steps of `daemon status`.
pub fn status_next_steps(s: DaemonState) -> (r: Vec<NextStep>)
    ensures
        steps_view(r@) == spec_status_steps(s),
{
    let r = match s {
        DaemonState::Running => vec![
            NextStep::new("inspect_daemon", "telegram-agent-cli daemon status"),
            NextStep::new("stop_daemon", "telegram-agent-cli daemon stop"),
        ],
        DaemonState::Stale => vec![
            NextStep::new("restart_daemon", "telegram-agent-cli daemon restart"),
            NextStep::new("inspect_log", "telegram-agent-cli daemon status --format json"),
        ],
        DaemonState::Stopped => vec![
            NextStep::new("start_daemon", "telegram-agent-cli daemon start"),
            NextStep::new("inspect_mcp_help", "telegram-agent-cli mcp --help"),
        ],
    };
    assert(steps_view(r@) =~= spec_status_steps(s));
    r
}

/// What a wait for the daemon does next.
#[derive(Debug, Clone, PartialEq, Eq)]
pub enum PollStep {
    /// The wait is over.
    Done,
    /// Sleep and look again.
    Wait,
    /// Give up with this error.
    Fail(TelegramCliError),
}

/// The next step of waiting for a started daemon: it fails when the child
/// exited first, is done once the daemon answers, and fails after the timeout.
pub fn start_poll(child_exit: Option<&str>, running: bool, timed_out: bool, timeout_label: &str, log_path: &str) -> (r: PollStep)
    ensures
        child_exit is Some ==> (r matches PollStep::Fail(e) && is_message_error(
            e,
            "daemon exited before becoming ready with status "@ + child_exit->0@ + "; inspect "@ + log_path@,
        )),
        child_exit is None && running ==> r == PollStep::Done,
        child_exit is None && !running && timed_out ==> (r matches PollStep::Fail(e) && is_message_error(
            e,
            "daemon did not become ready within "@ + timeout_label@ + "; inspect "@ + log_path@,
        )),
        child_exit is None && !running && !timed_out ==> r == PollStep::Wait,
{
    match child_exit {
        Some(status) => {
            let head = concat3("daemon exited before becoming ready with status ", status, "; inspect ");
            PollStep::Fail(TelegramCliError::Message(concat2(head.as_str(), log_path)))
        },
        None => if running {
            PollStep::Done
        } else if timed_out {
            let head = concat3("daemon did not become ready within ", timeout_label, "; inspect ");
            PollStep::Fail(TelegramCliError::Message(concat2(head.as_str(), log_path)))
        } else {
            PollStep::Wait
        },
    }
}

/// The next step of waiting for a stopping daemon.
pub fn stop_poll(running: bool, timed_out: bool, timeout_label: &str) -> (r: PollStep)
    ensures
        !running ==> r == PollStep::Done,
        running && timed_out ==> (r matches PollStep::Fail(e) && is_message_error(
            e,
            "daemon did not stop within "@ + timeout_label@ + "; run telegram-agent-cli daemon status to inspect it"@,
        )),
        running && !timed_out ==> r == PollStep::Wait,
{
    if !running {
        PollStep::Done
    } else if timed_out {
        PollStep::Fail(TelegramCliError::Message(concat3(
            "daemon did not stop within ",
            timeout_label,
            "; run telegram-agent-cli daemon status to inspect it",
        )))
    } else {
        PollStep::Wait
    }
}

/// The request line sent to the daemon: a JSON-RPC call with id 1 and no parameters.
pub fn rpc_request(method: &str) -> (r: JsonValue)
    ensures
        r@ == Json::Object(seq![
            ("jsonrpc"@, Json::Str("2.0"@)),
            ("id"@, Json::Number("1"@)),
            ("method"@, Json::Str(method@)),
            ("params"@, Json::Object(Seq::empty())),
        ]),
{
    let mut b = ObjectBuilder::new();
    b.field("jsonrpc", JsonValue::string("2.0"));
    b.field("id", JsonValue::Number(owned("1")));
    b.field("method", JsonValue::string(method));
    b.field("params", JsonValue::empty_object());
    assert(entries_view(b.entries@) =~= seq![
        ("jsonrpc"@, Json::Str("2.0"@)),
        ("id"@, Json::Number("1"@)),
        ("method"@, Json::Str(method@)),
        ("params"@, Json::Object(Seq::empty())),
    ]);
    b.build()
}

/// The value under a key of an object's entries, if present.
pub open spec fn entry_value(entries: Seq<(Seq<char>, Json)>, key: Seq<char>) -> Option<Json>
    decreases entries.len(),
{
    if entries.len() == 0 {
        None
    } else if entries[0].0 == key {
        Some(entries[0].1)
    } else {
        entry_value(entries.subrange(1, entries.len() as int), key)
    }
}

/// What a daemon response means: its error, else its result (an empty
/// object when it has none).
pub open spec fn spec_rpc_outcome(response: Json) -> core::result::Result<Json, Seq<char>> {
    match response {
        Json::Object(entries) => match entry_value(entries, "error"@) {
            Some(e) => Err("daemon returned an error: "@ + spec_json_compact(e)),
            None => match entry_value(entries, "result"@) {
                Some(v) => Ok(v),
                None => Ok(Json::Object(Seq::empty())),
            },
        },
        _ => Ok(Json::Object(Seq::empty())),
    }
}

/// The value under a key of an object.
fn get_entry<'a>(entries: &'a Vec<(String, JsonValue)>, key: &str) -> (r: Option<&'a JsonValue>)
    ensures
        match entry_value(entries_view(entries@), key@) {
            Some(v) => r is Some && r->0@ == v,
            None => r is None,
        },
{
    proof {
        crate::json::lemma_entries_view(entries@);
    }
    let ghost ev = entries_view(entries@);
    let mut i: usize = 0;
    assert(ev.subrange(0, ev.len() as int) =~= ev);
    while i < entries.len()
        invariant
            ev == entries_view(entries@),
            ev.len() == entries@.len(),
            forall|k: int| 0 <= k < entries@.len() ==> ev[k] == (#[trigger] entries@[k].0@, entries@[k].1@),
            i <= entries@.len(),
            entry_value(ev, key@) == entry_value(ev.subrange(i as int, ev.len() as int), key@),
        decreases entries@.len() - i,
    {
        let ghost rest = ev.subrange(i as int, ev.len() as int);
        assert(rest[0] == ev[i as int]);
        assert(rest.subrange(1, rest.len() as int) =~= ev.subrange(i + 1, ev.len() as int));
        if str_eq(entries[i].0.as_str(), key) {
            return Some(&entries[i].1);
        }
        i = i + 1;
    }
    None
}

/// What a daemon response means.
pub fn rpc_outcome(response: &JsonValue) -> (r: Result<JsonValue>)
    ensures
        match spec_rpc_outcome(response@) {
            Ok(v) => r is Ok && r->Ok_0@ == v,
            Err(m) => r is Err && is_message_error(r->Err_0, m),
        },
{
    match response {
        JsonValue::Object(entries) => match get_entry(entries, "error") {
            Some(e) => Err(TelegramCliError::Message(concat2(
                "daemon returned an error: ",
                crate::output::render::json_line(e).as_str(),
            ))),
            None => match get_entry(entries, "result") {
                Some(v) => Ok(v.duplicate()),
                None => Ok(JsonValue::empty_object()),
            },
        },
        _ => Ok(JsonValue::empty_object()),
    }
}

/// The method that asks the daemon to shut down.
pub open spec fn shutdown_method() -> Seq<char> {
    "daemon/shutdown"@
}

/// What the daemon does with a request line.
#[derive(Debug, PartialEq)]
pub enum ConnectionStep {
    /// A notification: no answer.
    Skip,
    /// Answer that the daemon is shutting down, then stop serving.
    Shutdown(McpResponse),
    /// Answer as the MCP server does.
    Handle,
}

/// What the daemon does with a request: notifications get no answer, the
/// shutdown method is answered and ends the daemon, the rest is MCP.
pub fn connection_step(request: &McpRequest) -> (r: ConnectionStep)
    ensures
        request.id is None ==> r == ConnectionStep::Skip,
        request.id is Some && request.method@ == shutdown_method() ==> (r matches ConnectionStep::Shutdown(resp)
            && resp.result is Some && resp.error is None
            && resp.result->0@ == Json::Object(seq![("status"@, Json::Str("shutting_down"@))])),
        request.id is Some && request.method@ != shutdown_method() ==> r == ConnectionStep::Handle,
{
    match &request.id {
        None => ConnectionStep::Skip,
        Some(id) => {
            if str_eq(request.method.as_str(), "daemon/shutdown") {
                let mut b = ObjectBuilder::new();
                b.field("status", JsonValue::string("shutting_down"));
                assert(entries_view(b.entries@) =~= seq![("status"@, Json::Str("shutting_down"@))]);
                ConnectionStep::Shutdown(McpResponse::success(Some(id.duplicate()), b.build()))
            } else {
                ConnectionStep::Handle
            }
        },
    }
}

/// The next steps shared by `daemon start` and `daemon restart`.
pub fn running_steps() -> (r: Vec<NextStep>)
    ensures
        steps_view(r@) == spec_status_steps(DaemonState::Running),
{
    status_next_steps(DaemonState::Running)
}

/// The next steps of `daemon stop`.
pub fn stop_steps() -> (r: Vec<NextStep>)
    ensures
        steps_view(r@) == seq![
            ("start_daemon"@, "telegram-agent-cli daemon start"@),
            ("inspect_status"@, "telegram-agent-cli daemon status"@),
        ],
{
    let r = vec![
        NextStep::new("start_daemon", "telegram-agent-cli daemon start"),
        NextStep::new("inspect_status", "telegram-agent-cli daemon status"),
    ];
    assert(steps_view(r@) =~= seq![
        ("start_daemon"@, "telegram-agent-cli daemon start"@),
        ("inspect_status"@, "telegram-agent-cli daemon status"@),
    ]);
    r
}

/// The summary of `daemon start`.
pub fn start_summary(already_running: bool) -> (r: &'static str)
    ensures
        r@ == if already_running { "Daemon is already running."@ } else { "Daemon is running in the background."@ },
{
    if already_running { "Daemon is already running." } else { "Daemon is running in the background." }
}

/// The summary of `daemon stop`.
pub fn stop_summary(was_running: bool) -> (r: &'static str)
    ensures
        r@ == if was_running { "Daemon was stopped."@ } else { "Daemon is not running."@ },
{
    if was_running { "Daemon was stopped." } else { "Daemon is not running." }
}

} // verus!
