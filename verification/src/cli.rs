//! The command-line surface: the arguments of every command, and the help
//! metadata that guidance is built from.
use vstd::prelude::*;
use crate::text::str_eq;

verus! {

#[derive(Debug)]
pub struct Cli {
    /// Output format: table, yaml, toml, json, or ndjson
    pub format: String,
    pub command: Commands,
}

#[derive(Debug)]
pub enum Commands {
    /// Show structured help for a command path.
    Help(HelpArgs),
    /// Show the resolved runtime directories used by telegram-agent-cli.
    Paths(PathsArgs),
    /// Inspect the persisted and effective account context.
    Context {
        command: ContextCommand,
    },
    /// Manage user and bot accounts.
    Account {
        command: AccountCommand,
    },
    /// Manage peer aliases.
    Alias {
        command: AliasCommand,
    },
    /// Resolve Telegram peers.
    Peer {
        command: PeerCommand,
    },
    /// List contacts, groups, and channels.
    List {
        command: ListCommand,
    },
    /// Show environment and storage diagnostics.
    Doctor(DoctorArgs),
    /// Export scenario run events.
    Export(ExportArgs),
    /// Send a message to a Telegram peer.
    Send(SendArgs),
    /// Send a file to a Telegram peer.
    SendFile(SendFileArgs),
    /// Send a photo to a Telegram peer.
    SendPhoto(SendPhotoArgs),
    /// Wait for a matching update from Telegram.
    Wait(WaitArgs),
    /// Manage messages.
    Message {
        command: MessageCommand,
    },
    /// Manage bot settings.
    Bot {
        command: BotCommand,
    },
    /// Run a scripted test scenario.
    Run(RunArgs),
    /// Interactive REPL mode for testing.
    Repl(ReplArgs),
    /// Start as an MCP tool server for AI agents.
    Mcp(McpArgs),
    /// Manage the background JSON-RPC daemon lifecycle.
    Daemon {
        command: DaemonCommand,
    },
}

#[derive(Debug)]
pub struct HelpArgs {
    /// Command path to describe, such as `account add-bot`.
    pub command_path: Vec<String>,
}

#[derive(Debug)]
pub struct PathsArgs {}

#[derive(Debug)]
pub enum ContextCommand {
    /// Show the persisted and effective account context.
    Show(ContextShowArgs),
}

#[derive(Debug)]
pub struct ContextShowArgs {
    /// Optional one-shot account override to preview as the effective context.
    pub as_account: Option<String>,
}

#[derive(Debug)]
pub struct ReplArgs {
    /// Configured account name to act as during the REPL session.
    pub as_account: String,
    /// Target chat, alias, username, or peer ID to open in the REPL.
    pub chat: String,
}

#[derive(Debug)]
pub struct McpArgs {}

#[derive(Debug)]
pub enum DaemonCommand {
    /// Start the background JSON-RPC daemon.
    Start(DaemonStartArgs),
    /// Stop the background JSON-RPC daemon.
    Stop(DaemonStopArgs),
    /// Restart the background JSON-RPC daemon.
    Restart(DaemonRestartArgs),
    /// Inspect the background JSON-RPC daemon state.
    Status(DaemonStatusArgs),
    Serve(DaemonServeArgs),
}

#[derive(Debug)]
pub struct DaemonStartArgs {
    /// How long to wait for the daemon to become ready.
    pub timeout: String,
}

#[derive(Debug)]
pub struct DaemonStopArgs {
    /// How long to wait for the daemon to stop.
    pub timeout: String,
}

#[derive(Debug)]
pub struct DaemonRestartArgs {
    /// How long to wait for stop/start transitions during restart.
    pub timeout: String,
}

#[derive(Debug)]
pub struct DaemonStatusArgs {}

#[derive(Debug)]
pub struct DaemonServeArgs {
    pub metadata_path: String,
}

#[derive(Debug)]
pub enum MessageCommand {
    /// Click an inline button in a bot message.
    ClickButton(ClickButtonArgs),
    /// List interactive actions discovered from message markups and bot menus.
    ListActions(ListActionsArgs),
    /// Trigger an interactive action discovered from a message or bot menu.
    TriggerAction(TriggerActionArgs),
    /// Read recent messages from a Telegram peer.
    Recv(RecvArgs),
    /// Follow new messages from a Telegram peer.
    Follow(FollowArgs),
    /// Wait for a matching update from Telegram.
    Wait(WaitArgs),
    /// Show unread message statistics.
    Unread(UnreadArgs),
    /// Forward messages from one chat to another.
    Forward(ForwardArgs),
    /// Edit an existing message's text.
    Edit(EditMessageArgs),
    /// Pin a message in a chat.
    Pin(PinArgs),
    /// Unpin a message in a chat.
    Unpin(UnpinArgs),
    /// Download media from a message.
    Download(DownloadArgs),
}

#[derive(Debug)]
pub struct ClickButtonArgs {
    /// Configured account name to use for the button click.
    pub as_account: String,
    /// Chat, alias, username, or peer ID that contains the target message.
    pub chat: String,
    /// Visible button label, callback data, or base64 callback data to click.
    pub button: String,
    /// Message ID containing the button when multiple messages have similar controls.
    pub message_id: Option<i64>,
    /// How long to wait for a follow-up bot response after clicking.
    pub wait_timeout: String,
}

#[derive(Debug)]
pub struct ListActionsArgs {
    /// Configured account name to use when scanning for interactive actions.
    pub as_account: String,
    /// Chat, alias, username, or peer ID to inspect for interactive controls.
    pub chat: String,
    /// Limit the search to one specific message that contains interactive controls.
    pub message_id: Option<i64>,
    /// Number of recent messages to inspect for interactive markups.
    pub limit: usize,
}

#[derive(Debug)]
pub struct TriggerActionArgs {
    /// Configured account name to use when triggering the action.
    pub as_account: String,
    /// Chat, alias, username, or peer ID that contains the action.
    pub chat: String,
    /// Action ID or visible label returned by `telegram-agent-cli message list-actions`.
    pub action: String,
    /// Limit the action lookup to one specific message when needed.
    pub message_id: Option<i64>,
    /// How long to wait for a follow-up message after triggering the action.
    pub wait_timeout: String,
}

#[derive(Debug)]
pub struct UnreadArgs {
    /// Configured account name to inspect unread state with.
    pub as_account: String,
    /// Chat, alias, username, or peer ID whose unread state you want to inspect.
    pub chat: String,
}

#[derive(Debug)]
pub enum AccountCommand {
    /// Register a Telegram user account.
    AddUser(AddUserArgs),
    /// Register a Telegram bot account.
    AddBot(AddBotArgs),
    /// List configured accounts.
    List(AccountListArgs),
    /// Set the default account by name.
    Use(UseAccountArgs),
    /// Persist a session string for an account.
    Login(AccountLoginArgs),
    /// Clear a stored session for an account.
    Logout(AccountLogoutArgs),
}

#[derive(Debug)]
pub struct AddUserArgs {
    /// Local account name to store in telegram-agent-cli for later `--as` selection.
    pub name: String,
    /// Telegram API ID from https://my.telegram.org.
    pub api_id: i32,
    /// Telegram API hash paired with the provided API ID.
    pub api_hash: String,
    /// Optional phone number to remember with the account profile.
    pub phone: Option<String>,
}

#[derive(Debug)]
pub struct AddBotArgs {
    /// Local account name to store in telegram-agent-cli for later `--as` selection.
    pub name: String,
    /// Bot token copied from BotFather.
    pub token: Option<String>,
    /// Environment variable name that contains the bot token.
    pub token_env: Option<String>,
    /// Optional Telegram API ID if the bot workflow also needs API credentials.
    pub api_id: Option<i32>,
    /// Optional Telegram API hash paired with `--api-id`.
    pub api_hash: Option<String>,
    /// Environment variable name that contains the API hash.
    pub api_hash_env: Option<String>,
}

#[derive(Debug)]
pub struct AccountListArgs {}

#[derive(Debug)]
pub struct UseAccountArgs {
    /// Name of the configured account to make the default for future commands.
    pub name: String,
}

#[derive(Debug)]
pub struct AccountLoginArgs {
    /// Name of the configured account whose session you want to store or refresh.
    pub name: String,
    /// Start QR-code login instead of session-string or code-based login.
    pub qr: bool,
    /// Session string to persist directly on the account.
    pub session: Option<String>,
    /// Environment variable name that contains the session string.
    pub session_env: Option<String>,
    /// One-time login code received from Telegram.
    pub code: Option<String>,
    /// Environment variable name that contains the login code.
    pub code_env: Option<String>,
    /// Two-factor password for accounts that require it.
    pub password: Option<String>,
    /// Environment variable name that contains the two-factor password.
    pub password_env: Option<String>,
}

#[derive(Debug)]
pub struct AccountLogoutArgs {
    /// Name of the configured account whose stored session should be cleared.
    pub name: String,
}

#[derive(Debug)]
pub enum AliasCommand {
    /// Set or update an alias for a Telegram peer.
    SetAlias(AliasSetArgs),
    /// List configured aliases.
    List(AliasListArgs),
}

#[derive(Debug)]
pub enum PeerCommand {
    /// Resolve a peer by alias, username, or numeric id.
    Resolve(PeerResolveArgs),
}

#[derive(Debug)]
pub enum ListCommand {
    /// List all contacts.
    Contacts(ContactListArgs),
    /// List all groups and channels.
    Chats(ChatListArgs),
}

#[derive(Debug)]
pub struct AliasSetArgs {
    /// Configured account name to resolve the target peer with.
    pub as_account: String,
    /// Local alias name to create or update.
    pub alias: String,
    /// Peer query such as a username, alias, phone number, or numeric ID.
    pub query: String,
}

#[derive(Debug)]
pub struct AliasListArgs {}

#[derive(Debug)]
pub struct PeerResolveArgs {
    /// Configured account name to resolve the peer with.
    pub as_account: String,
    /// Peer query such as a username, alias, phone number, or numeric ID.
    pub query: String,
}

#[derive(Debug)]
pub struct ContactListArgs {
    /// Configured account name whose contacts should be listed.
    pub as_account: String,
}

#[derive(Debug)]
pub struct ChatListArgs {
    /// Configured account name whose chats should be listed.
    pub as_account: String,
}

#[derive(Debug)]
pub struct DoctorArgs {
    /// Shortcut for `--format json`.
    pub json: bool,
    /// Explicit output format for the diagnostics result.
    pub format: Option<String>,
}

#[derive(Debug)]
pub struct ExportArgs {
    /// Run ID to export, or `latest` for the most recent run.
    pub run_id: String,
    /// Explicit output format for exported run data.
    pub format: Option<String>,
}

#[derive(Debug)]
pub struct SendArgs {
    /// Configured account name to send the message as.
    pub as_account: String,
    /// Target chat, alias, username, or peer ID to send to.
    pub to: String,
    /// Text message body to send.
    pub text: String,
    /// Reply to a specific message by its ID.
    pub reply_to: Option<i32>,
    /// Reply keyboard JSON: `[["Yes","No"],["Share:phone"]]`.
    /// Use `label:phone`, `label:geo`, `label:poll` for special buttons.
    pub reply_keyboard: Option<String>,
    /// Inline keyboard JSON: `[["Click:callback:data"],["Open:url:https://example.com"]]`.
    pub inline_keyboard: Option<String>,
}

#[derive(Debug)]
pub struct SendFileArgs {
    /// Configured account name to send the file as.
    pub as_account: String,
    /// Target chat, alias, username, or peer ID to send to.
    pub to: String,
    /// Local filesystem path of the file to upload.
    pub path: String,
    /// Optional caption to attach to the uploaded file.
    pub caption: Option<String>,
    /// Reply to a specific message by its ID.
    pub reply_to: Option<i32>,
    /// Reply keyboard JSON: `[["Yes","No"],["Share:phone"]]`.
    pub reply_keyboard: Option<String>,
    /// Inline keyboard JSON: `[["Click:callback:data"],["Open:url:https://example.com"]]`.
    pub inline_keyboard: Option<String>,
}

#[derive(Debug)]
pub struct SendPhotoArgs {
    /// Configured account name to send the photo as.
    pub as_account: String,
    /// Target chat, alias, username, or peer ID to send to.
    pub to: String,
    /// Local filesystem path of the photo to upload.
    pub path: String,
    /// Optional caption to attach to the uploaded photo.
    pub caption: Option<String>,
    /// Reply to a specific message by its ID.
    pub reply_to: Option<i32>,
    /// Reply keyboard JSON: `[["Yes","No"],["Share:phone"]]`.
    pub reply_keyboard: Option<String>,
    /// Inline keyboard JSON: `[["Click:callback:data"],["Open:url:https://example.com"]]`.
    pub inline_keyboard: Option<String>,
}

#[derive(Debug)]
pub struct RecvArgs {
    /// Configured account name to read messages as.
    pub as_account: String,
    /// Chat, alias, username, or peer ID to read from.
    pub chat: String,
    /// Maximum number of recent messages to return.
    pub limit: usize,
    /// Offset by message ID so pagination skips messages at or above this ID.
    pub offset_id: Option<i64>,
    /// Only show unread messages.
    pub unread_only: bool,
}

#[derive(Debug)]
pub struct FollowArgs {
    /// Configured account name to stream messages as.
    pub as_account: String,
    /// Chat, alias, username, or peer ID to follow.
    pub chat: String,
    /// Require an exact message text match.
    pub text: Option<String>,
    /// Require the message text to contain the provided substring.
    pub text_contains: Option<String>,
    /// Maximum time to keep waiting for matching messages.
    pub timeout: String,
    /// Stop after this many matching messages have been collected.
    pub limit: usize,
}

#[derive(Debug)]
pub struct WaitArgs {
    /// Configured account name to wait for messages as.
    pub as_account: String,
    /// Chat, alias, username, or peer ID to wait on.
    pub chat: String,
    /// Require an exact message text match.
    pub text: Option<String>,
    /// Require the message text to contain the provided substring.
    pub text_contains: Option<String>,
    /// Maximum time to wait for one matching message.
    pub timeout: String,
}

#[derive(Debug)]
pub struct ForwardArgs {
    /// Configured account name to forward messages as.
    pub as_account: String,
    /// Source chat, alias, username, or peer ID to forward from.
    pub from: String,
    /// Destination chat, alias, username, or peer ID to forward to.
    pub to: String,
    /// Comma-separated list of message IDs to forward.
    pub message_ids: String,
}

#[derive(Debug)]
pub struct EditMessageArgs {
    /// Configured account name to edit the message as.
    pub as_account: String,
    /// Chat, alias, username, or peer ID containing the message to edit.
    pub chat: String,
    /// Message ID to edit.
    pub message_id: i32,
    /// New text content for the message.
    pub text: String,
}

#[derive(Debug)]
pub struct PinArgs {
    /// Configured account name to pin the message as.
    pub as_account: String,
    /// Chat, alias, username, or peer ID containing the message to pin.
    pub chat: String,
    /// Message ID to pin.
    pub message_id: i32,
}

#[derive(Debug)]
pub struct UnpinArgs {
    /// Configured account name to unpin the message as.
    pub as_account: String,
    /// Chat, alias, username, or peer ID containing the message to unpin.
    pub chat: String,
    /// Message ID to unpin.
    pub message_id: i32,
}

#[derive(Debug)]
pub struct DownloadArgs {
    /// Configured account name to download media as.
    pub as_account: String,
    /// Chat, alias, username, or peer ID containing the message with media.
    pub chat: String,
    /// Message ID containing the media to download.
    pub message_id: i32,
    /// Local filesystem path to save the downloaded media to.
    pub output: Option<String>,
}

#[derive(Debug)]
pub struct RunArgs {
    /// Local path to the scenario file that should be executed.
    pub path: String,
}

#[derive(Debug)]
pub enum BotCommand {
    /// Set the bot command menu shown in the chat.
    SetCommands(SetCommandsArgs),
    /// Set the bot description and/or about text.
    SetInfo(SetBotInfoArgs),
}

#[derive(Debug)]
pub struct SetCommandsArgs {
    /// Configured bot account name.
    pub as_account: String,
    /// Comma-separated list of bot commands in `name|description` format.
    /// Example: `/start|Start the bot,/help|Show help`
    pub commands: String,
}

#[derive(Debug)]
pub struct SetBotInfoArgs {
    /// Configured bot account name.
    pub as_account: String,
    /// New bot description shown in the chat profile.
    pub description: Option<String>,
    /// New bot about text shown on the profile page.
    pub about: Option<String>,
}


/// Guidance for the top-level command.
#[derive(Debug, Clone)]
pub struct TopLevelHelpMetadata {
    pub summary: &'static str,
    pub when_to_use: Vec<&'static str>,
    pub prerequisites: Vec<&'static str>,
    pub actions: Vec<&'static str>,
    pub next_steps: Vec<&'static str>,
}

/// Guidance for a command group such as `account` or `message`.
#[derive(Debug, Clone)]
pub struct CommandGroupHelpMetadata {
    pub command_path: &'static str,
    pub summary: &'static str,
    pub actions: Vec<&'static str>,
    pub next_steps: Vec<&'static str>,
    pub related_commands: Vec<&'static str>,
}

/// Guidance for a leaf command such as `send` or `account add-bot`.
#[derive(Debug, Clone)]
pub struct LeafHelpMetadata {
    pub command_path: &'static str,
    pub summary: &'static str,
    pub prerequisites: Vec<&'static str>,
    pub examples: Vec<&'static str>,
    pub next_steps: Vec<&'static str>,
}

/// The texts of a list of literals.
pub open spec fn static_views(items: Seq<&'static str>) -> Seq<Seq<char>> {
    Seq::new(items.len(), |i: int| items[i]@)
}

/// The mathematical form of group guidance.
pub ghost struct GroupHelpView {
    pub command_path: Seq<char>,
    pub summary: Seq<char>,
    pub actions: Seq<Seq<char>>,
    pub next_steps: Seq<Seq<char>>,
    pub related_commands: Seq<Seq<char>>,
}

/// The mathematical form of leaf guidance.
pub ghost struct LeafHelpView {
    pub command_path: Seq<char>,
    pub summary: Seq<char>,
    pub prerequisites: Seq<Seq<char>>,
    pub examples: Seq<Seq<char>>,
    pub next_steps: Seq<Seq<char>>,
}

/// The mathematical form of a group's guidance.
pub open spec fn group_view(m: CommandGroupHelpMetadata) -> GroupHelpView {
    GroupHelpView {
        command_path: m.command_path@,
        summary: m.summary@,
        actions: static_views(m.actions@),
        next_steps: static_views(m.next_steps@),
        related_commands: static_views(m.related_commands@),
    }
}

/// The mathematical form of a leaf command's guidance.
pub open spec fn leaf_view(m: LeafHelpMetadata) -> LeafHelpView {
    LeafHelpView {
        command_path: m.command_path@,
        summary: m.summary@,
        prerequisites: static_views(m.prerequisites@),
        examples: static_views(m.examples@),
        next_steps: static_views(m.next_steps@),
    }
}

/// The top-level summary.
pub open spec fn top_level_summary() -> Seq<char> {
    "Explore Telegram accounts, peers, messages, diagnostics, scenarios, and interactive bot testing from one CLI."@
}

/// When the top-level guidance applies.
pub open spec fn top_level_when_to_use() -> Seq<Seq<char>> {
    seq![
        "Start here when you need to discover the telegram-agent-cli capability map."@,
        "Use the listed next steps to drill down into the correct command family."@,
    ]
}

/// What to know before running any command.
pub open spec fn top_level_prerequisites() -> Seq<Seq<char>> {
    seq![
        "YAML is the default output. Use --format table for readable output or --format json for machine-readable envelopes."@,
    ]
}

/// The command families the top-level guidance lists.
pub open spec fn top_level_actions() -> Seq<Seq<char>> {
    seq![
        "help: Emit structured help documents for any command path. Use telegram-agent-cli help <command>."@,
        "paths: Inspect config, data, state, and cache directories. Use telegram-agent-cli paths --help."@,
        "context: Inspect the persisted default account and effective override behavior. Use telegram-agent-cli context --help."@,
        "account: Manage users, bots, default account selection, and login state. Use telegram-agent-cli account --help."@,
        "alias: Create and inspect saved peer aliases. Use telegram-agent-cli alias --help."@,
        "peer: Resolve usernames, aliases, and IDs into peers. Use telegram-agent-cli peer --help."@,
        "list: Inspect contacts, groups, and channels. Use telegram-agent-cli list --help."@,
        "message: Read, follow, wait for, or interact with messages. Use telegram-agent-cli message --help."@,
        "doctor: Inspect local configuration and storage state. Use telegram-agent-cli doctor --help."@,
        "export: Export scenario run events. Use telegram-agent-cli export --help."@,
        "send/send-file/send-photo/wait: Execute direct chat actions. Use telegram-agent-cli send --help, telegram-agent-cli send-file --help, telegram-agent-cli send-photo --help, or telegram-agent-cli wait --help."@,
        "bot: Configure bot command menus and profile info. Use telegram-agent-cli bot --help."@,
        "run: Execute a stored scenario file. Use telegram-agent-cli run --help."@,
        "repl: Open an interactive testing session. Use telegram-agent-cli repl --help."@,
        "mcp: Start as an MCP tool server for AI agents. Use telegram-agent-cli mcp --help."@,
        "daemon: Manage the background JSON-RPC daemon. Use telegram-agent-cli daemon --help."@,
    ]
}

/// Where the top-level guidance suggests starting.
pub open spec fn top_level_next_steps() -> Seq<Seq<char>> {
    seq![
        "telegram-agent-cli help account add-bot"@,
        "telegram-agent-cli paths --help"@,
        "telegram-agent-cli context --help"@,
        "telegram-agent-cli account --help"@,
        "telegram-agent-cli message --help"@,
        "telegram-agent-cli doctor --help"@,
        "telegram-agent-cli repl --help"@,
        "telegram-agent-cli daemon --help"@,
    ]
}

/// The group guidance, in table order.
pub open spec fn group_help_entries() -> Seq<GroupHelpView> {
    seq![
        GroupHelpView {
            command_path: "telegram-agent-cli context"@,
            summary: "Inspect the persisted default account and the effective account selected for the current invocation."@,
            actions: seq![
                "Choose context show to inspect persisted and effective account selection without mutating the default account."@,
            ],
            next_steps: seq!["telegram-agent-cli context show --help"@],
            related_commands: seq!["telegram-agent-cli account use --help"@, "telegram-agent-cli account list --help"@],
        },
        GroupHelpView {
            command_path: "telegram-agent-cli account"@,
            summary: "Manage Telegram user and bot accounts, default account selection, and login state."@,
            actions: seq![
                "Choose account add-user when registering a user identity with API credentials."@,
                "Choose account add-bot when registering a bot token-backed identity."@,
                "Choose account list to inspect configured accounts and login state."@,
                "Choose account use to change the default account for later commands."@,
                "Choose account login or logout to manage active sessions."@,
            ],
            next_steps: seq![
                "telegram-agent-cli account add-user --help"@,
                "telegram-agent-cli account add-bot --help"@,
                "telegram-agent-cli account list --help"@,
                "telegram-agent-cli account use --help"@,
                "telegram-agent-cli account login --help"@,
                "telegram-agent-cli account logout --help"@,
            ],
            related_commands: seq!["telegram-agent-cli --help"@, "telegram-agent-cli doctor --help"@],
        },
        GroupHelpView {
            command_path: "telegram-agent-cli alias"@,
            summary: "Create and inspect saved peer aliases so later commands can target chats without raw IDs."@,
            actions: seq![
                "Choose alias set to bind a memorable name to a resolved peer."@,
                "Choose alias list to inspect stored alias mappings."@,
            ],
            next_steps: seq!["telegram-agent-cli alias set --help"@, "telegram-agent-cli alias list --help"@],
            related_commands: seq!["telegram-agent-cli peer --help"@, "telegram-agent-cli list --help"@],
        },
        GroupHelpView {
            command_path: "telegram-agent-cli list"@,
            summary: "Inspect available contacts, groups, and channels for the selected account."@,
            actions: seq![
                "Choose list contacts to inspect direct-contact targets."@,
                "Choose list chats to inspect group and channel targets."@,
            ],
            next_steps: seq!["telegram-agent-cli list contacts --help"@, "telegram-agent-cli list chats --help"@],
            related_commands: seq!["telegram-agent-cli peer --help"@, "telegram-agent-cli alias --help"@],
        },
        GroupHelpView {
            command_path: "telegram-agent-cli message"@,
            summary: "Read, follow, wait for, inspect, or interact with existing message traffic in a chat."@,
            actions: seq![
                "Choose message recv to read recent messages from a chat."@,
                "Choose message follow to stream new matching messages for a bounded period."@,
                "Choose message wait to block until one matching message arrives."@,
                "Choose message unread to inspect unread counts and latest unread content."@,
                "Choose message forward to copy messages from one chat to another."@,
                "Choose message edit to update the text of an existing message."@,
                "Choose message pin or unpin to manage pinned messages in a chat."@,
                "Choose message download to save media from a message to a local file."@,
                "Choose message click-button to interact with inline buttons in bot messages."@,
                "Choose message list-actions to discover inline buttons, reply keyboard buttons, and bot menu commands."@,
                "Choose message trigger-action to replay an action discovered from list-actions."@,
            ],
            next_steps: seq![
                "telegram-agent-cli message recv --help"@,
                "telegram-agent-cli message follow --help"@,
                "telegram-agent-cli message wait --help"@,
                "telegram-agent-cli message unread --help"@,
                "telegram-agent-cli message forward --help"@,
                "telegram-agent-cli message edit --help"@,
                "telegram-agent-cli message pin --help"@,
                "telegram-agent-cli message unpin --help"@,
                "telegram-agent-cli message download --help"@,
                "telegram-agent-cli message click-button --help"@,
                "telegram-agent-cli message list-actions --help"@,
                "telegram-agent-cli message trigger-action --help"@,
            ],
            related_commands: seq!["telegram-agent-cli send --help"@, "telegram-agent-cli wait --help"@],
        },
        GroupHelpView {
            command_path: "telegram-agent-cli peer"@,
            summary: "Resolve usernames, aliases, and numeric IDs into concrete Telegram peers."@,
            actions: seq!["Choose peer resolve to confirm the peer kind, ID, and display target for later commands."@],
            next_steps: seq!["telegram-agent-cli peer resolve --help"@],
            related_commands: seq!["telegram-agent-cli alias --help"@, "telegram-agent-cli list --help"@],
        },
        GroupHelpView {
            command_path: "telegram-agent-cli bot"@,
            summary: "Manage bot profile metadata and command menus."@,
            actions: seq![
                "Choose bot set-commands to publish the bot command menu shown in chat."@,
                "Choose bot set-info to update the bot description and about text."@,
            ],
            next_steps: seq!["telegram-agent-cli bot set-commands --help"@, "telegram-agent-cli bot set-info --help"@],
            related_commands: seq!["telegram-agent-cli account --help"@, "telegram-agent-cli message --help"@],
        },
        GroupHelpView {
            command_path: "telegram-agent-cli daemon"@,
            summary: "Manage the background JSON-RPC daemon that exposes the same MCP tool surface without keeping a foreground terminal attached."@,
            actions: seq![
                "Choose daemon start to launch the managed background service."@,
                "Choose daemon status to inspect whether the daemon is running and where it is listening."@,
                "Choose daemon stop or restart to recover the managed background service from the CLI."@,
            ],
            next_steps: seq![
                "telegram-agent-cli daemon start --help"@,
                "telegram-agent-cli daemon status --help"@,
                "telegram-agent-cli daemon stop --help"@,
                "telegram-agent-cli daemon restart --help"@,
            ],
            related_commands: seq!["telegram-agent-cli mcp --help"@, "telegram-agent-cli doctor --help"@],
        },
    ]
}

/// The leaf guidance, in table order.
pub open spec fn leaf_help_entries() -> Seq<LeafHelpView> {
    seq![
        LeafHelpView {
            command_path: "telegram-agent-cli paths"@,
            summary: "Inspect the resolved config, data, state, and cache directories used by telegram-agent-cli."@,
            prerequisites: seq![
                "Use this command when you need to verify where telegram-agent-cli is storing configuration, runtime state, or caches."@,
            ],
            examples: seq!["telegram-agent-cli paths"@, "telegram-agent-cli paths --format json"@],
            next_steps: seq!["telegram-agent-cli context show"@, "telegram-agent-cli doctor"@],
        },
        LeafHelpView {
            command_path: "telegram-agent-cli context show"@,
            summary: "Inspect the persisted default account, the effective account for this invocation, and one-shot override behavior."@,
            prerequisites: seq![
                "Use this command after configuring one or more accounts if you need to confirm which account will be applied."@,
            ],
            examples: seq![
                "telegram-agent-cli context show"@,
                "telegram-agent-cli context show --as bot --format json"@,
            ],
            next_steps: seq!["telegram-agent-cli account list"@, "telegram-agent-cli account use --help"@],
        },
        LeafHelpView {
            command_path: "telegram-agent-cli doctor"@,
            summary: "Inspect local telegram-agent-cli configuration, storage paths, adapter state, and account summary."@,
            prerequisites: seq!["Ensure telegram-agent-cli can resolve its config, data, and state directories."@],
            examples: seq![
                "telegram-agent-cli doctor"@,
                "telegram-agent-cli doctor --json"@,
                "telegram-agent-cli doctor --format table"@,
            ],
            next_steps: seq!["telegram-agent-cli account list"@, "telegram-agent-cli export --help"@],
        },
        LeafHelpView {
            command_path: "telegram-agent-cli export"@,
            summary: "Export scenario run events as readable results or NDJSON stream events."@,
            prerequisites: seq!["Ensure at least one scenario run exists before exporting latest output."@],
            examples: seq![
                "telegram-agent-cli export --run-id latest"@,
                "telegram-agent-cli export --run-id latest --format json"@,
                "telegram-agent-cli export --run-id latest --format ndjson"@,
            ],
            next_steps: seq!["telegram-agent-cli run --help"@, "telegram-agent-cli doctor --help"@],
        },
        LeafHelpView {
            command_path: "telegram-agent-cli send"@,
            summary: "Send a text message to a resolved Telegram peer, optionally with a reply or inline keyboard."@,
            prerequisites: seq!["Ensure the selected account exists and the target peer can be resolved."@],
            examples: seq![
                "telegram-agent-cli send --as alice --to qa-bot --text /start"@,
                "telegram-agent-cli send --as bot --to @user --text 'Choose:' --reply-keyboard '[\"Yes\",\"No\"]'"@,
                "telegram-agent-cli send --as bot --to @user --text 'Click:' --inline-keyboard '[\"OK:callback:done\"]'"@,
            ],
            next_steps: seq!["telegram-agent-cli message recv --help"@, "telegram-agent-cli message follow --help"@],
        },
        LeafHelpView {
            command_path: "telegram-agent-cli send-file"@,
            summary: "Send a file to a resolved Telegram peer with an optional caption and keyboard."@,
            prerequisites: seq!["Ensure the selected account exists, the peer resolves, and the file path is readable."@],
            examples: seq![
                "telegram-agent-cli send-file --as alice --to qa-bot fixtures/sample.txt --caption hello"@,
                "telegram-agent-cli send-file --as bot --to @user doc.pdf --inline-keyboard '[\"Accept:callback:yes\"]'"@,
            ],
            next_steps: seq!["telegram-agent-cli message recv --help"@, "telegram-agent-cli wait --help"@],
        },
        LeafHelpView {
            command_path: "telegram-agent-cli wait"@,
            summary: "Wait for one matching incoming message from a target chat."@,
            prerequisites: seq!["Ensure the selected account exists and the chat resolves before waiting."@],
            examples: seq!["telegram-agent-cli wait --as alice --chat qa-bot --text-contains Welcome --timeout 5s"@],
            next_steps: seq!["telegram-agent-cli message follow --help"@, "telegram-agent-cli message recv --help"@],
        },
        LeafHelpView {
            command_path: "telegram-agent-cli run"@,
            summary: "Execute a scenario file and persist run events for later export."@,
            prerequisites: seq![
                "Ensure the scenario path exists and references accounts or peers that telegram-agent-cli can resolve."@,
            ],
            examples: seq!["telegram-agent-cli run fixtures/scenarios/echo.yaml"@],
            next_steps: seq!["telegram-agent-cli export --help"@, "telegram-agent-cli doctor --help"@],
        },
        LeafHelpView {
            command_path: "telegram-agent-cli repl"@,
            summary: "Open an interactive chat REPL for sending messages, reading replies, and invoking slash commands."@,
            prerequisites: seq![
                "Ensure the selected account exists and can resolve the requested chat."@,
                "Use a bot, alias, username, or peer ID that telegram-agent-cli can resolve before entering the REPL."@,
            ],
            examples: seq!["telegram-agent-cli repl --as alice --chat qa-bot"@, "Inside the REPL, run /help"@],
            next_steps: seq!["telegram-agent-cli message recv --help"@, "telegram-agent-cli send --help"@],
        },
        LeafHelpView {
            command_path: "telegram-agent-cli mcp"@,
            summary: "Start telegram-agent-cli as a Model Context Protocol (MCP) server, exposing Telegram operations as tools for AI agents over stdio."@,
            prerequisites: seq!["Ensure at least one account is configured and logged in before starting the MCP server."@],
            examples: seq![
                "telegram-agent-cli mcp"@,
                "Configure in a desktop MCP client: {\"command\": \"telegram-agent-cli\", \"args\": [\"mcp\"]}"@,
            ],
            next_steps: seq!["telegram-agent-cli account --help"@, "telegram-agent-cli repl --help"@],
        },
        LeafHelpView {
            command_path: "telegram-agent-cli daemon start"@,
            summary: "Launch the managed background JSON-RPC daemon and wait until it is ready."@,
            prerequisites: seq![
                "Use this when you want the MCP-style tool server to keep running after the current terminal session exits."@,
            ],
            examples: seq!["telegram-agent-cli daemon start"@, "telegram-agent-cli daemon start --timeout 15s"@],
            next_steps: seq!["telegram-agent-cli daemon status --help"@, "telegram-agent-cli daemon stop --help"@],
        },
        LeafHelpView {
            command_path: "telegram-agent-cli daemon stop"@,
            summary: "Request a graceful shutdown of the managed background daemon and wait for it to exit."@,
            prerequisites: seq![
                "Ensure the daemon was previously started from the same runtime state root before stopping it."@,
            ],
            examples: seq!["telegram-agent-cli daemon stop"@, "telegram-agent-cli daemon stop --timeout 15s"@],
            next_steps: seq!["telegram-agent-cli daemon status --help"@, "telegram-agent-cli daemon start --help"@],
        },
        LeafHelpView {
            command_path: "telegram-agent-cli daemon restart"@,
            summary: "Restart the managed background daemon when you need to recover from a stale or unhealthy state."@,
            prerequisites: seq![
                "Use this when daemon status reports stale state or when you need to reload the background service from the CLI."@,
            ],
            examples: seq!["telegram-agent-cli daemon restart"@, "telegram-agent-cli daemon restart --timeout 20s"@],
            next_steps: seq!["telegram-agent-cli daemon status --help"@, "telegram-agent-cli daemon stop --help"@],
        },
        LeafHelpView {
            command_path: "telegram-agent-cli daemon status"@,
            summary: "Inspect whether the managed background daemon is running, stale, or stopped."@,
            prerequisites: seq![
                "Use this before starting or stopping the daemon if you need to confirm the current managed state."@,
            ],
            examples: seq!["telegram-agent-cli daemon status"@, "telegram-agent-cli daemon status --format json"@],
            next_steps: seq!["telegram-agent-cli daemon start --help"@, "telegram-agent-cli daemon restart --help"@],
        },
        LeafHelpView {
            command_path: "telegram-agent-cli account add-user"@,
            summary: "Register a Telegram user account with API credentials and optional phone number."@,
            prerequisites: seq!["Ensure you have a valid Telegram API ID and API hash before adding the account."@],
            examples: seq![
                "telegram-agent-cli account add-user --name alice --api-id 12345 --api-hash <hash> --phone +10000000000"@,
            ],
            next_steps: seq!["telegram-agent-cli account login --help"@, "telegram-agent-cli account list --help"@],
        },
        LeafHelpView {
            command_path: "telegram-agent-cli account add-bot"@,
            summary: "Register a Telegram bot account with a bot token and optional API credentials."@,
            prerequisites: seq![
                "Ensure the bot token is available directly or through an environment variable before running the command."@,
            ],
            examples: seq!["telegram-agent-cli account add-bot --name bot --token-env TELEGRAM_CLI_BOT_TOKEN"@],
            next_steps: seq!["telegram-agent-cli account login --help"@, "telegram-agent-cli account list --help"@],
        },
        LeafHelpView {
            command_path: "telegram-agent-cli account list"@,
            summary: "Inspect configured accounts, account kinds, and login state."@,
            prerequisites: seq!["Add at least one user or bot account before expecting non-empty output."@],
            examples: seq!["telegram-agent-cli account list"@],
            next_steps: seq!["telegram-agent-cli account use --help"@, "telegram-agent-cli doctor --help"@],
        },
        LeafHelpView {
            command_path: "telegram-agent-cli account use"@,
            summary: "Set the default account used when later commands receive --as default."@,
            prerequisites: seq!["Ensure the target account name already exists in local account storage."@],
            examples: seq!["telegram-agent-cli account use alice"@],
            next_steps: seq!["telegram-agent-cli account list --help"@, "telegram-agent-cli doctor --help"@],
        },
        LeafHelpView {
            command_path: "telegram-agent-cli account login"@,
            summary: "Authenticate a stored account by QR flow or credential-based login."@,
            prerequisites: seq!["Ensure the account already exists before attempting login."@],
            examples: seq![
                "telegram-agent-cli account login alice --qr"@,
                "telegram-agent-cli account login alice --code-env TELEGRAM_CLI_LOGIN_CODE --password-env TELEGRAM_CLI_2FA_PASSWORD"@,
            ],
            next_steps: seq!["telegram-agent-cli account list --help"@, "telegram-agent-cli account logout --help"@],
        },
        LeafHelpView {
            command_path: "telegram-agent-cli account logout"@,
            summary: "Clear the stored session for an account and mark it as logged out."@,
            prerequisites: seq!["Ensure the account exists before attempting logout."@],
            examples: seq!["telegram-agent-cli account logout alice"@],
            next_steps: seq!["telegram-agent-cli account login --help"@, "telegram-agent-cli account list --help"@],
        },
        LeafHelpView {
            command_path: "telegram-agent-cli alias set"@,
            summary: "Bind a memorable alias to a resolved Telegram peer for later commands."@,
            prerequisites: seq!["Ensure the selected account exists and the query resolves to a real peer."@],
            examples: seq!["telegram-agent-cli alias set qa-bot qa_bot"@],
            next_steps: seq!["telegram-agent-cli alias list --help"@, "telegram-agent-cli peer resolve --help"@],
        },
        LeafHelpView {
            command_path: "telegram-agent-cli alias list"@,
            summary: "Inspect saved alias to peer mappings."@,
            prerequisites: seq!["Create at least one alias before expecting non-empty output."@],
            examples: seq!["telegram-agent-cli alias list"@],
            next_steps: seq!["telegram-agent-cli alias set --help"@, "telegram-agent-cli peer resolve --help"@],
        },
        LeafHelpView {
            command_path: "telegram-agent-cli peer resolve"@,
            summary: "Resolve an alias, username, or numeric ID into a Telegram peer record."@,
            prerequisites: seq![
                "Ensure the selected account exists when resolving usernames or aliases against Telegram state."@,
            ],
            examples: seq!["telegram-agent-cli peer resolve --as alice qa-bot"@],
            next_steps: seq!["telegram-agent-cli alias set --help"@, "telegram-agent-cli list contacts --help"@],
        },
        LeafHelpView {
            command_path: "telegram-agent-cli list contacts"@,
            summary: "List direct-contact peers available to the selected account."@,
            prerequisites: seq!["Ensure the selected account exists before listing contacts."@],
            examples: seq!["telegram-agent-cli list contacts --as alice"@],
            next_steps: seq!["telegram-agent-cli peer resolve --help"@, "telegram-agent-cli alias set --help"@],
        },
        LeafHelpView {
            command_path: "telegram-agent-cli list chats"@,
            summary: "List groups and channels available to the selected account."@,
            prerequisites: seq!["Ensure the selected account exists before listing chats."@],
            examples: seq!["telegram-agent-cli list chats --as alice"@],
            next_steps: seq!["telegram-agent-cli peer resolve --help"@, "telegram-agent-cli alias set --help"@],
        },
        LeafHelpView {
            command_path: "telegram-agent-cli message click-button"@,
            summary: "Click an inline button in a bot message and optionally wait for a response."@,
            prerequisites: seq![
                "Ensure the selected account exists, the chat resolves, and the target message/button is available."@,
            ],
            examples: seq!["telegram-agent-cli message click-button --as alice --chat qa-bot start --wait-timeout 5s"@],
            next_steps: seq!["telegram-agent-cli message recv --help"@, "telegram-agent-cli message wait --help"@],
        },
        LeafHelpView {
            command_path: "telegram-agent-cli message list-actions"@,
            summary: "List inline buttons, reply keyboard buttons, and bot command/menu actions available in a chat."@,
            prerequisites: seq![
                "Ensure the selected account exists and the chat resolves before discovering interactive actions."@,
            ],
            examples: seq![
                "telegram-agent-cli message list-actions --as alice --chat qa-bot"@,
                "telegram-agent-cli message list-actions --as alice --chat qa-bot --message-id 123"@,
            ],
            next_steps: seq![
                "telegram-agent-cli message trigger-action --help"@,
                "telegram-agent-cli message recv --help"@,
            ],
        },
        LeafHelpView {
            command_path: "telegram-agent-cli message trigger-action"@,
            summary: "Trigger an action previously discovered from inline buttons, reply keyboards, or bot command menus."@,
            prerequisites: seq![
                "Ensure the selected account exists, the chat resolves, and the target action can be discovered from telegram-agent-cli message list-actions."@,
            ],
            examples: seq![
                "telegram-agent-cli message trigger-action --as alice --chat qa-bot Start"@,
                "telegram-agent-cli message trigger-action --as alice --chat qa-bot bot-command:qa_bot:start --wait-timeout 5s"@,
            ],
            next_steps: seq![
                "telegram-agent-cli message list-actions --help"@,
                "telegram-agent-cli message recv --help"@,
            ],
        },
        LeafHelpView {
            command_path: "telegram-agent-cli message recv"@,
            summary: "Read recent messages from a Telegram chat with optional pagination and unread filtering."@,
            prerequisites: seq!["Ensure the selected account exists and the chat resolves before reading messages."@],
            examples: seq!["telegram-agent-cli message recv --as alice --chat qa-bot --limit 20"@],
            next_steps: seq!["telegram-agent-cli message follow --help"@, "telegram-agent-cli message unread --help"@],
        },
        LeafHelpView {
            command_path: "telegram-agent-cli message follow"@,
            summary: "Collect one or more future matching messages from a Telegram chat."@,
            prerequisites: seq!["Ensure the selected account exists and the chat resolves before following messages."@],
            examples: seq![
                "telegram-agent-cli message follow --as alice --chat qa-bot --text-contains Welcome --timeout 20s --limit 2"@,
            ],
            next_steps: seq!["telegram-agent-cli message wait --help"@, "telegram-agent-cli message recv --help"@],
        },
        LeafHelpView {
            command_path: "telegram-agent-cli message wait"@,
            summary: "Wait for one matching message within the message command family."@,
            prerequisites: seq!["Ensure the selected account exists and the chat resolves before waiting."@],
            examples: seq![
                "telegram-agent-cli message wait --as alice --chat qa-bot --text-contains Welcome --timeout 20s"@,
            ],
            next_steps: seq!["telegram-agent-cli message follow --help"@, "telegram-agent-cli message recv --help"@],
        },
        LeafHelpView {
            command_path: "telegram-agent-cli message unread"@,
            summary: "Inspect unread message counts and the latest unread content for a chat."@,
            prerequisites: seq!["Ensure the selected account exists and the chat resolves before checking unread state."@],
            examples: seq!["telegram-agent-cli message unread --as alice --chat qa-bot"@],
            next_steps: seq!["telegram-agent-cli message recv --help"@, "telegram-agent-cli message wait --help"@],
        },
        LeafHelpView {
            command_path: "telegram-agent-cli message forward"@,
            summary: "Forward one or more messages from one chat to another."@,
            prerequisites: seq!["Ensure the selected account exists and both source and destination chats resolve."@],
            examples: seq![
                "telegram-agent-cli message forward --as alice --from group-a --to group-b --message-ids 123,124"@,
            ],
            next_steps: seq!["telegram-agent-cli message recv --help"@, "telegram-agent-cli send --help"@],
        },
        LeafHelpView {
            command_path: "telegram-agent-cli message edit"@,
            summary: "Edit the text of an existing message sent by the current account."@,
            prerequisites: seq![
                "Ensure the selected account exists, the chat resolves, and the message was sent by this account."@,
            ],
            examples: seq![
                "telegram-agent-cli message edit --as bot --chat @user --message-id 123 --text 'updated text'"@,
            ],
            next_steps: seq!["telegram-agent-cli send --help"@, "telegram-agent-cli message recv --help"@],
        },
        LeafHelpView {
            command_path: "telegram-agent-cli message pin"@,
            summary: "Pin a message in a chat so it stays visible at the top."@,
            prerequisites: seq![
                "Ensure the selected account exists, the chat resolves, and the account has pin permission."@,
            ],
            examples: seq!["telegram-agent-cli message pin --as alice --chat group-a --message-id 42"@],
            next_steps: seq!["telegram-agent-cli message unpin --help"@, "telegram-agent-cli message recv --help"@],
        },
        LeafHelpView {
            command_path: "telegram-agent-cli message unpin"@,
            summary: "Unpin a pinned message in a chat."@,
            prerequisites: seq![
                "Ensure the selected account exists, the chat resolves, and the account has pin permission."@,
            ],
            examples: seq!["telegram-agent-cli message unpin --as alice --chat group-a --message-id 42"@],
            next_steps: seq!["telegram-agent-cli message pin --help"@, "telegram-agent-cli message recv --help"@],
        },
        LeafHelpView {
            command_path: "telegram-agent-cli message download"@,
            summary: "Download media attached to a message to a local file path."@,
            prerequisites: seq![
                "Ensure the selected account exists, the chat resolves, and the message contains downloadable media."@,
            ],
            examples: seq![
                "telegram-agent-cli message download --as alice --chat qa-bot --message-id 123 --output photo.jpg"@,
            ],
            next_steps: seq!["telegram-agent-cli message recv --help"@, "telegram-agent-cli send-file --help"@],
        },
        LeafHelpView {
            command_path: "telegram-agent-cli send-photo"@,
            summary: "Send a photo to a resolved Telegram peer with an optional caption and keyboard."@,
            prerequisites: seq!["Ensure the selected account exists, the peer resolves, and the image path is readable."@],
            examples: seq![
                "telegram-agent-cli send-photo --as alice --to qa-bot photo.jpg"@,
                "telegram-agent-cli send-photo --as bot --to @user image.png --caption 'Look!' --inline-keyboard '[\"Like:callback:1\"]'"@,
            ],
            next_steps: seq!["telegram-agent-cli message recv --help"@, "telegram-agent-cli send --help"@],
        },
        LeafHelpView {
            command_path: "telegram-agent-cli bot set-commands"@,
            summary: "Set the bot command menu displayed in the chat when users type /."@,
            prerequisites: seq!["Ensure the selected account is a logged-in bot with the appropriate permissions."@],
            examples: seq![
                "telegram-agent-cli bot set-commands --as mybot --commands '/start|Start the bot,/help|Show help'"@,
            ],
            next_steps: seq!["telegram-agent-cli bot set-info --help"@, "telegram-agent-cli account --help"@],
        },
        LeafHelpView {
            command_path: "telegram-agent-cli bot set-info"@,
            summary: "Set the bot description and about text visible on the bot profile."@,
            prerequisites: seq!["Ensure the selected account is a logged-in bot with the appropriate permissions."@],
            examples: seq!["telegram-agent-cli bot set-info --as mybot --description 'A helpful bot' --about 'v1.0'"@],
            next_steps: seq!["telegram-agent-cli bot set-commands --help"@, "telegram-agent-cli account --help"@],
        },
    ]
}

/// The first group guidance from index `i` on whose command path is `path`.
pub open spec fn group_help_from(i: int, path: Seq<char>) -> Option<GroupHelpView>
    decreases group_help_entries().len() - i,
{
    if i < 0 || i >= group_help_entries().len() {
        None
    } else if group_help_entries()[i].command_path == path {
        Some(group_help_entries()[i])
    } else {
        group_help_from(i + 1, path)
    }
}

/// The group guidance of a command path.
pub open spec fn spec_group_help(path: Seq<char>) -> Option<GroupHelpView> {
    group_help_from(0, path)
}

/// The first leaf guidance from index `i` on whose command path is `path`.
pub open spec fn leaf_help_from(i: int, path: Seq<char>) -> Option<LeafHelpView>
    decreases leaf_help_entries().len() - i,
{
    if i < 0 || i >= leaf_help_entries().len() {
        None
    } else if leaf_help_entries()[i].command_path == path {
        Some(leaf_help_entries()[i])
    } else {
        leaf_help_from(i + 1, path)
    }
}

/// The leaf guidance of a command path.
pub open spec fn spec_leaf_help(path: Seq<char>) -> Option<LeafHelpView> {
    leaf_help_from(0, path)
}

/// Each group guidance entry sits under its command path and has a summary.
pub proof fn lemma_group_entry(k: int)
    requires
        0 <= k < group_help_entries().len(),
    ensures
        group_help_entries()[k].command_path == group_help_paths()[k],
        group_help_entries()[k].summary.len() > 0,
{
    if k == 0 {
        reveal_strlit("Inspect the persisted default account and the effective account selected for the current invocation.");
    } else if k == 1 {
        reveal_strlit("Manage Telegram user and bot accounts, default account selection, and login state.");
    } else if k == 2 {
        reveal_strlit("Create and inspect saved peer aliases so later commands can target chats without raw IDs.");
    } else if k == 3 {
        reveal_strlit("Inspect available contacts, groups, and channels for the selected account.");
    } else if k == 4 {
        reveal_strlit("Read, follow, wait for, inspect, or interact with existing message traffic in a chat.");
    } else if k == 5 {
        reveal_strlit("Resolve usernames, aliases, and numeric IDs into concrete Telegram peers.");
    } else if k == 6 {
        reveal_strlit("Manage bot profile metadata and command menus.");
    } else if k == 7 {
        reveal_strlit("Manage the background JSON-RPC daemon that exposes the same MCP tool surface without keeping a foreground terminal attached.");
    }
}

/// A command path listed with group guidance finds an entry from any index
/// at or before its own, and what it finds has a summary.
pub proof fn lemma_group_found(i: int, k: int, path: Seq<char>)
    requires
        0 <= i <= k < group_help_entries().len(),
        group_help_paths()[k] == path,
    ensures
        group_help_from(i, path) is Some,
        group_help_from(i, path)->0.summary.len() > 0,
    decreases k - i,
{
    lemma_group_entry(i);
    lemma_group_entry(k);
    if group_help_entries()[i].command_path != path {
        lemma_group_found(i + 1, k, path);
    }
}

/// Each leaf guidance entry sits under its command path and has a summary.
pub proof fn lemma_leaf_entry(k: int)
    requires
        0 <= k < leaf_help_entries().len(),
    ensures
        leaf_help_entries()[k].command_path == leaf_help_paths()[k],
        leaf_help_entries()[k].summary.len() > 0,
{
    if k == 0 {
        reveal_strlit("Inspect the resolved config, data, state, and cache directories used by telegram-agent-cli.");
    } else if k == 1 {
        reveal_strlit("Inspect the persisted default account, the effective account for this invocation, and one-shot override behavior.");
    } else if k == 2 {
        reveal_strlit("Inspect local telegram-agent-cli configuration, storage paths, adapter state, and account summary.");
    } else if k == 3 {
        reveal_strlit("Export scenario run events as readable results or NDJSON stream events.");
    } else if k == 4 {
        reveal_strlit("Send a text message to a resolved Telegram peer, optionally with a reply or inline keyboard.");
    } else if k == 5 {
        reveal_strlit("Send a file to a resolved Telegram peer with an optional caption and keyboard.");
    } else if k == 6 {
        reveal_strlit("Wait for one matching incoming message from a target chat.");
    } else if k == 7 {
        reveal_strlit("Execute a scenario file and persist run events for later export.");
    } else if k == 8 {
        reveal_strlit("Open an interactive chat REPL for sending messages, reading replies, and invoking slash commands.");
    } else if k == 9 {
        reveal_strlit("Start telegram-agent-cli as a Model Context Protocol (MCP) server, exposing Telegram operations as tools for AI agents over stdio.");
    } else if k == 10 {
        reveal_strlit("Launch the managed background JSON-RPC daemon and wait until it is ready.");
    } else if k == 11 {
        reveal_strlit("Request a graceful shutdown of the managed background daemon and wait for it to exit.");
    } else if k == 12 {
        reveal_strlit("Restart the managed background daemon when you need to recover from a stale or unhealthy state.");
    } else if k == 13 {
        reveal_strlit("Inspect whether the managed background daemon is running, stale, or stopped.");
    } else if k == 14 {
        reveal_strlit("Register a Telegram user account with API credentials and optional phone number.");
    } else if k == 15 {
        reveal_strlit("Register a Telegram bot account with a bot token and optional API credentials.");
    } else if k == 16 {
        reveal_strlit("Inspect configured accounts, account kinds, and login state.");
    } else if k == 17 {
        reveal_strlit("Set the default account used when later commands receive --as default.");
    } else if k == 18 {
        reveal_strlit("Authenticate a stored account by QR flow or credential-based login.");
    } else if k == 19 {
        reveal_strlit("Clear the stored session for an account and mark it as logged out.");
    } else if k == 20 {
        reveal_strlit("Bind a memorable alias to a resolved Telegram peer for later commands.");
    } else if k == 21 {
        reveal_strlit("Inspect saved alias to peer mappings.");
    } else if k == 22 {
        reveal_strlit("Resolve an alias, username, or numeric ID into a Telegram peer record.");
    } else if k == 23 {
        reveal_strlit("List direct-contact peers available to the selected account.");
    } else if k == 24 {
        reveal_strlit("List groups and channels available to the selected account.");
    } else if k == 25 {
        reveal_strlit("Click an inline button in a bot message and optionally wait for a response.");
    } else if k == 26 {
        reveal_strlit("List inline buttons, reply keyboard buttons, and bot command/menu actions available in a chat.");
    } else if k == 27 {
        reveal_strlit("Trigger an action previously discovered from inline buttons, reply keyboards, or bot command menus.");
    } else if k == 28 {
        reveal_strlit("Read recent messages from a Telegram chat with optional pagination and unread filtering.");
    } else if k == 29 {
        reveal_strlit("Collect one or more future matching messages from a Telegram chat.");
    } else if k == 30 {
        reveal_strlit("Wait for one matching message within the message command family.");
    } else if k == 31 {
        reveal_strlit("Inspect unread message counts and the latest unread content for a chat.");
    } else if k == 32 {
        reveal_strlit("Forward one or more messages from one chat to another.");
    } else if k == 33 {
        reveal_strlit("Edit the text of an existing message sent by the current account.");
    } else if k == 34 {
        reveal_strlit("Pin a message in a chat so it stays visible at the top.");
    } else if k == 35 {
        reveal_strlit("Unpin a pinned message in a chat.");
    } else if k == 36 {
        reveal_strlit("Download media attached to a message to a local file path.");
    } else if k == 37 {
        reveal_strlit("Send a photo to a resolved Telegram peer with an optional caption and keyboard.");
    } else if k == 38 {
        reveal_strlit("Set the bot command menu displayed in the chat when users type /.");
    } else if k == 39 {
        reveal_strlit("Set the bot description and about text visible on the bot profile.");
    }
}

/// A command path listed with leaf guidance finds an entry from any index
/// at or before its own, and what it finds has a summary.
pub proof fn lemma_leaf_found(i: int, k: int, path: Seq<char>)
    requires
        0 <= i <= k < leaf_help_entries().len(),
        leaf_help_paths()[k] == path,
    ensures
        leaf_help_from(i, path) is Some,
        leaf_help_from(i, path)->0.summary.len() > 0,
    decreases k - i,
{
    lemma_leaf_entry(i);
    lemma_leaf_entry(k);
    if leaf_help_entries()[i].command_path != path {
        lemma_leaf_found(i + 1, k, path);
    }
}

/// The top-level guidance has a summary.
pub proof fn lemma_top_level_summary()
    ensures
        top_level_summary().len() > 0,
{
    reveal_strlit("Explore Telegram accounts, peers, messages, diagnostics, scenarios, and interactive bot testing from one CLI.");
}

/// The command paths that have group guidance, in table order.
pub open spec fn group_help_paths() -> Seq<Seq<char>> {
    seq![
        "telegram-agent-cli context"@,
        "telegram-agent-cli account"@,
        "telegram-agent-cli alias"@,
        "telegram-agent-cli list"@,
        "telegram-agent-cli message"@,
        "telegram-agent-cli peer"@,
        "telegram-agent-cli bot"@,
        "telegram-agent-cli daemon"@,
    ]
}

/// The command paths that have leaf guidance, in table order.
pub open spec fn leaf_help_paths() -> Seq<Seq<char>> {
    seq![
        "telegram-agent-cli paths"@,
        "telegram-agent-cli context show"@,
        "telegram-agent-cli doctor"@,
        "telegram-agent-cli export"@,
        "telegram-agent-cli send"@,
        "telegram-agent-cli send-file"@,
        "telegram-agent-cli wait"@,
        "telegram-agent-cli run"@,
        "telegram-agent-cli repl"@,
        "telegram-agent-cli mcp"@,
        "telegram-agent-cli daemon start"@,
        "telegram-agent-cli daemon stop"@,
        "telegram-agent-cli daemon restart"@,
        "telegram-agent-cli daemon status"@,
        "telegram-agent-cli account add-user"@,
        "telegram-agent-cli account add-bot"@,
        "telegram-agent-cli account list"@,
        "telegram-agent-cli account use"@,
        "telegram-agent-cli account login"@,
        "telegram-agent-cli account logout"@,
        "telegram-agent-cli alias set"@,
        "telegram-agent-cli alias list"@,
        "telegram-agent-cli peer resolve"@,
        "telegram-agent-cli list contacts"@,
        "telegram-agent-cli list chats"@,
        "telegram-agent-cli message click-button"@,
        "telegram-agent-cli message list-actions"@,
        "telegram-agent-cli message trigger-action"@,
        "telegram-agent-cli message recv"@,
        "telegram-agent-cli message follow"@,
        "telegram-agent-cli message wait"@,
        "telegram-agent-cli message unread"@,
        "telegram-agent-cli message forward"@,
        "telegram-agent-cli message edit"@,
        "telegram-agent-cli message pin"@,
        "telegram-agent-cli message unpin"@,
        "telegram-agent-cli message download"@,
        "telegram-agent-cli send-photo"@,
        "telegram-agent-cli bot set-commands"@,
        "telegram-agent-cli bot set-info"@,
    ]
}

/// The guidance of the top-level command.
pub fn top_level_help_metadata() -> (r: TopLevelHelpMetadata)
    ensures
        r.summary@ == top_level_summary(),
        static_views(r.when_to_use@) == top_level_when_to_use(),
        static_views(r.prerequisites@) == top_level_prerequisites(),
        static_views(r.actions@) == top_level_actions(),
        static_views(r.next_steps@) == top_level_next_steps(),
{
    let r = TopLevelHelpMetadata {
        summary: "Explore Telegram accounts, peers, messages, diagnostics, scenarios, and interactive bot testing from one CLI.",
        when_to_use: vec![
            "Start here when you need to discover the telegram-agent-cli capability map.",
            "Use the listed next steps to drill down into the correct command family.",
        ],
        prerequisites: vec![
            "YAML is the default output. Use --format table for readable output or --format json for machine-readable envelopes.",
        ],
        actions: vec![
            "help: Emit structured help documents for any command path. Use telegram-agent-cli help <command>.",
            "paths: Inspect config, data, state, and cache directories. Use telegram-agent-cli paths --help.",
            "context: Inspect the persisted default account and effective override behavior. Use telegram-agent-cli context --help.",
            "account: Manage users, bots, default account selection, and login state. Use telegram-agent-cli account --help.",
            "alias: Create and inspect saved peer aliases. Use telegram-agent-cli alias --help.",
            "peer: Resolve usernames, aliases, and IDs into peers. Use telegram-agent-cli peer --help.",
            "list: Inspect contacts, groups, and channels. Use telegram-agent-cli list --help.",
            "message: Read, follow, wait for, or interact with messages. Use telegram-agent-cli message --help.",
            "doctor: Inspect local configuration and storage state. Use telegram-agent-cli doctor --help.",
            "export: Export scenario run events. Use telegram-agent-cli export --help.",
            "send/send-file/send-photo/wait: Execute direct chat actions. Use telegram-agent-cli send --help, telegram-agent-cli send-file --help, telegram-agent-cli send-photo --help, or telegram-agent-cli wait --help.",
            "bot: Configure bot command menus and profile info. Use telegram-agent-cli bot --help.",
            "run: Execute a stored scenario file. Use telegram-agent-cli run --help.",
            "repl: Open an interactive testing session. Use telegram-agent-cli repl --help.",
            "mcp: Start as an MCP tool server for AI agents. Use telegram-agent-cli mcp --help.",
            "daemon: Manage the background JSON-RPC daemon. Use telegram-agent-cli daemon --help.",
        ],
        next_steps: vec![
            "telegram-agent-cli help account add-bot",
            "telegram-agent-cli paths --help",
            "telegram-agent-cli context --help",
            "telegram-agent-cli account --help",
            "telegram-agent-cli message --help",
            "telegram-agent-cli doctor --help",
            "telegram-agent-cli repl --help",
            "telegram-agent-cli daemon --help",
        ],
    };
    assert(static_views(r.when_to_use@) =~= top_level_when_to_use());
    assert(static_views(r.prerequisites@) =~= top_level_prerequisites());
    assert(static_views(r.actions@) =~= top_level_actions());
    assert(static_views(r.next_steps@) =~= top_level_next_steps());
    r
}

/// The group guidance table.
fn command_group_help_table() -> (r: Vec<CommandGroupHelpMetadata>)
    ensures
        r@.len() == group_help_paths().len(),
        forall|i: int| 0 <= i < r@.len() ==> (#[trigger] r@[i]).command_path@ == group_help_paths()[i],
        forall|i: int| 0 <= i < r@.len() ==> group_view(#[trigger] r@[i]) == group_help_entries()[i],
{
    let r = vec![
        CommandGroupHelpMetadata {
            command_path: "telegram-agent-cli context",
            summary: "Inspect the persisted default account and the effective account selected for the current invocation.",
            actions: vec![
                "Choose context show to inspect persisted and effective account selection without mutating the default account.",
            ],
            next_steps: vec!["telegram-agent-cli context show --help"],
            related_commands: vec!["telegram-agent-cli account use --help", "telegram-agent-cli account list --help"],
        },
        CommandGroupHelpMetadata {
            command_path: "telegram-agent-cli account",
            summary: "Manage Telegram user and bot accounts, default account selection, and login state.",
            actions: vec![
                "Choose account add-user when registering a user identity with API credentials.",
                "Choose account add-bot when registering a bot token-backed identity.",
                "Choose account list to inspect configured accounts and login state.",
                "Choose account use to change the default account for later commands.",
                "Choose account login or logout to manage active sessions.",
            ],
            next_steps: vec![
                "telegram-agent-cli account add-user --help",
                "telegram-agent-cli account add-bot --help",
                "telegram-agent-cli account list --help",
                "telegram-agent-cli account use --help",
                "telegram-agent-cli account login --help",
                "telegram-agent-cli account logout --help",
            ],
            related_commands: vec!["telegram-agent-cli --help", "telegram-agent-cli doctor --help"],
        },
        CommandGroupHelpMetadata {
            command_path: "telegram-agent-cli alias",
            summary: "Create and inspect saved peer aliases so later commands can target chats without raw IDs.",
            actions: vec![
                "Choose alias set to bind a memorable name to a resolved peer.",
                "Choose alias list to inspect stored alias mappings.",
            ],
            next_steps: vec!["telegram-agent-cli alias set --help", "telegram-agent-cli alias list --help"],
            related_commands: vec!["telegram-agent-cli peer --help", "telegram-agent-cli list --help"],
        },
        CommandGroupHelpMetadata {
            command_path: "telegram-agent-cli list",
            summary: "Inspect available contacts, groups, and channels for the selected account.",
            actions: vec![
                "Choose list contacts to inspect direct-contact targets.",
                "Choose list chats to inspect group and channel targets.",
            ],
            next_steps: vec!["telegram-agent-cli list contacts --help", "telegram-agent-cli list chats --help"],
            related_commands: vec!["telegram-agent-cli peer --help", "telegram-agent-cli alias --help"],
        },
        CommandGroupHelpMetadata {
            command_path: "telegram-agent-cli message",
            summary: "Read, follow, wait for, inspect, or interact with existing message traffic in a chat.",
            actions: vec![
                "Choose message recv to read recent messages from a chat.",
                "Choose message follow to stream new matching messages for a bounded period.",
                "Choose message wait to block until one matching message arrives.",
                "Choose message unread to inspect unread counts and latest unread content.",
                "Choose message forward to copy messages from one chat to another.",
                "Choose message edit to update the text of an existing message.",
                "Choose message pin or unpin to manage pinned messages in a chat.",
                "Choose message download to save media from a message to a local file.",
                "Choose message click-button to interact with inline buttons in bot messages.",
                "Choose message list-actions to discover inline buttons, reply keyboard buttons, and bot menu commands.",
                "Choose message trigger-action to replay an action discovered from list-actions.",
            ],
            next_steps: vec![
                "telegram-agent-cli message recv --help",
                "telegram-agent-cli message follow --help",
                "telegram-agent-cli message wait --help",
                "telegram-agent-cli message unread --help",
                "telegram-agent-cli message forward --help",
                "telegram-agent-cli message edit --help",
                "telegram-agent-cli message pin --help",
                "telegram-agent-cli message unpin --help",
                "telegram-agent-cli message download --help",
                "telegram-agent-cli message click-button --help",
                "telegram-agent-cli message list-actions --help",
                "telegram-agent-cli message trigger-action --help",
            ],
            related_commands: vec!["telegram-agent-cli send --help", "telegram-agent-cli wait --help"],
        },
        CommandGroupHelpMetadata {
            command_path: "telegram-agent-cli peer",
            summary: "Resolve usernames, aliases, and numeric IDs into concrete Telegram peers.",
            actions: vec![
                "Choose peer resolve to confirm the peer kind, ID, and display target for later commands.",
            ],
            next_steps: vec!["telegram-agent-cli peer resolve --help"],
            related_commands: vec!["telegram-agent-cli alias --help", "telegram-agent-cli list --help"],
        },
        CommandGroupHelpMetadata {
            command_path: "telegram-agent-cli bot",
            summary: "Manage bot profile metadata and command menus.",
            actions: vec![
                "Choose bot set-commands to publish the bot command menu shown in chat.",
                "Choose bot set-info to update the bot description and about text.",
            ],
            next_steps: vec![
                "telegram-agent-cli bot set-commands --help",
                "telegram-agent-cli bot set-info --help",
            ],
            related_commands: vec!["telegram-agent-cli account --help", "telegram-agent-cli message --help"],
        },
        CommandGroupHelpMetadata {
            command_path: "telegram-agent-cli daemon",
            summary: "Manage the background JSON-RPC daemon that exposes the same MCP tool surface without keeping a foreground terminal attached.",
            actions: vec![
                "Choose daemon start to launch the managed background service.",
                "Choose daemon status to inspect whether the daemon is running and where it is listening.",
                "Choose daemon stop or restart to recover the managed background service from the CLI.",
            ],
            next_steps: vec![
                "telegram-agent-cli daemon start --help",
                "telegram-agent-cli daemon status --help",
                "telegram-agent-cli daemon stop --help",
                "telegram-agent-cli daemon restart --help",
            ],
            related_commands: vec!["telegram-agent-cli mcp --help", "telegram-agent-cli doctor --help"],
        },
    ];
    assert(r@.len() == group_help_paths().len());
    assert(group_view(r@[0]) == group_help_entries()[0]) by {
        assert(static_views(r@[0].actions@) =~= group_help_entries()[0].actions);
        assert(static_views(r@[0].next_steps@) =~= group_help_entries()[0].next_steps);
        assert(static_views(r@[0].related_commands@) =~= group_help_entries()[0].related_commands);
    }
    assert(group_view(r@[1]) == group_help_entries()[1]) by {
        assert(static_views(r@[1].actions@) =~= group_help_entries()[1].actions);
        assert(static_views(r@[1].next_steps@) =~= group_help_entries()[1].next_steps);
        assert(static_views(r@[1].related_commands@) =~= group_help_entries()[1].related_commands);
    }
    assert(group_view(r@[2]) == group_help_entries()[2]) by {
        assert(static_views(r@[2].actions@) =~= group_help_entries()[2].actions);
        assert(static_views(r@[2].next_steps@) =~= group_help_entries()[2].next_steps);
        assert(static_views(r@[2].related_commands@) =~= group_help_entries()[2].related_commands);
    }
    assert(group_view(r@[3]) == group_help_entries()[3]) by {
        assert(static_views(r@[3].actions@) =~= group_help_entries()[3].actions);
        assert(static_views(r@[3].next_steps@) =~= group_help_entries()[3].next_steps);
        assert(static_views(r@[3].related_commands@) =~= group_help_entries()[3].related_commands);
    }
    assert(group_view(r@[4]) == group_help_entries()[4]) by {
        assert(static_views(r@[4].actions@) =~= group_help_entries()[4].actions);
        assert(static_views(r@[4].next_steps@) =~= group_help_entries()[4].next_steps);
        assert(static_views(r@[4].related_commands@) =~= group_help_entries()[4].related_commands);
    }
    assert(group_view(r@[5]) == group_help_entries()[5]) by {
        assert(static_views(r@[5].actions@) =~= group_help_entries()[5].actions);
        assert(static_views(r@[5].next_steps@) =~= group_help_entries()[5].next_steps);
        assert(static_views(r@[5].related_commands@) =~= group_help_entries()[5].related_commands);
    }
    assert(group_view(r@[6]) == group_help_entries()[6]) by {
        assert(static_views(r@[6].actions@) =~= group_help_entries()[6].actions);
        assert(static_views(r@[6].next_steps@) =~= group_help_entries()[6].next_steps);
        assert(static_views(r@[6].related_commands@) =~= group_help_entries()[6].related_commands);
    }
    assert(group_view(r@[7]) == group_help_entries()[7]) by {
        assert(static_views(r@[7].actions@) =~= group_help_entries()[7].actions);
        assert(static_views(r@[7].next_steps@) =~= group_help_entries()[7].next_steps);
        assert(static_views(r@[7].related_commands@) =~= group_help_entries()[7].related_commands);
    }
    r
}

/// The leaf guidance table.
fn leaf_help_table() -> (r: Vec<LeafHelpMetadata>)
    ensures
        r@.len() == leaf_help_paths().len(),
        forall|i: int| 0 <= i < r@.len() ==> (#[trigger] r@[i]).command_path@ == leaf_help_paths()[i],
        forall|i: int| 0 <= i < r@.len() ==> leaf_view(#[trigger] r@[i]) == leaf_help_entries()[i],
{
    let r = vec![
        LeafHelpMetadata {
            command_path: "telegram-agent-cli paths",
            summary: "Inspect the resolved config, data, state, and cache directories used by telegram-agent-cli.",
            prerequisites: vec!["Use this command when you need to verify where telegram-agent-cli is storing configuration, runtime state, or caches."],
            examples: vec!["telegram-agent-cli paths", "telegram-agent-cli paths --format json"],
            next_steps: vec!["telegram-agent-cli context show", "telegram-agent-cli doctor"],
        },
        LeafHelpMetadata {
            command_path: "telegram-agent-cli context show",
            summary: "Inspect the persisted default account, the effective account for this invocation, and one-shot override behavior.",
            prerequisites: vec!["Use this command after configuring one or more accounts if you need to confirm which account will be applied."],
            examples: vec!["telegram-agent-cli context show", "telegram-agent-cli context show --as bot --format json"],
            next_steps: vec!["telegram-agent-cli account list", "telegram-agent-cli account use --help"],
        },
        LeafHelpMetadata {
            command_path: "telegram-agent-cli doctor",
            summary: "Inspect local telegram-agent-cli configuration, storage paths, adapter state, and account summary.",
            prerequisites: vec!["Ensure telegram-agent-cli can resolve its config, data, and state directories."],
            examples: vec!["telegram-agent-cli doctor", "telegram-agent-cli doctor --json", "telegram-agent-cli doctor --format table"],
            next_steps: vec!["telegram-agent-cli account list", "telegram-agent-cli export --help"],
        },
        LeafHelpMetadata {
            command_path: "telegram-agent-cli export",
            summary: "Export scenario run events as readable results or NDJSON stream events.",
            prerequisites: vec!["Ensure at least one scenario run exists before exporting latest output."],
            examples: vec![
                "telegram-agent-cli export --run-id latest",
                "telegram-agent-cli export --run-id latest --format json",
                "telegram-agent-cli export --run-id latest --format ndjson",
            ],
            next_steps: vec!["telegram-agent-cli run --help", "telegram-agent-cli doctor --help"],
        },
        LeafHelpMetadata {
            command_path: "telegram-agent-cli send",
            summary: "Send a text message to a resolved Telegram peer, optionally with a reply or inline keyboard.",
            prerequisites: vec!["Ensure the selected account exists and the target peer can be resolved."],
            examples: vec![
                "telegram-agent-cli send --as alice --to qa-bot --text /start",
                "telegram-agent-cli send --as bot --to @user --text 'Choose:' --reply-keyboard '[\"Yes\",\"No\"]'",
                "telegram-agent-cli send --as bot --to @user --text 'Click:' --inline-keyboard '[\"OK:callback:done\"]'",
            ],
            next_steps: vec!["telegram-agent-cli message recv --help", "telegram-agent-cli message follow --help"],
        },
        LeafHelpMetadata {
            command_path: "telegram-agent-cli send-file",
            summary: "Send a file to a resolved Telegram peer with an optional caption and keyboard.",
            prerequisites: vec!["Ensure the selected account exists, the peer resolves, and the file path is readable."],
            examples: vec![
                "telegram-agent-cli send-file --as alice --to qa-bot fixtures/sample.txt --caption hello",
                "telegram-agent-cli send-file --as bot --to @user doc.pdf --inline-keyboard '[\"Accept:callback:yes\"]'",
            ],
            next_steps: vec!["telegram-agent-cli message recv --help", "telegram-agent-cli wait --help"],
        },
        LeafHelpMetadata {
            command_path: "telegram-agent-cli wait",
            summary: "Wait for one matching incoming message from a target chat.",
            prerequisites: vec!["Ensure the selected account exists and the chat resolves before waiting."],
            examples: vec!["telegram-agent-cli wait --as alice --chat qa-bot --text-contains Welcome --timeout 5s"],
            next_steps: vec!["telegram-agent-cli message follow --help", "telegram-agent-cli message recv --help"],
        },
        LeafHelpMetadata {
            command_path: "telegram-agent-cli run",
            summary: "Execute a scenario file and persist run events for later export.",
            prerequisites: vec!["Ensure the scenario path exists and references accounts or peers that telegram-agent-cli can resolve."],
            examples: vec!["telegram-agent-cli run fixtures/scenarios/echo.yaml"],
            next_steps: vec!["telegram-agent-cli export --help", "telegram-agent-cli doctor --help"],
        },
        LeafHelpMetadata {
            command_path: "telegram-agent-cli repl",
            summary: "Open an interactive chat REPL for sending messages, reading replies, and invoking slash commands.",
            prerequisites: vec![
                "Ensure the selected account exists and can resolve the requested chat.",
                "Use a bot, alias, username, or peer ID that telegram-agent-cli can resolve before entering the REPL.",
            ],
            examples: vec!["telegram-agent-cli repl --as alice --chat qa-bot", "Inside the REPL, run /help"],
            next_steps: vec!["telegram-agent-cli message recv --help", "telegram-agent-cli send --help"],
        },
        LeafHelpMetadata {
            command_path: "telegram-agent-cli mcp",
            summary: "Start telegram-agent-cli as a Model Context Protocol (MCP) server, exposing Telegram operations as tools for AI agents over stdio.",
            prerequisites: vec![
                "Ensure at least one account is configured and logged in before starting the MCP server.",
            ],
            examples: vec![
                "telegram-agent-cli mcp",
                "Configure in a desktop MCP client: {\"command\": \"telegram-agent-cli\", \"args\": [\"mcp\"]}",
            ],
            next_steps: vec!["telegram-agent-cli account --help", "telegram-agent-cli repl --help"],
        },
        LeafHelpMetadata {
            command_path: "telegram-agent-cli daemon start",
            summary: "Launch the managed background JSON-RPC daemon and wait until it is ready.",
            prerequisites: vec![
                "Use this when you want the MCP-style tool server to keep running after the current terminal session exits.",
            ],
            examples: vec![
                "telegram-agent-cli daemon start",
                "telegram-agent-cli daemon start --timeout 15s",
            ],
            next_steps: vec!["telegram-agent-cli daemon status --help", "telegram-agent-cli daemon stop --help"],
        },
        LeafHelpMetadata {
            command_path: "telegram-agent-cli daemon stop",
            summary: "Request a graceful shutdown of the managed background daemon and wait for it to exit.",
            prerequisites: vec!["Ensure the daemon was previously started from the same runtime state root before stopping it."],
            examples: vec![
                "telegram-agent-cli daemon stop",
                "telegram-agent-cli daemon stop --timeout 15s",
            ],
            next_steps: vec!["telegram-agent-cli daemon status --help", "telegram-agent-cli daemon start --help"],
        },
        LeafHelpMetadata {
            command_path: "telegram-agent-cli daemon restart",
            summary: "Restart the managed background daemon when you need to recover from a stale or unhealthy state.",
            prerequisites: vec!["Use this when daemon status reports stale state or when you need to reload the background service from the CLI."],
            examples: vec![
                "telegram-agent-cli daemon restart",
                "telegram-agent-cli daemon restart --timeout 20s",
            ],
            next_steps: vec!["telegram-agent-cli daemon status --help", "telegram-agent-cli daemon stop --help"],
        },
        LeafHelpMetadata {
            command_path: "telegram-agent-cli daemon status",
            summary: "Inspect whether the managed background daemon is running, stale, or stopped.",
            prerequisites: vec!["Use this before starting or stopping the daemon if you need to confirm the current managed state."],
            examples: vec![
                "telegram-agent-cli daemon status",
                "telegram-agent-cli daemon status --format json",
            ],
            next_steps: vec!["telegram-agent-cli daemon start --help", "telegram-agent-cli daemon restart --help"],
        },
        LeafHelpMetadata {
            command_path: "telegram-agent-cli account add-user",
            summary: "Register a Telegram user account with API credentials and optional phone number.",
            prerequisites: vec!["Ensure you have a valid Telegram API ID and API hash before adding the account."],
            examples: vec!["telegram-agent-cli account add-user --name alice --api-id 12345 --api-hash <hash> --phone +10000000000"],
            next_steps: vec!["telegram-agent-cli account login --help", "telegram-agent-cli account list --help"],
        },
        LeafHelpMetadata {
            command_path: "telegram-agent-cli account add-bot",
            summary: "Register a Telegram bot account with a bot token and optional API credentials.",
            prerequisites: vec!["Ensure the bot token is available directly or through an environment variable before running the command."],
            examples: vec!["telegram-agent-cli account add-bot --name bot --token-env TELEGRAM_CLI_BOT_TOKEN"],
            next_steps: vec!["telegram-agent-cli account login --help", "telegram-agent-cli account list --help"],
        },
        LeafHelpMetadata {
            command_path: "telegram-agent-cli account list",
            summary: "Inspect configured accounts, account kinds, and login state.",
            prerequisites: vec!["Add at least one user or bot account before expecting non-empty output."],
            examples: vec!["telegram-agent-cli account list"],
            next_steps: vec!["telegram-agent-cli account use --help", "telegram-agent-cli doctor --help"],
        },
        LeafHelpMetadata {
            command_path: "telegram-agent-cli account use",
            summary: "Set the default account used when later commands receive --as default.",
            prerequisites: vec!["Ensure the target account name already exists in local account storage."],
            examples: vec!["telegram-agent-cli account use alice"],
            next_steps: vec!["telegram-agent-cli account list --help", "telegram-agent-cli doctor --help"],
        },
        LeafHelpMetadata {
            command_path: "telegram-agent-cli account login",
            summary: "Authenticate a stored account by QR flow or credential-based login.",
            prerequisites: vec!["Ensure the account already exists before attempting login."],
            examples: vec![
                "telegram-agent-cli account login alice --qr",
                "telegram-agent-cli account login alice --code-env TELEGRAM_CLI_LOGIN_CODE --password-env TELEGRAM_CLI_2FA_PASSWORD",
            ],
            next_steps: vec!["telegram-agent-cli account list --help", "telegram-agent-cli account logout --help"],
        },
        LeafHelpMetadata {
            command_path: "telegram-agent-cli account logout",
            summary: "Clear the stored session for an account and mark it as logged out.",
            prerequisites: vec!["Ensure the account exists before attempting logout."],
            examples: vec!["telegram-agent-cli account logout alice"],
            next_steps: vec!["telegram-agent-cli account login --help", "telegram-agent-cli account list --help"],
        },
        LeafHelpMetadata {
            command_path: "telegram-agent-cli alias set",
            summary: "Bind a memorable alias to a resolved Telegram peer for later commands.",
            prerequisites: vec!["Ensure the selected account exists and the query resolves to a real peer."],
            examples: vec!["telegram-agent-cli alias set qa-bot qa_bot"],
            next_steps: vec!["telegram-agent-cli alias list --help", "telegram-agent-cli peer resolve --help"],
        },
        LeafHelpMetadata {
            command_path: "telegram-agent-cli alias list",
            summary: "Inspect saved alias to peer mappings.",
            prerequisites: vec!["Create at least one alias before expecting non-empty output."],
            examples: vec!["telegram-agent-cli alias list"],
            next_steps: vec!["telegram-agent-cli alias set --help", "telegram-agent-cli peer resolve --help"],
        },
        LeafHelpMetadata {
            command_path: "telegram-agent-cli peer resolve",
            summary: "Resolve an alias, username, or numeric ID into a Telegram peer record.",
            prerequisites: vec!["Ensure the selected account exists when resolving usernames or aliases against Telegram state."],
            examples: vec!["telegram-agent-cli peer resolve --as alice qa-bot"],
            next_steps: vec!["telegram-agent-cli alias set --help", "telegram-agent-cli list contacts --help"],
        },
        LeafHelpMetadata {
            command_path: "telegram-agent-cli list contacts",
            summary: "List direct-contact peers available to the selected account.",
            prerequisites: vec!["Ensure the selected account exists before listing contacts."],
            examples: vec!["telegram-agent-cli list contacts --as alice"],
            next_steps: vec!["telegram-agent-cli peer resolve --help", "telegram-agent-cli alias set --help"],
        },
        LeafHelpMetadata {
            command_path: "telegram-agent-cli list chats",
            summary: "List groups and channels available to the selected account.",
            prerequisites: vec!["Ensure the selected account exists before listing chats."],
            examples: vec!["telegram-agent-cli list chats --as alice"],
            next_steps: vec!["telegram-agent-cli peer resolve --help", "telegram-agent-cli alias set --help"],
        },
        LeafHelpMetadata {
            command_path: "telegram-agent-cli message click-button",
            summary: "Click an inline button in a bot message and optionally wait for a response.",
            prerequisites: vec!["Ensure the selected account exists, the chat resolves, and the target message/button is available."],
            examples: vec!["telegram-agent-cli message click-button --as alice --chat qa-bot start --wait-timeout 5s"],
            next_steps: vec!["telegram-agent-cli message recv --help", "telegram-agent-cli message wait --help"],
        },
        LeafHelpMetadata {
            command_path: "telegram-agent-cli message list-actions",
            summary: "List inline buttons, reply keyboard buttons, and bot command/menu actions available in a chat.",
            prerequisites: vec!["Ensure the selected account exists and the chat resolves before discovering interactive actions."],
            examples: vec![
                "telegram-agent-cli message list-actions --as alice --chat qa-bot",
                "telegram-agent-cli message list-actions --as alice --chat qa-bot --message-id 123",
            ],
            next_steps: vec!["telegram-agent-cli message trigger-action --help", "telegram-agent-cli message recv --help"],
        },
        LeafHelpMetadata {
            command_path: "telegram-agent-cli message trigger-action",
            summary: "Trigger an action previously discovered from inline buttons, reply keyboards, or bot command menus.",
            prerequisites: vec!["Ensure the selected account exists, the chat resolves, and the target action can be discovered from telegram-agent-cli message list-actions."],
            examples: vec![
                "telegram-agent-cli message trigger-action --as alice --chat qa-bot Start",
                "telegram-agent-cli message trigger-action --as alice --chat qa-bot bot-command:qa_bot:start --wait-timeout 5s",
            ],
            next_steps: vec!["telegram-agent-cli message list-actions --help", "telegram-agent-cli message recv --help"],
        },
        LeafHelpMetadata {
            command_path: "telegram-agent-cli message recv",
            summary: "Read recent messages from a Telegram chat with optional pagination and unread filtering.",
            prerequisites: vec!["Ensure the selected account exists and the chat resolves before reading messages."],
            examples: vec!["telegram-agent-cli message recv --as alice --chat qa-bot --limit 20"],
            next_steps: vec!["telegram-agent-cli message follow --help", "telegram-agent-cli message unread --help"],
        },
        LeafHelpMetadata {
            command_path: "telegram-agent-cli message follow",
            summary: "Collect one or more future matching messages from a Telegram chat.",
            prerequisites: vec!["Ensure the selected account exists and the chat resolves before following messages."],
            examples: vec!["telegram-agent-cli message follow --as alice --chat qa-bot --text-contains Welcome --timeout 20s --limit 2"],
            next_steps: vec!["telegram-agent-cli message wait --help", "telegram-agent-cli message recv --help"],
        },
        LeafHelpMetadata {
            command_path: "telegram-agent-cli message wait",
            summary: "Wait for one matching message within the message command family.",
            prerequisites: vec!["Ensure the selected account exists and the chat resolves before waiting."],
            examples: vec!["telegram-agent-cli message wait --as alice --chat qa-bot --text-contains Welcome --timeout 20s"],
            next_steps: vec!["telegram-agent-cli message follow --help", "telegram-agent-cli message recv --help"],
        },
        LeafHelpMetadata {
            command_path: "telegram-agent-cli message unread",
            summary: "Inspect unread message counts and the latest unread content for a chat.",
            prerequisites: vec!["Ensure the selected account exists and the chat resolves before checking unread state."],
            examples: vec!["telegram-agent-cli message unread --as alice --chat qa-bot"],
            next_steps: vec!["telegram-agent-cli message recv --help", "telegram-agent-cli message wait --help"],
        },
        LeafHelpMetadata {
            command_path: "telegram-agent-cli message forward",
            summary: "Forward one or more messages from one chat to another.",
            prerequisites: vec!["Ensure the selected account exists and both source and destination chats resolve."],
            examples: vec!["telegram-agent-cli message forward --as alice --from group-a --to group-b --message-ids 123,124"],
            next_steps: vec!["telegram-agent-cli message recv --help", "telegram-agent-cli send --help"],
        },
        LeafHelpMetadata {
            command_path: "telegram-agent-cli message edit",
            summary: "Edit the text of an existing message sent by the current account.",
            prerequisites: vec!["Ensure the selected account exists, the chat resolves, and the message was sent by this account."],
            examples: vec!["telegram-agent-cli message edit --as bot --chat @user --message-id 123 --text 'updated text'"],
            next_steps: vec!["telegram-agent-cli send --help", "telegram-agent-cli message recv --help"],
        },
        LeafHelpMetadata {
            command_path: "telegram-agent-cli message pin",
            summary: "Pin a message in a chat so it stays visible at the top.",
            prerequisites: vec!["Ensure the selected account exists, the chat resolves, and the account has pin permission."],
            examples: vec!["telegram-agent-cli message pin --as alice --chat group-a --message-id 42"],
            next_steps: vec!["telegram-agent-cli message unpin --help", "telegram-agent-cli message recv --help"],
        },
        LeafHelpMetadata {
            command_path: "telegram-agent-cli message unpin",
            summary: "Unpin a pinned message in a chat.",
            prerequisites: vec!["Ensure the selected account exists, the chat resolves, and the account has pin permission."],
            examples: vec!["telegram-agent-cli message unpin --as alice --chat group-a --message-id 42"],
            next_steps: vec!["telegram-agent-cli message pin --help", "telegram-agent-cli message recv --help"],
        },
        LeafHelpMetadata {
            command_path: "telegram-agent-cli message download",
            summary: "Download media attached to a message to a local file path.",
            prerequisites: vec!["Ensure the selected account exists, the chat resolves, and the message contains downloadable media."],
            examples: vec!["telegram-agent-cli message download --as alice --chat qa-bot --message-id 123 --output photo.jpg"],
            next_steps: vec!["telegram-agent-cli message recv --help", "telegram-agent-cli send-file --help"],
        },
        LeafHelpMetadata {
            command_path: "telegram-agent-cli send-photo",
            summary: "Send a photo to a resolved Telegram peer with an optional caption and keyboard.",
            prerequisites: vec!["Ensure the selected account exists, the peer resolves, and the image path is readable."],
            examples: vec![
                "telegram-agent-cli send-photo --as alice --to qa-bot photo.jpg",
                "telegram-agent-cli send-photo --as bot --to @user image.png --caption 'Look!' --inline-keyboard '[\"Like:callback:1\"]'",
            ],
            next_steps: vec!["telegram-agent-cli message recv --help", "telegram-agent-cli send --help"],
        },
        LeafHelpMetadata {
            command_path: "telegram-agent-cli bot set-commands",
            summary: "Set the bot command menu displayed in the chat when users type /.",
            prerequisites: vec!["Ensure the selected account is a logged-in bot with the appropriate permissions."],
            examples: vec!["telegram-agent-cli bot set-commands --as mybot --commands '/start|Start the bot,/help|Show help'"],
            next_steps: vec!["telegram-agent-cli bot set-info --help", "telegram-agent-cli account --help"],
        },
        LeafHelpMetadata {
            command_path: "telegram-agent-cli bot set-info",
            summary: "Set the bot description and about text visible on the bot profile.",
            prerequisites: vec!["Ensure the selected account is a logged-in bot with the appropriate permissions."],
            examples: vec!["telegram-agent-cli bot set-info --as mybot --description 'A helpful bot' --about 'v1.0'"],
            next_steps: vec!["telegram-agent-cli bot set-commands --help", "telegram-agent-cli account --help"],
        },
    ];
    assert(r@.len() == leaf_help_paths().len());
    assert(leaf_view(r@[0]) == leaf_help_entries()[0]) by {
        assert(static_views(r@[0].prerequisites@) =~= leaf_help_entries()[0].prerequisites);
        assert(static_views(r@[0].examples@) =~= leaf_help_entries()[0].examples);
        assert(static_views(r@[0].next_steps@) =~= leaf_help_entries()[0].next_steps);
    }
    assert(leaf_view(r@[1]) == leaf_help_entries()[1]) by {
        assert(static_views(r@[1].prerequisites@) =~= leaf_help_entries()[1].prerequisites);
        assert(static_views(r@[1].examples@) =~= leaf_help_entries()[1].examples);
        assert(static_views(r@[1].next_steps@) =~= leaf_help_entries()[1].next_steps);
    }
    assert(leaf_view(r@[2]) == leaf_help_entries()[2]) by {
        assert(static_views(r@[2].prerequisites@) =~= leaf_help_entries()[2].prerequisites);
        assert(static_views(r@[2].examples@) =~= leaf_help_entries()[2].examples);
        assert(static_views(r@[2].next_steps@) =~= leaf_help_entries()[2].next_steps);
    }
    assert(leaf_view(r@[3]) == leaf_help_entries()[3]) by {
        assert(static_views(r@[3].prerequisites@) =~= leaf_help_entries()[3].prerequisites);
        assert(static_views(r@[3].examples@) =~= leaf_help_entries()[3].examples);
        assert(static_views(r@[3].next_steps@) =~= leaf_help_entries()[3].next_steps);
    }
    assert(leaf_view(r@[4]) == leaf_help_entries()[4]) by {
        assert(static_views(r@[4].prerequisites@) =~= leaf_help_entries()[4].prerequisites);
        assert(static_views(r@[4].examples@) =~= leaf_help_entries()[4].examples);
        assert(static_views(r@[4].next_steps@) =~= leaf_help_entries()[4].next_steps);
    }
    assert(leaf_view(r@[5]) == leaf_help_entries()[5]) by {
        assert(static_views(r@[5].prerequisites@) =~= leaf_help_entries()[5].prerequisites);
        assert(static_views(r@[5].examples@) =~= leaf_help_entries()[5].examples);
        assert(static_views(r@[5].next_steps@) =~= leaf_help_entries()[5].next_steps);
    }
    assert(leaf_view(r@[6]) == leaf_help_entries()[6]) by {
        assert(static_views(r@[6].prerequisites@) =~= leaf_help_entries()[6].prerequisites);
        assert(static_views(r@[6].examples@) =~= leaf_help_entries()[6].examples);
        assert(static_views(r@[6].next_steps@) =~= leaf_help_entries()[6].next_steps);
    }
    assert(leaf_view(r@[7]) == leaf_help_entries()[7]) by {
        assert(static_views(r@[7].prerequisites@) =~= leaf_help_entries()[7].prerequisites);
        assert(static_views(r@[7].examples@) =~= leaf_help_entries()[7].examples);
        assert(static_views(r@[7].next_steps@) =~= leaf_help_entries()[7].next_steps);
    }
    assert(leaf_view(r@[8]) == leaf_help_entries()[8]) by {
        assert(static_views(r@[8].prerequisites@) =~= leaf_help_entries()[8].prerequisites);
        assert(static_views(r@[8].examples@) =~= leaf_help_entries()[8].examples);
        assert(static_views(r@[8].next_steps@) =~= leaf_help_entries()[8].next_steps);
    }
    assert(leaf_view(r@[9]) == leaf_help_entries()[9]) by {
        assert(static_views(r@[9].prerequisites@) =~= leaf_help_entries()[9].prerequisites);
        assert(static_views(r@[9].examples@) =~= leaf_help_entries()[9].examples);
        assert(static_views(r@[9].next_steps@) =~= leaf_help_entries()[9].next_steps);
    }
    assert(leaf_view(r@[10]) == leaf_help_entries()[10]) by {
        assert(static_views(r@[10].prerequisites@) =~= leaf_help_entries()[10].prerequisites);
        assert(static_views(r@[10].examples@) =~= leaf_help_entries()[10].examples);
        assert(static_views(r@[10].next_steps@) =~= leaf_help_entries()[10].next_steps);
    }
    assert(leaf_view(r@[11]) == leaf_help_entries()[11]) by {
        assert(static_views(r@[11].prerequisites@) =~= leaf_help_entries()[11].prerequisites);
        assert(static_views(r@[11].examples@) =~= leaf_help_entries()[11].examples);
        assert(static_views(r@[11].next_steps@) =~= leaf_help_entries()[11].next_steps);
    }
    assert(leaf_view(r@[12]) == leaf_help_entries()[12]) by {
        assert(static_views(r@[12].prerequisites@) =~= leaf_help_entries()[12].prerequisites);
        assert(static_views(r@[12].examples@) =~= leaf_help_entries()[12].examples);
        assert(static_views(r@[12].next_steps@) =~= leaf_help_entries()[12].next_steps);
    }
    assert(leaf_view(r@[13]) == leaf_help_entries()[13]) by {
        assert(static_views(r@[13].prerequisites@) =~= leaf_help_entries()[13].prerequisites);
        assert(static_views(r@[13].examples@) =~= leaf_help_entries()[13].examples);
        assert(static_views(r@[13].next_steps@) =~= leaf_help_entries()[13].next_steps);
    }
    assert(leaf_view(r@[14]) == leaf_help_entries()[14]) by {
        assert(static_views(r@[14].prerequisites@) =~= leaf_help_entries()[14].prerequisites);
        assert(static_views(r@[14].examples@) =~= leaf_help_entries()[14].examples);
        assert(static_views(r@[14].next_steps@) =~= leaf_help_entries()[14].next_steps);
    }
    assert(leaf_view(r@[15]) == leaf_help_entries()[15]) by {
        assert(static_views(r@[15].prerequisites@) =~= leaf_help_entries()[15].prerequisites);
        assert(static_views(r@[15].examples@) =~= leaf_help_entries()[15].examples);
        assert(static_views(r@[15].next_steps@) =~= leaf_help_entries()[15].next_steps);
    }
    assert(leaf_view(r@[16]) == leaf_help_entries()[16]) by {
        assert(static_views(r@[16].prerequisites@) =~= leaf_help_entries()[16].prerequisites);
        assert(static_views(r@[16].examples@) =~= leaf_help_entries()[16].examples);
        assert(static_views(r@[16].next_steps@) =~= leaf_help_entries()[16].next_steps);
    }
    assert(leaf_view(r@[17]) == leaf_help_entries()[17]) by {
        assert(static_views(r@[17].prerequisites@) =~= leaf_help_entries()[17].prerequisites);
        assert(static_views(r@[17].examples@) =~= leaf_help_entries()[17].examples);
        assert(static_views(r@[17].next_steps@) =~= leaf_help_entries()[17].next_steps);
    }
    assert(leaf_view(r@[18]) == leaf_help_entries()[18]) by {
        assert(static_views(r@[18].prerequisites@) =~= leaf_help_entries()[18].prerequisites);
        assert(static_views(r@[18].examples@) =~= leaf_help_entries()[18].examples);
        assert(static_views(r@[18].next_steps@) =~= leaf_help_entries()[18].next_steps);
    }
    assert(leaf_view(r@[19]) == leaf_help_entries()[19]) by {
        assert(static_views(r@[19].prerequisites@) =~= leaf_help_entries()[19].prerequisites);
        assert(static_views(r@[19].examples@) =~= leaf_help_entries()[19].examples);
        assert(static_views(r@[19].next_steps@) =~= leaf_help_entries()[19].next_steps);
    }
    assert(leaf_view(r@[20]) == leaf_help_entries()[20]) by {
        assert(static_views(r@[20].prerequisites@) =~= leaf_help_entries()[20].prerequisites);
        assert(static_views(r@[20].examples@) =~= leaf_help_entries()[20].examples);
        assert(static_views(r@[20].next_steps@) =~= leaf_help_entries()[20].next_steps);
    }
    assert(leaf_view(r@[21]) == leaf_help_entries()[21]) by {
        assert(static_views(r@[21].prerequisites@) =~= leaf_help_entries()[21].prerequisites);
        assert(static_views(r@[21].examples@) =~= leaf_help_entries()[21].examples);
        assert(static_views(r@[21].next_steps@) =~= leaf_help_entries()[21].next_steps);
    }
    assert(leaf_view(r@[22]) == leaf_help_entries()[22]) by {
        assert(static_views(r@[22].prerequisites@) =~= leaf_help_entries()[22].prerequisites);
        assert(static_views(r@[22].examples@) =~= leaf_help_entries()[22].examples);
        assert(static_views(r@[22].next_steps@) =~= leaf_help_entries()[22].next_steps);
    }
    assert(leaf_view(r@[23]) == leaf_help_entries()[23]) by {
        assert(static_views(r@[23].prerequisites@) =~= leaf_help_entries()[23].prerequisites);
        assert(static_views(r@[23].examples@) =~= leaf_help_entries()[23].examples);
        assert(static_views(r@[23].next_steps@) =~= leaf_help_entries()[23].next_steps);
    }
    assert(leaf_view(r@[24]) == leaf_help_entries()[24]) by {
        assert(static_views(r@[24].prerequisites@) =~= leaf_help_entries()[24].prerequisites);
        assert(static_views(r@[24].examples@) =~= leaf_help_entries()[24].examples);
        assert(static_views(r@[24].next_steps@) =~= leaf_help_entries()[24].next_steps);
    }
    assert(leaf_view(r@[25]) == leaf_help_entries()[25]) by {
        assert(static_views(r@[25].prerequisites@) =~= leaf_help_entries()[25].prerequisites);
        assert(static_views(r@[25].examples@) =~= leaf_help_entries()[25].examples);
        assert(static_views(r@[25].next_steps@) =~= leaf_help_entries()[25].next_steps);
    }
    assert(leaf_view(r@[26]) == leaf_help_entries()[26]) by {
        assert(static_views(r@[26].prerequisites@) =~= leaf_help_entries()[26].prerequisites);
        assert(static_views(r@[26].examples@) =~= leaf_help_entries()[26].examples);
        assert(static_views(r@[26].next_steps@) =~= leaf_help_entries()[26].next_steps);
    }
    assert(leaf_view(r@[27]) == leaf_help_entries()[27]) by {
        assert(static_views(r@[27].prerequisites@) =~= leaf_help_entries()[27].prerequisites);
        assert(static_views(r@[27].examples@) =~= leaf_help_entries()[27].examples);
        assert(static_views(r@[27].next_steps@) =~= leaf_help_entries()[27].next_steps);
    }
    assert(leaf_view(r@[28]) == leaf_help_entries()[28]) by {
        assert(static_views(r@[28].prerequisites@) =~= leaf_help_entries()[28].prerequisites);
        assert(static_views(r@[28].examples@) =~= leaf_help_entries()[28].examples);
        assert(static_views(r@[28].next_steps@) =~= leaf_help_entries()[28].next_steps);
    }
    assert(leaf_view(r@[29]) == leaf_help_entries()[29]) by {
        assert(static_views(r@[29].prerequisites@) =~= leaf_help_entries()[29].prerequisites);
        assert(static_views(r@[29].examples@) =~= leaf_help_entries()[29].examples);
        assert(static_views(r@[29].next_steps@) =~= leaf_help_entries()[29].next_steps);
    }
    assert(leaf_view(r@[30]) == leaf_help_entries()[30]) by {
        assert(static_views(r@[30].prerequisites@) =~= leaf_help_entries()[30].prerequisites);
        assert(static_views(r@[30].examples@) =~= leaf_help_entries()[30].examples);
        assert(static_views(r@[30].next_steps@) =~= leaf_help_entries()[30].next_steps);
    }
    assert(leaf_view(r@[31]) == leaf_help_entries()[31]) by {
        assert(static_views(r@[31].prerequisites@) =~= leaf_help_entries()[31].prerequisites);
        assert(static_views(r@[31].examples@) =~= leaf_help_entries()[31].examples);
        assert(static_views(r@[31].next_steps@) =~= leaf_help_entries()[31].next_steps);
    }
    assert(leaf_view(r@[32]) == leaf_help_entries()[32]) by {
        assert(static_views(r@[32].prerequisites@) =~= leaf_help_entries()[32].prerequisites);
        assert(static_views(r@[32].examples@) =~= leaf_help_entries()[32].examples);
        assert(static_views(r@[32].next_steps@) =~= leaf_help_entries()[32].next_steps);
    }
    assert(leaf_view(r@[33]) == leaf_help_entries()[33]) by {
        assert(static_views(r@[33].prerequisites@) =~= leaf_help_entries()[33].prerequisites);
        assert(static_views(r@[33].examples@) =~= leaf_help_entries()[33].examples);
        assert(static_views(r@[33].next_steps@) =~= leaf_help_entries()[33].next_steps);
    }
    assert(leaf_view(r@[34]) == leaf_help_entries()[34]) by {
        assert(static_views(r@[34].prerequisites@) =~= leaf_help_entries()[34].prerequisites);
        assert(static_views(r@[34].examples@) =~= leaf_help_entries()[34].examples);
        assert(static_views(r@[34].next_steps@) =~= leaf_help_entries()[34].next_steps);
    }
    assert(leaf_view(r@[35]) == leaf_help_entries()[35]) by {
        assert(static_views(r@[35].prerequisites@) =~= leaf_help_entries()[35].prerequisites);
        assert(static_views(r@[35].examples@) =~= leaf_help_entries()[35].examples);
        assert(static_views(r@[35].next_steps@) =~= leaf_help_entries()[35].next_steps);
    }
    assert(leaf_view(r@[36]) == leaf_help_entries()[36]) by {
        assert(static_views(r@[36].prerequisites@) =~= leaf_help_entries()[36].prerequisites);
        assert(static_views(r@[36].examples@) =~= leaf_help_entries()[36].examples);
        assert(static_views(r@[36].next_steps@) =~= leaf_help_entries()[36].next_steps);
    }
    assert(leaf_view(r@[37]) == leaf_help_entries()[37]) by {
        assert(static_views(r@[37].prerequisites@) =~= leaf_help_entries()[37].prerequisites);
        assert(static_views(r@[37].examples@) =~= leaf_help_entries()[37].examples);
        assert(static_views(r@[37].next_steps@) =~= leaf_help_entries()[37].next_steps);
    }
    assert(leaf_view(r@[38]) == leaf_help_entries()[38]) by {
        assert(static_views(r@[38].prerequisites@) =~= leaf_help_entries()[38].prerequisites);
        assert(static_views(r@[38].examples@) =~= leaf_help_entries()[38].examples);
        assert(static_views(r@[38].next_steps@) =~= leaf_help_entries()[38].next_steps);
    }
    assert(leaf_view(r@[39]) == leaf_help_entries()[39]) by {
        assert(static_views(r@[39].prerequisites@) =~= leaf_help_entries()[39].prerequisites);
        assert(static_views(r@[39].examples@) =~= leaf_help_entries()[39].examples);
        assert(static_views(r@[39].next_steps@) =~= leaf_help_entries()[39].next_steps);
    }
    r
}

/// The guidance of a command group, found by its full command path.
pub fn command_group_help_metadata(command_path: &str) -> (r: Option<CommandGroupHelpMetadata>)
    ensures
        r is Some <==> group_help_paths().contains(command_path@),
        r is Some ==> r->0.command_path@ == command_path@,
        match spec_group_help(command_path@) {
            Some(v) => r is Some && group_view(r->0) == v,
            None => r is None,
        },
{
    let mut table = command_group_help_table();
    let mut i: usize = 0;
    while i < table.len()
        invariant
            i <= table@.len(),
            table@.len() == group_help_paths().len(),
            forall|k: int| 0 <= k < table@.len() ==> (#[trigger] table@[k]).command_path@ == group_help_paths()[k],
            forall|k: int| 0 <= k < i ==> group_help_paths()[k] != command_path@,
            forall|k: int| 0 <= k < table@.len() ==> group_view(#[trigger] table@[k]) == group_help_entries()[k],
            spec_group_help(command_path@) == group_help_from(i as int, command_path@),
        decreases table@.len() - i,
    {
        if str_eq(table[i].command_path, command_path) {
            let m = table.remove(i);
            return Some(m);
        }
        i = i + 1;
    }
    None
}

/// The guidance of a leaf command, found by its full command path.
pub fn leaf_help_metadata(command_path: &str) -> (r: Option<LeafHelpMetadata>)
    ensures
        r is Some <==> leaf_help_paths().contains(command_path@),
        r is Some ==> r->0.command_path@ == command_path@,
        match spec_leaf_help(command_path@) {
            Some(v) => r is Some && leaf_view(r->0) == v,
            None => r is None,
        },
{
    let mut table = leaf_help_table();
    let mut i: usize = 0;
    while i < table.len()
        invariant
            i <= table@.len(),
            table@.len() == leaf_help_paths().len(),
            forall|k: int| 0 <= k < table@.len() ==> (#[trigger] table@[k]).command_path@ == leaf_help_paths()[k],
            forall|k: int| 0 <= k < i ==> leaf_help_paths()[k] != command_path@,
            forall|k: int| 0 <= k < table@.len() ==> leaf_view(#[trigger] table@[k]) == leaf_help_entries()[k],
            spec_leaf_help(command_path@) == leaf_help_from(i as int, command_path@),
        decreases table@.len() - i,
    {
        if str_eq(table[i].command_path, command_path) {
            let m = table.remove(i);
            return Some(m);
        }
        i = i + 1;
    }
    None
}

} // verus!
