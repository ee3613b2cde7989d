# telegram_cli

A command-line tool for driving Telegram accounts and bots from scripts and
agents: sending and reading messages, pressing buttons, running scenario
files, and serving the same operations as MCP tools.

## Layout

- `src/` — the library, verified with Verus. It holds the command-line model
  and help guidance, the JSON/YAML/TOML/table renderers, the result envelope
  and its redaction, the account, context, message, bot, daemon, MCP and REPL
  command logic, scenario planning, keyboard and action handling, the mock
  Telegram adapter, and the sealing of secrets and sessions. Calls into
  outside crates (AES-GCM, SHA-256, base64, `serde_json`, `serde_yaml`,
  `humantime`, `chrono`, `grammers`) go through small trusted wrappers whose
  contracts name what the call returns.
- `tests/` — tests of the library.
- `app/` — the program around it: argument parsing with `clap`, the SQLite
  account database, the live `grammers` adapter, the daemon's sockets and
  processes, the line editor, and printing.
