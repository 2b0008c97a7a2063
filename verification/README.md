# codex-telegram-bridge

`codex-telegram-bridge` lets you keep working with Codex threads while you are away from your
computer. While you are present nothing is sent. Once you mark yourself away, the bridge tells
you of threads that wait or are done, and a reply to one of its messages goes back to the
thread that it came from.

## Layout

- `src/` is the library. Its logic is verified with [Verus](https://github.com/verus-lang/verus):
  each function states in its contract what it returns or changes, and the proofs stand beside
  the code.
- `app/` is the program around it: the command line, the SQLite database, the websocket, the
  Discord API, processes and files. It hands plain values to the library and carries out what
  comes back.
- `tests/` runs the library on concrete values.

The program reads every command, and carries out all but those that set up or use Telegram,
manage the daemon as a service, or serve MCP: these end with an error.

## The library

| Modules | What they hold |
| --- | --- |
| `cli`, `grammar`, `arguments`, `help`, `tasks`, `entry` | the command line, its help, and what is done for it |
| `state`, `schema`, `settings`, `table`, `order` | the tables of the state, and how rows are found, kept and sorted |
| `thread`, `codex`, `sync`, `inbox`, `history` | threads: what is read of them, stored, listed and logged |
| `away`, `outbox`, `routes` | away mode, notifications that wait to go out, and where replies go |
| `session`, `ws`, `requests`, `events`, `follow` | the conversation with the Codex app server |
| `live` | the watch over the shared app server: looking at it, starting, ending and resetting it |
| `discord`, `discord_commands`, `messages` | the Discord transport, and the texts that the bridge sends |
| `config`, `projects`, `report`, `shell`, `paths` | the configuration, the projects, and the reports of the commands |
| `json`, `writing`, `text`, `error` | values, their text form, texts and failures |
| `laws` | what holds of the state whatever is done |

## What is not proved

A few calls into other crates and into the standard library are taken at their word. Each
stands behind a small function that says what it is taken to do:

- `text`: `String::push` and `str::to_lowercase`
- `json`: `serde_json::to_string` on a text
- `outbox`: `sha2::Sha256::digest`
- `ws`: `url::Url::parse`
