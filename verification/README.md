# UnpinBot

A Telegram bot that unpins channel posts forwarded automatically into the
connected discussion group. What the bot decides is a library verified with
Verus; a program around it talks to Telegram and to the disk.

- `src/` is the library. Each function states in its contract what it returns,
  how it changes the enabled chats and which rewrite of the state file it may
  have made, and Verus proves it. Six outside functions are believed to do
  what their declarations say: `reqwest::Proxy::all`, the `{:?}` of a text,
  `char::is_whitespace`, `str::to_lowercase`, `Path::parent` and
  `Path::with_extension`.
  - `config`: configuration from environment variables
  - `i18n`: the built-in catalogs and which of them a sender gets
  - `path`: the directory and the sibling of a file
  - `state`: the set of enabled chats, its rewrite on disk (atomic where the
    path plainly ends in a file name), and what becomes of a change that cannot
    be saved
  - `retry`, `rights`, `unpin`: retried requests, who may do what, unpinning,
    migrated groups and changed rights
  - `commands`: parsing and handling of the commands
  - `profile`: menus and descriptions
  - `dispatch`: which handler an update goes to, and the order of the start
- `tests/` runs the library on concrete values.
- `app/` is the program: environment, files, Telegram.

`takecell` stands in `Cargo.toml` for its version only: `teloxide-core` needs
it, and its later versions need a later compiler.

## Configuration

| Variable | Required | Default | Description |
| --- | --- | --- | --- |
| `TELOXIDE_TOKEN` | yes | | Bot token from @BotFather |
| `TELOXIDE_PROXY` | no | | Proxy for all Telegram requests, e.g. `socks5://127.0.0.1:1080` |
| `UNPINBOT_STATE_PATH` | no | `pers_data/state.json` | Enabled-chats state file |
| `RUST_LOG` | no | `info` | Log level (`warn` for quiet, `debug` for detail) |

## Usage

- `/enable`: enable auto-unpin in the current group (administrators only; the
  bot needs the pin-messages permission)
- `/disable`: disable auto-unpin
- `/start`, `/help`: about and help
