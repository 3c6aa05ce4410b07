# akagi

The decision logic of the Akagi mahjong assistant, written in Verus and
verified: every public function states what it returns or changes, and the
library's laws are proved.

## Layout

- `src/` — the verified library.
  - `tile`, `mjai`, `json` — mjai tile names and their order, mjai events,
    decoded JSON values.
  - `majsoul`, `tenhou`, `bridge` — turning platform messages into mjai
    events: the Majsoul action translator and the Tenhou meld and seat
    arithmetic.
  - `bot` — when the bot is consulted, how events are batched for it, and
    how it is started for a game.
  - `autoplay`, `response_cycle`, `click_plan` — the click plan of a bot
    action (buttons, rack slot, call candidate, pauses), how one bot response is confirmed and
    clicked, and how a plan's clicks are carried out.
  - `score`, `tracker` — scoring a claimed win and the tenpai check
    through the riichi engine; bookkeeping around the engine's table.
  - `history` — the per-game recorder and the history filter.
  - `install`, `runtime`, `util`, `config` — installing bots from GitHub
    releases (the install's steps and rules), Python environment syncing, path resolution, configuration.
  - `proxy`, `capture`, `inspector`, `ipc`, `logger` — naming and framing
    of captured traffic, browser capture decisions, inspector records, the
    frontend's payloads and notices.
- `tests/` — tests of the library.
- `app/` — the edges around it: JSON and TOML encodings, file-system work
  (configuration file, Python runtime lookup, sync stamps and `uv sync`, bot install
  and deletion, archive extraction), and reading the engine's live table.
  The long-running loops (bot process, browser capture, proxy, frontend
  commands) are not part of this crate.
