# sly

A Discord bot that links Discord users to Steam accounts and suggests a
random game from a user's Steam library (`!rg`) or wishlist (`!rw`).

- `src/` is the verified library: routing a message to a command
  (`dispatch`, `bot`, `command_parse`), the store of links (`data::bindings`,
  with its laws), what each command answers (`commands`), the embeds
  (`embed`), random picks (`random`) and text helpers (`text`).
- `app/` is the running bot: the Discord gateway and HTTP client, the Steam
  Web API requests, `bindings.json` on disk and the JSON forms of the data.
- `tests/` runs the library on concrete values.
