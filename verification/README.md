# vk_client

A VKontakte messenger client whose core is verified with Verus.

- `src/` — the verified library: text editing and fuzzy search, command
  completion, mapping of API replies to what the client shows, API request
  building, the long-poll state machine, upload bodies, screen layout, and
  the terminal client's update loop (`update.rs` and the `update_*` modules)
  and key bindings; `gui.rs` holds the desktop client's state machine.
- `tests/` — tests run against the compiled library.
- `app/` — the terminal program: terminal input and drawing (crossterm,
  ratatui), HTTP (reqwest), the token file, and the background work the
  update loop asks for.
