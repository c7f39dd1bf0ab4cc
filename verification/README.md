# oxicode_tui

The verified core of the oxicode terminal front end, written in Verus.

- `src/` is the library. Verus proves its functions against their
  `requires`/`ensures` contracts; the few calls into std and into the
  unicode-width and base64 crates stand behind small trusted wrappers whose
  contracts say only what those crates document. It holds the render state and what changes
  it: key routing for the composer, overlays and modals; projecting agent
  and session events onto the transcript; folding, search and scrollback
  commits; what settings edits report and the memory-daemon prober's
  revive rule. It also holds what a frame shows (overlay panels, the slash
  popup, the todo pane, status chips, transcript lines and the live
  region's row plan) and the decisions of the OAuth login and of desktop
  notifications. `src/laws.rs` states properties that span several
  operations.
- `tests/` runs the library on concrete values.
- `app/` is ordinary Rust around the library: terminal setup, reading keys,
  the event loop, settings edits and the daemon prober against their
  stores, and the `Host` trait through which the embedding program
  supplies the agent session, settings and credential stores, the text
  editor and the screen.
