# now_playing

Keeps the system media controls (MPRIS on Linux, the SMTC on Windows, the
Now Playing centre on macOS) and a Discord rich-presence activity in line
with what a player is playing.

## Layout

- `src/` — the verified library (Verus). It makes the decisions of the
  Discord presence, of the session's dispatcher and of the Linux, Windows
  and macOS media controls, and proves them against their contracts:
  - `model.rs`: the payloads (times in whole milliseconds) and their views;
  - `text.rs`: prefix tests and `http://` → `https://` replacement, with the
    proof that the upgrade is idempotent;
  - `discord/`: the Discord presence as a state machine. Each operation
    answers with one request for the IPC client (`Connect`, `SetActivity`,
    `ClearActivity`, `Close` or `Idle`); the caller reports the outcome with
    `resume` and carries out the next request. `timestamps.rs` computes the
    progress bar, `activity.rs` describes the activity, `laws.rs` states what
    holds over all states (cooldown, debounce, termination of request
    chains, ...);
  - `coordinator.rs`: how each session command is dispatched between the
    Discord presence and the media controls;
  - `platform/`: the media controls without a platform (`noop`), the
    decisions of the Linux (MPRIS) controls with the player's configuration,
    those of the Windows controls with the 100-ns time conversion, and those
    of the macOS controls (command events, what is shown of a song).
- `app/` — ordinary Rust around the library: the session handle, the worker
  thread and its runtime, the Discord IPC client, and the platform drivers.
- `tests/` — tests of the library on concrete values.
