# mpc_wallet_apps

Verified decision logic of the MPC wallet front-ends (headless CLI, terminal
UI and native UI), written in Verus.

- `src/` — the library, verified by Verus:
  - `elm` — the front-end model and the `update` transitions of the DKG
    phase and of password submission, with their laws;
  - `password_prompt` — the two-field password prompt (editing, focus,
    validation, submission) and its laws;
  - `wallet_detail` — the BIP-44 accounts table: which derivations to run
    and how their outcomes become rows; titles and the curves summary;
  - `oneshot` — argument checks, wait decisions and messages of the
    one-shot CLI commands;
  - `simulate` — bookkeeping, ceremony order (`sim_step`) and verdict of
    the multi-node simulation;
  - `ui_labels`, `core_requests` — what the native UI shows and asks of
    the shared core;
  - `cli`, `text`, `hex_codec` — helpers (`hex` crate behind a stated
    wrapper).
- `tests/` — tests of the library.
- `app/` — the program around it: runners, channels, timers, rendering,
  serde output and the Slint/tuirealm glue.
