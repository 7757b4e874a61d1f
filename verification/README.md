# fpas_tui

The verified core of the `Std.Tui` Turbo Vision bridge of the FPAS virtual
machine: how `Std.Tui` intrinsics pop and decode their arguments from the VM
stack, the retained object store behind Turbo Vision handles, the rules for
attaching, changing and reading controls, the headless paint plan, the live
view patches that mirror data changes, and the session bookkeeping around
them.

Layout:

- `src/` — the library, written in Verus. `store.rs` holds the object store
  and its invariant; `decode.rs`, `records.rs`, `host_records.rs` and
  `host_args.rs` decode VM values; `controls.rs`, `commands.rs` and
  `readback.rs` are the store operations; `worker.rs`, `create.rs`,
  `intrinsics.rs`, `modal.rs`, `query.rs` and `test_events.rs` are the
  intrinsics; `outline.rs` decodes and flattens outline trees;
  `control_keys.rs` and `control_mouse.rs` route input to the focused or
  hit control; `session.rs` and `live_patch.rs` the session state;
  `paint.rs` the headless paint plan;
  `tv_bridge.rs` the places that work on Turbo Vision views; `laws.rs` the
  properties that tie operations together.
- `tests/` — tests of the library with the real `turbo-vision` crate.
- `app/` — the host side: the live terminal session and the application of
  view patches to its desktop.

What is not here, and why:

- The code built on the `fpas_std` crate (the view registry and its
  frames, the control widgets and their mutation, the hosted event loop
  that polls the console, modal scopes, the headless Turbo Vision backend)
  and the intrinsic dispatch over the bytecode's intrinsic enum: those
  crates are not available to this project, so only the decisions that
  can be taken out of that code stand here (key and pointer routing,
  argument decoding, handler registration, state records).
- The calls of the program's handlers and the rebuild of the live
  desktop from the object store: the host supplies them through the
  `EventSink` trait of `app/`.
