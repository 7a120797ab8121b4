# dp_app

The decisions of a desktop pet, verified with Verus: how it roams, falls and is dragged,
which frames it shows, which points of the screen hit it, what its menus and settings do,
and when its threads wake up.

## Layout

- `src/` is the library. Verus proves the contract of every function in it but for the
  wrappers under "What is believed".
  - `bridge`: frames, play orders, inputs, settings and save backups.
  - `coreloop`: the tiers of the core loop, the phases of the pet, and what gestures,
    moods, inputs, needs and activities lead to.
  - `hit_latest`, `hook_sink`, `interaction_consumer`: from pointer events to hits.
  - `ports`: the pet's window, the monitors and the places to stand on.
  - `supervisor`: window checks, the watchdog over the frames, the frame rate.
  - `tray_menu`, `commands`: what menus and windows ask for.
  - `economy_rt`, `calendar`: the account and the keys of days and weeks.
  - `queue`, `scalar`, `text`: bounded queues, numbers by their bits, strings.
- `tests/` runs the library on concrete values.
- `app/` is ordinary Rust around it: threads, files, JSON and floating point.

The library carries 32-bit floating-point numbers as `scalar::Scalar`, which compares and
clamps them by their bits. It computes with none of them; that is done in `app/`.

## What is believed

Calendar texts and ISO weeks come from `chrono`, the JSON of a saved account from
`serde_json`. Their wrappers are the functions marked `external_body` in `calendar` and
`economy_rt`, each with what it claims.
