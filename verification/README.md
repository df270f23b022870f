# cna

A verified core for the CNA projection of the XNA 4.0 graphics and gamer
services APIs. The native runtime does the drawing, the transfers and the
online services; this crate holds the decisions around those calls, each with
a contract proved by Verus:

- value identities and their native numbering (`kinds`, `values`, `states`,
  `presentation`, `display`);
- argument validation for buffer transfers, draws, render targets, sprite
  batches and fonts (`buffer`, `draw`, `bindings`, `targets`, `sprite_batch`,
  `sprite_font`, `scoped_graphics`, `device`);
- resource lifetime and disposal events (`resource`, `gamer_events`);
- model bone graphs and mesh assembly (`model`, `mesh`);
- effect reflection planning and parameter descriptors (`effect`);
- gamer collections, asynchronous results, leaderboards, avatars and the
  guide (`gamer_collection`, `async_result`, `gamer_core`, `leaderboard`,
  `avatar`, `guide`);
- the error vocabulary with its fixed messages (`error`).

Laws that span several calls (round trips through the native encodings,
one-shot asynchronous results, registration and removal of handlers, the
uniqueness of a model's effect list) are public proof functions named
`law_*` beside the functions they speak of.

`app/` holds what Verus does not take: floating-point accessors, panic-safe
event emission, `SystemTime` conversion and `Display` for errors.
`tests/` exercises the library on concrete values.
