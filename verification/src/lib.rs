//! Verified core of the CNA projection of the XNA 4.0 graphics and gamer
//! services APIs: value identities, descriptor state machines, transfer and
//! draw validation, model graphs, and the event and asynchronous-result
//! registries.

pub mod kinds;
pub mod values;
pub mod error;
pub mod buffer;
pub mod resource;
pub mod value;
pub mod states;
pub mod presentation;
pub mod display;
pub mod model;
pub mod mesh;
pub mod async_result;
pub mod gamer_events;
pub mod gamer_collection;
pub mod sprite_batch;
pub mod scoped_graphics;
pub mod draw;
pub mod bindings;
pub mod device;
pub mod gamer_core;
pub mod leaderboard;
pub mod avatar;
pub mod effect;
pub mod targets;
pub mod sprite_font;
pub mod guide;
