//! Verified core of a CLAP-style audio plugin host.
//!
//! The crate models the three pieces that must cooperate so that a real-time
//! audio callback never blocks on the control thread: the plugin lifecycle
//! controller (`plugin_host`), the lock-free control-to-audio bridge built on
//! `rtrb` (`bridge`), and the audio-side adapter that drains that bridge with
//! last-message-wins coalescing (`adapter`). Parameter metadata and the
//! flush/read-back protocol live in `params` and `plugin_host`; `container`
//! holds the set of loaded plugins that a control surface works with.
//!
//! Everything that talks to an actual plugin binary or to an audio device is
//! kept outside this crate; the library exchanges plain values with that glue
//! and states in its contracts exactly how it reacts to every outcome.

pub mod adapter;
pub mod bridge;
pub mod config;
pub mod container;
pub mod errors;
pub mod lifecycle;
pub mod params;
pub mod plugin_host;
