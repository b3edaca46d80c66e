//! Display configuration for Wayland desktops.
//!
//! The library holds the logic of a daemon that observes the displays of a
//! desktop, serves their configuration to clients, and keeps kanshi profiles
//! that bring a configuration back. Everything that touches the outside (the
//! compositor, the bus, files, the clock) is left to the program around it,
//! which hands the library what it observed and does what the library decides.

pub mod collector;
pub mod consumer;
pub mod daemon;
pub mod kanshi;
pub mod laws;
pub mod manager;
pub mod modes;
pub mod monitor;
pub mod order;
pub mod profile;
pub mod scale;
pub mod server;
pub mod state_set;
pub mod sway;
pub mod text;
pub mod wayland_observer;

pub use crate::kanshi::{get_kanshi_paths, reload_kanshi, KanshiPaths};
pub use crate::manager::{
    wayland_side_effect_stage, DisplayManager, DisplayManagerProperties, ServerError,
    WaylandSideEffectStage,
};
pub use crate::server::DisplayServer;
