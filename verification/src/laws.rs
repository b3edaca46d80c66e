//! What the library promises, stated on the fields of what goes in and comes out.

pub mod collector;
pub mod consumer;
pub mod daemon;
pub mod kanshi;
pub mod manager;
pub mod modes;
pub mod monitor;
pub mod profile;
pub mod scale;
pub mod server;
pub mod text;
pub mod wayland_observer;
pub mod calls;
