//! What a call of each operation comes to, stated on what goes in and comes out.

pub mod collector;
pub mod consumer;
pub mod daemon;
pub mod manager;
pub mod monitor;
pub mod text;
pub mod wayland_observer;
