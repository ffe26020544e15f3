//! Verified core of a media shell: a typed proxy in front of a playback
//! engine's untyped property and event interface, and the staging logic of a
//! GPU compositor that streams pixel rectangles into textures.

pub mod text;

pub mod registry;
pub mod frame;
pub mod staging;
pub mod renderer;
pub mod property;
pub mod player;
pub mod config;
pub mod types;
pub mod handler;
pub mod wire;
pub mod ipc;
pub mod input;
