//! Verified core of a heads-up display for coding-agent sessions.
use vstd::prelude::*;

pub mod text;
pub mod util;
pub mod events;
pub mod json;
pub mod watcher;
pub mod loader;
pub mod session;
pub mod demo;
pub mod theme;
pub mod hud;
pub mod ipc;
pub mod surface;
pub mod layout;
pub mod shell;
pub mod raster;

verus! {
} // verus!
