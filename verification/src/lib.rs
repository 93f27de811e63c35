//! Decision logic of a screenshot tool for a Wayland compositor: which
//! windows can be picked, how a geometry is written, and how an interactive
//! window selection reacts when the desktop changes underneath it.

pub mod compositor;
pub mod error;
pub mod geometry;
pub mod model;
pub mod output;
pub mod protocol;
pub mod reactive;
pub mod selector;
pub mod text;
pub mod watcher;
