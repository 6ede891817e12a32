//! Focus management for a tiling window manager: given the current output and
//! workspace topology and the name of a target workspace, decide which window
//! manager commands bring that workspace onto the active output.
pub mod command;
pub mod laws;
pub mod model;
pub mod reconcile;
pub mod wm;
