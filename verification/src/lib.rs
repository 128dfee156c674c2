//! Native backend logic for a desktop chat/overlay application: detection of
//! running game processes, heuristic naming of unknown games, planning of
//! synthesized input events, and tray tooltip text.

pub mod catalog;
pub mod detect;
pub mod heuristic;
pub mod input;
pub mod snapshot;
pub mod text;
pub mod tray;
