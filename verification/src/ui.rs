//! The viewer: list selection, the application state machine, key handling
//! and the text it shows.

pub mod selection;
pub mod app;
pub mod events;
pub mod render;

pub use app::{App, AppState, Mode};
