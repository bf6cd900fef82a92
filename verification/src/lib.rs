//! Disk-usage breakdown of user profiles and a directory explorer, as a
//! verified library: size formatting, profile accounting, directory totals,
//! the text shown on screen, and the key-driven state machine of the viewer.
//! The terminal, the file system and the background scan live in the binary.

pub mod text;
pub mod helpers;
pub mod scanner;
pub mod ui;
