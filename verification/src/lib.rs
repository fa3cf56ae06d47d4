//! The terminal model: what a terminal view does with the events of its emulator, with the
//! user's input and with the mouse, and how a shell is launched and its failures are reported.

pub mod builder;
pub mod config;
pub mod error;
pub mod event;
pub mod selection;
pub mod shell;
pub mod size;
pub mod terminal;
pub mod text;
