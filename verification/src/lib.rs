//! The logic of a terminal emulator for Wayland.
use vstd::prelude::*;

pub mod app;
pub mod automation;
pub mod bytes;
pub mod config;
pub mod egl;
pub mod graphics;
pub mod input;
pub mod input_types;
pub mod interaction;
pub mod launch;
pub mod number;
pub mod platform;
pub mod pointer;
pub mod search;
pub mod settings;
pub mod single_line_input;
pub mod tabs;
pub mod terminal;
pub mod text;

verus! {

} // verus!
