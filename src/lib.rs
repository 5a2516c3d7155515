//! The verified core of a bridge that runs a terminal application either on a
//! real terminal or inside a window that hosts an embedded terminal engine.

pub mod scroll;
pub mod keyboard;
pub mod present;
pub mod geometry;
pub mod input;
pub mod app_loop;
pub mod host;
