//! Decision logic of a handful of desktop utilities: backlight brightness,
//! sink volume, workspace cycling and a clipboard responder.
//!
//! Every function here works on plain values. Reading the system state and
//! carrying out what a function decided is left to the caller.

pub mod brightness;
pub mod clipboard;
pub mod monitor;
pub mod percent;
pub mod text;
pub mod volume;
