//! A chronometer: measures elapsed monotonic time across start, pause and
//! resume cycles, and records laps.

mod chronometer;
mod clock;
mod elapsed;
pub mod laws;
mod text;

pub use chronometer::{Chronometer, ChronometerModel};
pub use elapsed::Elapsed;
pub use text::render;
