//! Structured log event rendering with colored, headered, multi-line output,
//! together with small calendar value types.

pub mod clock;
pub mod datetime;
pub mod extract;
pub mod laws;
pub mod render;
pub mod span;
pub mod style;
pub mod text;
pub mod time;
