//! Sample-generation core of a small audio synthesiser.
//!
//! The library holds the integer side of synthesis: session configuration and
//! one-shot buffer sizing, the square wave's quantiser on single-precision
//! sample bit patterns, and the playback driver that paces phase ticks and
//! buffer submission.

pub mod playback;
pub mod session;
pub mod square;
