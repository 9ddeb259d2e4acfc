//! Renders one log record into one line of text, for a terminal or for a
//! log file: a fixed-width severity label, a timestamp with millisecond
//! precision, the source location, the emitting thread, and the message,
//! with an optional layer of ANSI color around the console fields.

pub mod ansi;
pub mod severity;
pub mod timestamp;
pub mod record;
pub mod line;
pub mod laws;
