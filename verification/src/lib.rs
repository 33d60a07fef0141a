//! Level-filtered console logging, split into a verified core and a thin
//! writer.
//!
//! The core decides whether a message passes the configured threshold and, if
//! it does, lays out the exact sequence of colour changes and text writes that
//! make up the line. Carrying that sequence out on a terminal is left to the
//! caller.

pub mod clock;
pub mod emit;
pub mod level;
pub mod registry;

pub use emit::{compose, log, Emission, Op};
pub use level::{Color, LogLevel, Stream};
pub use registry::{set_log_level, Registry};
