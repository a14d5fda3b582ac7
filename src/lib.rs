//! A minimal logging backend: severity levels, a sink that filters and
//! renders events as lines for the standard error stream, and the
//! install-once registration state that routes events to that sink.

pub mod level;
pub mod sink;
pub mod logging;
