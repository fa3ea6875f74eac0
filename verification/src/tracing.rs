//! What the log should show and how: the output format, the level, and the
//! filter that the subscriber starts from.

pub mod filter;
pub mod instrumentation;
pub mod logger;
