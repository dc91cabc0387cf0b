//! A log-line formatter that switches at run time between the pipeline's plain
//! line and a dimmed line, following a shared flag.
pub mod error;
pub mod format;
pub mod level;
pub mod switch;
pub mod timestamp;
