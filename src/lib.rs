//! Safe building blocks for the HiTrace tracing system of OpenHarmony: output
//! levels and their native codes, saturating counter values, NUL-terminated
//! span names, and a scoped span guard that finishes its span when dropped.

pub mod level;
pub mod count;
pub mod name;
pub mod trace;
