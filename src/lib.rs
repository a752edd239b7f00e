//! Image format conversion: the format-name table, log-level parsing, path
//! classification, the command dispatch decisions, format detection and the
//! reports, all verified. Opening, decoding, encoding and writing files and
//! walking directories are done by the caller.

mod text;
pub mod format;
pub mod level;
pub mod dispatch;
pub mod outcome;
