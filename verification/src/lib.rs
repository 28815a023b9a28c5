//! A `wc`-style counting library: byte, line, word and character metrics for
//! a text, plus the argument handling of the command-line front end.
//!
//! Every function here is pure: the callers read files and print lines, and
//! hand the content in as plain values.

pub mod basename;
pub mod counts;
pub mod decimal;
pub mod dispatch;
pub mod report;
pub mod text;
