//! The text of the command line's reports.
//!
//! A report is text appended to a buffer; whoever asked for it decides where
//! the text goes.

pub mod scan;
pub mod watch;
