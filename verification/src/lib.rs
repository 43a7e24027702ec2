//! Text metrics: character, word and line counts of a text, the report that
//! holds them, and the rules by which the report is obtained and shown.

pub mod decimal;
pub mod input;
pub mod metrics;
pub mod outcome;
pub mod present;
pub mod report;
pub mod session;
pub mod whitespace;

pub use crate::metrics::{count_char, count_lines, count_words};
pub use crate::report::{analyze, Report};
