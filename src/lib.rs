//! Periodic capture of a database's session-activity table into an aligned,
//! append-only text log: rendering of rows, column-width tracking, block
//! encoding, and the decisions of the resilient collection loop.

pub mod printer;
pub mod cells;
pub mod collector;
pub mod shutdown;
