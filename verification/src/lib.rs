//! Two-valued Boolean algebra: the eight classic operators, the textual
//! forms of truth values, and truth tables rendered as text.
//!
//! - [`op`]: the operators and their names.
//! - [`parse`]: reading truth values and operator names from tokens.
//! - [`eval`]: applying an operator to one or two truth values.
//! - [`tables`]: truth tables as text.
//! - [`error`]: the ways an evaluation can fail.
//! - [`text`]: ASCII case folding and comparison of tokens.

pub mod error;
pub mod eval;
pub mod op;
pub mod parse;
pub mod tables;
pub mod text;

pub use error::Error;
pub use eval::{apply, bit, eval};
pub use op::{all_ops, Op};
pub use parse::{parse_bool, parse_op};
pub use tables::{all_tables, table};
