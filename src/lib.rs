//! The core of a notebook calculator with physical quantities.
//!
//! - `lexer`: source text to tokens with byte spans.
//! - `parser`: a Pratt parser with assignment, function definition, implicit
//!   multiplication and the `to` conversion operator.
//! - `ast`, `ir`: expression trees and their post-order lowering to opcodes.
//! - `units`, `types`: the unit table with exact scales, metric prefixes and
//!   dimension arithmetic.
//! - `rules`: how the stack machine combines operands (kinds, dimensions,
//!   unit labels, error sentinels) and converts units.
//! - `vm`: the stack machine over operand shapes, one opcode at a time,
//!   telling its caller what to do with the magnitudes.
//! - `binder`: the names a cell defines and reads.
//! - `notebook`: preparing a notebook line for evaluation.
//! - `text`, `diag`: string helpers and diagnostics.

pub mod ast;
pub mod binder;
pub mod diag;
pub mod ir;
pub mod lexer;
pub mod parser;
pub mod rules;
pub mod text;
pub mod types;
pub mod units;
pub mod notebook;
pub mod vm;
