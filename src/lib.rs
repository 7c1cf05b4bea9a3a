//! An interpreter for the eight-instruction tape language: a scanner that
//! case-folds source bytes into tokens, and an engine that runs those tokens
//! against a fixed-size tape of wrapping byte cells.
use vstd::prelude::*;

pub mod engine;
pub mod laws;
pub mod scanner;

verus! {

pub use engine::{End, EngineState, InterpretError, Interpreter, Run, Step};
pub use scanner::scan_source;

} // verus!
