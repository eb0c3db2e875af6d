//! Errors of the runtime as a whole.
use vstd::prelude::*;

use crate::jit::parser::ParseError;
use crate::parser::errors::LoadError;
use crate::runtime::load_exec::FunctionId;

verus! {

/// Why loading or running a program failed.
#[derive(Debug, Clone, PartialEq, Eq, Structural)]
pub enum HiveError {
    /// The file's bytes are malformed.
    Load(LoadError),
    /// A function's bytecode does not decode.
    Parse(ParseError),
    /// The function's code starts in a code section and ends past it.
    FunctionIsInMultipleCodeChunk(FunctionId),
    /// No code section holds the function's code.
    FunctionDoesNotFitInAnyCodeChunk(FunctionId),
    /// The loaded file no longer holds its bytes.
    NoSourceAvailable,
    /// Every process identifier is taken.
    NoPidsAvailable,
    /// The function has not been loaded into executable memory.
    FunctionNotLoaded(FunctionId),
    /// A function without code cannot be loaded.
    EmptyFunction,
    /// A request to the operating system failed: reading the program,
    /// mapping or protecting executable memory.
    Io,
}

} // verus!
