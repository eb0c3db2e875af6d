//! HIVE: a lightweight native runtime for many small isolated processes.
use vstd::prelude::*;

pub mod jit;
pub mod parser;
pub mod runtime;
pub mod error;

verus! {

} // verus!
