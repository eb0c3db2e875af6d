//! Bytecode decoding and just-in-time translation to x86-64.
pub mod concat;
pub mod decoding;
pub mod opcode;
pub mod parser;
pub mod x86_64;

use vstd::prelude::*;

use crate::jit::parser::{parse, parse_program};
use crate::jit::x86_64::{into_boxed, jit_ok, jit_state, jit_x86_64};

verus! {

/// Decodes a function body and translates it to x86-64 machine code.
/// The body must decode and every decoded instruction must be translatable.
pub fn jit_function(code: Box<[u8]>, context_switch_addr: u64) -> (res: Box<[u8]>)
    requires
        parse_program(code@) is Ok,
        jit_ok(parse_program(code@)->Ok_0, context_switch_addr),
    ensures
        res@ == jit_state(
            parse_program(code@)->Ok_0,
            parse_program(code@)->Ok_0.len(),
            context_switch_addr,
        ).0,
{
    let ghost program = parse_program(code@)->Ok_0;
    let parsed = parse(code);
    match parsed {
        Ok(ops) => {
            assert(ops@ == program);
            jit_x86_64(&ops, context_switch_addr).0
        },
        Err(_) => {
            proof {
                assert(false);
            }
            into_boxed(Vec::new())
        },
    }
}

} // verus!
