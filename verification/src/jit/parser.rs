//! Decoding of HIVE bytecode into instructions.
use vstd::prelude::*;
use vstd::bytes::{spec_u32_from_le_bytes, spec_u64_from_le_bytes, u32_from_le_bytes, u64_from_le_bytes};
use vstd::slice::slice_subrange;

use crate::jit::opcode::{MemoryOperand, Opcode, Operand, Register, ShiftAmount, Type, Variable};
use crate::jit::x86_64::into_boxed;

verus! {

/// Why bytecode could not be decoded; positions are those just after the offending byte.
#[derive(Debug, Clone, PartialEq, Eq, Structural)]
pub enum ParseError {
    UnexpectedEof,
    UnknownOpcode(u8, usize),
    UnknownHiveOpcode(u8, usize),
    InvalidOperand(u8, usize),
}

/// A decoder over a function's bytecode.
pub struct Parser<'a> {
    code: &'a [u8],
    ptr: usize,
}

// ---------------------------------------------------------------------------
// The bytecode grammar. Each reader takes the bytes and a position and gives
// the value read with the position after it, or the error.
// ---------------------------------------------------------------------------

/// One byte.
pub open spec fn sp_u8(s: Seq<u8>, p: int) -> Result<(u8, int), ParseError> {
    if 0 <= p < s.len() {
        Ok((s[p], p + 1))
    } else {
        Err(ParseError::UnexpectedEof)
    }
}

/// `n` raw bytes.
pub open spec fn sp_bytes(s: Seq<u8>, p: int, n: int) -> Result<(Seq<u8>, int), ParseError> {
    if p + n > s.len() {
        Err(ParseError::UnexpectedEof)
    } else {
        Ok((s.subrange(p, p + n), p + n))
    }
}

/// A little-endian `u32`.
pub open spec fn sp_u32(s: Seq<u8>, p: int) -> Result<(u32, int), ParseError> {
    match sp_bytes(s, p, 4) {
        Ok((b, q)) => Ok((spec_u32_from_le_bytes(b), q)),
        Err(e) => Err(e),
    }
}

/// A little-endian `i32`.
pub open spec fn sp_i32(s: Seq<u8>, p: int) -> Result<(i32, int), ParseError> {
    match sp_u32(s, p) {
        Ok((v, q)) => Ok((v as i32, q)),
        Err(e) => Err(e),
    }
}

/// A little-endian `u64`.
pub open spec fn sp_u64(s: Seq<u8>, p: int) -> Result<(u64, int), ParseError> {
    match sp_bytes(s, p, 8) {
        Ok((b, q)) => Ok((spec_u64_from_le_bytes(b), q)),
        Err(e) => Err(e),
    }
}

/// The register a register byte names, if any.
pub open spec fn register_of_byte(b: u8) -> Option<Register> {
    if b == 0 { Some(Register::Rax) }
    else if b == 1 { Some(Register::Rbx) }
    else if b == 2 { Some(Register::Rcx) }
    else if b == 3 { Some(Register::Rdx) }
    else if b == 4 { Some(Register::Rsi) }
    else if b == 5 { Some(Register::Rdi) }
    else if b == 6 { Some(Register::Rbp) }
    else if b == 7 { Some(Register::Rsp) }
    else if b == 8 { Some(Register::R8) }
    else if b == 9 { Some(Register::R9) }
    else if b == 10 { Some(Register::R10) }
    else if b == 11 { Some(Register::R11) }
    else if b == 12 { Some(Register::R12) }
    else if b == 13 { Some(Register::R13) }
    else if b == 14 { Some(Register::R14) }
    else if b == 15 { Some(Register::R15) }
    else { None }
}

/// A register byte.
pub open spec fn sp_register(s: Seq<u8>, p: int) -> Result<(Register, int), ParseError> {
    match sp_u8(s, p) {
        Ok((b, q)) => match register_of_byte(b) {
            Some(r) => Ok((r, q)),
            None => Err(ParseError::InvalidOperand(b, q as usize)),
        },
        Err(e) => Err(e),
    }
}

/// An optional register: `0xFF` for none, else a register byte.
pub open spec fn sp_opt_register(s: Seq<u8>, p: int) -> Result<(Option<Register>, int), ParseError> {
    match sp_u8(s, p) {
        Ok((b, q)) => if b == 0xFF {
            Ok((None, q))
        } else {
            match sp_register(s, p) {
                Ok((r, q2)) => Ok((Some(r), q2)),
                Err(e) => Err(e),
            }
        },
        Err(e) => Err(e),
    }
}

/// A memory operand: base, index, scale byte and `i32` displacement.
pub open spec fn sp_memory(s: Seq<u8>, p: int) -> Result<(MemoryOperand, int), ParseError> {
    match sp_opt_register(s, p) {
        Ok((base, q1)) => match sp_opt_register(s, q1) {
            Ok((index, q2)) => match sp_u8(s, q2) {
                Ok((scale, q3)) => match sp_i32(s, q3) {
                    Ok((displacement, q4)) => Ok(
                        (MemoryOperand { base, index, scale, displacement }, q4),
                    ),
                    Err(e) => Err(e),
                },
                Err(e) => Err(e),
            },
            Err(e) => Err(e),
        },
        Err(e) => Err(e),
    }
}

/// An operand: a tag byte, then a register, an `i64` immediate, a variable
/// (stored in eight bytes, of which the low four are kept), an `i32` frame
/// offset, or a memory operand.
pub open spec fn sp_operand(s: Seq<u8>, p: int) -> Result<(Operand, int), ParseError> {
    match sp_u8(s, p) {
        Ok((tag, q)) => if tag == 0 {
            match sp_register(s, q) {
                Ok((r, q2)) => Ok((Operand::Register(r), q2)),
                Err(e) => Err(e),
            }
        } else if tag == 1 {
            match sp_u64(s, q) {
                Ok((v, q2)) => Ok((Operand::Immediate(v as i64), q2)),
                Err(e) => Err(e),
            }
        } else if tag == 2 {
            match sp_u64(s, q) {
                Ok((v, q2)) => Ok((Operand::Variable(v as u32), q2)),
                Err(e) => Err(e),
            }
        } else if tag == 3 {
            match sp_i32(s, q) {
                Ok((v, q2)) => Ok((Operand::FrameOffset(v), q2)),
                Err(e) => Err(e),
            }
        } else if tag == 4 {
            match sp_memory(s, q) {
                Ok((m, q2)) => Ok((Operand::Memory(m), q2)),
                Err(e) => Err(e),
            }
        } else {
            Err(ParseError::InvalidOperand(tag, q as usize))
        },
        Err(e) => Err(e),
    }
}

/// One operand.
pub open spec fn sp_operands1(s: Seq<u8>, p: int) -> Result<(Operand, int), ParseError> {
    sp_operand(s, p)
}

/// Two operands in a row.
pub open spec fn sp_operands2(s: Seq<u8>, p: int) -> Result<((Operand, Operand), int), ParseError> {
    match sp_operand(s, p) {
        Ok((a, q)) => match sp_operand(s, q) {
            Ok((b, q2)) => Ok(((a, b), q2)),
            Err(e) => Err(e),
        },
        Err(e) => Err(e),
    }
}

/// Three operands in a row.
pub open spec fn sp_operands3(s: Seq<u8>, p: int) -> Result<((Operand, Operand, Operand), int), ParseError> {
    match sp_operands2(s, p) {
        Ok(((a, b), q)) => match sp_operand(s, q) {
            Ok((c, q2)) => Ok(((a, b, c), q2)),
            Err(e) => Err(e),
        },
        Err(e) => Err(e),
    }
}

/// Builds an instruction from one operand.
pub open spec fn with1(r: Result<(Operand, int), ParseError>, f: spec_fn(Operand) -> Opcode) -> Result<(Opcode, int), ParseError> {
    match r {
        Ok((a, q)) => Ok((f(a), q)),
        Err(e) => Err(e),
    }
}

/// Builds an instruction from two operands.
pub open spec fn with2(r: Result<((Operand, Operand), int), ParseError>, f: spec_fn(Operand, Operand) -> Opcode) -> Result<(Opcode, int), ParseError> {
    match r {
        Ok(((a, b), q)) => Ok((f(a, b), q)),
        Err(e) => Err(e),
    }
}

/// Builds an instruction from three operands.
pub open spec fn with3(r: Result<((Operand, Operand, Operand), int), ParseError>, f: spec_fn(Operand, Operand, Operand) -> Opcode) -> Result<(Opcode, int), ParseError> {
    match r {
        Ok(((a, b, c), q)) => Ok((f(a, b, c), q)),
        Err(e) => Err(e),
    }
}

/// An `F7` group instruction; `q` follows the `F7` byte.
pub open spec fn sp_f7(s: Seq<u8>, q: int) -> Result<(Opcode, int), ParseError> {
    match sp_u8(s, q) {
        Ok((sub, q1)) => if sub == 4 { with1(sp_operand(s, q1), |a: Operand| Opcode::Mul { src: a }) }
            else if sub == 5 { with1(sp_operand(s, q1), |a: Operand| Opcode::Imul { src: a }) }
            else if sub == 6 { with1(sp_operand(s, q1), |a: Operand| Opcode::Div { src: a }) }
            else if sub == 7 { with1(sp_operand(s, q1), |a: Operand| Opcode::Idiv { src: a }) }
            else if sub == 3 { with1(sp_operand(s, q1), |a: Operand| Opcode::Neg { operand: a }) }
            else if sub == 2 { with1(sp_operand(s, q1), |a: Operand| Opcode::Not { operand: a }) }
            else { Err(ParseError::UnknownOpcode(0xF7, q1 as usize)) },
        Err(e) => Err(e),
    }
}

/// An `FF` group instruction; `q` follows the `FF` byte.
pub open spec fn sp_ff(s: Seq<u8>, q: int) -> Result<(Opcode, int), ParseError> {
    match sp_u8(s, q) {
        Ok((sub, q1)) => if sub == 0 { with1(sp_operand(s, q1), |a: Operand| Opcode::Inc { operand: a }) }
            else if sub == 1 { with1(sp_operand(s, q1), |a: Operand| Opcode::Dec { operand: a }) }
            else { Err(ParseError::UnknownOpcode(0xFF, q1 as usize)) },
        Err(e) => Err(e),
    }
}


/// A register, then an operand.
pub open spec fn sp_reg_operand(s: Seq<u8>, q: int, f: spec_fn(Register, Operand) -> Opcode) -> Result<(Opcode, int), ParseError> {
    match sp_register(s, q) {
        Ok((d, q1)) => match sp_operand(s, q1) {
            Ok((a, q2)) => Ok((f(d, a), q2)),
            Err(e) => Err(e),
        },
        Err(e) => Err(e),
    }
}

/// A relative jump with a 32-bit displacement.
pub open spec fn sp_rel32(s: Seq<u8>, q: int, f: spec_fn(i32) -> Opcode) -> Result<(Opcode, int), ParseError> {
    match sp_i32(s, q) {
        Ok((o, q1)) => Ok((f(o), q1)),
        Err(e) => Err(e),
    }
}

/// An operand, then a shift count byte.
pub open spec fn sp_shift_imm(s: Seq<u8>, q: int, f: spec_fn(Operand, ShiftAmount) -> Opcode) -> Result<(Opcode, int), ParseError> {
    match sp_operand(s, q) {
        Ok((a, q1)) => match sp_u8(s, q1) {
            Ok((b, q2)) => Ok((f(a, ShiftAmount::Immediate(b)), q2)),
            Err(e) => Err(e),
        },
        Err(e) => Err(e),
    }
}

/// A two-byte `0F` instruction; `q` follows the `0F` byte.
pub open spec fn sp_0f(s: Seq<u8>, q: int) -> Result<(Opcode, int), ParseError> {
    match sp_u8(s, q) {
        Ok((sub, q1)) => if sub == 0x05 { Ok((Opcode::Syscall, q1)) }
            else if sub == 0xBE { sp_reg_operand(s, q1, |d: Register, a: Operand| Opcode::Movsx8 { dst: d, src: a }) }
            else if sub == 0xBF { sp_reg_operand(s, q1, |d: Register, a: Operand| Opcode::Movsx16 { dst: d, src: a }) }
            else if sub == 0xB6 { sp_reg_operand(s, q1, |d: Register, a: Operand| Opcode::Movzx8 { dst: d, src: a }) }
            else if sub == 0xB7 { sp_reg_operand(s, q1, |d: Register, a: Operand| Opcode::Movzx16 { dst: d, src: a }) }
            else if sub == 0x84 { sp_rel32(s, q1, |o: i32| Opcode::JeRel32 { offset: o }) }
            else if sub == 0x85 { sp_rel32(s, q1, |o: i32| Opcode::JneRel32 { offset: o }) }
            else if sub == 0x8C { sp_rel32(s, q1, |o: i32| Opcode::JlRel32 { offset: o }) }
            else if sub == 0x8E { sp_rel32(s, q1, |o: i32| Opcode::JleRel32 { offset: o }) }
            else if sub == 0x8F { sp_rel32(s, q1, |o: i32| Opcode::JgRel32 { offset: o }) }
            else if sub == 0x8D { sp_rel32(s, q1, |o: i32| Opcode::JgeRel32 { offset: o }) }
            else if sub == 0x82 { sp_rel32(s, q1, |o: i32| Opcode::JbRel32 { offset: o }) }
            else if sub == 0x87 { sp_rel32(s, q1, |o: i32| Opcode::JaRel32 { offset: o }) }
            else if sub == 0x94 { with1(sp_operand(s, q1), |a: Operand| Opcode::Sete { dst: a }) }
            else if sub == 0x95 { with1(sp_operand(s, q1), |a: Operand| Opcode::Setne { dst: a }) }
            else if sub == 0x9C { with1(sp_operand(s, q1), |a: Operand| Opcode::Setl { dst: a }) }
            else if sub == 0x9E { with1(sp_operand(s, q1), |a: Operand| Opcode::Setle { dst: a }) }
            else if sub == 0x9F { with1(sp_operand(s, q1), |a: Operand| Opcode::Setg { dst: a }) }
            else if sub == 0x9D { with1(sp_operand(s, q1), |a: Operand| Opcode::Setge { dst: a }) }
            else if sub == 0x92 { with1(sp_operand(s, q1), |a: Operand| Opcode::Setb { dst: a }) }
            else if sub == 0x97 { with1(sp_operand(s, q1), |a: Operand| Opcode::Seta { dst: a }) }
            else { Err(ParseError::UnknownOpcode(0x0F, q1 as usize)) },
        Err(e) => Err(e),
    }
}

/// A `C1` shift by an immediate count; `q` follows the `C1` byte.
pub open spec fn sp_c1(s: Seq<u8>, q: int) -> Result<(Opcode, int), ParseError> {
    match sp_u8(s, q) {
        Ok((sub, q1)) => if sub == 4 { sp_shift_imm(s, q1, |a: Operand, k: ShiftAmount| Opcode::Shl { dst: a, amount: k }) }
            else if sub == 5 { sp_shift_imm(s, q1, |a: Operand, k: ShiftAmount| Opcode::Shr { dst: a, amount: k }) }
            else if sub == 7 { sp_shift_imm(s, q1, |a: Operand, k: ShiftAmount| Opcode::Sar { dst: a, amount: k }) }
            else if sub == 0 { sp_shift_imm(s, q1, |a: Operand, k: ShiftAmount| Opcode::Rol { dst: a, amount: k }) }
            else if sub == 1 { sp_shift_imm(s, q1, |a: Operand, k: ShiftAmount| Opcode::Ror { dst: a, amount: k }) }
            else { Err(ParseError::UnknownOpcode(0xC1, q1 as usize)) },
        Err(e) => Err(e),
    }
}

/// A `D3` shift by `cl`; `q` follows the `D3` byte.
pub open spec fn sp_d3(s: Seq<u8>, q: int) -> Result<(Opcode, int), ParseError> {
    match sp_u8(s, q) {
        Ok((sub, q1)) => if sub == 4 { with1(sp_operand(s, q1), |a: Operand| Opcode::Shl { dst: a, amount: ShiftAmount::Cl }) }
            else if sub == 5 { with1(sp_operand(s, q1), |a: Operand| Opcode::Shr { dst: a, amount: ShiftAmount::Cl }) }
            else if sub == 7 { with1(sp_operand(s, q1), |a: Operand| Opcode::Sar { dst: a, amount: ShiftAmount::Cl }) }
            else { Err(ParseError::UnknownOpcode(0xD3, q1 as usize)) },
        Err(e) => Err(e),
    }
}

/// `mov r64, imm64` with the register in the low three bits of the opcode
/// byte (`B8+rd`, hardware register numbers); `q` follows that byte.
pub open spec fn sp_mov_imm(s: Seq<u8>, q: int, dst: Register) -> Result<(Opcode, int), ParseError> {
    match sp_u64(s, q) {
        Ok((v, q1)) => Ok((Opcode::MovImm64 { dst, value: v }, q1)),
        Err(e) => Err(e),
    }
}
/// The error for an unknown HIVE instruction byte.
pub open spec fn unknown_hive_opcode(op: u8, q: int) -> Result<(Opcode, int), ParseError> {
    Err(ParseError::UnknownHiveOpcode(op, q as usize))
}

/// A HIVE runtime instruction at a position given as an index.
pub open spec fn sp_hive_at(s: Seq<u8>, q: usize) -> Result<(Opcode, int), ParseError> {
    sp_hive(s, q as int)
}

/// A HIVE runtime instruction; `q` follows the `F0` byte.
pub open spec fn sp_hive(s: Seq<u8>, q: int) -> Result<(Opcode, int), ParseError> {
    match sp_u8(s, q) {
        Ok((op, q)) => match op {
            0x00u8 => match sp_u32(s, q) {
                Ok((v, q1)) => match sp_u32(s, q1) {
                    Ok((t, q2)) => Ok((Opcode::Decl { variable: Variable { id: v }, ty: Type { id: t } }, q2)),
                    Err(e) => Err(e),
                },
                Err(e) => Err(e),
            },
            0x01u8 => match sp_u32(s, q) {
                Ok((v, q1)) => match sp_u32(s, q1) {
                    Ok((t, q2)) => Ok((Opcode::Param { parameter: Variable { id: v }, ty: Type { id: t } }, q2)),
                    Err(e) => Err(e),
                },
                Err(e) => Err(e),
            },
            0x03u8 => match sp_u64(s, q) {
                Ok((size, q1)) => match sp_u64(s, q1) {
                    Ok((alignment, q2)) => Ok((Opcode::Frame { size, alignment }, q2)),
                    Err(e) => Err(e),
                },
                Err(e) => Err(e),
            },
            0x04u8 => match sp_u64(s, q) {
                Ok((size, q1)) => Ok((Opcode::FrameAlloc { size }, q1)),
                Err(e) => Err(e),
            },
            0x02u8 => Ok((Opcode::EndVar, q)),
            0x05u8 => Ok((Opcode::FrameFree, q)),
            0x10u8 => with2(sp_operands2(s, q), |a: Operand, b: Operand| Opcode::Malloc { dst: a, size: b }),
            0x11u8 => with3(sp_operands3(s, q), |a: Operand, b: Operand, c: Operand| Opcode::Calloc { dst: a, count: b, size: c }),
            0x12u8 => with3(sp_operands3(s, q), |a: Operand, b: Operand, c: Operand| Opcode::Realloc { dst: a, ptr: b, size: c }),
            0x13u8 => with1(sp_operands1(s, q), |a: Operand| Opcode::Free { ptr: a }),
            0x14u8 => with3(sp_operands3(s, q), |a: Operand, b: Operand, c: Operand| Opcode::Memcpy { dst: a, src: b, size: c }),
            0x15u8 => with3(sp_operands3(s, q), |a: Operand, b: Operand, c: Operand| Opcode::Memmove { dst: a, src: b, size: c }),
            0x16u8 => with3(sp_operands3(s, q), |a: Operand, b: Operand, c: Operand| Opcode::Memset { dst: a, value: b, size: c }),
            0x17u8 => with3(sp_operands3(s, q), |a: Operand, b: Operand, c: Operand| Opcode::Memcmp { a: a, b: b, size: c }),
            0x18u8 => with2(sp_operands2(s, q), |a: Operand, b: Operand| Opcode::StackAlloc { dst: a, size: b }),
            0x19u8 => with1(sp_operands1(s, q), |a: Operand| Opcode::StackFree { ptr: a }),
            0x20u8 => with3(sp_operands3(s, q), |a: Operand, b: Operand, c: Operand| Opcode::ProcSpawn { dst: a, function: b, args: c }),
            0x21u8 => with1(sp_operands1(s, q), |a: Operand| Opcode::ProcSelf { dst: a }),
            0x22u8 => with1(sp_operands1(s, q), |a: Operand| Opcode::ProcExit { reason: a }),
            0x23u8 => with2(sp_operands2(s, q), |a: Operand, b: Operand| Opcode::ProcKill { pid: a, reason: b }),
            0x24u8 => with2(sp_operands2(s, q), |a: Operand, b: Operand| Opcode::ProcState { dst: a, pid: b }),
            0x25u8 => Ok((Opcode::ProcYield, q)),
            0x26u8 => with1(sp_operands1(s, q), |a: Operand| Opcode::ProcSleep { duration: a }),
            0x27u8 => with2(sp_operands2(s, q), |a: Operand, b: Operand| Opcode::ProcAlive { dst: a, pid: b }),
            0x28u8 => with1(sp_operands1(s, q), |a: Operand| Opcode::ProcLink { pid: a }),
            0x29u8 => with1(sp_operands1(s, q), |a: Operand| Opcode::ProcUnlink { pid: a }),
            0x2Au8 => with1(sp_operands1(s, q), |a: Operand| Opcode::ProcMonitor { pid: a }),
            0x2Bu8 => with1(sp_operands1(s, q), |a: Operand| Opcode::ProcDemonitor { pid: a }),
            0x30u8 => Ok((Opcode::SchedYield, q)),
            0x31u8 => with1(sp_operands1(s, q), |a: Operand| Opcode::SchedWake { pid: a }),
            0x32u8 => with1(sp_operands1(s, q), |a: Operand| Opcode::SchedWait { event: a }),
            0x33u8 => with1(sp_operands1(s, q), |a: Operand| Opcode::SchedId { dst: a }),
            0x34u8 => with1(sp_operands1(s, q), |a: Operand| Opcode::SchedCount { dst: a }),
            0x35u8 => with2(sp_operands2(s, q), |a: Operand, b: Operand| Opcode::SchedMigrate { pid: a, scheduler: b }),
            0x40u8 => with2(sp_operands2(s, q), |a: Operand, b: Operand| Opcode::MailSend { pid: a, message: b }),
            0x41u8 => with1(sp_operands1(s, q), |a: Operand| Opcode::MailRecv { dst: a }),
            0x42u8 => with1(sp_operands1(s, q), |a: Operand| Opcode::MailTryRecv { dst: a }),
            0x43u8 => with1(sp_operands1(s, q), |a: Operand| Opcode::MailPeek { dst: a }),
            0x44u8 => with1(sp_operands1(s, q), |a: Operand| Opcode::MailLen { dst: a }),
            0x45u8 => Ok((Opcode::MailClear, q)),
            0x50u8 => with1(sp_operands1(s, q), |a: Operand| Opcode::Await { operation: a }),
            0x51u8 => with3(sp_operands3(s, q), |a: Operand, b: Operand, c: Operand| Opcode::Async { dst: a, function: b, args: c }),
            0x52u8 => with1(sp_operands1(s, q), |a: Operand| Opcode::Resume { process: a }),
            0x53u8 => with1(sp_operands1(s, q), |a: Operand| Opcode::Suspend { process: a }),
            0x60u8 => with1(sp_operands1(s, q), |a: Operand| Opcode::ProcessDrop { pid: a }),
            0x61u8 => with1(sp_operands1(s, q), |a: Operand| Opcode::ProcessReset { pid: a }),
            0x62u8 => with1(sp_operands1(s, q), |a: Operand| Opcode::ProcessFail { reason: a }),
            0x63u8 => with1(sp_operands1(s, q), |a: Operand| Opcode::ProcessTrap { handler: a }),
            0x70u8 => with1(sp_operands1(s, q), |a: Operand| Opcode::Jit { function: a }),
            0x71u8 => with2(sp_operands2(s, q), |a: Operand, b: Operand| Opcode::HiveCall { function: a, args: b }),
            0x72u8 => with2(sp_operands2(s, q), |a: Operand, b: Operand| Opcode::CallWorker { worker: a, args: b }),
            0x73u8 => with2(sp_operands2(s, q), |a: Operand, b: Operand| Opcode::NativeCall { function: a, args: b }),
            0x74u8 => with1(sp_operands1(s, q), |a: Operand| Opcode::NativeReturn { value: a }),
            0x75u8 => Ok((Opcode::Recall, q)),
            0x76u8 => Ok((Opcode::Syscall, q)),
            0x77u8 => with1(sp_operands1(s, q), |a: Operand| Opcode::Ret { ptr: a }),
            _ => unknown_hive_opcode(op, q),
        },
        Err(e) => Err(e),
    }
}

/// A relative jump with an 8-bit displacement.
pub open spec fn sp_rel8(s: Seq<u8>, q: int, f: spec_fn(i8) -> Opcode) -> Result<(Opcode, int), ParseError> {
    match sp_u8(s, q) {
        Ok((b, q1)) => Ok((f(b as i8), q1)),
        Err(e) => Err(e),
    }
}

/// The error for an unknown first byte.
pub open spec fn unknown_opcode(op: u8, q: int) -> Result<(Opcode, int), ParseError> {
    Err(ParseError::UnknownOpcode(op, q as usize))
}

/// One instruction starting at `p`.
#[verifier::opaque]
pub open spec fn sp_opcode(s: Seq<u8>, p: int) -> Result<(Opcode, int), ParseError> {
    match sp_u8(s, p) {
        Ok((op, q)) => match op {
            0x90u8 => Ok((Opcode::Nop, q)),
            0x88u8 => with2(sp_operands2(s, q), |a: Operand, b: Operand| Opcode::Mov8 { dst: a, src: b }),
            0x89u8 => with2(sp_operands2(s, q), |a: Operand, b: Operand| Opcode::Mov64 { dst: a, src: b }),
            0x8Au8 => with2(sp_operands2(s, q), |a: Operand, b: Operand| Opcode::Mov8 { dst: a, src: b }),
            0x8Bu8 => with2(sp_operands2(s, q), |a: Operand, b: Operand| Opcode::Mov64 { dst: a, src: b }),
            0x01u8 => with2(sp_operands2(s, q), |a: Operand, b: Operand| Opcode::Add { dst: a, src: b }),
            0x03u8 => with2(sp_operands2(s, q), |a: Operand, b: Operand| Opcode::Add { dst: a, src: b }),
            0x29u8 => with2(sp_operands2(s, q), |a: Operand, b: Operand| Opcode::Sub { dst: a, src: b }),
            0x2Bu8 => with2(sp_operands2(s, q), |a: Operand, b: Operand| Opcode::Sub { dst: a, src: b }),
            0x21u8 => with2(sp_operands2(s, q), |a: Operand, b: Operand| Opcode::And { dst: a, src: b }),
            0x09u8 => with2(sp_operands2(s, q), |a: Operand, b: Operand| Opcode::Or { dst: a, src: b }),
            0x31u8 => with2(sp_operands2(s, q), |a: Operand, b: Operand| Opcode::Xor { dst: a, src: b }),
            0x85u8 => with2(sp_operands2(s, q), |a: Operand, b: Operand| Opcode::Test { left: a, right: b }),
            0x39u8 => with2(sp_operands2(s, q), |a: Operand, b: Operand| Opcode::Cmp { left: a, right: b }),
            0x3Bu8 => with2(sp_operands2(s, q), |a: Operand, b: Operand| Opcode::Cmp { left: a, right: b }),
            0x8Du8 => match sp_register(s, q) {
                Ok((dst, q1)) => match sp_memory(s, q1) {
                    Ok((src, q2)) => Ok((Opcode::Lea { dst, src }, q2)),
                    Err(e) => Err(e),
                },
                Err(e) => Err(e),
            },
            0xE9u8 => match sp_i32(s, q) {
                Ok((offset, q1)) => Ok((Opcode::JmpRel32 { offset }, q1)),
                Err(e) => Err(e),
            },
            0xEBu8 => sp_rel8(s, q, |o: i8| Opcode::JmpRel8 { offset: o }),
            0x74u8 => sp_rel8(s, q, |o: i8| Opcode::JeRel8 { offset: o }),
            0x75u8 => sp_rel8(s, q, |o: i8| Opcode::JneRel8 { offset: o }),
            0x7Cu8 => sp_rel8(s, q, |o: i8| Opcode::JlRel8 { offset: o }),
            0x7Eu8 => sp_rel8(s, q, |o: i8| Opcode::JleRel8 { offset: o }),
            0x7Fu8 => sp_rel8(s, q, |o: i8| Opcode::JgRel8 { offset: o }),
            0x7Du8 => sp_rel8(s, q, |o: i8| Opcode::JgeRel8 { offset: o }),
            0x72u8 => sp_rel8(s, q, |o: i8| Opcode::JbRel8 { offset: o }),
            0x77u8 => sp_rel8(s, q, |o: i8| Opcode::JaRel8 { offset: o }),
            0xF7u8 => sp_f7(s, q),
            0xFFu8 => sp_ff(s, q),
            0x0Fu8 => sp_0f(s, q),
            0xC1u8 => sp_c1(s, q),
            0xD3u8 => sp_d3(s, q),
            0xB8u8 => sp_mov_imm(s, q, Register::Rax),
            0xB9u8 => sp_mov_imm(s, q, Register::Rcx),
            0xBAu8 => sp_mov_imm(s, q, Register::Rdx),
            0xBBu8 => sp_mov_imm(s, q, Register::Rbx),
            0xBCu8 => sp_mov_imm(s, q, Register::Rsp),
            0xBDu8 => sp_mov_imm(s, q, Register::Rbp),
            0xBEu8 => sp_mov_imm(s, q, Register::Rsi),
            0xBFu8 => sp_mov_imm(s, q, Register::Rdi),
            0xF0u8 => sp_hive(s, q),
            _ => unknown_opcode(op, q),
        },
        Err(e) => Err(e),
    }
}

/// One instruction starting at a position given as an index.
pub open spec fn sp_opcode_at(s: Seq<u8>, p: usize) -> Result<(Opcode, int), ParseError> {
    sp_opcode(s, p as int)
}

/// The instructions from position `p` to the end of the bytecode.
pub open spec fn sp_program(s: Seq<u8>, p: int) -> Result<Seq<Opcode>, ParseError>
    decreases s.len() - p,
{
    if p < 0 || p >= s.len() {
        Ok(Seq::<Opcode>::empty())
    } else {
        match sp_opcode(s, p) {
            Ok((op, q)) => if p < q <= s.len() {
                match sp_program(s, q) {
                    Ok(rest) => Ok(seq![op] + rest),
                    Err(e) => Err(e),
                }
            } else {
                Err(ParseError::UnexpectedEof)
            },
            Err(e) => Err(e),
        }
    }
}

/// The decoding of a whole function body.
pub open spec fn parse_program(s: Seq<u8>) -> Result<Seq<Opcode>, ParseError> {
    sp_program(s, 0)
}

/// Prepends decoded instructions to the outcome of decoding the rest.
pub open spec fn prepend(prefix: Seq<Opcode>, rest: Result<Seq<Opcode>, ParseError>) -> Result<Seq<Opcode>, ParseError> {
    match rest {
        Ok(r) => Ok(prefix + r),
        Err(e) => Err(e),
    }
}

/// Whether the decoder stopped at `ptr` for error `e`: an error about a byte
/// leaves the position just past that byte.
pub open spec fn stopped_at(e: ParseError, ptr: usize) -> bool {
    match e {
        ParseError::UnexpectedEof => true,
        ParseError::UnknownOpcode(_, q) => ptr == q,
        ParseError::UnknownHiveOpcode(_, q) => ptr == q,
        ParseError::InvalidOperand(_, q) => ptr == q,
    }
}

/// The exec result of a reader agrees with the grammar: on success the
/// position moved forward to where the grammar says, and on an error about a
/// byte it stands just past that byte.
pub open spec fn agrees<T>(r: Result<T, ParseError>, g: Result<(T, int), ParseError>, old_ptr: usize, new_ptr: usize, len: nat) -> bool {
    &&& new_ptr <= len
    &&& match g {
        Ok((v, q)) => r == Ok::<T, ParseError>(v) && new_ptr == q && q > old_ptr,
        Err(e) => r == Err::<T, ParseError>(e) && stopped_at(e, new_ptr),
    }
}

impl<'a> Parser<'a> {
    /// The bytecode being decoded.
    pub closed spec fn code_view(&self) -> Seq<u8> {
        self.code@
    }

    /// The current position.
    pub closed spec fn position(&self) -> int {
        self.ptr as int
    }

    /// Creates a decoder at the start of `code`.
    pub fn new(code: &'a [u8]) -> (parser: Self)
        ensures
            parser.code_view() == code@,
            parser.position() == 0,
    {
        Self { code, ptr: 0 }
    }

    /// Decodes the instructions from the current position to the end.
    pub fn parse(self) -> (res: Result<Box<[Opcode]>, ParseError>)
        ensures
            match sp_program(self.code_view(), self.position()) {
                Ok(v) => res matches Ok(b) && b@ == v,
                Err(e) => res == Err::<Box<[Opcode]>, ParseError>(e),
            },
    {
        let ghost s = self.code@;
        let ghost start = self.ptr as int;
        assert(self.code_view() == s && self.position() == start);
        let mut parser = self;
        let mut instructions: Vec<Opcode> = Vec::new();
        assert(parser.ptr <= s.len() || sp_program(s, start) == Ok::<Seq<Opcode>, ParseError>(Seq::empty()));
        if parser.ptr > parser.code.len() {
            return Ok(into_boxed(instructions));
        }
        while parser.ptr < parser.code.len()
            invariant
                parser.code@ == s,
                parser.ptr <= s.len(),
                s == self.code_view(),
                start == self.position(),
                sp_program(s, start) == prepend(instructions@, sp_program(s, parser.ptr as int)),
            decreases s.len() - parser.ptr,
        {
            let ghost p = parser.ptr as int;
            match parser.parse_opcode() {
                Ok(op) => {
                    let ghost q = parser.ptr as int;
                    let ghost old_instrs = instructions@;
                    assert(sp_opcode(s, p) == Ok::<(Opcode, int), ParseError>((op, q)));
                    assert(sp_program(s, p) == prepend(seq![op], sp_program(s, q)));
                    instructions.push(op);
                    proof {
                        match sp_program(s, q) {
                            Ok(r) => {
                                assert(old_instrs + (seq![op] + r) =~= instructions@ + r);
                            },
                            Err(e) => {},
                        }
                    }
                    assert(sp_program(s, start) == prepend(instructions@, sp_program(s, q)));
                },
                Err(e) => {
                    assert(sp_program(s, p) == Err::<Seq<Opcode>, ParseError>(e));
                    assert(sp_program(s, start) == Err::<Seq<Opcode>, ParseError>(e));
                    return Err(e);
                },
            }
        }
        assert(instructions@ + Seq::<Opcode>::empty() =~= instructions@);
        Ok(into_boxed(instructions))
    }

    fn read_u8(&mut self) -> (res: Result<u8, ParseError>)
        requires
            old(self).ptr <= old(self).code@.len(),
        ensures
            final(self).code == old(self).code,
            agrees(res, sp_u8(old(self).code@, old(self).ptr as int), old(self).ptr, final(self).ptr, old(self).code@.len()),
            res is Err ==> final(self).ptr == old(self).ptr,
    {
        if self.ptr < self.code.len() {
            let value = self.code[self.ptr];
            self.ptr = self.ptr + 1;
            Ok(value)
        } else {
            Err(ParseError::UnexpectedEof)
        }
    }

    fn read_i8(&mut self) -> (res: Result<i8, ParseError>)
        requires
            old(self).ptr <= old(self).code@.len(),
        ensures
            final(self).code == old(self).code,
            final(self).ptr <= final(self).code@.len(),
            match sp_u8(old(self).code@, old(self).ptr as int) {
                Ok((v, q)) => res == Ok::<i8, ParseError>(v as i8) && final(self).ptr == q && q > old(self).ptr,
                Err(e) => res == Err::<i8, ParseError>(e),
            },
    {
        match self.read_u8() {
            Ok(v) => Ok(v as i8),
            Err(e) => Err(e),
        }
    }

    fn read_array(&mut self, n: usize) -> (res: Result<&'a [u8], ParseError>)
        requires
            old(self).ptr <= old(self).code@.len(),
            n > 0,
        ensures
            final(self).code == old(self).code,
            final(self).ptr <= final(self).code@.len(),
            match sp_bytes(old(self).code@, old(self).ptr as int, n as int) {
                Ok((b, q)) => res matches Ok(r) && r@ == b && final(self).ptr == q && q > old(self).ptr,
                Err(e) => res == Err::<&[u8], ParseError>(e),
            },
    {
        if n > self.code.len() - self.ptr {
            return Err(ParseError::UnexpectedEof);
        }
        let bytes = slice_subrange(self.code, self.ptr, self.ptr + n);
        self.ptr = self.ptr + n;
        Ok(bytes)
    }

    fn read_u16(&mut self) -> (res: Result<u16, ParseError>)
        requires
            old(self).ptr <= old(self).code@.len(),
        ensures
            final(self).code == old(self).code,
            final(self).ptr <= final(self).code@.len(),
            match sp_bytes(old(self).code@, old(self).ptr as int, 2) {
                Ok((b, q)) => res == Ok::<u16, ParseError>(vstd::bytes::spec_u16_from_le_bytes(b)) && final(self).ptr == q,
                Err(e) => res == Err::<u16, ParseError>(e),
            },
    {
        match self.read_array(2) {
            Ok(bytes) => Ok(vstd::bytes::u16_from_le_bytes(bytes)),
            Err(e) => Err(e),
        }
    }

    fn read_u32(&mut self) -> (res: Result<u32, ParseError>)
        requires
            old(self).ptr <= old(self).code@.len(),
        ensures
            final(self).code == old(self).code,
            agrees(res, sp_u32(old(self).code@, old(self).ptr as int), old(self).ptr, final(self).ptr, old(self).code@.len()),
    {
        match self.read_array(4) {
            Ok(bytes) => Ok(u32_from_le_bytes(bytes)),
            Err(e) => Err(e),
        }
    }

    fn read_i32(&mut self) -> (res: Result<i32, ParseError>)
        requires
            old(self).ptr <= old(self).code@.len(),
        ensures
            final(self).code == old(self).code,
            agrees(res, sp_i32(old(self).code@, old(self).ptr as int), old(self).ptr, final(self).ptr, old(self).code@.len()),
    {
        match self.read_u32() {
            Ok(v) => Ok(v as i32),
            Err(e) => Err(e),
        }
    }

    fn read_u64(&mut self) -> (res: Result<u64, ParseError>)
        requires
            old(self).ptr <= old(self).code@.len(),
        ensures
            final(self).code == old(self).code,
            agrees(res, sp_u64(old(self).code@, old(self).ptr as int), old(self).ptr, final(self).ptr, old(self).code@.len()),
    {
        match self.read_array(8) {
            Ok(bytes) => Ok(u64_from_le_bytes(bytes)),
            Err(e) => Err(e),
        }
    }

    fn read_register(&mut self) -> (res: Result<Register, ParseError>)
        requires
            old(self).ptr <= old(self).code@.len(),
        ensures
            final(self).code == old(self).code,
            agrees(res, sp_register(old(self).code@, old(self).ptr as int), old(self).ptr, final(self).ptr, old(self).code@.len()),
            old(self).ptr == old(self).code@.len() ==> final(self).ptr == old(self).ptr,
    {
        match self.read_u8() {
            Ok(op) => {
                if op == 0 { Ok(Register::Rax) }
                else if op == 1 { Ok(Register::Rbx) }
                else if op == 2 { Ok(Register::Rcx) }
                else if op == 3 { Ok(Register::Rdx) }
                else if op == 4 { Ok(Register::Rsi) }
                else if op == 5 { Ok(Register::Rdi) }
                else if op == 6 { Ok(Register::Rbp) }
                else if op == 7 { Ok(Register::Rsp) }
                else if op == 8 { Ok(Register::R8) }
                else if op == 9 { Ok(Register::R9) }
                else if op == 10 { Ok(Register::R10) }
                else if op == 11 { Ok(Register::R11) }
                else if op == 12 { Ok(Register::R12) }
                else if op == 13 { Ok(Register::R13) }
                else if op == 14 { Ok(Register::R14) }
                else if op == 15 { Ok(Register::R15) }
                else { Err(ParseError::InvalidOperand(op, self.ptr)) }
            },
            Err(e) => Err(e),
        }
    }

    fn read_opt_register(&mut self) -> (res: Result<Option<Register>, ParseError>)
        requires
            old(self).ptr <= old(self).code@.len(),
        ensures
            final(self).code == old(self).code,
            agrees(res, sp_opt_register(old(self).code@, old(self).ptr as int), old(self).ptr, final(self).ptr, old(self).code@.len()),
    {
        match self.read_u8() {
            Ok(b) => {
                if b == 0xFF {
                    Ok(None)
                } else {
                    self.ptr = self.ptr - 1;
                    match self.read_register() {
                        Ok(r) => Ok(Some(r)),
                        Err(e) => Err(e),
                    }
                }
            },
            Err(e) => Err(e),
        }
    }

    fn read_memory_operand(&mut self) -> (res: Result<MemoryOperand, ParseError>)
        requires
            old(self).ptr <= old(self).code@.len(),
        ensures
            final(self).code == old(self).code,
            agrees(res, sp_memory(old(self).code@, old(self).ptr as int), old(self).ptr, final(self).ptr, old(self).code@.len()),
    {
        let base = match self.read_opt_register() {
            Ok(b) => b,
            Err(e) => return Err(e),
        };
        let index = match self.read_opt_register() {
            Ok(i) => i,
            Err(e) => return Err(e),
        };
        let scale = match self.read_u8() {
            Ok(s) => s,
            Err(e) => return Err(e),
        };
        let displacement = match self.read_i32() {
            Ok(d) => d,
            Err(e) => return Err(e),
        };
        Ok(MemoryOperand { base, index, scale, displacement })
    }

    fn read_operand(&mut self) -> (res: Result<Operand, ParseError>)
        requires
            old(self).ptr <= old(self).code@.len(),
        ensures
            final(self).code == old(self).code,
            agrees(res, sp_operand(old(self).code@, old(self).ptr as int), old(self).ptr, final(self).ptr, old(self).code@.len()),
    {
        let tag = match self.read_u8() {
            Ok(t) => t,
            Err(e) => return Err(e),
        };
        if tag == 0 {
            match self.read_register() {
                Ok(r) => Ok(Operand::Register(r)),
                Err(e) => Err(e),
            }
        } else if tag == 1 {
            match self.read_u64() {
                Ok(v) => Ok(Operand::Immediate(v as i64)),
                Err(e) => Err(e),
            }
        } else if tag == 2 {
            match self.read_u64() {
                Ok(v) => Ok(Operand::Variable(v as u32)),
                Err(e) => Err(e),
            }
        } else if tag == 3 {
            match self.read_i32() {
                Ok(v) => Ok(Operand::FrameOffset(v)),
                Err(e) => Err(e),
            }
        } else if tag == 4 {
            match self.read_memory_operand() {
                Ok(m) => Ok(Operand::Memory(m)),
                Err(e) => Err(e),
            }
        } else {
            Err(ParseError::InvalidOperand(tag, self.ptr))
        }
    }

    fn read_operands1(&mut self) -> (res: Result<Operand, ParseError>)
        requires
            old(self).ptr <= old(self).code@.len(),
        ensures
            final(self).code == old(self).code,
            agrees(res, sp_operands1(old(self).code@, old(self).ptr as int), old(self).ptr, final(self).ptr, old(self).code@.len()),
    {
        self.read_operand()
    }

    fn read_operands2(&mut self) -> (res: Result<(Operand, Operand), ParseError>)
        requires
            old(self).ptr <= old(self).code@.len(),
        ensures
            final(self).code == old(self).code,
            agrees(res, sp_operands2(old(self).code@, old(self).ptr as int), old(self).ptr, final(self).ptr, old(self).code@.len()),
    {
        let a = match self.read_operand() {
            Ok(a) => a,
            Err(e) => return Err(e),
        };
        let b = match self.read_operand() {
            Ok(b) => b,
            Err(e) => return Err(e),
        };
        Ok((a, b))
    }

    fn read_operands3(&mut self) -> (res: Result<(Operand, Operand, Operand), ParseError>)
        requires
            old(self).ptr <= old(self).code@.len(),
        ensures
            final(self).code == old(self).code,
            agrees(res, sp_operands3(old(self).code@, old(self).ptr as int), old(self).ptr, final(self).ptr, old(self).code@.len()),
    {
        let (a, b) = match self.read_operands2() {
            Ok(ab) => ab,
            Err(e) => return Err(e),
        };
        let c = match self.read_operand() {
            Ok(c) => c,
            Err(e) => return Err(e),
        };
        Ok((a, b, c))
    }

    fn read_variable(&mut self) -> (res: Result<Variable, ParseError>)
        requires
            old(self).ptr <= old(self).code@.len(),
        ensures
            final(self).code == old(self).code,
            final(self).ptr <= final(self).code@.len(),
            match sp_u32(old(self).code@, old(self).ptr as int) {
                Ok((v, q)) => res == Ok::<Variable, ParseError>(Variable { id: v }) && final(self).ptr == q && q > old(self).ptr,
                Err(e) => res == Err::<Variable, ParseError>(e),
            },
    {
        match self.read_u32() {
            Ok(id) => Ok(Variable { id }),
            Err(e) => Err(e),
        }
    }

    fn read_type(&mut self) -> (res: Result<Type, ParseError>)
        requires
            old(self).ptr <= old(self).code@.len(),
        ensures
            final(self).code == old(self).code,
            final(self).ptr <= final(self).code@.len(),
            match sp_u32(old(self).code@, old(self).ptr as int) {
                Ok((v, q)) => res == Ok::<Type, ParseError>(Type { id: v }) && final(self).ptr == q && q > old(self).ptr,
                Err(e) => res == Err::<Type, ParseError>(e),
            },
    {
        match self.read_u32() {
            Ok(id) => Ok(Type { id }),
            Err(e) => Err(e),
        }
    }

    fn parse_f7(&mut self) -> (res: Result<Opcode, ParseError>)
        requires
            old(self).ptr <= old(self).code@.len(),
        ensures
            final(self).code == old(self).code,
            agrees(res, sp_f7(old(self).code@, old(self).ptr as int), old(self).ptr, final(self).ptr, old(self).code@.len()),
    {
        let sub = match self.read_u8() {
            Ok(s) => s,
            Err(e) => return Err(e),
        };
        if sub == 4 {
            match self.read_operand() {
                Ok(a) => Ok(Opcode::Mul { src: a }),
                Err(e) => Err(e),
            }
        } else if sub == 5 {
            match self.read_operand() {
                Ok(a) => Ok(Opcode::Imul { src: a }),
                Err(e) => Err(e),
            }
        } else if sub == 6 {
            match self.read_operand() {
                Ok(a) => Ok(Opcode::Div { src: a }),
                Err(e) => Err(e),
            }
        } else if sub == 7 {
            match self.read_operand() {
                Ok(a) => Ok(Opcode::Idiv { src: a }),
                Err(e) => Err(e),
            }
        } else if sub == 3 {
            match self.read_operand() {
                Ok(a) => Ok(Opcode::Neg { operand: a }),
                Err(e) => Err(e),
            }
        } else if sub == 2 {
            match self.read_operand() {
                Ok(a) => Ok(Opcode::Not { operand: a }),
                Err(e) => Err(e),
            }
        } else {
            Err(ParseError::UnknownOpcode(0xF7, self.ptr))
        }
    }

    fn parse_ff(&mut self) -> (res: Result<Opcode, ParseError>)
        requires
            old(self).ptr <= old(self).code@.len(),
        ensures
            final(self).code == old(self).code,
            agrees(res, sp_ff(old(self).code@, old(self).ptr as int), old(self).ptr, final(self).ptr, old(self).code@.len()),
    {
        let sub = match self.read_u8() {
            Ok(s) => s,
            Err(e) => return Err(e),
        };
        if sub == 0 {
            match self.read_operand() {
                Ok(a) => Ok(Opcode::Inc { operand: a }),
                Err(e) => Err(e),
            }
        } else if sub == 1 {
            match self.read_operand() {
                Ok(a) => Ok(Opcode::Dec { operand: a }),
                Err(e) => Err(e),
            }
        } else {
            Err(ParseError::UnknownOpcode(0xFF, self.ptr))
        }
    }

    fn parse_0f(&mut self) -> (res: Result<Opcode, ParseError>)
        requires
            old(self).ptr <= old(self).code@.len(),
        ensures
            final(self).code == old(self).code,
            agrees(res, sp_0f(old(self).code@, old(self).ptr as int), old(self).ptr, final(self).ptr, old(self).code@.len()),
    {
        let sub = match self.read_u8() {
            Ok(s) => s,
            Err(e) => return Err(e),
        };
        if sub == 0x05 {
            Ok(Opcode::Syscall)
        } else if sub == 0xBE {
            match self.read_register() {
                Ok(d) => match self.read_operand() {
                    Ok(a) => Ok(Opcode::Movsx8 { dst: d, src: a }),
                    Err(e) => Err(e),
                },
                Err(e) => Err(e),
            }
        } else if sub == 0xBF {
            match self.read_register() {
                Ok(d) => match self.read_operand() {
                    Ok(a) => Ok(Opcode::Movsx16 { dst: d, src: a }),
                    Err(e) => Err(e),
                },
                Err(e) => Err(e),
            }
        } else if sub == 0xB6 {
            match self.read_register() {
                Ok(d) => match self.read_operand() {
                    Ok(a) => Ok(Opcode::Movzx8 { dst: d, src: a }),
                    Err(e) => Err(e),
                },
                Err(e) => Err(e),
            }
        } else if sub == 0xB7 {
            match self.read_register() {
                Ok(d) => match self.read_operand() {
                    Ok(a) => Ok(Opcode::Movzx16 { dst: d, src: a }),
                    Err(e) => Err(e),
                },
                Err(e) => Err(e),
            }
        } else if sub == 0x84 {
            match self.read_i32() {
                Ok(o) => Ok(Opcode::JeRel32 { offset: o }),
                Err(e) => Err(e),
            }
        } else if sub == 0x85 {
            match self.read_i32() {
                Ok(o) => Ok(Opcode::JneRel32 { offset: o }),
                Err(e) => Err(e),
            }
        } else if sub == 0x8C {
            match self.read_i32() {
                Ok(o) => Ok(Opcode::JlRel32 { offset: o }),
                Err(e) => Err(e),
            }
        } else if sub == 0x8E {
            match self.read_i32() {
                Ok(o) => Ok(Opcode::JleRel32 { offset: o }),
                Err(e) => Err(e),
            }
        } else if sub == 0x8F {
            match self.read_i32() {
                Ok(o) => Ok(Opcode::JgRel32 { offset: o }),
                Err(e) => Err(e),
            }
        } else if sub == 0x8D {
            match self.read_i32() {
                Ok(o) => Ok(Opcode::JgeRel32 { offset: o }),
                Err(e) => Err(e),
            }
        } else if sub == 0x82 {
            match self.read_i32() {
                Ok(o) => Ok(Opcode::JbRel32 { offset: o }),
                Err(e) => Err(e),
            }
        } else if sub == 0x87 {
            match self.read_i32() {
                Ok(o) => Ok(Opcode::JaRel32 { offset: o }),
                Err(e) => Err(e),
            }
        } else if sub == 0x94 {
            match self.read_operand() {
                Ok(a) => Ok(Opcode::Sete { dst: a }),
                Err(e) => Err(e),
            }
        } else if sub == 0x95 {
            match self.read_operand() {
                Ok(a) => Ok(Opcode::Setne { dst: a }),
                Err(e) => Err(e),
            }
        } else if sub == 0x9C {
            match self.read_operand() {
                Ok(a) => Ok(Opcode::Setl { dst: a }),
                Err(e) => Err(e),
            }
        } else if sub == 0x9E {
            match self.read_operand() {
                Ok(a) => Ok(Opcode::Setle { dst: a }),
                Err(e) => Err(e),
            }
        } else if sub == 0x9F {
            match self.read_operand() {
                Ok(a) => Ok(Opcode::Setg { dst: a }),
                Err(e) => Err(e),
            }
        } else if sub == 0x9D {
            match self.read_operand() {
                Ok(a) => Ok(Opcode::Setge { dst: a }),
                Err(e) => Err(e),
            }
        } else if sub == 0x92 {
            match self.read_operand() {
                Ok(a) => Ok(Opcode::Setb { dst: a }),
                Err(e) => Err(e),
            }
        } else if sub == 0x97 {
            match self.read_operand() {
                Ok(a) => Ok(Opcode::Seta { dst: a }),
                Err(e) => Err(e),
            }
        } else {
            Err(ParseError::UnknownOpcode(0x0F, self.ptr))
        }
    }

    fn parse_c1(&mut self) -> (res: Result<Opcode, ParseError>)
        requires
            old(self).ptr <= old(self).code@.len(),
        ensures
            final(self).code == old(self).code,
            agrees(res, sp_c1(old(self).code@, old(self).ptr as int), old(self).ptr, final(self).ptr, old(self).code@.len()),
    {
        let sub = match self.read_u8() {
            Ok(s) => s,
            Err(e) => return Err(e),
        };
        if sub == 4 {
            match self.read_operand() {
                Ok(a) => match self.read_u8() {
                    Ok(k) => Ok(Opcode::Shl { dst: a, amount: ShiftAmount::Immediate(k) }),
                    Err(e) => Err(e),
                },
                Err(e) => Err(e),
            }
        } else if sub == 5 {
            match self.read_operand() {
                Ok(a) => match self.read_u8() {
                    Ok(k) => Ok(Opcode::Shr { dst: a, amount: ShiftAmount::Immediate(k) }),
                    Err(e) => Err(e),
                },
                Err(e) => Err(e),
            }
        } else if sub == 7 {
            match self.read_operand() {
                Ok(a) => match self.read_u8() {
                    Ok(k) => Ok(Opcode::Sar { dst: a, amount: ShiftAmount::Immediate(k) }),
                    Err(e) => Err(e),
                },
                Err(e) => Err(e),
            }
        } else if sub == 0 {
            match self.read_operand() {
                Ok(a) => match self.read_u8() {
                    Ok(k) => Ok(Opcode::Rol { dst: a, amount: ShiftAmount::Immediate(k) }),
                    Err(e) => Err(e),
                },
                Err(e) => Err(e),
            }
        } else if sub == 1 {
            match self.read_operand() {
                Ok(a) => match self.read_u8() {
                    Ok(k) => Ok(Opcode::Ror { dst: a, amount: ShiftAmount::Immediate(k) }),
                    Err(e) => Err(e),
                },
                Err(e) => Err(e),
            }
        } else {
            Err(ParseError::UnknownOpcode(0xC1, self.ptr))
        }
    }

    fn parse_d3(&mut self) -> (res: Result<Opcode, ParseError>)
        requires
            old(self).ptr <= old(self).code@.len(),
        ensures
            final(self).code == old(self).code,
            agrees(res, sp_d3(old(self).code@, old(self).ptr as int), old(self).ptr, final(self).ptr, old(self).code@.len()),
    {
        let sub = match self.read_u8() {
            Ok(s) => s,
            Err(e) => return Err(e),
        };
        if sub == 4 {
            match self.read_operand() {
                Ok(a) => Ok(Opcode::Shl { dst: a, amount: ShiftAmount::Cl }),
                Err(e) => Err(e),
            }
        } else if sub == 5 {
            match self.read_operand() {
                Ok(a) => Ok(Opcode::Shr { dst: a, amount: ShiftAmount::Cl }),
                Err(e) => Err(e),
            }
        } else if sub == 7 {
            match self.read_operand() {
                Ok(a) => Ok(Opcode::Sar { dst: a, amount: ShiftAmount::Cl }),
                Err(e) => Err(e),
            }
        } else {
            Err(ParseError::UnknownOpcode(0xD3, self.ptr))
        }
    }

    fn parse_mov_imm(&mut self, dst: Register) -> (res: Result<Opcode, ParseError>)
        requires
            old(self).ptr <= old(self).code@.len(),
        ensures
            final(self).code == old(self).code,
            agrees(res, sp_mov_imm(old(self).code@, old(self).ptr as int, dst), old(self).ptr, final(self).ptr, old(self).code@.len()),
    {
        match self.read_u64() {
            Ok(v) => Ok(Opcode::MovImm64 { dst, value: v }),
            Err(e) => Err(e),
        }
    }

    #[verifier::rlimit(60)]
    fn parse_hive_opcode(&mut self) -> (res: Result<Opcode, ParseError>)
        requires
            old(self).ptr <= old(self).code@.len(),
        ensures
            final(self).code == old(self).code,
            agrees(res, sp_hive_at(old(self).code@, old(self).ptr), old(self).ptr, final(self).ptr, old(self).code@.len()),
            old(self).ptr == old(self).code@.len() ==> final(self).ptr == old(self).ptr,
    {
        let op = match self.read_u8() {
            Ok(op) => op,
            Err(e) => return Err(e),
        };
        match op {
            0x00 => match self.read_variable() {
                Ok(variable) => match self.read_type() {
                    Ok(ty) => Ok(Opcode::Decl { variable, ty }),
                    Err(e) => Err(e),
                },
                Err(e) => Err(e),
            },
            0x01 => match self.read_variable() {
                Ok(parameter) => match self.read_type() {
                    Ok(ty) => Ok(Opcode::Param { parameter, ty }),
                    Err(e) => Err(e),
                },
                Err(e) => Err(e),
            },
            0x03 => match self.read_u64() {
                Ok(size) => match self.read_u64() {
                    Ok(alignment) => Ok(Opcode::Frame { size, alignment }),
                    Err(e) => Err(e),
                },
                Err(e) => Err(e),
            },
            0x04 => match self.read_u64() {
                Ok(size) => Ok(Opcode::FrameAlloc { size }),
                Err(e) => Err(e),
            },
            0x02 => Ok(Opcode::EndVar),
            0x05 => Ok(Opcode::FrameFree),
            0x10 => match self.read_operands2() {
                Ok((a, b)) => Ok(Opcode::Malloc { dst: a, size: b }),
                Err(e) => Err(e),
            },
            0x11 => match self.read_operands3() {
                Ok((a, b, c)) => Ok(Opcode::Calloc { dst: a, count: b, size: c }),
                Err(e) => Err(e),
            },
            0x12 => match self.read_operands3() {
                Ok((a, b, c)) => Ok(Opcode::Realloc { dst: a, ptr: b, size: c }),
                Err(e) => Err(e),
            },
            0x13 => match self.read_operands1() {
                Ok((a)) => Ok(Opcode::Free { ptr: a }),
                Err(e) => Err(e),
            },
            0x14 => match self.read_operands3() {
                Ok((a, b, c)) => Ok(Opcode::Memcpy { dst: a, src: b, size: c }),
                Err(e) => Err(e),
            },
            0x15 => match self.read_operands3() {
                Ok((a, b, c)) => Ok(Opcode::Memmove { dst: a, src: b, size: c }),
                Err(e) => Err(e),
            },
            0x16 => match self.read_operands3() {
                Ok((a, b, c)) => Ok(Opcode::Memset { dst: a, value: b, size: c }),
                Err(e) => Err(e),
            },
            0x17 => match self.read_operands3() {
                Ok((a, b, c)) => Ok(Opcode::Memcmp { a: a, b: b, size: c }),
                Err(e) => Err(e),
            },
            0x18 => match self.read_operands2() {
                Ok((a, b)) => Ok(Opcode::StackAlloc { dst: a, size: b }),
                Err(e) => Err(e),
            },
            0x19 => match self.read_operands1() {
                Ok((a)) => Ok(Opcode::StackFree { ptr: a }),
                Err(e) => Err(e),
            },
            0x20 => match self.read_operands3() {
                Ok((a, b, c)) => Ok(Opcode::ProcSpawn { dst: a, function: b, args: c }),
                Err(e) => Err(e),
            },
            0x21 => match self.read_operands1() {
                Ok((a)) => Ok(Opcode::ProcSelf { dst: a }),
                Err(e) => Err(e),
            },
            0x22 => match self.read_operands1() {
                Ok((a)) => Ok(Opcode::ProcExit { reason: a }),
                Err(e) => Err(e),
            },
            0x23 => match self.read_operands2() {
                Ok((a, b)) => Ok(Opcode::ProcKill { pid: a, reason: b }),
                Err(e) => Err(e),
            },
            0x24 => match self.read_operands2() {
                Ok((a, b)) => Ok(Opcode::ProcState { dst: a, pid: b }),
                Err(e) => Err(e),
            },
            0x25 => Ok(Opcode::ProcYield),
            0x26 => match self.read_operands1() {
                Ok((a)) => Ok(Opcode::ProcSleep { duration: a }),
                Err(e) => Err(e),
            },
            0x27 => match self.read_operands2() {
                Ok((a, b)) => Ok(Opcode::ProcAlive { dst: a, pid: b }),
                Err(e) => Err(e),
            },
            0x28 => match self.read_operands1() {
                Ok((a)) => Ok(Opcode::ProcLink { pid: a }),
                Err(e) => Err(e),
            },
            0x29 => match self.read_operands1() {
                Ok((a)) => Ok(Opcode::ProcUnlink { pid: a }),
                Err(e) => Err(e),
            },
            0x2A => match self.read_operands1() {
                Ok((a)) => Ok(Opcode::ProcMonitor { pid: a }),
                Err(e) => Err(e),
            },
            0x2B => match self.read_operands1() {
                Ok((a)) => Ok(Opcode::ProcDemonitor { pid: a }),
                Err(e) => Err(e),
            },
            0x30 => Ok(Opcode::SchedYield),
            0x31 => match self.read_operands1() {
                Ok((a)) => Ok(Opcode::SchedWake { pid: a }),
                Err(e) => Err(e),
            },
            0x32 => match self.read_operands1() {
                Ok((a)) => Ok(Opcode::SchedWait { event: a }),
                Err(e) => Err(e),
            },
            0x33 => match self.read_operands1() {
                Ok((a)) => Ok(Opcode::SchedId { dst: a }),
                Err(e) => Err(e),
            },
            0x34 => match self.read_operands1() {
                Ok((a)) => Ok(Opcode::SchedCount { dst: a }),
                Err(e) => Err(e),
            },
            0x35 => match self.read_operands2() {
                Ok((a, b)) => Ok(Opcode::SchedMigrate { pid: a, scheduler: b }),
                Err(e) => Err(e),
            },
            0x40 => match self.read_operands2() {
                Ok((a, b)) => Ok(Opcode::MailSend { pid: a, message: b }),
                Err(e) => Err(e),
            },
            0x41 => match self.read_operands1() {
                Ok((a)) => Ok(Opcode::MailRecv { dst: a }),
                Err(e) => Err(e),
            },
            0x42 => match self.read_operands1() {
                Ok((a)) => Ok(Opcode::MailTryRecv { dst: a }),
                Err(e) => Err(e),
            },
            0x43 => match self.read_operands1() {
                Ok((a)) => Ok(Opcode::MailPeek { dst: a }),
                Err(e) => Err(e),
            },
            0x44 => match self.read_operands1() {
                Ok((a)) => Ok(Opcode::MailLen { dst: a }),
                Err(e) => Err(e),
            },
            0x45 => Ok(Opcode::MailClear),
            0x50 => match self.read_operands1() {
                Ok((a)) => Ok(Opcode::Await { operation: a }),
                Err(e) => Err(e),
            },
            0x51 => match self.read_operands3() {
                Ok((a, b, c)) => Ok(Opcode::Async { dst: a, function: b, args: c }),
                Err(e) => Err(e),
            },
            0x52 => match self.read_operands1() {
                Ok((a)) => Ok(Opcode::Resume { process: a }),
                Err(e) => Err(e),
            },
            0x53 => match self.read_operands1() {
                Ok((a)) => Ok(Opcode::Suspend { process: a }),
                Err(e) => Err(e),
            },
            0x60 => match self.read_operands1() {
                Ok((a)) => Ok(Opcode::ProcessDrop { pid: a }),
                Err(e) => Err(e),
            },
            0x61 => match self.read_operands1() {
                Ok((a)) => Ok(Opcode::ProcessReset { pid: a }),
                Err(e) => Err(e),
            },
            0x62 => match self.read_operands1() {
                Ok((a)) => Ok(Opcode::ProcessFail { reason: a }),
                Err(e) => Err(e),
            },
            0x63 => match self.read_operands1() {
                Ok((a)) => Ok(Opcode::ProcessTrap { handler: a }),
                Err(e) => Err(e),
            },
            0x70 => match self.read_operands1() {
                Ok((a)) => Ok(Opcode::Jit { function: a }),
                Err(e) => Err(e),
            },
            0x71 => match self.read_operands2() {
                Ok((a, b)) => Ok(Opcode::HiveCall { function: a, args: b }),
                Err(e) => Err(e),
            },
            0x72 => match self.read_operands2() {
                Ok((a, b)) => Ok(Opcode::CallWorker { worker: a, args: b }),
                Err(e) => Err(e),
            },
            0x73 => match self.read_operands2() {
                Ok((a, b)) => Ok(Opcode::NativeCall { function: a, args: b }),
                Err(e) => Err(e),
            },
            0x74 => match self.read_operands1() {
                Ok((a)) => Ok(Opcode::NativeReturn { value: a }),
                Err(e) => Err(e),
            },
            0x75 => Ok(Opcode::Recall),
            0x76 => Ok(Opcode::Syscall),
            0x77 => match self.read_operands1() {
                Ok((a)) => Ok(Opcode::Ret { ptr: a }),
                Err(e) => Err(e),
            },
            _ => Err(ParseError::UnknownHiveOpcode(op, self.ptr)),
        }
    }

    fn parse_rel8(&mut self) -> (res: Result<i8, ParseError>)
        requires
            old(self).ptr <= old(self).code@.len(),
        ensures
            final(self).code == old(self).code,
            final(self).ptr <= final(self).code@.len(),
            match sp_u8(old(self).code@, old(self).ptr as int) {
                Ok((v, q)) => res == Ok::<i8, ParseError>(v as i8) && final(self).ptr == q && q > old(self).ptr,
                Err(e) => res == Err::<i8, ParseError>(e),
            },
    {
        self.read_i8()
    }

    #[verifier::rlimit(60)]
    fn parse_opcode(&mut self) -> (res: Result<Opcode, ParseError>)
        requires
            old(self).ptr <= old(self).code@.len(),
        ensures
            final(self).code == old(self).code,
            agrees(res, sp_opcode_at(old(self).code@, old(self).ptr), old(self).ptr, final(self).ptr, old(self).code@.len()),
            old(self).ptr == old(self).code@.len() ==> final(self).ptr == old(self).ptr,
    {
        proof {
            reveal(sp_opcode);
        }
        let op = match self.read_u8() {
            Ok(op) => op,
            Err(e) => return Err(e),
        };
        match op {
            0x90 => Ok(Opcode::Nop),
            0x88 => match self.read_operands2() {
                Ok((a, b)) => Ok(Opcode::Mov8 { dst: a, src: b }),
                Err(e) => Err(e),
            },
            0x89 => match self.read_operands2() {
                Ok((a, b)) => Ok(Opcode::Mov64 { dst: a, src: b }),
                Err(e) => Err(e),
            },
            0x8A => match self.read_operands2() {
                Ok((a, b)) => Ok(Opcode::Mov8 { dst: a, src: b }),
                Err(e) => Err(e),
            },
            0x8B => match self.read_operands2() {
                Ok((a, b)) => Ok(Opcode::Mov64 { dst: a, src: b }),
                Err(e) => Err(e),
            },
            0x01 => match self.read_operands2() {
                Ok((a, b)) => Ok(Opcode::Add { dst: a, src: b }),
                Err(e) => Err(e),
            },
            0x03 => match self.read_operands2() {
                Ok((a, b)) => Ok(Opcode::Add { dst: a, src: b }),
                Err(e) => Err(e),
            },
            0x29 => match self.read_operands2() {
                Ok((a, b)) => Ok(Opcode::Sub { dst: a, src: b }),
                Err(e) => Err(e),
            },
            0x2B => match self.read_operands2() {
                Ok((a, b)) => Ok(Opcode::Sub { dst: a, src: b }),
                Err(e) => Err(e),
            },
            0x21 => match self.read_operands2() {
                Ok((a, b)) => Ok(Opcode::And { dst: a, src: b }),
                Err(e) => Err(e),
            },
            0x09 => match self.read_operands2() {
                Ok((a, b)) => Ok(Opcode::Or { dst: a, src: b }),
                Err(e) => Err(e),
            },
            0x31 => match self.read_operands2() {
                Ok((a, b)) => Ok(Opcode::Xor { dst: a, src: b }),
                Err(e) => Err(e),
            },
            0x85 => match self.read_operands2() {
                Ok((a, b)) => Ok(Opcode::Test { left: a, right: b }),
                Err(e) => Err(e),
            },
            0x39 => match self.read_operands2() {
                Ok((a, b)) => Ok(Opcode::Cmp { left: a, right: b }),
                Err(e) => Err(e),
            },
            0x3B => match self.read_operands2() {
                Ok((a, b)) => Ok(Opcode::Cmp { left: a, right: b }),
                Err(e) => Err(e),
            },
            0x8D => match self.read_register() {
                Ok(dst) => match self.read_memory_operand() {
                    Ok(src) => Ok(Opcode::Lea { dst, src }),
                    Err(e) => Err(e),
                },
                Err(e) => Err(e),
            },
            0xE9 => match self.read_i32() {
                Ok(offset) => Ok(Opcode::JmpRel32 { offset }),
                Err(e) => Err(e),
            },
            0xEB => match self.parse_rel8() {
                Ok(offset) => Ok(Opcode::JmpRel8 { offset }),
                Err(e) => Err(e),
            },
            0x74 => match self.parse_rel8() {
                Ok(offset) => Ok(Opcode::JeRel8 { offset }),
                Err(e) => Err(e),
            },
            0x75 => match self.parse_rel8() {
                Ok(offset) => Ok(Opcode::JneRel8 { offset }),
                Err(e) => Err(e),
            },
            0x7C => match self.parse_rel8() {
                Ok(offset) => Ok(Opcode::JlRel8 { offset }),
                Err(e) => Err(e),
            },
            0x7E => match self.parse_rel8() {
                Ok(offset) => Ok(Opcode::JleRel8 { offset }),
                Err(e) => Err(e),
            },
            0x7F => match self.parse_rel8() {
                Ok(offset) => Ok(Opcode::JgRel8 { offset }),
                Err(e) => Err(e),
            },
            0x7D => match self.parse_rel8() {
                Ok(offset) => Ok(Opcode::JgeRel8 { offset }),
                Err(e) => Err(e),
            },
            0x72 => match self.parse_rel8() {
                Ok(offset) => Ok(Opcode::JbRel8 { offset }),
                Err(e) => Err(e),
            },
            0x77 => match self.parse_rel8() {
                Ok(offset) => Ok(Opcode::JaRel8 { offset }),
                Err(e) => Err(e),
            },
            0xF7 => self.parse_f7(),
            0xFF => self.parse_ff(),
            0x0F => self.parse_0f(),
            0xC1 => self.parse_c1(),
            0xD3 => self.parse_d3(),
            0xB8 => self.parse_mov_imm(Register::Rax),
            0xB9 => self.parse_mov_imm(Register::Rcx),
            0xBA => self.parse_mov_imm(Register::Rdx),
            0xBB => self.parse_mov_imm(Register::Rbx),
            0xBC => self.parse_mov_imm(Register::Rsp),
            0xBD => self.parse_mov_imm(Register::Rbp),
            0xBE => self.parse_mov_imm(Register::Rsi),
            0xBF => self.parse_mov_imm(Register::Rdi),
            0xF0 => self.parse_hive_opcode(),
            _ => Err(ParseError::UnknownOpcode(op, self.ptr)),
        }
    }
}

/// Decodes a whole function body.
pub fn parse(code: Box<[u8]>) -> (res: Result<Box<[Opcode]>, ParseError>)
    ensures
        match parse_program(code@) {
            Ok(v) => res matches Ok(b) && b@ == v,
            Err(e) => res == Err::<Box<[Opcode]>, ParseError>(e),
        },
{
    Parser::new(&code).parse()
}

} // verus!
