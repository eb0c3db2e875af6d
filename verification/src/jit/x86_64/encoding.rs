//! Byte-level building blocks of x86-64 machine code: register numbers, REX
//! prefixes, ModRM/SIB bytes and little-endian immediates.
use vstd::prelude::*;
use vstd::bytes::*;

use crate::jit::opcode::{MemoryOperand, Register};

verus! {

/// The hardware number of a register (`rax` = 0 ... `r15` = 15).
pub open spec fn reg_code(r: Register) -> u8 {
    match r {
        Register::Rax => 0,
        Register::Rcx => 1,
        Register::Rdx => 2,
        Register::Rbx => 3,
        Register::Rsp => 4,
        Register::Rbp => 5,
        Register::Rsi => 6,
        Register::Rdi => 7,
        Register::R8 => 8,
        Register::R9 => 9,
        Register::R10 => 10,
        Register::R11 => 11,
        Register::R12 => 12,
        Register::R13 => 13,
        Register::R14 => 14,
        Register::R15 => 15,
    }
}

/// The REX byte `0100WRXB`.
pub open spec fn rex_value(w: bool, r: bool, x: bool, b: bool) -> u8 {
    (0x40 + (if w { 8int } else { 0int }) + (if r { 4int } else { 0int }) + (if x { 2int } else {
        0int
    }) + (if b { 1int } else { 0int })) as u8
}

/// The REX prefix, present only when one of its bits is set.
pub open spec fn rex_prefix(w: bool, r: bool, x: bool, b: bool) -> Seq<u8> {
    if w || r || x || b {
        seq![rex_value(w, r, x, b)]
    } else {
        seq![]
    }
}

/// A ModRM (or SIB) byte: two high bits `md`, then the low three bits of `reg` and of `rm`.
pub open spec fn modrm(md: int, reg: u8, rm: u8) -> u8 {
    (md * 64 + (reg % 8) * 8 + rm % 8) as u8
}

/// Whether a displacement or immediate fits in a signed byte.
pub open spec fn fits_i8(v: int) -> bool {
    -128 <= v <= 127
}

/// The low byte of a displacement known to fit in a signed byte.
pub open spec fn disp8(v: i32) -> u8 {
    v as i8 as u8
}

/// The four little-endian bytes of a 32-bit value.
pub open spec fn le32(v: i32) -> Seq<u8> {
    spec_u32_to_le_bytes(v as u32)
}

/// The four little-endian bytes of an unsigned 32-bit value.
pub open spec fn le32u(v: u32) -> Seq<u8> {
    spec_u32_to_le_bytes(v)
}

/// The eight little-endian bytes of a 64-bit value.
pub open spec fn le64(v: u64) -> Seq<u8> {
    spec_u64_to_le_bytes(v)
}

/// Little-endian encodings have the width of their type.
pub proof fn lemma_le_lengths()
    ensures
        forall|v: i32| #[trigger] le32(v).len() == 4,
        forall|v: u64| #[trigger] le64(v).len() == 8,
{
    lemma_auto_spec_u32_to_from_le_bytes();
    lemma_auto_spec_u64_to_from_le_bytes();
}

/// The scale factors an x86-64 SIB byte can express.
pub open spec fn valid_scale(scale: u8) -> bool {
    scale == 1 || scale == 2 || scale == 4 || scale == 8
}

/// The two SIB bits that encode a scale factor.
pub open spec fn scale_bits(scale: u8) -> int {
    if scale == 1 {
        0
    } else if scale == 2 {
        1
    } else if scale == 4 {
        2
    } else {
        3
    }
}

/// The register number of an optional register, or `default` when absent.
pub open spec fn opt_code(r: Option<Register>, default: u8) -> u8 {
    match r {
        Some(r) => reg_code(r),
        None => default,
    }
}

/// Whether a memory operand can be encoded through ModRM/SIB by
/// `build_instruction`: an encodable scale, and an index register other than
/// `rsp`, which a SIB byte cannot name as index.
pub open spec fn sib_encodable(m: MemoryOperand) -> bool {
    valid_scale(m.scale) && match m.index {
        Some(i) => reg_code(i) != 4,
        None => true,
    }
}

/// The byte an immediate is emitted as when it fits in a signed byte.
pub open spec fn imm8(v: i64) -> u8 {
    v as i8 as u8
}

/// An immediate as a sign-extended byte when it fits, else as four bytes.
pub open spec fn imm_bytes(v: i64) -> Seq<u8> {
    if fits_i8(v as int) {
        seq![imm8(v)]
    } else {
        le32(v as i32)
    }
}

/// Returns the hardware number of a register.
pub fn encode_register(register: &Register) -> (code: u8)
    ensures
        code == reg_code(*register),
        code < 16,
{
    match register {
        Register::Rax => 0,
        Register::Rcx => 1,
        Register::Rdx => 2,
        Register::Rbx => 3,
        Register::Rsp => 4,
        Register::Rbp => 5,
        Register::Rsi => 6,
        Register::Rdi => 7,
        Register::R8 => 8,
        Register::R9 => 9,
        Register::R10 => 10,
        Register::R11 => 11,
        Register::R12 => 12,
        Register::R13 => 13,
        Register::R14 => 14,
        Register::R15 => 15,
    }
}

/// Returns the hardware number of an optional register, or `default` when absent.
pub fn encode_opt_register(register: &Option<Register>, default: u8) -> (code: u8)
    ensures
        code == opt_code(*register, default),
{
    match register {
        Some(r) => encode_register(r),
        None => default,
    }
}

/// Computes a REX byte.
pub fn rex_byte(w: bool, r: bool, x: bool, b: bool) -> (rex: u8)
    ensures
        rex == rex_value(w, r, x, b),
{
    let mut rex: u8 = 0x40;
    if w {
        rex = rex + 8;
    }
    if r {
        rex = rex + 4;
    }
    if x {
        rex = rex + 2;
    }
    if b {
        rex = rex + 1;
    }
    rex
}

/// Appends the REX prefix when one of its bits is set.
pub fn push_rex(code: &mut Vec<u8>, w: bool, r: bool, x: bool, b: bool)
    ensures
        final(code)@ == old(code)@ + rex_prefix(w, r, x, b),
{
    let rex = rex_byte(w, r, x, b);
    if rex != 0x40 {
        code.push(rex);
    }
}

/// Computes a ModRM or SIB byte.
pub fn modrm_byte(md: u8, reg: u8, rm: u8) -> (byte: u8)
    requires
        md < 4,
    ensures
        byte == modrm(md as int, reg, rm),
{
    md * 64 + (reg % 8) * 8 + rm % 8
}

/// Appends the four little-endian bytes of a 32-bit value.
pub fn push_le32(code: &mut Vec<u8>, v: i32)
    ensures
        final(code)@ == old(code)@ + le32(v),
        le32(v).len() == 4,
{
    proof {
        lemma_le_lengths();
    }
    let mut bytes = u32_to_le_bytes(v as u32);
    code.append(&mut bytes);
}

/// Appends the four little-endian bytes of an unsigned 32-bit value.
pub fn push_le32u(code: &mut Vec<u8>, v: u32)
    ensures
        final(code)@ == old(code)@ + le32u(v),
        le32u(v).len() == 4,
{
    proof {
        lemma_auto_spec_u32_to_from_le_bytes();
    }
    let mut bytes = u32_to_le_bytes(v);
    code.append(&mut bytes);
}

/// Appends the eight little-endian bytes of a 64-bit value.
pub fn push_le64(code: &mut Vec<u8>, v: u64)
    ensures
        final(code)@ == old(code)@ + le64(v),
        le64(v).len() == 8,
{
    proof {
        lemma_le_lengths();
    }
    let mut bytes = u64_to_le_bytes(v);
    code.append(&mut bytes);
}

/// Returns the SIB scale bits of an encodable scale factor.
pub fn encode_scale(scale: u8) -> (bits: u8)
    requires
        valid_scale(scale),
    ensures
        bits == scale_bits(scale),
{
    if scale == 1 {
        0
    } else if scale == 2 {
        1
    } else if scale == 4 {
        2
    } else {
        3
    }
}

} // verus!
