//! `opcode /r` instructions with a register and a register-or-memory operand.
use vstd::prelude::*;

use crate::jit::opcode::{MemoryOperand, Operand, Register};
use crate::jit::x86_64::encoding::{
    disp8, encode_opt_register, encode_register, encode_scale, fits_i8, le32, modrm, modrm_byte,
    opt_code, push_le32, push_rex, reg_code, rex_prefix, scale_bits, valid_scale,
};

verus! {

/// Whether `encode_rm` accepts an r/m operand: a register, or a memory operand
/// with an encodable scale.
pub open spec fn rm_operand_ok(op: Operand) -> bool {
    match op {
        Operand::Register(_) => true,
        Operand::Memory(m) => valid_scale(m.scale),
        _ => false,
    }
}

/// ModRM, SIB and displacement of `encode_rm` for a memory operand.
pub open spec fn encode_rm_memory_tail(reg: u8, m: MemoryOperand) -> Seq<u8> {
    let s = scale_bits(m.scale);
    let d = m.displacement;
    match (m.base, m.index) {
        (Some(b), None) => {
            let bc = reg_code(b);
            let sib: Seq<u8> = if bc % 8 == 4 { seq![0x24u8] } else { Seq::empty() };
            if d == 0 && bc % 8 != 5 {
                seq![modrm(0, reg, bc)] + sib
            } else if fits_i8(d as int) && bc % 8 != 5 {
                seq![modrm(1, reg, bc)] + sib + seq![disp8(d)]
            } else {
                seq![modrm(2, reg, bc)] + sib + le32(d)
            }
        },
        (Some(b), Some(i)) => {
            let sib = modrm(s, reg_code(i), reg_code(b));
            if d == 0 && reg_code(b) % 8 != 5 {
                seq![modrm(0, reg, 4), sib]
            } else if fits_i8(d as int) {
                seq![modrm(1, reg, 4), sib, disp8(d)]
            } else {
                seq![modrm(2, reg, 4), sib] + le32(d)
            }
        },
        (None, Some(i)) => seq![modrm(0, reg, 4), modrm(s, reg_code(i), 5)] + le32(d),
        (None, None) => seq![modrm(0, reg, 4), 0x25u8] + le32(d),
    }
}

/// The encoding of `opcode /r` with register `reg` and r/m operand `op`.
pub open spec fn encode_rm_bytes(opcode: u8, reg: Register, op: Operand, w: bool) -> Seq<u8> {
    let r = reg_code(reg);
    match op {
        Operand::Register(rm) => {
            let m = reg_code(rm);
            rex_prefix(w, r >= 8, false, m >= 8) + seq![opcode, modrm(3, r, m)]
        },
        Operand::Memory(mem) => {
            let base = opt_code(mem.base, 0);
            let index = opt_code(mem.index, 0);
            rex_prefix(w, r >= 8, mem.index is Some && index >= 8, mem.base is Some && base >= 8)
                + seq![opcode] + encode_rm_memory_tail(r, mem)
        },
        _ => Seq::<u8>::empty(),
    }
}

fn push_memory_tail(code: &mut Vec<u8>, r: u8, memory: &MemoryOperand)
    requires
        valid_scale(memory.scale),
    ensures
        final(code)@ == old(code)@ + encode_rm_memory_tail(r, *memory),
{
    let ghost head = code@;
    let scale = encode_scale(memory.scale);
    let displacement = memory.displacement;
    let small = -128 <= displacement && displacement <= 127;
    match (&memory.base, &memory.index) {
        (Some(base), None) => {
            let base = encode_register(base);
            let md: u8 = if displacement == 0 && base % 8 != 5 {
                0
            } else if small && base % 8 != 5 {
                1
            } else {
                2
            };
            code.push(modrm_byte(md, r, base));
            if base % 8 == 4 {
                code.push(0x24);
            }
            if md == 1 {
                code.push(displacement as i8 as u8);
            } else if md == 2 {
                push_le32(code, displacement);
            }
        },
        (Some(base), Some(index)) => {
            let base = encode_register(base);
            let index = encode_register(index);
            if displacement == 0 && base % 8 != 5 {
                code.push(modrm_byte(0, r, 4));
                code.push(modrm_byte(scale, index, base));
            } else if small {
                code.push(modrm_byte(1, r, 4));
                code.push(modrm_byte(scale, index, base));
                code.push(displacement as i8 as u8);
            } else {
                code.push(modrm_byte(2, r, 4));
                code.push(modrm_byte(scale, index, base));
                push_le32(code, displacement);
            }
        },
        (None, Some(index)) => {
            let index = encode_register(index);
            code.push(modrm_byte(0, r, 4));
            code.push(modrm_byte(scale, index, 5));
            push_le32(code, displacement);
        },
        (None, None) => {
            code.push(modrm_byte(0, r, 4));
            code.push(0x25);
            push_le32(code, displacement);
        },
    }
    assert(code@ =~= head + encode_rm_memory_tail(r, *memory));
}

/// Encodes `opcode /r` with the register `reg` and the r/m operand `operand`;
/// `w` selects 64-bit operand size.
pub fn encode_rm(opcode: u8, reg: &Register, operand: &Operand, w: bool) -> (code: Vec<u8>)
    requires
        rm_operand_ok(*operand),
    ensures
        code@ == encode_rm_bytes(opcode, *reg, *operand, w),
{
    let mut code: Vec<u8> = Vec::new();
    let r = encode_register(reg);
    match operand {
        Operand::Register(operand) => {
            let rm = encode_register(operand);
            push_rex(&mut code, w, r >= 8, false, rm >= 8);
            code.push(opcode);
            code.push(modrm_byte(3, r, rm));
        },
        Operand::Memory(memory) => {
            let base_code = encode_opt_register(&memory.base, 0);
            let index_code = encode_opt_register(&memory.index, 0);
            push_rex(
                &mut code,
                w,
                r >= 8,
                memory.index.is_some() && index_code >= 8,
                memory.base.is_some() && base_code >= 8,
            );
            code.push(opcode);
            push_memory_tail(&mut code, r, memory);
        },
        _ => {
            assert(false);
        },
    }
    assert(code@ =~= encode_rm_bytes(opcode, *reg, *operand, w));
    code
}

} // verus!
