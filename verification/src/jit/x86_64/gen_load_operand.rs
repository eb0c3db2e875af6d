//! Loading an operand into a 64-bit register.
use vstd::prelude::*;

use crate::jit::opcode::{MemoryOperand, Operand, Register};
use crate::jit::x86_64::encoding::{
    disp8, encode_opt_register, encode_register, encode_scale, fits_i8, le32, le64, modrm, modrm_byte,
    opt_code, push_le32, push_le64, reg_code, scale_bits, valid_scale,
};

verus! {

/// Whether `gen_load_operand` can load this operand (frame variables and
/// memory operands with an unencodable scale are not supported).
pub open spec fn loadable(op: Operand) -> bool {
    match op {
        Operand::Memory(m) => valid_scale(m.scale),
        Operand::Variable(_) => false,
        _ => true,
    }
}

/// `mov dst, [base + index * scale + disp]` as emitted by `gen_load_operand`.
pub open spec fn load_memory_bytes(m: MemoryOperand, dst: Register) -> Seq<u8> {
    let d = reg_code(dst);
    let has_base = m.base is Some;
    let has_index = m.index is Some;
    let base_code = opt_code(m.base, 5);
    let index_code = opt_code(m.index, 4);
    let disp = m.displacement;
    let needs_sib = has_index || !has_base || base_code % 8 == 4;
    let md: int = if !has_base {
        0
    } else if disp == 0 && base_code % 8 != 5 {
        0
    } else if fits_i8(disp as int) {
        1
    } else {
        2
    };
    let rex = (0x48 + (if d >= 8 { 4int } else { 0int }) + (if has_index && index_code >= 8 {
        2int
    } else {
        0int
    }) + (if has_base && base_code >= 8 { 1int } else { 0int })) as u8;
    let rm: u8 = if needs_sib { 4 } else { base_code % 8 };
    seq![rex, 0x8Bu8, modrm(md, d, rm)] + (if needs_sib {
        seq![modrm(scale_bits(m.scale), index_code, base_code)]
    } else {
        Seq::<u8>::empty()
    }) + (if !has_base {
        le32(disp)
    } else if md == 1 {
        seq![disp8(disp)]
    } else if md == 2 {
        le32(disp)
    } else {
        Seq::<u8>::empty()
    })
}

/// The machine code that loads `op` into the 64-bit register `dst`.
pub open spec fn load_operand_bytes(op: Operand, dst: Register) -> Seq<u8> {
    let d = reg_code(dst);
    match op {
        Operand::Register(src) => {
            if src == dst {
                Seq::<u8>::empty()
            } else {
                let s = reg_code(src);
                seq![
                    (0x48 + (if d >= 8 { 4int } else { 0int }) + (if s >= 8 { 1int } else { 0int })) as u8,
                    0x8Bu8,
                    modrm(3, d, s),
                ]
            }
        },
        Operand::Immediate(value) => seq![
            (0x48 + (if d >= 8 { 1int } else { 0int })) as u8,
            (0xB8 + d % 8) as u8,
        ] + le64(value as u64),
        Operand::Memory(m) => load_memory_bytes(m, dst),
        Operand::FrameOffset(offset) => {
            let md: int = if fits_i8(offset as int) { 1 } else { 2 };
            seq![(0x48 + (if d >= 8 { 4int } else { 0int })) as u8, 0x8Bu8, modrm(md, d, 4), 0x24u8]
                + (if md == 1 { seq![disp8(offset)] } else { le32(offset) })
        },
        Operand::Variable(_) => Seq::<u8>::empty(),
    }
}

fn gen_load_memory(code: &mut Vec<u8>, memory: &MemoryOperand, dst_reg: Register)
    requires
        valid_scale(memory.scale),
    ensures
        final(code)@ == old(code)@ + load_memory_bytes(*memory, dst_reg),
{
    let dst = encode_register(&dst_reg);
    let base_code = encode_opt_register(&memory.base, 5);
    let index_code = encode_opt_register(&memory.index, 4);
    let has_base = memory.base.is_some();
    let has_index = memory.index.is_some();
    let displacement = memory.displacement;
    let scale = encode_scale(memory.scale);
    let needs_sib = has_index || !has_base || base_code % 8 == 4;
    let mod_bits: u8 = if !has_base {
        0
    } else if displacement == 0 && base_code % 8 != 5 {
        0
    } else if -128 <= displacement && displacement <= 127 {
        1
    } else {
        2
    };
    let mut rex: u8 = 0x48;
    if dst >= 8 {
        rex = rex + 4;
    }
    if has_index && index_code >= 8 {
        rex = rex + 2;
    }
    if has_base && base_code >= 8 {
        rex = rex + 1;
    }
    let ghost start = code@;
    code.push(rex);
    code.push(0x8B);
    let rm: u8 = if needs_sib { 4 } else { base_code % 8 };
    code.push(modrm_byte(mod_bits, dst, rm));
    if needs_sib {
        code.push(modrm_byte(scale, index_code, base_code));
    }
    if !has_base {
        push_le32(code, displacement);
    } else if mod_bits == 1 {
        code.push(displacement as i8 as u8);
    } else if mod_bits == 2 {
        push_le32(code, displacement);
    }
    assert(code@ =~= start + load_memory_bytes(*memory, dst_reg));
}

/// Appends the machine code that loads `operand` into the 64-bit register `dst_reg`.
pub fn gen_load_operand(code: &mut Vec<u8>, operand: &Operand, dst_reg: Register)
    requires
        loadable(*operand),
    ensures
        final(code)@ == old(code)@ + load_operand_bytes(*operand, dst_reg),
{
    let dst = encode_register(&dst_reg);
    let ghost start = code@;
    match operand {
        Operand::Register(src) => {
            if *src != dst_reg {
                let src = encode_register(src);
                let mut rex: u8 = 0x48;
                if dst >= 8 {
                    rex = rex + 4;
                }
                if src >= 8 {
                    rex = rex + 1;
                }
                code.push(rex);
                code.push(0x8B);
                code.push(modrm_byte(3, dst, src));
            }
            assert(code@ =~= start + load_operand_bytes(*operand, dst_reg));
        },
        Operand::Immediate(value) => {
            let mut rex: u8 = 0x48;
            if dst >= 8 {
                rex = rex + 1;
            }
            code.push(rex);
            code.push(0xB8 + dst % 8);
            push_le64(code, *value as u64);
            assert(code@ =~= start + load_operand_bytes(*operand, dst_reg));
        },
        Operand::Memory(memory) => {
            gen_load_memory(code, memory, dst_reg);
        },
        Operand::FrameOffset(offset) => {
            let displacement = *offset;
            let mod_bits: u8 = if -128 <= displacement && displacement <= 127 {
                1
            } else {
                2
            };
            let mut rex: u8 = 0x48;
            if dst >= 8 {
                rex = rex + 4;
            }
            code.push(rex);
            code.push(0x8B);
            code.push(modrm_byte(mod_bits, dst, 4));
            code.push(0x24);
            if mod_bits == 1 {
                code.push(displacement as i8 as u8);
            } else {
                push_le32(code, displacement);
            }
            assert(code@ =~= start + load_operand_bytes(*operand, dst_reg));
        },
        Operand::Variable(_) => {
            assert(false);
        },
    }
}

} // verus!
