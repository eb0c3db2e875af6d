//! Table-driven encoding of x86-64 instructions.
use vstd::prelude::*;

use crate::jit::opcode::{MemoryOperand, Operand, Register};
use crate::jit::x86_64::encoding::{
    disp8, encode_opt_register, encode_register, encode_scale, fits_i8, imm_bytes, le32,
    le32u, le64, modrm, modrm_byte, opt_code, push_le32, push_le32u, push_le64, push_rex, reg_code,
    rex_prefix, scale_bits, sib_encodable,
};

verus! {

/// How an instruction is laid out.
#[derive(Debug, Clone, Copy)]
pub enum InstructionEncoding {
    /// opcode /r
    Rm { opcode: u8, w: bool },
    /// opcode /digit, r/m
    Group { opcode: u8, group: u8, w: bool },
    /// opcode /digit ib/id
    GroupImmediate { opcode8: u8, opcode32: u8, group: u8, w: bool },
    /// opcode r/m, imm
    RmImmediate { opcode8: u8, opcode32: u8, group: u8, w: bool },
    /// 0F opcode /r
    Rm0F { opcode: u8, w: bool },
    /// 0F opcode /r with an 8-bit immediate
    Rm0FImmediate { opcode: u8, w: bool },
    /// mov reg, imm
    MovImmediate { w: bool },
}

/// Whether an operand can stand in the r/m field: a register, or a memory
/// operand that ModRM/SIB can express.
pub open spec fn modrm_operand_ok(op: Operand) -> bool {
    match op {
        Operand::Register(_) => true,
        Operand::Memory(m) => sib_encodable(m),
        _ => false,
    }
}

/// The immediate value of an operand (zero for other operands).
pub open spec fn immediate_of(op: Operand) -> i64 {
    match op {
        Operand::Immediate(v) => v,
        _ => 0,
    }
}

/// The register number of a register operand (zero for other operands).
pub open spec fn register_of(op: Operand) -> u8 {
    match op {
        Operand::Register(r) => reg_code(r),
        _ => 0,
    }
}

/// The ModRM/SIB/displacement bytes of a memory operand with `reg` in the reg field.
pub open spec fn modrm_memory_bytes(reg: u8, m: MemoryOperand) -> Seq<u8> {
    let has_base = m.base is Some;
    let bc = opt_code(m.base, 0);
    let disp = m.displacement;
    let needs_sib = m.index is Some || !has_base || bc % 8 == 4;
    let md: int = if !has_base {
        0
    } else if needs_sib {
        if disp == 0 && bc % 8 != 5 {
            0
        } else if fits_i8(disp as int) {
            1
        } else {
            2
        }
    } else {
        if disp == 0 && bc % 8 != 5 {
            0
        } else if fits_i8(disp as int) {
            1
        } else {
            2
        }
    };
    let rm: u8 = if needs_sib { 4 } else { bc % 8 };
    seq![modrm(md, reg, rm)] + (if needs_sib {
        seq![modrm(scale_bits(m.scale), opt_code(m.index, 4), opt_code(m.base, 5))]
    } else {
        Seq::<u8>::empty()
    }) + (if md == 1 {
        seq![disp8(disp)]
    } else if md == 2 {
        le32(disp)
    } else if md == 0 && !has_base {
        le32(disp)
    } else {
        Seq::<u8>::empty()
    })
}

/// Prefix, opcode bytes and ModRM encoding of `reg` with the r/m operand `op`.
pub open spec fn modrm_bytes(reg: u8, op: Operand, w: bool, opcode: Seq<u8>) -> Seq<u8> {
    match op {
        Operand::Register(r) => {
            let rm = reg_code(r);
            rex_prefix(w, reg >= 8, false, rm >= 8) + opcode + seq![modrm(3, reg, rm)]
        },
        Operand::Memory(m) => {
            let ic = opt_code(m.index, 0);
            let bc = opt_code(m.base, 0);
            rex_prefix(w, reg >= 8, m.index is Some && ic >= 8, m.base is Some && bc >= 8) + opcode
                + modrm_memory_bytes(reg, m)
        },
        _ => Seq::<u8>::empty(),
    }
}

/// The opcode byte chosen by the size of an immediate.
pub open spec fn imm_opcode(v: i64, opcode8: u8, opcode32: u8) -> u8 {
    if fits_i8(v as int) {
        opcode8
    } else {
        opcode32
    }
}

/// Whether `build_instruction` accepts these operands for this encoding.
pub open spec fn build_ok(encoding: InstructionEncoding, ops: Seq<Operand>) -> bool {
    match encoding {
        InstructionEncoding::Rm { .. } | InstructionEncoding::Rm0F { .. } => ops.len() == 2
            && ops[0] is Register && modrm_operand_ok(ops[1]),
        InstructionEncoding::Group { .. } => ops.len() == 1 && modrm_operand_ok(ops[0]),
        InstructionEncoding::GroupImmediate { .. } | InstructionEncoding::RmImmediate { .. } =>
            ops.len() == 2 && modrm_operand_ok(ops[0]) && ops[1] is Immediate,
        InstructionEncoding::Rm0FImmediate { .. } => ops.len() == 3 && ops[0] is Register
            && ops[1] is Register && ops[2] is Immediate,
        InstructionEncoding::MovImmediate { .. } => ops.len() == 2 && ops[0] is Register
            && ops[1] is Immediate,
    }
}

/// `opcode /digit` on a register or memory operand.
pub open spec fn group_bytes(opcode: u8, group: u8, w: bool, op: Operand) -> Seq<u8> {
    match op {
        Operand::Register(r) => {
            let rm = reg_code(r);
            rex_prefix(w, false, false, rm >= 8) + seq![opcode, modrm(3, group, rm)]
        },
        _ => modrm_bytes(group, op, w, seq![opcode]),
    }
}

/// `opcode /digit` with an 8- or 32-bit immediate.
pub open spec fn group_immediate_bytes(opcode8: u8, opcode32: u8, group: u8, w: bool, op: Operand, v: i64) -> Seq<u8> {
    group_bytes(imm_opcode(v, opcode8, opcode32), group, w, op) + imm_bytes(v)
}

/// `0F opcode /r ib` with register operands.
pub open spec fn rm0f_immediate_bytes(opcode: u8, w: bool, dst: u8, rm: u8, v: i64) -> Seq<u8> {
    rex_prefix(w, dst >= 8, false, rm >= 8) + seq![0x0Fu8, opcode, modrm(3, dst, rm), v as u8]
}

/// `mov reg, imm` with a 64-bit or 32-bit immediate.
pub open spec fn mov_immediate_bytes(w: bool, dst: u8, v: i64) -> Seq<u8> {
    rex_prefix(w, false, false, dst >= 8) + seq![(0xB8 + dst % 8) as u8] + if w {
        le64(v as u64)
    } else {
        le32u(v as u32)
    }
}

/// The machine code `build_instruction` produces.
pub open spec fn build_instruction_bytes(encoding: InstructionEncoding, ops: Seq<Operand>) -> Seq<u8> {
    match encoding {
        InstructionEncoding::Rm { opcode, w } => modrm_bytes(register_of(ops[0]), ops[1], w, seq![opcode]),
        InstructionEncoding::Rm0F { opcode, w } => modrm_bytes(
            register_of(ops[0]),
            ops[1],
            w,
            seq![0x0Fu8, opcode],
        ),
        InstructionEncoding::Group { opcode, group, w } => group_bytes(opcode, group, w, ops[0]),
        InstructionEncoding::GroupImmediate { opcode8, opcode32, group, w } =>
            group_immediate_bytes(opcode8, opcode32, group, w, ops[0], immediate_of(ops[1])),
        InstructionEncoding::RmImmediate { opcode8, opcode32, group, w } => {
            let v = immediate_of(ops[1]);
            modrm_bytes(group, ops[0], w, seq![imm_opcode(v, opcode8, opcode32)]) + imm_bytes(v)
        },
        InstructionEncoding::Rm0FImmediate { opcode, w } => rm0f_immediate_bytes(
            opcode,
            w,
            register_of(ops[0]),
            register_of(ops[1]),
            immediate_of(ops[2]),
        ),
        InstructionEncoding::MovImmediate { w } => mov_immediate_bytes(
            w,
            register_of(ops[0]),
            immediate_of(ops[1]),
        ),
    }
}

fn register_value(operand: &Operand) -> (code: u8)
    requires
        *operand is Register,
    ensures
        code == register_of(*operand),
        code < 16,
{
    match operand {
        Operand::Register(register) => encode_register(register),
        _ => {
            assert(false);
            0
        },
    }
}

fn immediate_value(operand: &Operand) -> (v: i64)
    requires
        *operand is Immediate,
    ensures
        v == immediate_of(*operand),
{
    match operand {
        Operand::Immediate(value) => *value,
        _ => {
            assert(false);
            0
        },
    }
}

fn push_modrm_memory(code: &mut Vec<u8>, reg: u8, memory: &MemoryOperand)
    requires
        sib_encodable(*memory),
    ensures
        final(code)@ == old(code)@ + modrm_memory_bytes(reg, *memory),
{
    let ghost start = code@;
    let has_base = memory.base.is_some();
    let base_code = encode_opt_register(&memory.base, 0);
    let displacement = memory.displacement;
    let scale = encode_scale(memory.scale);
    let needs_sib = memory.index.is_some() || !has_base || base_code % 8 == 4;
    let small = -128 <= displacement && displacement <= 127;
    let mod_bits: u8 = if !has_base {
        0
    } else if needs_sib {
        if displacement == 0 && base_code % 8 != 5 {
            0
        } else if small {
            1
        } else {
            2
        }
    } else {
        if displacement == 0 && base_code % 8 != 5 {
            0
        } else if small {
            1
        } else {
            2
        }
    };
    let rm_bits: u8 = if needs_sib { 4 } else { base_code % 8 };
    code.push(modrm_byte(mod_bits, reg, rm_bits));
    if needs_sib {
        let sib_index = encode_opt_register(&memory.index, 4);
        let sib_base = encode_opt_register(&memory.base, 5);
        code.push(modrm_byte(scale, sib_index, sib_base));
    }
    if mod_bits == 1 {
        code.push(displacement as i8 as u8);
    } else if mod_bits == 2 {
        push_le32(code, displacement);
    } else if mod_bits == 0 && !has_base {
        push_le32(code, displacement);
    }
    assert(code@ =~= start + modrm_memory_bytes(reg, *memory));
}

fn emit_modrm_reg_rm(code: &mut Vec<u8>, reg: u8, operand: &Operand, w: bool, opcode: &[u8])
    requires
        modrm_operand_ok(*operand),
    ensures
        final(code)@ == old(code)@ + modrm_bytes(reg, *operand, w, opcode@),
{
    let ghost start = code@;
    match operand {
        Operand::Register(register) => {
            let rm = encode_register(register);
            push_rex(code, w, reg >= 8, false, rm >= 8);
            let mut op: Vec<u8> = slice_to_vec_u8(opcode);
            code.append(&mut op);
            code.push(modrm_byte(3, reg, rm));
        },
        Operand::Memory(memory) => {
            let base = encode_opt_register(&memory.base, 0);
            let index = encode_opt_register(&memory.index, 0);
            push_rex(
                code,
                w,
                reg >= 8,
                memory.index.is_some() && index >= 8,
                memory.base.is_some() && base >= 8,
            );
            let mut op: Vec<u8> = slice_to_vec_u8(opcode);
            code.append(&mut op);
            push_modrm_memory(code, reg, memory);
        },
        _ => {
            assert(false);
        },
    }
    assert(code@ =~= start + modrm_bytes(reg, *operand, w, opcode@));
}

fn slice_to_vec_u8(s: &[u8]) -> (v: Vec<u8>)
    ensures
        v@ == s@,
{
    let mut v: Vec<u8> = Vec::new();
    let mut i: usize = 0;
    while i < s.len()
        invariant
            i <= s@.len(),
            v@ == s@.subrange(0, i as int),
        decreases s@.len() - i,
    {
        v.push(s[i]);
        i = i + 1;
        assert(v@ =~= s@.subrange(0, i as int));
    }
    assert(s@.subrange(0, s@.len() as int) =~= s@);
    v
}

fn push_immediate(code: &mut Vec<u8>, value: i64)
    ensures
        final(code)@ == old(code)@ + imm_bytes(value),
{
    if -128 <= value && value <= 127 {
        code.push(value as i8 as u8);
    } else {
        push_le32(code, value as i32);
    }
}

fn push_group(code: &mut Vec<u8>, opcode: u8, group: u8, w: bool, operand: &Operand)
    requires
        modrm_operand_ok(*operand),
    ensures
        final(code)@ == old(code)@ + group_bytes(opcode, group, w, *operand),
{
    let ghost start = code@;
    match operand {
        Operand::Register(register) => {
            let rm = encode_register(register);
            push_rex(code, w, false, false, rm >= 8);
            code.push(opcode);
            code.push(modrm_byte(3, group, rm));
        },
        _ => {
            emit_modrm_reg_rm(code, group, operand, w, &[opcode]);
        },
    }
    assert(code@ =~= start + group_bytes(opcode, group, w, *operand));
}

fn push_rm0f_immediate(code: &mut Vec<u8>, opcode: u8, w: bool, dst: u8, rm: u8, immediate: i64)
    ensures
        final(code)@ == old(code)@ + rm0f_immediate_bytes(opcode, w, dst, rm, immediate),
{
    let ghost start = code@;
    push_rex(code, w, dst >= 8, false, rm >= 8);
    code.push(0x0F);
    code.push(opcode);
    code.push(modrm_byte(3, dst, rm));
    code.push(immediate as u8);
    assert(code@ =~= start + rm0f_immediate_bytes(opcode, w, dst, rm, immediate));
}

fn push_mov_immediate(code: &mut Vec<u8>, w: bool, dst: u8, value: i64)
    requires
        dst < 16,
    ensures
        final(code)@ == old(code)@ + mov_immediate_bytes(w, dst, value),
{
    let ghost start = code@;
    push_rex(code, w, false, false, dst >= 8);
    code.push(0xB8 + dst % 8);
    if w {
        push_le64(code, value as u64);
    } else {
        push_le32u(code, value as u32);
    }
    assert(code@ =~= start + mov_immediate_bytes(w, dst, value));
}

/// Encodes an instruction with the given layout and operands.
pub fn build_instruction(encoding: InstructionEncoding, operands: &[&Operand]) -> (code: Vec<u8>)
    requires
        build_ok(encoding, operands@.map_values(|o: &Operand| *o)),
    ensures
        code@ == build_instruction_bytes(encoding, operands@.map_values(|o: &Operand| *o)),
{
    let ghost ops = operands@.map_values(|o: &Operand| *o);
    let mut code: Vec<u8> = Vec::new();
    match encoding {
        InstructionEncoding::Rm { opcode, w } => {
            let reg = register_value(operands[0]);
            emit_modrm_reg_rm(&mut code, reg, operands[1], w, &[opcode]);
        },
        InstructionEncoding::Group { opcode, group, w } => {
            push_group(&mut code, opcode, group, w, operands[0]);
        },
        InstructionEncoding::GroupImmediate { opcode8, opcode32, group, w } => {
            let value = immediate_value(operands[1]);
            let opcode = if -128 <= value && value <= 127 {
                opcode8
            } else {
                opcode32
            };
            push_group(&mut code, opcode, group, w, operands[0]);
            push_immediate(&mut code, value);
        },
        InstructionEncoding::RmImmediate { opcode8, opcode32, group, w } => {
            let value = immediate_value(operands[1]);
            let opcode = if -128 <= value && value <= 127 {
                opcode8
            } else {
                opcode32
            };
            emit_modrm_reg_rm(&mut code, group, operands[0], w, &[opcode]);
            push_immediate(&mut code, value);
        },
        InstructionEncoding::Rm0F { opcode, w } => {
            let reg = register_value(operands[0]);
            emit_modrm_reg_rm(&mut code, reg, operands[1], w, &[0x0F, opcode]);
        },
        InstructionEncoding::Rm0FImmediate { opcode, w } => {
            let dst = register_value(operands[0]);
            let rm = register_value(operands[1]);
            let immediate = immediate_value(operands[2]);
            push_rm0f_immediate(&mut code, opcode, w, dst, rm, immediate);
        },
        InstructionEncoding::MovImmediate { w } => {
            let dst = register_value(operands[0]);
            let value = immediate_value(operands[1]);
            push_mov_immediate(&mut code, w, dst, value);
        },
    }
    code
}

} // verus!
