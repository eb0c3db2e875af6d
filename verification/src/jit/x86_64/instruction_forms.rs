//! What the translator emits, stated in x86-64 terms: the opcode bytes and
//! the ModRM fields of each instruction form.
use vstd::prelude::*;
use vstd::bytes::{spec_u32_to_le_bytes, spec_u64_to_le_bytes};

use crate::jit::opcode::{MemoryOperand, Opcode, Operand, Register, ShiftAmount};
use crate::jit::x86_64::encoding::reg_code;
use crate::jit::x86_64::translate_opcode::translate_bytes;

verus! {

/// `REX.W` with `REX.R` for an extended reg field and `REX.B` for an extended
/// r/m register.
pub open spec fn rex_w(reg: u8, rm: u8) -> u8 {
    (0x48 + (if reg >= 8 { 4int } else { 0int }) + (if rm >= 8 { 1int } else { 0int })) as u8
}

/// A ModRM byte for two registers (`mod` 11).
pub open spec fn modrm_registers(reg: u8, rm: u8) -> u8 {
    (0xC0 + (reg % 8) * 8 + rm % 8) as u8
}

/// The reg field of a ModRM byte.
pub open spec fn reg_field(modrm: u8) -> int {
    (modrm as int / 8) % 8
}

/// Register to register, each two-operand instruction is its x86-64 `/r`
/// opcode with `REX.W`: ADD 03, SUB 2B, AND 23, OR 0B, XOR 33, CMP 3B,
/// MOV 8B, TEST 85, with the destination in the reg field; an 8-bit MOV is 8A
/// without `REX.W`.
pub proof fn lemma_register_forms(d: Register, r: Register, addr: u64)
    ensures
        ({
            let rd = reg_code(d);
            let rr = reg_code(r);
            let tail = seq![modrm_registers(rd, rr)];
            &&& translate_bytes(Opcode::Add { dst: Operand::Register(d), src: Operand::Register(r) }, addr) == seq![rex_w(rd, rr), 0x03u8] + tail
            &&& translate_bytes(Opcode::Sub { dst: Operand::Register(d), src: Operand::Register(r) }, addr) == seq![rex_w(rd, rr), 0x2Bu8] + tail
            &&& translate_bytes(Opcode::And { dst: Operand::Register(d), src: Operand::Register(r) }, addr) == seq![rex_w(rd, rr), 0x23u8] + tail
            &&& translate_bytes(Opcode::Or { dst: Operand::Register(d), src: Operand::Register(r) }, addr) == seq![rex_w(rd, rr), 0x0Bu8] + tail
            &&& translate_bytes(Opcode::Xor { dst: Operand::Register(d), src: Operand::Register(r) }, addr) == seq![rex_w(rd, rr), 0x33u8] + tail
            &&& translate_bytes(Opcode::Cmp { left: Operand::Register(d), right: Operand::Register(r) }, addr) == seq![rex_w(rd, rr), 0x3Bu8] + tail
            &&& translate_bytes(Opcode::Mov64 { dst: Operand::Register(d), src: Operand::Register(r) }, addr) == seq![rex_w(rd, rr), 0x8Bu8] + tail
            &&& translate_bytes(Opcode::Test { left: Operand::Register(d), right: Operand::Register(r) }, addr) == seq![rex_w(rd, rr), 0x85u8] + tail
            &&& ({
                let b = translate_bytes(Opcode::Mov8 { dst: Operand::Register(d), src: Operand::Register(r) }, addr);
                &&& b.len() >= 2
                &&& b[b.len() - 2] == 0x8A
                &&& b[b.len() - 1] == modrm_registers(rd, rr)
            })
        }),
{
}

/// With a memory source, each two-operand instruction is its `/r` opcode with
/// the destination register in the ModRM reg field.
pub proof fn lemma_memory_source_forms(d: Register, m: MemoryOperand, addr: u64)
    ensures
        ({
            let rd = reg_code(d);
            let src = Operand::Memory(m);
            &&& ({ let b = translate_bytes(Opcode::Add { dst: Operand::Register(d), src: src }, addr); b.len() >= 3 && b[1] == 0x03 && reg_field(b[2]) == rd % 8 })
            &&& ({ let b = translate_bytes(Opcode::Sub { dst: Operand::Register(d), src: src }, addr); b.len() >= 3 && b[1] == 0x2B && reg_field(b[2]) == rd % 8 })
            &&& ({ let b = translate_bytes(Opcode::And { dst: Operand::Register(d), src: src }, addr); b.len() >= 3 && b[1] == 0x23 && reg_field(b[2]) == rd % 8 })
            &&& ({ let b = translate_bytes(Opcode::Or { dst: Operand::Register(d), src: src }, addr); b.len() >= 3 && b[1] == 0x0B && reg_field(b[2]) == rd % 8 })
            &&& ({ let b = translate_bytes(Opcode::Xor { dst: Operand::Register(d), src: src }, addr); b.len() >= 3 && b[1] == 0x33 && reg_field(b[2]) == rd % 8 })
            &&& ({ let b = translate_bytes(Opcode::Cmp { left: Operand::Register(d), right: src }, addr); b.len() >= 3 && b[1] == 0x3B && reg_field(b[2]) == rd % 8 })
            &&& ({ let b = translate_bytes(Opcode::Mov64 { dst: Operand::Register(d), src: src }, addr); b.len() >= 3 && b[1] == 0x8B && reg_field(b[2]) == rd % 8 })
        }),
{
}

/// With an immediate source, each arithmetic instruction is `83 /digit ib`
/// when the value fits a signed byte, else `81 /digit id`, with the digit of
/// the operation in the ModRM reg field: ADD 0, OR 1, AND 4, SUB 5, XOR 6,
/// CMP 7.
pub proof fn lemma_immediate_forms(dst: Operand, v: i64, addr: u64)
    requires
        dst is Register || dst is Memory,
    ensures
        ({
            let opc: u8 = if -128 <= v <= 127 { 0x83 } else { 0x81 };
            let src = Operand::Immediate(v);
            &&& ({ let b = translate_bytes(Opcode::Add { dst: dst, src: src }, addr); b.len() >= 3 && b[1] == opc && reg_field(b[2]) == 0 })
            &&& ({ let b = translate_bytes(Opcode::Sub { dst: dst, src: src }, addr); b.len() >= 3 && b[1] == opc && reg_field(b[2]) == 5 })
            &&& ({ let b = translate_bytes(Opcode::And { dst: dst, src: src }, addr); b.len() >= 3 && b[1] == opc && reg_field(b[2]) == 4 })
            &&& ({ let b = translate_bytes(Opcode::Or { dst: dst, src: src }, addr); b.len() >= 3 && b[1] == opc && reg_field(b[2]) == 1 })
            &&& ({ let b = translate_bytes(Opcode::Xor { dst: dst, src: src }, addr); b.len() >= 3 && b[1] == opc && reg_field(b[2]) == 6 })
            &&& ({ let b = translate_bytes(Opcode::Cmp { left: dst, right: src }, addr); b.len() >= 3 && b[1] == opc && reg_field(b[2]) == 7 })
        }),
{
}

/// On a register, the one-operand instructions are `F7 /digit` (MUL 4, IMUL
/// 5, DIV 6, IDIV 7, NEG 3, NOT 2) and `FF /digit` (INC 0, DEC 1), the shifts
/// `C1 /digit ib` or `D3 /digit` (SHL 4, SHR 5, SAR 7, ROL 0, ROR 1), and
/// `setcc` is `0F cc` on the low byte.
pub proof fn lemma_register_operand_forms(r: Register, k: u8, addr: u64)
    ensures
        ({
            let rr = reg_code(r);
            let reg = Operand::Register(r);
            &&& translate_bytes(Opcode::Mul { src: reg }, addr) == seq![rex_w(0, rr), 0xF7u8, modrm_registers(4, rr)]
            &&& translate_bytes(Opcode::Imul { src: reg }, addr) == seq![rex_w(0, rr), 0xF7u8, modrm_registers(5, rr)]
            &&& translate_bytes(Opcode::Div { src: reg }, addr) == seq![rex_w(0, rr), 0xF7u8, modrm_registers(6, rr)]
            &&& translate_bytes(Opcode::Idiv { src: reg }, addr) == seq![rex_w(0, rr), 0xF7u8, modrm_registers(7, rr)]
            &&& translate_bytes(Opcode::Neg { operand: reg }, addr) == seq![rex_w(0, rr), 0xF7u8, modrm_registers(3, rr)]
            &&& translate_bytes(Opcode::Not { operand: reg }, addr) == seq![rex_w(0, rr), 0xF7u8, modrm_registers(2, rr)]
            &&& translate_bytes(Opcode::Inc { operand: reg }, addr) == seq![rex_w(0, rr), 0xFFu8, modrm_registers(0, rr)]
            &&& translate_bytes(Opcode::Dec { operand: reg }, addr) == seq![rex_w(0, rr), 0xFFu8, modrm_registers(1, rr)]
            &&& translate_bytes(Opcode::Shl { dst: reg, amount: ShiftAmount::Immediate(k) }, addr) == seq![rex_w(0, rr), 0xC1u8, modrm_registers(4, rr), k]
            &&& translate_bytes(Opcode::Shl { dst: reg, amount: ShiftAmount::Cl }, addr) == seq![rex_w(0, rr), 0xD3u8, modrm_registers(4, rr)]
            &&& translate_bytes(Opcode::Shr { dst: reg, amount: ShiftAmount::Immediate(k) }, addr) == seq![rex_w(0, rr), 0xC1u8, modrm_registers(5, rr), k]
            &&& translate_bytes(Opcode::Shr { dst: reg, amount: ShiftAmount::Cl }, addr) == seq![rex_w(0, rr), 0xD3u8, modrm_registers(5, rr)]
            &&& translate_bytes(Opcode::Sar { dst: reg, amount: ShiftAmount::Immediate(k) }, addr) == seq![rex_w(0, rr), 0xC1u8, modrm_registers(7, rr), k]
            &&& translate_bytes(Opcode::Sar { dst: reg, amount: ShiftAmount::Cl }, addr) == seq![rex_w(0, rr), 0xD3u8, modrm_registers(7, rr)]
            &&& translate_bytes(Opcode::Rol { dst: reg, amount: ShiftAmount::Immediate(k) }, addr) == seq![rex_w(0, rr), 0xC1u8, modrm_registers(0, rr), k]
            &&& translate_bytes(Opcode::Rol { dst: reg, amount: ShiftAmount::Cl }, addr) == seq![rex_w(0, rr), 0xD3u8, modrm_registers(0, rr)]
            &&& translate_bytes(Opcode::Ror { dst: reg, amount: ShiftAmount::Immediate(k) }, addr) == seq![rex_w(0, rr), 0xC1u8, modrm_registers(1, rr), k]
            &&& translate_bytes(Opcode::Ror { dst: reg, amount: ShiftAmount::Cl }, addr) == seq![rex_w(0, rr), 0xD3u8, modrm_registers(1, rr)]
            &&& translate_bytes(Opcode::Sete { dst: reg }, addr) == (if rr >= 8 { seq![0x41u8] } else { Seq::<u8>::empty() }) + seq![0x0Fu8, 0x94u8, modrm_registers(0, rr)]
            &&& translate_bytes(Opcode::Setne { dst: reg }, addr) == (if rr >= 8 { seq![0x41u8] } else { Seq::<u8>::empty() }) + seq![0x0Fu8, 0x95u8, modrm_registers(0, rr)]
            &&& translate_bytes(Opcode::Setl { dst: reg }, addr) == (if rr >= 8 { seq![0x41u8] } else { Seq::<u8>::empty() }) + seq![0x0Fu8, 0x9Cu8, modrm_registers(0, rr)]
            &&& translate_bytes(Opcode::Setle { dst: reg }, addr) == (if rr >= 8 { seq![0x41u8] } else { Seq::<u8>::empty() }) + seq![0x0Fu8, 0x9Eu8, modrm_registers(0, rr)]
            &&& translate_bytes(Opcode::Setg { dst: reg }, addr) == (if rr >= 8 { seq![0x41u8] } else { Seq::<u8>::empty() }) + seq![0x0Fu8, 0x9Fu8, modrm_registers(0, rr)]
            &&& translate_bytes(Opcode::Setge { dst: reg }, addr) == (if rr >= 8 { seq![0x41u8] } else { Seq::<u8>::empty() }) + seq![0x0Fu8, 0x9Du8, modrm_registers(0, rr)]
            &&& translate_bytes(Opcode::Setb { dst: reg }, addr) == (if rr >= 8 { seq![0x41u8] } else { Seq::<u8>::empty() }) + seq![0x0Fu8, 0x92u8, modrm_registers(0, rr)]
            &&& translate_bytes(Opcode::Seta { dst: reg }, addr) == (if rr >= 8 { seq![0x41u8] } else { Seq::<u8>::empty() }) + seq![0x0Fu8, 0x97u8, modrm_registers(0, rr)]
        }),
{
}

/// Jumps are their x86-64 opcodes with the displacement after them: EB, 74,
/// 75, 7C, 7E, 7F, 7D, 72, 77 with a byte, E9 and `0F 8x` with four bytes;
/// `mov r64, imm64` is `B8+r` with the eight bytes of the value.
pub proof fn lemma_jump_and_move_forms(rel: i8, rel32: i32, r: Register, value: u64, addr: u64)
    ensures
        translate_bytes(Opcode::JmpRel8 { offset: rel }, addr) == seq![0xEBu8, rel as u8],
        translate_bytes(Opcode::JeRel8 { offset: rel }, addr) == seq![0x74u8, rel as u8],
        translate_bytes(Opcode::JneRel8 { offset: rel }, addr) == seq![0x75u8, rel as u8],
        translate_bytes(Opcode::JlRel8 { offset: rel }, addr) == seq![0x7Cu8, rel as u8],
        translate_bytes(Opcode::JleRel8 { offset: rel }, addr) == seq![0x7Eu8, rel as u8],
        translate_bytes(Opcode::JgRel8 { offset: rel }, addr) == seq![0x7Fu8, rel as u8],
        translate_bytes(Opcode::JgeRel8 { offset: rel }, addr) == seq![0x7Du8, rel as u8],
        translate_bytes(Opcode::JbRel8 { offset: rel }, addr) == seq![0x72u8, rel as u8],
        translate_bytes(Opcode::JaRel8 { offset: rel }, addr) == seq![0x77u8, rel as u8],
        translate_bytes(Opcode::JmpRel32 { offset: rel32 }, addr) == seq![0xE9u8] + spec_u32_to_le_bytes(rel32 as u32),
        translate_bytes(Opcode::JeRel32 { offset: rel32 }, addr) == seq![0x0Fu8, 0x84u8] + spec_u32_to_le_bytes(rel32 as u32),
        translate_bytes(Opcode::JneRel32 { offset: rel32 }, addr) == seq![0x0Fu8, 0x85u8] + spec_u32_to_le_bytes(rel32 as u32),
        translate_bytes(Opcode::JlRel32 { offset: rel32 }, addr) == seq![0x0Fu8, 0x8Cu8] + spec_u32_to_le_bytes(rel32 as u32),
        translate_bytes(Opcode::JleRel32 { offset: rel32 }, addr) == seq![0x0Fu8, 0x8Eu8] + spec_u32_to_le_bytes(rel32 as u32),
        translate_bytes(Opcode::JgRel32 { offset: rel32 }, addr) == seq![0x0Fu8, 0x8Fu8] + spec_u32_to_le_bytes(rel32 as u32),
        translate_bytes(Opcode::JgeRel32 { offset: rel32 }, addr) == seq![0x0Fu8, 0x8Du8] + spec_u32_to_le_bytes(rel32 as u32),
        translate_bytes(Opcode::JbRel32 { offset: rel32 }, addr) == seq![0x0Fu8, 0x82u8] + spec_u32_to_le_bytes(rel32 as u32),
        translate_bytes(Opcode::JaRel32 { offset: rel32 }, addr) == seq![0x0Fu8, 0x87u8] + spec_u32_to_le_bytes(rel32 as u32),
        translate_bytes(Opcode::MovImm64 { dst: r, value }, addr) == seq![rex_w(0, reg_code(r)), (0xB8 + reg_code(r) % 8) as u8]
            + spec_u64_to_le_bytes(value),
{
}

/// The machine code numbers registers as x86-64 does: rax 0, rcx 1, rdx 2,
/// rbx 3, rsp 4, rbp 5, rsi 6, rdi 7, then r8 to r15 as 8 to 15.
pub proof fn lemma_machine_register_numbers()
    ensures
        reg_code(Register::Rax) == 0,
        reg_code(Register::Rcx) == 1,
        reg_code(Register::Rdx) == 2,
        reg_code(Register::Rbx) == 3,
        reg_code(Register::Rsp) == 4,
        reg_code(Register::Rbp) == 5,
        reg_code(Register::Rsi) == 6,
        reg_code(Register::Rdi) == 7,
        reg_code(Register::R8) == 8,
        reg_code(Register::R9) == 9,
        reg_code(Register::R10) == 10,
        reg_code(Register::R11) == 11,
        reg_code(Register::R12) == 12,
        reg_code(Register::R13) == 13,
        reg_code(Register::R14) == 14,
        reg_code(Register::R15) == 15,
{
}

} // verus!
