//! Translation of one decoded HIVE instruction to x86-64 machine code.
use vstd::prelude::*;

use crate::jit::opcode::{MemoryOperand, Opcode, Operand, Register, ShiftAmount};
use crate::jit::x86_64::build_instruction::{
    build_instruction, group_immediate_bytes, modrm_bytes, modrm_operand_ok, register_of,
    InstructionEncoding,
};
pub use crate::jit::x86_64::encoding::encode_register;
use crate::jit::x86_64::encoding::{
    le32, le64, modrm, modrm_byte, opt_code, push_le32, push_le64, push_rex, reg_code, rex_prefix,
    sib_encodable,
};
use crate::jit::x86_64::gen_context_switch::ContextSwitchPatch;
use crate::jit::x86_64::gen_sched_req::{
    gen_sched_req, payload, sched_req_bytes, sched_req_patch, valid_payload, RequestPayloadOperand,
};

verus! {

/// The machine code of one instruction, the position after it, and the patch
/// of its context switch if it hands control to the scheduler.
pub struct TranslatedOpcode(pub Vec<u8>, pub usize, pub Option<ContextSwitchPatch>);

impl From<(Vec<u8>, usize)> for TranslatedOpcode {
    fn from(value: (Vec<u8>, usize)) -> (res: Self) {
        Self(value.0, value.1, None)
    }
}

impl vstd::std_specs::convert::FromSpecImpl<(Vec<u8>, usize)> for TranslatedOpcode {
    open spec fn obeys_from_spec() -> bool {
        true
    }

    open spec fn from_spec(value: (Vec<u8>, usize)) -> Self {
        TranslatedOpcode(value.0, value.1, None)
    }
}

/// `REX.W`, with `REX.B` when the register is one of `r8`..`r15`.
pub open spec fn rex_w_b(r: u8) -> u8 {
    (0x48 + (if r >= 8 { 1int } else { 0int })) as u8
}

/// Operand combinations of the two-operand arithmetic instructions that are translated.
pub open spec fn alu_ok(dst: Operand, src: Operand) -> bool {
    match (dst, src) {
        (Operand::Register(_), Operand::Register(_)) => true,
        (Operand::Register(_), Operand::Memory(m)) => sib_encodable(m),
        (Operand::Register(_), Operand::Immediate(_)) => true,
        (Operand::Memory(m), Operand::Immediate(_)) => sib_encodable(m),
        _ => false,
    }
}

/// A two-operand arithmetic instruction: `op_r /r` with a register destination,
/// or `83 /group ib` / `81 /group id` with an immediate source.
pub open spec fn alu_bytes(dst: Operand, src: Operand, op_r: u8, group: u8) -> Seq<u8> {
    match src {
        Operand::Immediate(v) => group_immediate_bytes(0x83, 0x81, group, true, dst, v),
        _ => modrm_bytes(register_of(dst), src, true, seq![op_r]),
    }
}

/// Operand combinations of `test` that are translated.
pub open spec fn test_ok(left: Operand, right: Operand) -> bool {
    match (left, right) {
        (Operand::Register(_), Operand::Register(_)) => true,
        (Operand::Register(_), Operand::Memory(m)) => sib_encodable(m),
        _ => false,
    }
}

/// A one-operand `F7`/`FF` group instruction on a register.
pub open spec fn unary_bytes(operand: Operand, opcode: u8, base: u8) -> Seq<u8> {
    let r = register_of(operand);
    seq![rex_w_b(r), opcode, (base + r % 8) as u8]
}

/// A shift or rotate of a register by an immediate or by `cl`.
pub open spec fn shift_bytes(dst: Operand, amount: ShiftAmount, base: u8) -> Seq<u8> {
    let r = register_of(dst);
    seq![rex_w_b(r)] + match amount {
        ShiftAmount::Immediate(a) => seq![0xC1u8, (base + r % 8) as u8, a],
        ShiftAmount::Cl => seq![0xD3u8, (base + r % 8) as u8],
    }
}

/// `movsx` (always with `REX.W`).
pub open spec fn movsx_bytes(dst: Register, src: Operand, opcode: u8) -> Seq<u8> {
    let d = reg_code(dst);
    let s = register_of(src);
    seq![
        (0x48 + (if d >= 8 { 4int } else { 0int }) + (if s >= 8 { 1int } else { 0int })) as u8,
        0x0Fu8,
        opcode,
        modrm(3, d, s),
    ]
}

/// `movzx` (REX only for the extended registers).
pub open spec fn movzx_bytes(dst: Register, src: Operand, opcode: u8) -> Seq<u8> {
    let d = reg_code(dst);
    let s = register_of(src);
    rex_prefix(false, d >= 8, false, s >= 8) + seq![0x0Fu8, opcode, modrm(3, d, s)]
}

/// `setcc` on the low byte of a register.
pub open spec fn setcc_bytes(dst: Operand, opcode: u8) -> Seq<u8> {
    let r = register_of(dst);
    (if r >= 8 { seq![0x41u8] } else { Seq::<u8>::empty() }) + seq![0x0Fu8, opcode, (0xC0 + r % 8) as u8]
}

/// A jump with an 8-bit displacement.
pub open spec fn jump8_bytes(opcode: u8, rel: i8) -> Seq<u8> {
    seq![opcode, rel as u8]
}

/// `mov r64, imm64`.
pub open spec fn mov_imm64_bytes(dst: Register, value: u64) -> Seq<u8> {
    let d = reg_code(dst);
    seq![rex_w_b(d), (0xB8 + d % 8) as u8] + le64(value)
}

/// The `lea` form that is translated: `[base]` with no index or displacement,
/// and a base other than `rsp`, `rbp`, `r12`, `r13`.
pub open spec fn lea_ok(src: MemoryOperand) -> bool {
    &&& src.base matches Some(b) && reg_code(b) % 8 != 4 && reg_code(b) % 8 != 5
    &&& src.index is None
    &&& src.displacement == 0
}

/// `lea dst, [base]`.
pub open spec fn lea_bytes(dst: Register, src: MemoryOperand) -> Seq<u8> {
    let d = reg_code(dst);
    let b = opt_code(src.base, 0);
    seq![
        (0x48 + (if d >= 8 { 4int } else { 0int }) + (if b >= 8 { 1int } else { 0int })) as u8,
        0x8Du8,
        modrm(0, d, b),
    ]
}

/// The scheduler request code and payload of a HIVE runtime instruction that is
/// translated to a scheduler request.
pub open spec fn sched_request(op: Opcode) -> Option<(u8, Seq<(Operand, u8, u8)>)> {
    match op {
        Opcode::Syscall => Some((0x76u8, Seq::<(Operand, u8, u8)>::empty())),
        Opcode::FrameFree => Some((0x05u8, Seq::<(Operand, u8, u8)>::empty())),
        Opcode::Malloc { dst, size } => Some((0x10u8, seq![(dst, 1u8, 8u8), (size, 9u8, 8u8)])),
        Opcode::Calloc { dst, count, size } => Some(
            (0x11u8, seq![(dst, 1u8, 8u8), (count, 9u8, 8u8), (size, 17u8, 8u8)]),
        ),
        Opcode::Realloc { dst, ptr, size } => Some(
            (0x12u8, seq![(dst, 1u8, 8u8), (ptr, 9u8, 8u8), (size, 17u8, 8u8)]),
        ),
        Opcode::Free { ptr } => Some((0x13u8, seq![(ptr, 1u8, 8u8)])),
        Opcode::Memcpy { dst, src, size } => Some(
            (0x14u8, seq![(dst, 1u8, 8u8), (src, 9u8, 8u8), (size, 17u8, 8u8)]),
        ),
        Opcode::Memmove { dst, src, size } => Some(
            (0x15u8, seq![(dst, 1u8, 8u8), (src, 9u8, 8u8), (size, 17u8, 8u8)]),
        ),
        Opcode::Memset { dst, value, size } => Some(
            (0x16u8, seq![(dst, 1u8, 8u8), (value, 9u8, 1u8), (size, 10u8, 8u8)]),
        ),
        Opcode::Memcmp { a, b, size } => Some(
            (0x17u8, seq![(a, 1u8, 8u8), (b, 9u8, 8u8), (size, 17u8, 8u8)]),
        ),
        Opcode::ProcSpawn { dst, function, args } => Some(
            (0x20u8, seq![(dst, 1u8, 8u8), (function, 9u8, 4u8), (args, 13u8, 8u8)]),
        ),
        Opcode::ProcSelf { dst } => Some((0x21u8, seq![(dst, 1u8, 8u8)])),
        Opcode::ProcExit { reason } => Some((0x22u8, seq![(reason, 1u8, 1u8)])),
        Opcode::ProcKill { pid, reason } => Some((0x23u8, seq![(pid, 1u8, 4u8), (reason, 5u8, 1u8)])),
        Opcode::ProcState { dst, pid } => Some((0x24u8, seq![(dst, 1u8, 8u8), (pid, 9u8, 4u8)])),
        Opcode::ProcYield => Some((0x25u8, Seq::<(Operand, u8, u8)>::empty())),
        Opcode::ProcSleep { duration } => Some((0x26u8, seq![(duration, 1u8, 8u8)])),
        Opcode::ProcAlive { dst, pid } => Some((0x27u8, seq![(dst, 1u8, 8u8), (pid, 9u8, 4u8)])),
        Opcode::ProcLink { pid } => Some((0x28u8, seq![(pid, 1u8, 4u8)])),
        Opcode::ProcUnlink { pid } => Some((0x29u8, seq![(pid, 1u8, 4u8)])),
        Opcode::ProcMonitor { pid } => Some((0x2Au8, seq![(pid, 1u8, 4u8)])),
        Opcode::ProcDemonitor { pid } => Some((0x2Bu8, seq![(pid, 1u8, 4u8)])),
        Opcode::SchedYield => Some((0x30u8, Seq::<(Operand, u8, u8)>::empty())),
        Opcode::MailClear => Some((0x45u8, Seq::<(Operand, u8, u8)>::empty())),
        Opcode::Ret { ptr } => Some((0x77u8, seq![(ptr, 1u8, 8u8)])),
        _ => None,
    }
}

/// Whether `translate_opcode` translates this instruction (the others are not
/// implemented, or their operand combination is not supported).
pub open spec fn translatable(op: Opcode) -> bool {
    match op {
        Opcode::Nop | Opcode::MovImm64 { .. } => true,
        Opcode::Mov8 { dst, src } => dst is Register && src is Register,
        Opcode::Mov64 { dst, src } => dst is Register && modrm_operand_ok(src),
        Opcode::Lea { src, .. } => lea_ok(src),
        Opcode::Add { dst, src } | Opcode::Sub { dst, src } | Opcode::And { dst, src }
        | Opcode::Or { dst, src } | Opcode::Xor { dst, src } => alu_ok(dst, src),
        Opcode::Cmp { left, right } => alu_ok(left, right),
        Opcode::Test { left, right } => test_ok(left, right),
        Opcode::Mul { src } | Opcode::Imul { src } | Opcode::Div { src } | Opcode::Idiv { src } =>
            src is Register,
        Opcode::Inc { operand } | Opcode::Dec { operand } | Opcode::Neg { operand }
        | Opcode::Not { operand } => operand is Register,
        Opcode::Shl { dst, .. } | Opcode::Shr { dst, .. } | Opcode::Sar { dst, .. }
        | Opcode::Rol { dst, .. } | Opcode::Ror { dst, .. } => dst is Register,
        Opcode::Movsx8 { src, .. } | Opcode::Movsx16 { src, .. } | Opcode::Movzx8 { src, .. }
        | Opcode::Movzx16 { src, .. } => src is Register,
        Opcode::JmpRel8 { .. } | Opcode::JmpRel32 { .. } | Opcode::JeRel8 { .. }
        | Opcode::JeRel32 { .. } | Opcode::JneRel8 { .. } | Opcode::JneRel32 { .. }
        | Opcode::JlRel8 { .. } | Opcode::JlRel32 { .. } | Opcode::JleRel8 { .. }
        | Opcode::JleRel32 { .. } | Opcode::JgRel8 { .. } | Opcode::JgRel32 { .. }
        | Opcode::JgeRel8 { .. } | Opcode::JgeRel32 { .. } | Opcode::JbRel8 { .. }
        | Opcode::JbRel32 { .. } | Opcode::JaRel8 { .. } | Opcode::JaRel32 { .. } => true,
        Opcode::Sete { dst } | Opcode::Setne { dst } | Opcode::Setl { dst } | Opcode::Setle { dst }
        | Opcode::Setg { dst } | Opcode::Setge { dst } | Opcode::Setb { dst } | Opcode::Seta { dst } =>
            dst is Register,
        _ => match sched_request(op) {
            Some((_, ops)) => valid_payload(ops),
            None => false,
        },
    }
}

/// The x86-64 machine code of a translatable instruction; `addr` is the address
/// of the runtime's context switch routine.
pub open spec fn translate_bytes(op: Opcode, addr: u64) -> Seq<u8> {
    match op {
        Opcode::Nop => seq![0x90u8],
        Opcode::Mov8 { dst, src } => {
            let d = register_of(dst);
            let s = register_of(src);
            rex_prefix(false, d >= 8, false, s >= 8) + seq![0x8Au8, modrm(3, d, s)]
        },
        Opcode::MovImm64 { dst, value } => mov_imm64_bytes(dst, value),
        Opcode::Lea { dst, src } => lea_bytes(dst, src),
        Opcode::Mov64 { dst, src } => modrm_bytes(register_of(dst), src, true, seq![0x8Bu8]),
        Opcode::Add { dst, src } => alu_bytes(dst, src, 0x03, 0),
        Opcode::Sub { dst, src } => alu_bytes(dst, src, 0x2B, 5),
        Opcode::And { dst, src } => alu_bytes(dst, src, 0x23, 4),
        Opcode::Or { dst, src } => alu_bytes(dst, src, 0x0B, 1),
        Opcode::Xor { dst, src } => alu_bytes(dst, src, 0x33, 6),
        Opcode::Cmp { left, right } => alu_bytes(left, right, 0x3B, 7),
        Opcode::Test { left, right } => modrm_bytes(register_of(left), right, true, seq![0x85u8]),
        Opcode::Mul { src } => unary_bytes(src, 0xF7, 0xE0),
        Opcode::Imul { src } => unary_bytes(src, 0xF7, 0xE8),
        Opcode::Div { src } => unary_bytes(src, 0xF7, 0xF0),
        Opcode::Idiv { src } => unary_bytes(src, 0xF7, 0xF8),
        Opcode::Inc { operand } => unary_bytes(operand, 0xFF, 0xC0),
        Opcode::Dec { operand } => unary_bytes(operand, 0xFF, 0xC8),
        Opcode::Neg { operand } => unary_bytes(operand, 0xF7, 0xD8),
        Opcode::Not { operand } => unary_bytes(operand, 0xF7, 0xD0),
        Opcode::Shl { dst, amount } => shift_bytes(dst, amount, 0xE0),
        Opcode::Shr { dst, amount } => shift_bytes(dst, amount, 0xE8),
        Opcode::Sar { dst, amount } => shift_bytes(dst, amount, 0xF8),
        Opcode::Rol { dst, amount } => shift_bytes(dst, amount, 0xC0),
        Opcode::Ror { dst, amount } => shift_bytes(dst, amount, 0xC8),
        Opcode::Movsx8 { dst, src } => movsx_bytes(dst, src, 0xBE),
        Opcode::Movsx16 { dst, src } => movsx_bytes(dst, src, 0xBF),
        Opcode::Movzx8 { dst, src } => movzx_bytes(dst, src, 0xB6),
        Opcode::Movzx16 { dst, src } => movzx_bytes(dst, src, 0xB7),
        Opcode::JmpRel8 { offset } => jump8_bytes(0xEB, offset),
        Opcode::JmpRel32 { offset } => seq![0xE9u8] + le32(offset),
        Opcode::JeRel8 { offset } => jump8_bytes(0x74, offset),
        Opcode::JeRel32 { offset } => seq![0x0Fu8, 0x84] + le32(offset),
        Opcode::JneRel8 { offset } => jump8_bytes(0x75, offset),
        Opcode::JneRel32 { offset } => seq![0x0Fu8, 0x85] + le32(offset),
        Opcode::JlRel8 { offset } => jump8_bytes(0x7C, offset),
        Opcode::JlRel32 { offset } => seq![0x0Fu8, 0x8C] + le32(offset),
        Opcode::JleRel8 { offset } => jump8_bytes(0x7E, offset),
        Opcode::JleRel32 { offset } => seq![0x0Fu8, 0x8E] + le32(offset),
        Opcode::JgRel8 { offset } => jump8_bytes(0x7F, offset),
        Opcode::JgRel32 { offset } => seq![0x0Fu8, 0x8F] + le32(offset),
        Opcode::JgeRel8 { offset } => jump8_bytes(0x7D, offset),
        Opcode::JgeRel32 { offset } => seq![0x0Fu8, 0x8D] + le32(offset),
        Opcode::JbRel8 { offset } => jump8_bytes(0x72, offset),
        Opcode::JbRel32 { offset } => seq![0x0Fu8, 0x82] + le32(offset),
        Opcode::JaRel8 { offset } => jump8_bytes(0x77, offset),
        Opcode::JaRel32 { offset } => seq![0x0Fu8, 0x87] + le32(offset),
        Opcode::Sete { dst } => setcc_bytes(dst, 0x94),
        Opcode::Setne { dst } => setcc_bytes(dst, 0x95),
        Opcode::Setl { dst } => setcc_bytes(dst, 0x9C),
        Opcode::Setle { dst } => setcc_bytes(dst, 0x9E),
        Opcode::Setg { dst } => setcc_bytes(dst, 0x9F),
        Opcode::Setge { dst } => setcc_bytes(dst, 0x9D),
        Opcode::Setb { dst } => setcc_bytes(dst, 0x92),
        Opcode::Seta { dst } => setcc_bytes(dst, 0x97),
        _ => match sched_request(op) {
            Some((code, ops)) => sched_req_bytes(code, ops, addr),
            None => Seq::<u8>::empty(),
        },
    }
}

/// The context switch patch of an instruction translated at position `offset`.
pub open spec fn translate_patch(op: Opcode, offset: usize) -> Option<ContextSwitchPatch> {
    match sched_request(op) {
        Some((code, ops)) => Some(sched_req_patch(code, ops, offset as int)),
        None => None,
    }
}

fn finish(code: Vec<u8>, offset: usize) -> (res: TranslatedOpcode)
    requires
        offset + code@.len() <= usize::MAX,
    ensures
        res.0@ == code@,
        res.1 == offset + code@.len(),
        res.2 is None,
{
    let len = code.len();
    TranslatedOpcode::from((code, offset + len))
}

fn register_number(operand: &Operand) -> (r: u8)
    requires
        *operand is Register,
    ensures
        r == register_of(*operand),
        r < 16,
{
    match operand {
        Operand::Register(register) => encode_register(register),
        _ => {
            assert(false);
            0
        },
    }
}

fn translate_alu(dst: &Operand, src: &Operand, op_r: u8, group: u8) -> (code: Vec<u8>)
    requires
        alu_ok(*dst, *src),
    ensures
        code@ == alu_bytes(*dst, *src, op_r, group),
{
    match src {
        Operand::Immediate(_) => build_instruction(
            InstructionEncoding::GroupImmediate { opcode8: 0x83, opcode32: 0x81, group, w: true },
            &[dst, src],
        ),
        _ => build_instruction(InstructionEncoding::Rm { opcode: op_r, w: true }, &[dst, src]),
    }
}

fn translate_unary(operand: &Operand, opcode: u8, base: u8) -> (code: Vec<u8>)
    requires
        *operand is Register,
        base % 8 == 0,
        base >= 0xC0,
    ensures
        code@ == unary_bytes(*operand, opcode, base),
{
    let r = register_number(operand);
    let mut code: Vec<u8> = Vec::with_capacity(3);
    code.push(if r >= 8 { 0x49 } else { 0x48 });
    code.push(opcode);
    code.push(base + r % 8);
    assert(code@ =~= unary_bytes(*operand, opcode, base));
    code
}

fn translate_shift(dst: &Operand, amount: &ShiftAmount, base: u8) -> (code: Vec<u8>)
    requires
        *dst is Register,
        base % 8 == 0,
        base >= 0xC0,
    ensures
        code@ == shift_bytes(*dst, *amount, base),
{
    let r = register_number(dst);
    let mut code: Vec<u8> = Vec::new();
    code.push(if r >= 8 { 0x49 } else { 0x48 });
    match amount {
        ShiftAmount::Immediate(amount) => {
            code.push(0xC1);
            code.push(base + r % 8);
            code.push(*amount);
        },
        ShiftAmount::Cl => {
            code.push(0xD3);
            code.push(base + r % 8);
        },
    }
    assert(code@ =~= shift_bytes(*dst, *amount, base));
    code
}

fn translate_movsx(dst: &Register, src: &Operand, opcode: u8) -> (code: Vec<u8>)
    requires
        *src is Register,
    ensures
        code@ == movsx_bytes(*dst, *src, opcode),
{
    let d = encode_register(dst);
    let s = register_number(src);
    let mut code: Vec<u8> = Vec::with_capacity(4);
    let mut rex: u8 = 0x48;
    if d >= 8 {
        rex = rex + 4;
    }
    if s >= 8 {
        rex = rex + 1;
    }
    code.push(rex);
    code.push(0x0F);
    code.push(opcode);
    code.push(modrm_byte(3, d, s));
    assert(code@ =~= movsx_bytes(*dst, *src, opcode));
    code
}

fn translate_movzx(dst: &Register, src: &Operand, opcode: u8) -> (code: Vec<u8>)
    requires
        *src is Register,
    ensures
        code@ == movzx_bytes(*dst, *src, opcode),
{
    let d = encode_register(dst);
    let s = register_number(src);
    let mut code: Vec<u8> = Vec::with_capacity(4);
    push_rex(&mut code, false, d >= 8, false, s >= 8);
    code.push(0x0F);
    code.push(opcode);
    code.push(modrm_byte(3, d, s));
    assert(code@ =~= movzx_bytes(*dst, *src, opcode));
    code
}

fn translate_setcc(dst: &Operand, opcode: u8) -> (code: Vec<u8>)
    requires
        *dst is Register,
    ensures
        code@ == setcc_bytes(*dst, opcode),
{
    let r = register_number(dst);
    let mut code: Vec<u8> = Vec::new();
    if r >= 8 {
        code.push(0x41);
    }
    code.push(0x0F);
    code.push(opcode);
    code.push(0xC0 + r % 8);
    assert(code@ =~= setcc_bytes(*dst, opcode));
    code
}

fn translate_mov8(dst: &Operand, src: &Operand) -> (code: Vec<u8>)
    requires
        *dst is Register,
        *src is Register,
    ensures
        code@ == translate_bytes(Opcode::Mov8 { dst: *dst, src: *src }, 0),
{
    let d = register_number(dst);
    let s = register_number(src);
    let mut code: Vec<u8> = Vec::with_capacity(3);
    push_rex(&mut code, false, d >= 8, false, s >= 8);
    code.push(0x8A);
    code.push(modrm_byte(3, d, s));
    assert(code@ =~= translate_bytes(Opcode::Mov8 { dst: *dst, src: *src }, 0));
    code
}

fn translate_mov_imm64(dst: &Register, value: u64) -> (code: Vec<u8>)
    ensures
        code@ == mov_imm64_bytes(*dst, value),
        code@.len() == 10,
{
    let d = encode_register(dst);
    let mut code: Vec<u8> = Vec::with_capacity(10);
    code.push(if d >= 8 { 0x49 } else { 0x48 });
    code.push(0xB8 + d % 8);
    push_le64(&mut code, value);
    assert(code@ =~= mov_imm64_bytes(*dst, value));
    code
}

fn translate_lea(dst: &Register, src: &MemoryOperand) -> (code: Vec<u8>)
    requires
        lea_ok(*src),
    ensures
        code@ == lea_bytes(*dst, *src),
{
    let d = encode_register(dst);
    let b = encode_opt_base(src);
    let mut code: Vec<u8> = Vec::new();
    let mut rex: u8 = 0x48;
    if d >= 8 {
        rex = rex + 4;
    }
    if b >= 8 {
        rex = rex + 1;
    }
    code.push(rex);
    code.push(0x8D);
    code.push(modrm_byte(0, d, b));
    assert(code@ =~= lea_bytes(*dst, *src));
    code
}

fn encode_opt_base(src: &MemoryOperand) -> (b: u8)
    ensures
        b == opt_code(src.base, 0),
        b < 16,
{
    match &src.base {
        Some(r) => encode_register(r),
        None => 0,
    }
}

fn translate_jump8(opcode: u8, rel: i8) -> (code: Vec<u8>)
    ensures
        code@ == jump8_bytes(opcode, rel),
{
    let code = vec![opcode, rel as u8];
    assert(code@ =~= jump8_bytes(opcode, rel));
    code
}

fn translate_jump32(prefix: &[u8], rel: i32) -> (code: Vec<u8>)
    ensures
        code@ == prefix@ + le32(rel),
{
    let mut code: Vec<u8> = Vec::new();
    let mut i: usize = 0;
    while i < prefix.len()
        invariant
            i <= prefix@.len(),
            code@ == prefix@.subrange(0, i as int),
        decreases prefix@.len() - i,
    {
        code.push(prefix[i]);
        i = i + 1;
        assert(code@ =~= prefix@.subrange(0, i as int));
    }
    assert(prefix@.subrange(0, prefix@.len() as int) =~= prefix@);
    push_le32(&mut code, rel);
    code
}

fn translate_request(
    req_op: u8,
    operands: &[RequestPayloadOperand],
    offset: usize,
    context_switch_addr: u64,
) -> (res: TranslatedOpcode)
    requires
        valid_payload(payload(operands@)),
        offset + sched_req_bytes(req_op, payload(operands@), context_switch_addr).len() <= usize::MAX,
    ensures
        res.0@ == sched_req_bytes(req_op, payload(operands@), context_switch_addr),
        res.1 == offset + res.0@.len(),
        res.2 == Some(sched_req_patch(req_op, payload(operands@), offset as int)),
{
    let (a, b, c) = gen_sched_req(req_op, operands, offset, context_switch_addr);
    TranslatedOpcode(a, b, Some(c))
}

/// Translates one instruction placed at position `offset` of the JIT code;
/// `context_switch_addr` is the address of the runtime's context switch routine.
#[verifier::rlimit(60)]
pub fn translate_opcode(opcode: &Opcode, offset: usize, context_switch_addr: u64) -> (res: TranslatedOpcode)
    requires
        translatable(*opcode),
        offset + translate_bytes(*opcode, context_switch_addr).len() <= usize::MAX,
    ensures
        res.0@ == translate_bytes(*opcode, context_switch_addr),
        res.1 == offset + res.0@.len(),
        res.2 == translate_patch(*opcode, offset),
{
    match opcode {
        Opcode::Nop => finish(vec![0x90], offset),
        Opcode::Mov8 { dst, src } => finish(translate_mov8(dst, src), offset),
        Opcode::MovImm64 { dst, value } => finish(translate_mov_imm64(dst, *value), offset),
        Opcode::Lea { dst, src } => finish(translate_lea(dst, src), offset),
        Opcode::Mov64 { dst, src } => finish(build_instruction(InstructionEncoding::Rm { opcode: 0x8B, w: true }, &[dst, src]), offset),
        Opcode::Add { dst, src } => finish(translate_alu(dst, src, 0x03, 0), offset),
        Opcode::Sub { dst, src } => finish(translate_alu(dst, src, 0x2B, 5), offset),
        Opcode::And { dst, src } => finish(translate_alu(dst, src, 0x23, 4), offset),
        Opcode::Or { dst, src } => finish(translate_alu(dst, src, 0x0B, 1), offset),
        Opcode::Xor { dst, src } => finish(translate_alu(dst, src, 0x33, 6), offset),
        Opcode::Cmp { left, right } => finish(translate_alu(left, right, 0x3B, 7), offset),
        Opcode::Test { left, right } => finish(build_instruction(InstructionEncoding::Rm { opcode: 0x85, w: true }, &[left, right]), offset),
        Opcode::Mul { src } => finish(translate_unary(src, 0xF7, 0xE0), offset),
        Opcode::Imul { src } => finish(translate_unary(src, 0xF7, 0xE8), offset),
        Opcode::Div { src } => finish(translate_unary(src, 0xF7, 0xF0), offset),
        Opcode::Idiv { src } => finish(translate_unary(src, 0xF7, 0xF8), offset),
        Opcode::Inc { operand } => finish(translate_unary(operand, 0xFF, 0xC0), offset),
        Opcode::Dec { operand } => finish(translate_unary(operand, 0xFF, 0xC8), offset),
        Opcode::Neg { operand } => finish(translate_unary(operand, 0xF7, 0xD8), offset),
        Opcode::Not { operand } => finish(translate_unary(operand, 0xF7, 0xD0), offset),
        Opcode::Shl { dst, amount } => finish(translate_shift(dst, amount, 0xE0), offset),
        Opcode::Shr { dst, amount } => finish(translate_shift(dst, amount, 0xE8), offset),
        Opcode::Sar { dst, amount } => finish(translate_shift(dst, amount, 0xF8), offset),
        Opcode::Rol { dst, amount } => finish(translate_shift(dst, amount, 0xC0), offset),
        Opcode::Ror { dst, amount } => finish(translate_shift(dst, amount, 0xC8), offset),
        Opcode::Movsx8 { dst, src } => finish(translate_movsx(dst, src, 0xBE), offset),
        Opcode::Movsx16 { dst, src } => finish(translate_movsx(dst, src, 0xBF), offset),
        Opcode::Movzx8 { dst, src } => finish(translate_movzx(dst, src, 0xB6), offset),
        Opcode::Movzx16 { dst, src } => finish(translate_movzx(dst, src, 0xB7), offset),
        Opcode::JmpRel8 { offset: rel } => finish(translate_jump8(0xEB, *rel), offset),
        Opcode::JmpRel32 { offset: rel } => finish(translate_jump32(&[0xE9], *rel), offset),
        Opcode::JeRel8 { offset: rel } => finish(translate_jump8(0x74, *rel), offset),
        Opcode::JeRel32 { offset: rel } => finish(translate_jump32(&[0x0F, 0x84], *rel), offset),
        Opcode::JneRel8 { offset: rel } => finish(translate_jump8(0x75, *rel), offset),
        Opcode::JneRel32 { offset: rel } => finish(translate_jump32(&[0x0F, 0x85], *rel), offset),
        Opcode::JlRel8 { offset: rel } => finish(translate_jump8(0x7C, *rel), offset),
        Opcode::JlRel32 { offset: rel } => finish(translate_jump32(&[0x0F, 0x8C], *rel), offset),
        Opcode::JleRel8 { offset: rel } => finish(translate_jump8(0x7E, *rel), offset),
        Opcode::JleRel32 { offset: rel } => finish(translate_jump32(&[0x0F, 0x8E], *rel), offset),
        Opcode::JgRel8 { offset: rel } => finish(translate_jump8(0x7F, *rel), offset),
        Opcode::JgRel32 { offset: rel } => finish(translate_jump32(&[0x0F, 0x8F], *rel), offset),
        Opcode::JgeRel8 { offset: rel } => finish(translate_jump8(0x7D, *rel), offset),
        Opcode::JgeRel32 { offset: rel } => finish(translate_jump32(&[0x0F, 0x8D], *rel), offset),
        Opcode::JbRel8 { offset: rel } => finish(translate_jump8(0x72, *rel), offset),
        Opcode::JbRel32 { offset: rel } => finish(translate_jump32(&[0x0F, 0x82], *rel), offset),
        Opcode::JaRel8 { offset: rel } => finish(translate_jump8(0x77, *rel), offset),
        Opcode::JaRel32 { offset: rel } => finish(translate_jump32(&[0x0F, 0x87], *rel), offset),
        Opcode::Sete { dst } => finish(translate_setcc(dst, 0x94), offset),
        Opcode::Setne { dst } => finish(translate_setcc(dst, 0x95), offset),
        Opcode::Setl { dst } => finish(translate_setcc(dst, 0x9C), offset),
        Opcode::Setle { dst } => finish(translate_setcc(dst, 0x9E), offset),
        Opcode::Setg { dst } => finish(translate_setcc(dst, 0x9F), offset),
        Opcode::Setge { dst } => finish(translate_setcc(dst, 0x9D), offset),
        Opcode::Setb { dst } => finish(translate_setcc(dst, 0x92), offset),
        Opcode::Seta { dst } => finish(translate_setcc(dst, 0x97), offset),
        Opcode::Syscall => {
            let operands: [RequestPayloadOperand; 0] = [];
            assert(payload(operands@) =~= Seq::<(Operand, u8, u8)>::empty());
            translate_request(0x76, &operands, offset, context_switch_addr)
        },
        Opcode::FrameFree => {
            let operands: [RequestPayloadOperand; 0] = [];
            assert(payload(operands@) =~= Seq::<(Operand, u8, u8)>::empty());
            translate_request(0x05, &operands, offset, context_switch_addr)
        },
        Opcode::Malloc { dst, size } => {
            let operands: [RequestPayloadOperand; 2] = [(dst, 1, 8), (size, 9, 8)];
            assert(payload(operands@) =~= seq![(*dst, 1u8, 8u8), (*size, 9u8, 8u8)]);
            translate_request(0x10, &operands, offset, context_switch_addr)
        },
        Opcode::Calloc { dst, count, size } => {
            let operands: [RequestPayloadOperand; 3] = [(dst, 1, 8), (count, 9, 8), (size, 17, 8)];
            assert(payload(operands@) =~= seq![(*dst, 1u8, 8u8), (*count, 9u8, 8u8), (*size, 17u8, 8u8)]);
            translate_request(0x11, &operands, offset, context_switch_addr)
        },
        Opcode::Realloc { dst, ptr, size } => {
            let operands: [RequestPayloadOperand; 3] = [(dst, 1, 8), (ptr, 9, 8), (size, 17, 8)];
            assert(payload(operands@) =~= seq![(*dst, 1u8, 8u8), (*ptr, 9u8, 8u8), (*size, 17u8, 8u8)]);
            translate_request(0x12, &operands, offset, context_switch_addr)
        },
        Opcode::Free { ptr } => {
            let operands: [RequestPayloadOperand; 1] = [(ptr, 1, 8)];
            assert(payload(operands@) =~= seq![(*ptr, 1u8, 8u8)]);
            translate_request(0x13, &operands, offset, context_switch_addr)
        },
        Opcode::Memcpy { dst, src, size } => {
            let operands: [RequestPayloadOperand; 3] = [(dst, 1, 8), (src, 9, 8), (size, 17, 8)];
            assert(payload(operands@) =~= seq![(*dst, 1u8, 8u8), (*src, 9u8, 8u8), (*size, 17u8, 8u8)]);
            translate_request(0x14, &operands, offset, context_switch_addr)
        },
        Opcode::Memmove { dst, src, size } => {
            let operands: [RequestPayloadOperand; 3] = [(dst, 1, 8), (src, 9, 8), (size, 17, 8)];
            assert(payload(operands@) =~= seq![(*dst, 1u8, 8u8), (*src, 9u8, 8u8), (*size, 17u8, 8u8)]);
            translate_request(0x15, &operands, offset, context_switch_addr)
        },
        Opcode::Memset { dst, value, size } => {
            let operands: [RequestPayloadOperand; 3] = [(dst, 1, 8), (value, 9, 1), (size, 10, 8)];
            assert(payload(operands@) =~= seq![(*dst, 1u8, 8u8), (*value, 9u8, 1u8), (*size, 10u8, 8u8)]);
            translate_request(0x16, &operands, offset, context_switch_addr)
        },
        Opcode::Memcmp { a, b, size } => {
            let operands: [RequestPayloadOperand; 3] = [(a, 1, 8), (b, 9, 8), (size, 17, 8)];
            assert(payload(operands@) =~= seq![(*a, 1u8, 8u8), (*b, 9u8, 8u8), (*size, 17u8, 8u8)]);
            translate_request(0x17, &operands, offset, context_switch_addr)
        },
        Opcode::ProcSpawn { dst, function, args } => {
            let operands: [RequestPayloadOperand; 3] = [(dst, 1, 8), (function, 9, 4), (args, 13, 8)];
            assert(payload(operands@) =~= seq![(*dst, 1u8, 8u8), (*function, 9u8, 4u8), (*args, 13u8, 8u8)]);
            translate_request(0x20, &operands, offset, context_switch_addr)
        },
        Opcode::ProcSelf { dst } => {
            let operands: [RequestPayloadOperand; 1] = [(dst, 1, 8)];
            assert(payload(operands@) =~= seq![(*dst, 1u8, 8u8)]);
            translate_request(0x21, &operands, offset, context_switch_addr)
        },
        Opcode::ProcExit { reason } => {
            let operands: [RequestPayloadOperand; 1] = [(reason, 1, 1)];
            assert(payload(operands@) =~= seq![(*reason, 1u8, 1u8)]);
            translate_request(0x22, &operands, offset, context_switch_addr)
        },
        Opcode::ProcKill { pid, reason } => {
            let operands: [RequestPayloadOperand; 2] = [(pid, 1, 4), (reason, 5, 1)];
            assert(payload(operands@) =~= seq![(*pid, 1u8, 4u8), (*reason, 5u8, 1u8)]);
            translate_request(0x23, &operands, offset, context_switch_addr)
        },
        Opcode::ProcState { dst, pid } => {
            let operands: [RequestPayloadOperand; 2] = [(dst, 1, 8), (pid, 9, 4)];
            assert(payload(operands@) =~= seq![(*dst, 1u8, 8u8), (*pid, 9u8, 4u8)]);
            translate_request(0x24, &operands, offset, context_switch_addr)
        },
        Opcode::ProcYield => {
            let operands: [RequestPayloadOperand; 0] = [];
            assert(payload(operands@) =~= Seq::<(Operand, u8, u8)>::empty());
            translate_request(0x25, &operands, offset, context_switch_addr)
        },
        Opcode::ProcSleep { duration } => {
            let operands: [RequestPayloadOperand; 1] = [(duration, 1, 8)];
            assert(payload(operands@) =~= seq![(*duration, 1u8, 8u8)]);
            translate_request(0x26, &operands, offset, context_switch_addr)
        },
        Opcode::ProcAlive { dst, pid } => {
            let operands: [RequestPayloadOperand; 2] = [(dst, 1, 8), (pid, 9, 4)];
            assert(payload(operands@) =~= seq![(*dst, 1u8, 8u8), (*pid, 9u8, 4u8)]);
            translate_request(0x27, &operands, offset, context_switch_addr)
        },
        Opcode::ProcLink { pid } => {
            let operands: [RequestPayloadOperand; 1] = [(pid, 1, 4)];
            assert(payload(operands@) =~= seq![(*pid, 1u8, 4u8)]);
            translate_request(0x28, &operands, offset, context_switch_addr)
        },
        Opcode::ProcUnlink { pid } => {
            let operands: [RequestPayloadOperand; 1] = [(pid, 1, 4)];
            assert(payload(operands@) =~= seq![(*pid, 1u8, 4u8)]);
            translate_request(0x29, &operands, offset, context_switch_addr)
        },
        Opcode::ProcMonitor { pid } => {
            let operands: [RequestPayloadOperand; 1] = [(pid, 1, 4)];
            assert(payload(operands@) =~= seq![(*pid, 1u8, 4u8)]);
            translate_request(0x2A, &operands, offset, context_switch_addr)
        },
        Opcode::ProcDemonitor { pid } => {
            let operands: [RequestPayloadOperand; 1] = [(pid, 1, 4)];
            assert(payload(operands@) =~= seq![(*pid, 1u8, 4u8)]);
            translate_request(0x2B, &operands, offset, context_switch_addr)
        },
        Opcode::SchedYield => {
            let operands: [RequestPayloadOperand; 0] = [];
            assert(payload(operands@) =~= Seq::<(Operand, u8, u8)>::empty());
            translate_request(0x30, &operands, offset, context_switch_addr)
        },
        Opcode::MailClear => {
            let operands: [RequestPayloadOperand; 0] = [];
            assert(payload(operands@) =~= Seq::<(Operand, u8, u8)>::empty());
            translate_request(0x45, &operands, offset, context_switch_addr)
        },
        Opcode::Ret { ptr } => {
            let operands: [RequestPayloadOperand; 1] = [(ptr, 1, 8)];
            assert(payload(operands@) =~= seq![(*ptr, 1u8, 8u8)]);
            translate_request(0x77, &operands, offset, context_switch_addr)
        },
        _ => {
            assert(false);
            finish(Vec::new(), offset)
        },
    }
}

} // verus!
