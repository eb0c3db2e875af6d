//! Checks that tell, before translating, whether the translator supports code.
use vstd::prelude::*;

use crate::jit::opcode::{MemoryOperand, Opcode, Operand};
use crate::jit::x86_64::build_instruction::{
    group_bytes, group_immediate_bytes, imm_opcode, modrm_bytes, modrm_memory_bytes, modrm_operand_ok,
};
use crate::jit::x86_64::encoding::{encode_register, imm_bytes, lemma_le_lengths, rex_prefix, sib_encodable};
use crate::jit::x86_64::gen_load_operand::{load_memory_bytes, load_operand_bytes, loadable};
use crate::jit::x86_64::gen_sched_req::{
    request_operand_bytes, request_operands_bytes, sched_req_bytes, valid_payload, valid_request_operand,
};
use crate::jit::x86_64::translate_opcode::{
    alu_ok, lea_ok, sched_request, test_ok, translatable, translate_bytes, translate_opcode,
};
use crate::jit::x86_64::{jit_ok, jit_state};
use crate::jit::opcode::Register;

verus! {

fn sib_ok(m: &MemoryOperand) -> (b: bool)
    ensures
        b == sib_encodable(*m),
{
    let scale_ok = m.scale == 1 || m.scale == 2 || m.scale == 4 || m.scale == 8;
    scale_ok && match &m.index {
        Some(i) => encode_register(i) != 4,
        None => true,
    }
}

fn loadable_op(op: &Operand) -> (b: bool)
    ensures
        b == loadable(*op),
{
    match op {
        Operand::Memory(m) => m.scale == 1 || m.scale == 2 || m.scale == 4 || m.scale == 8,
        Operand::Variable(_) => false,
        _ => true,
    }
}

fn is_register(op: &Operand) -> (b: bool)
    ensures
        b == (*op is Register),
{
    match op {
        Operand::Register(_) => true,
        _ => false,
    }
}

fn modrm_ok(op: &Operand) -> (b: bool)
    ensures
        b == modrm_operand_ok(*op),
{
    match op {
        Operand::Register(_) => true,
        Operand::Memory(m) => sib_ok(m),
        _ => false,
    }
}

fn alu_operands_ok(dst: &Operand, src: &Operand) -> (b: bool)
    ensures
        b == alu_ok(*dst, *src),
{
    match (dst, src) {
        (Operand::Register(_), Operand::Register(_)) => true,
        (Operand::Register(_), Operand::Memory(m)) => sib_ok(m),
        (Operand::Register(_), Operand::Immediate(_)) => true,
        (Operand::Memory(m), Operand::Immediate(_)) => sib_ok(m),
        _ => false,
    }
}

fn test_operands_ok(left: &Operand, right: &Operand) -> (b: bool)
    ensures
        b == test_ok(*left, *right),
{
    match (left, right) {
        (Operand::Register(_), Operand::Register(_)) => true,
        (Operand::Register(_), Operand::Memory(m)) => sib_ok(m),
        _ => false,
    }
}

fn lea_operand_ok(m: &MemoryOperand) -> (b: bool)
    ensures
        b == lea_ok(*m),
{
    let base_ok = match &m.base {
        Some(b) => encode_register(b) % 8 != 4 && encode_register(b) % 8 != 5,
        None => false,
    };
    let no_index = match &m.index {
        Some(_) => false,
        None => true,
    };
    base_ok && no_index && m.displacement == 0
}

/// A payload of one operand is storable exactly when the operand is.
proof fn lemma_payload1(a: (Operand, u8, u8))
    ensures
        valid_payload(seq![a]) == valid_request_operand(a.0, a.2),
{
    let s = seq![a];
    assert(s[0] == a);
}

/// A payload of two operands is storable exactly when each operand is.
proof fn lemma_payload2(a: (Operand, u8, u8), b: (Operand, u8, u8))
    ensures
        valid_payload(seq![a, b]) == (valid_request_operand(a.0, a.2) && valid_request_operand(b.0, b.2)),
{
    let s = seq![a, b];
    assert(s[0] == a && s[1] == b);
}

/// A payload of three operands is storable exactly when each operand is.
proof fn lemma_payload3(a: (Operand, u8, u8), b: (Operand, u8, u8), c: (Operand, u8, u8))
    ensures
        valid_payload(seq![a, b, c]) == (valid_request_operand(a.0, a.2) && valid_request_operand(b.0, b.2)
            && valid_request_operand(c.0, c.2)),
{
    let s = seq![a, b, c];
    assert(s[0] == a && s[1] == b && s[2] == c);
}

/// Whether `translate_opcode` supports an instruction.
pub fn translatable_opcode(op: &Opcode) -> (b: bool)
    ensures
        b == translatable(*op),
{
    match op {
        Opcode::Nop | Opcode::MovImm64 { .. } => true,
        Opcode::Mov8 { dst, src } => is_register(dst) && is_register(src),
        Opcode::Mov64 { dst, src } => is_register(dst) && modrm_ok(src),
        Opcode::Lea { src, .. } => lea_operand_ok(src),
        Opcode::Add { dst, src } | Opcode::Sub { dst, src } | Opcode::And { dst, src }
        | Opcode::Or { dst, src } | Opcode::Xor { dst, src } => alu_operands_ok(dst, src),
        Opcode::Cmp { left, right } => alu_operands_ok(left, right),
        Opcode::Test { left, right } => test_operands_ok(left, right),
        Opcode::Mul { src } | Opcode::Imul { src } | Opcode::Div { src } | Opcode::Idiv { src } => is_register(src),
        Opcode::Inc { operand } | Opcode::Dec { operand } | Opcode::Neg { operand }
        | Opcode::Not { operand } => is_register(operand),
        Opcode::Shl { dst, .. } | Opcode::Shr { dst, .. } | Opcode::Sar { dst, .. }
        | Opcode::Rol { dst, .. } | Opcode::Ror { dst, .. } => is_register(dst),
        Opcode::Movsx8 { src, .. } | Opcode::Movsx16 { src, .. } | Opcode::Movzx8 { src, .. }
        | Opcode::Movzx16 { src, .. } => is_register(src),
        Opcode::JmpRel8 { .. } | Opcode::JmpRel32 { .. } | Opcode::JeRel8 { .. }
        | Opcode::JeRel32 { .. } | Opcode::JneRel8 { .. } | Opcode::JneRel32 { .. }
        | Opcode::JlRel8 { .. } | Opcode::JlRel32 { .. } | Opcode::JleRel8 { .. }
        | Opcode::JleRel32 { .. } | Opcode::JgRel8 { .. } | Opcode::JgRel32 { .. }
        | Opcode::JgeRel8 { .. } | Opcode::JgeRel32 { .. } | Opcode::JbRel8 { .. }
        | Opcode::JbRel32 { .. } | Opcode::JaRel8 { .. } | Opcode::JaRel32 { .. } => true,
        Opcode::Sete { dst } | Opcode::Setne { dst } | Opcode::Setl { dst } | Opcode::Setle { dst }
        | Opcode::Setg { dst } | Opcode::Setge { dst } | Opcode::Setb { dst } | Opcode::Seta { dst } => is_register(dst),
        Opcode::Syscall | Opcode::FrameFree | Opcode::ProcYield | Opcode::SchedYield | Opcode::MailClear => {
            assert(valid_payload(Seq::<(Operand, u8, u8)>::empty()));
            true
        },
        Opcode::Malloc { dst, size } => {
            proof { lemma_payload2((*dst, 1u8, 8u8), (*size, 9u8, 8u8)); }
            loadable_op(dst) && loadable_op(size)
        },
        Opcode::Calloc { dst, count, size } => {
            proof { lemma_payload3((*dst, 1u8, 8u8), (*count, 9u8, 8u8), (*size, 17u8, 8u8)); }
            loadable_op(dst) && loadable_op(count) && loadable_op(size)
        },
        Opcode::Realloc { dst, ptr, size } => {
            proof { lemma_payload3((*dst, 1u8, 8u8), (*ptr, 9u8, 8u8), (*size, 17u8, 8u8)); }
            loadable_op(dst) && loadable_op(ptr) && loadable_op(size)
        },
        Opcode::Memcpy { dst, src, size } | Opcode::Memmove { dst, src, size } => {
            proof { lemma_payload3((*dst, 1u8, 8u8), (*src, 9u8, 8u8), (*size, 17u8, 8u8)); }
            loadable_op(dst) && loadable_op(src) && loadable_op(size)
        },
        Opcode::Memset { dst, value, size } => {
            proof { lemma_payload3((*dst, 1u8, 8u8), (*value, 9u8, 1u8), (*size, 10u8, 8u8)); }
            loadable_op(dst) && loadable_op(value) && loadable_op(size)
        },
        Opcode::Memcmp { a, b, size } => {
            proof { lemma_payload3((*a, 1u8, 8u8), (*b, 9u8, 8u8), (*size, 17u8, 8u8)); }
            loadable_op(a) && loadable_op(b) && loadable_op(size)
        },
        Opcode::ProcSpawn { dst, function, args } => {
            proof { lemma_payload3((*dst, 1u8, 8u8), (*function, 9u8, 4u8), (*args, 13u8, 8u8)); }
            loadable_op(dst) && loadable_op(function) && loadable_op(args)
        },
        Opcode::Free { ptr } | Opcode::Ret { ptr } => {
            proof { lemma_payload1((*ptr, 1u8, 8u8)); }
            loadable_op(ptr)
        },
        Opcode::ProcSelf { dst } => {
            proof { lemma_payload1((*dst, 1u8, 8u8)); }
            loadable_op(dst)
        },
        Opcode::ProcExit { reason } => {
            proof { lemma_payload1((*reason, 1u8, 1u8)); }
            loadable_op(reason)
        },
        Opcode::ProcSleep { duration } => {
            proof { lemma_payload1((*duration, 1u8, 8u8)); }
            loadable_op(duration)
        },
        Opcode::ProcLink { pid } | Opcode::ProcUnlink { pid } | Opcode::ProcMonitor { pid }
        | Opcode::ProcDemonitor { pid } => {
            proof { lemma_payload1((*pid, 1u8, 4u8)); }
            loadable_op(pid)
        },
        Opcode::ProcKill { pid, reason } => {
            proof { lemma_payload2((*pid, 1u8, 4u8), (*reason, 5u8, 1u8)); }
            loadable_op(pid) && loadable_op(reason)
        },
        Opcode::ProcState { dst, pid } | Opcode::ProcAlive { dst, pid } => {
            proof { lemma_payload2((*dst, 1u8, 8u8), (*pid, 9u8, 4u8)); }
            loadable_op(dst) && loadable_op(pid)
        },
        _ => false,
    }
}

/// Bounds on the lengths of the encodings that translations are built from.
proof fn lemma_encoding_lengths()
    ensures
        forall|reg: u8, m: MemoryOperand| #[trigger] modrm_memory_bytes(reg, m).len() <= 6,
        forall|reg: u8, op: Operand, w: bool, opcode: Seq<u8>| #[trigger] modrm_bytes(reg, op, w, opcode).len() <= opcode.len() + 7,
        forall|opcode: u8, group: u8, w: bool, op: Operand| #[trigger] group_bytes(opcode, group, w, op).len() <= 9,
        forall|v: i64| #[trigger] imm_bytes(v).len() <= 4,
        forall|m: MemoryOperand, d: Register| #[trigger] load_memory_bytes(m, d).len() <= 8,
        forall|op: Operand, d: Register| #[trigger] load_operand_bytes(op, d).len() <= 10,
        forall|op: Operand, o: u8, l: u8| #[trigger] request_operand_bytes(op, o, l).len() <= 14,
        forall|w: bool, r: bool, x: bool, b: bool| #[trigger] rex_prefix(w, r, x, b).len() <= 1,
        forall|o8: u8, o32: u8, g: u8, w: bool, op: Operand, v: i64|
            #[trigger] group_immediate_bytes(o8, o32, g, w, op, v).len() <= 13,
{
    lemma_le_lengths();
    assert forall|w: bool, r: bool, x: bool, b: bool| #[trigger] rex_prefix(w, r, x, b).len() <= 1 by {}
    assert forall|reg: u8, m: MemoryOperand| #[trigger] modrm_memory_bytes(reg, m).len() <= 6 by {}
    assert forall|reg: u8, op: Operand, w: bool, opcode: Seq<u8>| #[trigger] modrm_bytes(reg, op, w, opcode).len()
        <= opcode.len() + 7 by {
        match op {
            Operand::Memory(m) => {
                assert(modrm_memory_bytes(reg, m).len() <= 6);
            },
            _ => {},
        }
    }
    assert forall|opcode: u8, group: u8, w: bool, op: Operand| #[trigger] group_bytes(opcode, group, w, op).len() <= 9 by {
        match op {
            Operand::Register(r) => {},
            _ => {
                assert(modrm_bytes(group, op, w, seq![opcode]).len() <= 8);
            },
        }
    }
    assert forall|v: i64| #[trigger] imm_bytes(v).len() <= 4 by {}
    assert forall|o8: u8, o32: u8, g: u8, w: bool, op: Operand, v: i64|
        #[trigger] group_immediate_bytes(o8, o32, g, w, op, v).len() <= 13 by {
        assert(group_bytes(imm_opcode(v, o8, o32), g, w, op).len() <= 9);
        assert(imm_bytes(v).len() <= 4);
    }
    assert forall|m: MemoryOperand, d: Register| #[trigger] load_memory_bytes(m, d).len() <= 8 by {}
    assert forall|op: Operand, d: Register| #[trigger] load_operand_bytes(op, d).len() <= 10 by {
        match op {
            Operand::Memory(m) => {
                assert(load_memory_bytes(m, d).len() <= 8);
            },
            _ => {},
        }
    }
    assert forall|op: Operand, o: u8, l: u8| #[trigger] request_operand_bytes(op, o, l).len() <= 14 by {
        assert(load_operand_bytes(op, Register::Rax).len() <= 10);
    }
}

/// Storing `n` payload operands takes at most 14 bytes each.
proof fn lemma_request_operands_len(ops: Seq<(Operand, u8, u8)>, n: int)
    requires
        0 <= n <= ops.len(),
    ensures
        request_operands_bytes(ops, n).len() <= 14 * n,
    decreases n,
{
    lemma_encoding_lengths();
    if n > 0 {
        lemma_request_operands_len(ops, n - 1);
        assert(request_operand_bytes(ops[n - 1].0, ops[n - 1].1, ops[n - 1].2).len() <= 14);
    }
}

/// A scheduler request translates to at most 128 bytes.
proof fn lemma_sched_len(op: Opcode, code: u8, ops: Seq<(Operand, u8, u8)>, addr: u64)
    requires
        sched_request(op) == Some((code, ops)),
    ensures
        sched_req_bytes(code, ops, addr).len() <= 128,
{
    lemma_le_lengths();
    assert(ops.len() <= 3);
    lemma_request_operands_len(ops, ops.len() as int);
}

/// A supported instruction that is not a scheduler request translates to at most 128 bytes.
proof fn lemma_plain_len(op: Opcode, addr: u64)
    requires
        translatable(op),
        sched_request(op) is None,
    ensures
        translate_bytes(op, addr).len() <= 128,
{
    lemma_le_lengths();
    lemma_encoding_lengths();
}

/// A supported instruction translates to at most 128 bytes.
pub proof fn lemma_translate_len(op: Opcode, addr: u64)
    requires
        translatable(op),
    ensures
        translate_bytes(op, addr).len() <= 128,
{
    match sched_request(op) {
        Some((code, ops)) => {
            lemma_sched_len(op, code, ops, addr);
            assert(translate_bytes(op, addr) == sched_req_bytes(code, ops, addr));
        },
        None => {
            lemma_plain_len(op, addr);
        },
    }
}

/// Whether `jit_x86_64` supports a function body: every instruction is
/// supported and no position counter leaves the `usize` range.
pub fn jit_supported(code: &[Opcode], context_switch_addr: u64) -> (b: bool)
    ensures
        b == jit_ok(code@, context_switch_addr),
{
    let mut offset: usize = 0;
    let mut i: usize = 0;
    while i < code.len()
        invariant
            i <= code@.len(),
            forall|j: int| 0 <= j < i ==> translatable(#[trigger] code@[j]),
            forall|n: nat| n <= i ==> #[trigger] jit_state(code@, n, context_switch_addr).1 <= usize::MAX,
            offset == jit_state(code@, i as nat, context_switch_addr).1,
        decreases code@.len() - i,
    {
        if !translatable_opcode(&code[i]) {
            return false;
        }
        proof {
            lemma_translate_len(code@[i as int], context_switch_addr);
        }
        let translated = translate_opcode(&code[i], 0, context_switch_addr);
        let len = translated.0.len();
        let next = match offset.checked_add(len) {
            Some(x) => x,
            None => {
                assert(jit_state(code@, (i + 1) as nat, context_switch_addr).1 > usize::MAX);
                return false;
            },
        };
        offset = next;
        i = i + 1;
        assert forall|n: nat| n <= i implies #[trigger] jit_state(code@, n, context_switch_addr).1 <= usize::MAX by {
            if n < i {
            }
        }
    }
    true
}

} // verus!
