//! Requests from JIT code to the scheduler.
use vstd::prelude::*;

use crate::jit::opcode::{Operand, Register};
use crate::jit::x86_64::gen_context_switch::{
    context_switch_bytes, context_switch_patch_at, context_switch_rip_at, gen_context_switch,
    ContextSwitchPatch,
};
use crate::jit::x86_64::gen_load_operand::{gen_load_operand, load_operand_bytes, loadable};

verus! {

/// A request payload operand: the operand, its byte offset in the request and its length in bytes.
pub type RequestPayloadOperand<'a> = (&'a Operand, u8, u8);

/// Whether a payload operand can be stored: a loadable operand of 1, 4 or 8 bytes.
pub open spec fn valid_request_operand(op: Operand, len: u8) -> bool {
    loadable(op) && (len == 1 || len == 4 || len == 8)
}

/// Loading a payload operand into `rax` and storing it at `[rdi + offset]`.
pub open spec fn request_operand_bytes(op: Operand, offset: u8, len: u8) -> Seq<u8> {
    load_operand_bytes(op, Register::Rax) + if len == 1 {
        seq![0x88u8, 0x47, offset]
    } else if len == 4 {
        seq![0x89u8, 0x47, offset]
    } else {
        seq![0x48u8, 0x89, 0x47, offset]
    }
}

/// The payload operands as values.
pub open spec fn payload(ops: Seq<RequestPayloadOperand>) -> Seq<(Operand, u8, u8)> {
    ops.map_values(|t: RequestPayloadOperand| (*t.0, t.1, t.2))
}

/// Whether every payload operand can be stored.
pub open spec fn valid_payload(ops: Seq<(Operand, u8, u8)>) -> bool {
    forall|i: int| 0 <= i < ops.len() ==> valid_request_operand(#[trigger] ops[i].0, ops[i].2)
}

/// The code storing the first `n` payload operands.
pub open spec fn request_operands_bytes(ops: Seq<(Operand, u8, u8)>, n: int) -> Seq<u8>
    decreases n,
{
    if n <= 0 {
        Seq::<u8>::empty()
    } else {
        request_operands_bytes(ops, n - 1) + request_operand_bytes(ops[n - 1].0, ops[n - 1].1, ops[n - 1].2)
    }
}

/// `mov rdi, [rsp]; mov byte [rdi], req_op` followed by the payload stores.
pub open spec fn sched_req_prefix(req_op: u8, ops: Seq<(Operand, u8, u8)>) -> Seq<u8> {
    seq![0x48u8, 0x8B, 0x3C, 0x24, 0xC6, 0x47, 0x00, req_op] + request_operands_bytes(ops, ops.len() as int)
}

/// The full code of a scheduler request: the request is written through the
/// pointer at `[rsp]`, then control switches to the scheduler.
pub open spec fn sched_req_bytes(req_op: u8, ops: Seq<(Operand, u8, u8)>, addr: u64) -> Seq<u8> {
    sched_req_prefix(req_op, ops) + context_switch_bytes(addr)
}

/// The patch of a scheduler request placed at `offset`.
pub open spec fn sched_req_patch(req_op: u8, ops: Seq<(Operand, u8, u8)>, offset: int) -> ContextSwitchPatch {
    let pre = sched_req_prefix(req_op, ops).len();
    ContextSwitchPatch {
        patch_offset: (offset + pre + context_switch_patch_at()) as usize,
        rip_offset: (offset + pre + context_switch_rip_at()) as usize,
    }
}

fn gen_request_operand(code: &mut Vec<u8>, request_operand: &RequestPayloadOperand)
    requires
        valid_request_operand(*request_operand.0, request_operand.2),
    ensures
        final(code)@ == old(code)@ + request_operand_bytes(
            *request_operand.0,
            request_operand.1,
            request_operand.2,
        ),
{
    let ghost start = code@;
    gen_load_operand(code, request_operand.0, Register::Rax);
    if request_operand.2 == 1 {
        // mov byte ptr [rdi + offset], al
        code.push(0x88);
        code.push(0x47);
        code.push(request_operand.1);
    } else if request_operand.2 == 4 {
        // mov dword ptr [rdi + offset], eax
        code.push(0x89);
        code.push(0x47);
        code.push(request_operand.1);
    } else {
        // mov qword ptr [rdi + offset], rax
        code.push(0x48);
        code.push(0x89);
        code.push(0x47);
        code.push(request_operand.1);
    }
    assert(code@ =~= start + request_operand_bytes(
        *request_operand.0,
        request_operand.1,
        request_operand.2,
    ));
}

/// Generates a scheduler request `req_op` with its payload operands at position
/// `offset` of the JIT code; returns the code, the position after it and the
/// patch of its context switch.
pub fn gen_sched_req(
    req_op: u8,
    operands: &[RequestPayloadOperand],
    offset: usize,
    context_switch_addr: u64,
) -> (res: (Vec<u8>, usize, ContextSwitchPatch))
    requires
        valid_payload(payload(operands@)),
        offset + sched_req_bytes(req_op, payload(operands@), context_switch_addr).len() <= usize::MAX,
    ensures
        res.0@ == sched_req_bytes(req_op, payload(operands@), context_switch_addr),
        res.1 == offset + res.0@.len(),
        res.2 == sched_req_patch(req_op, payload(operands@), offset as int),
{
    let mut code: Vec<u8> = Vec::new();
    // mov rdi, QWORD PTR [rsp + 0]
    code.push(0x48);
    code.push(0x8B);
    code.push(0x3C);
    code.push(0x24);
    // mov BYTE PTR [rdi + 0], req_op
    code.push(0xC6);
    code.push(0x47);
    code.push(0x00);
    code.push(req_op);
    let ghost head = code@;
    let ghost ops = payload(operands@);
    let mut i: usize = 0;
    while i < operands.len()
        invariant
            i <= operands@.len(),
            ops == payload(operands@),
            valid_payload(ops),
            head == seq![0x48u8, 0x8B, 0x3C, 0x24, 0xC6, 0x47, 0x00, req_op],
            code@ == head + request_operands_bytes(ops, i as int),
        decreases operands@.len() - i,
    {
        assert(ops[i as int] == (*operands@[i as int].0, operands@[i as int].1, operands@[i as int].2));
        assert(valid_request_operand(ops[i as int].0, ops[i as int].2));
        gen_request_operand(&mut code, &operands[i]);
        i = i + 1;
        assert(code@ =~= head + request_operands_bytes(ops, i as int));
    }
    assert(code@ =~= sched_req_prefix(req_op, ops));
    let offset = offset + code.len();
    assert(context_switch_bytes(context_switch_addr).len() == 29) by {
        crate::jit::x86_64::encoding::lemma_le_lengths();
    }
    let (context_switch_code, patch) = gen_context_switch(offset, context_switch_addr);
    let offset = offset + context_switch_code.len();
    let mut context_switch_code = context_switch_code;
    code.append(&mut context_switch_code);
    (code, offset, patch)
}

} // verus!
