//! Translation of decoded HIVE instructions to x86-64 machine code.
pub mod build_instruction;
pub mod encode_rm;
pub mod encoding;
pub mod gen_context_switch;
pub mod gen_load_operand;
pub mod gen_sched_req;
pub mod instruction_forms;
pub mod support;
pub mod translate_opcode;

use vstd::prelude::*;

use crate::jit::opcode::Opcode;
pub use crate::jit::x86_64::gen_context_switch::ContextSwitchPatch;
use crate::jit::x86_64::encoding::lemma_le_lengths;
use crate::jit::x86_64::gen_context_switch::context_switch_bytes;
use crate::jit::x86_64::gen_sched_req::sched_req_bytes;
use crate::jit::x86_64::translate_opcode::{
    sched_request, translate_bytes, translate_opcode, translate_patch, translatable, TranslatedOpcode,
};

verus! {

/// `Vec::into_boxed_slice`: the boxed slice holds exactly the vector's elements.
#[verifier::external_body]
pub(crate) fn into_boxed<T>(v: Vec<T>) -> (b: Box<[T]>)
    ensures
        b@ == v@,
{
    v.into_boxed_slice()
}

/// The code, the position counter and the patches after translating the first
/// `n` instructions. The position counter is where the next instruction's code
/// starts: the previous counter plus the code's length.
pub open spec fn jit_state(code: Seq<Opcode>, n: nat, addr: u64) -> (Seq<u8>, int, Seq<ContextSwitchPatch>)
    decreases n,
{
    if n == 0 || n > code.len() {
        (Seq::<u8>::empty(), 0, Seq::<ContextSwitchPatch>::empty())
    } else {
        let prev = jit_state(code, (n - 1) as nat, addr);
        let op = code[n - 1];
        let bytes = translate_bytes(op, addr);
        let patches = match translate_patch(op, prev.1 as usize) {
            Some(p) => prev.2.push(p),
            None => prev.2,
        };
        (prev.0 + bytes, prev.1 + bytes.len(), patches)
    }
}

/// Whether every instruction is translatable and no position counter overflows.
pub open spec fn jit_ok(code: Seq<Opcode>, addr: u64) -> bool {
    &&& forall|i: int| 0 <= i < code.len() ==> translatable(#[trigger] code[i])
    &&& forall|n: nat| n <= code.len() ==> #[trigger] jit_state(code, n, addr).1 <= usize::MAX
}

/// Translates a function body to x86-64 machine code; returns the code and the
/// context switches that must be patched once the code's address is known.
/// `context_switch_addr` is the address of the runtime's context switch routine.
pub fn jit_x86_64(code: &[Opcode], context_switch_addr: u64) -> (res: (Box<[u8]>, Box<[ContextSwitchPatch]>))
    requires
        jit_ok(code@, context_switch_addr),
    ensures
        res.0@ == jit_state(code@, code@.len(), context_switch_addr).0,
        res.1@ == jit_state(code@, code@.len(), context_switch_addr).2,
        forall|k: int|
            0 <= k < res.1@.len() ==> #[trigger] res.1@[k].patch_offset + 4 <= res.1@[k].rip_offset
                && res.1@[k].rip_offset <= res.0@.len(),
        forall|j: int, k: int|
            0 <= j < k < res.1@.len() ==> #[trigger] res.1@[j].rip_offset <= #[trigger] res.1@[k].patch_offset,
{
    proof {
        lemma_patches_in_order(code@, code@.len(), context_switch_addr);
    }
    let mut offset: usize = 0;
    let mut jit_code: Vec<u8> = Vec::with_capacity(50);
    let mut patches: Vec<ContextSwitchPatch> = Vec::with_capacity(10);
    let mut i: usize = 0;
    while i < code.len()
        invariant
            i <= code@.len(),
            jit_ok(code@, context_switch_addr),
            offset == jit_state(code@, i as nat, context_switch_addr).1,
            jit_code@ == jit_state(code@, i as nat, context_switch_addr).0,
            patches@ == jit_state(code@, i as nat, context_switch_addr).2,
        decreases code@.len() - i,
    {
        let ghost next = jit_state(code@, (i + 1) as nat, context_switch_addr);
        assert(next.1 <= usize::MAX);
        assert(translatable(code@[i as int]));
        let TranslatedOpcode(c, o, p) = translate_opcode(&code[i], offset, context_switch_addr);
        offset = o;
        let mut c = c;
        jit_code.append(&mut c);
        match p {
            Some(p) => {
                patches.push(p);
            },
            None => {},
        }
        i = i + 1;
    }
    (into_boxed(jit_code), into_boxed(patches))
}

/// The patch of an instruction that switches to the scheduler lies in its
/// own code: the `lea` displacement ends 12 bytes before the code's end,
/// which is the resume point.
proof fn lemma_patch_in_code(op: Opcode, offset: usize, addr: u64)
    requires
        offset + translate_bytes(op, addr).len() <= usize::MAX,
    ensures
        translate_patch(op, offset) matches Some(p) ==> {
            &&& p.patch_offset == offset + translate_bytes(op, addr).len() - 16
            &&& p.rip_offset == offset + translate_bytes(op, addr).len()
            &&& translate_bytes(op, addr).len() >= 29
        },
{
    lemma_le_lengths();
    assert(context_switch_bytes(addr).len() == 29);
    if let Some((code, ops)) = sched_request(op) {
        assert(translate_bytes(op, addr) == sched_req_bytes(code, ops, addr));
    }
}

/// After translating the first `n` instructions, the position counter is the
/// length of the code, every patch's displacement and resume point lie inside
/// the code, and the patches come in the order of their instructions: each
/// one's resume point is at or before the next one's displacement, so their
/// positions strictly increase.
pub proof fn lemma_patches_in_order(code: Seq<Opcode>, n: nat, addr: u64)
    requires
        n <= code.len(),
        forall|m: nat| m <= code.len() ==> #[trigger] jit_state(code, m, addr).1 <= usize::MAX,
    ensures
        ({
            let st = jit_state(code, n, addr);
            &&& st.1 == st.0.len()
            &&& forall|k: int|
                0 <= k < st.2.len() ==> #[trigger] st.2[k].patch_offset + 4 <= st.2[k].rip_offset
                    && st.2[k].rip_offset <= st.0.len()
            &&& forall|j: int, k: int|
                0 <= j < k < st.2.len() ==> #[trigger] st.2[j].rip_offset <= #[trigger] st.2[k].patch_offset
        }),
    decreases n,
{
    if n > 0 {
        lemma_patches_in_order(code, (n - 1) as nat, addr);
        let prev = jit_state(code, (n - 1) as nat, addr);
        let op = code[n - 1];
        assert(prev.1 <= usize::MAX);
        assert(jit_state(code, n, addr).1 <= usize::MAX);
        lemma_patch_in_code(op, prev.1 as usize, addr);
        let st = jit_state(code, n, addr);
        if let Some(p) = translate_patch(op, prev.1 as usize) {
            assert(st.2 == prev.2.push(p));
            assert forall|j: int, k: int| 0 <= j < k < st.2.len() implies #[trigger] st.2[j].rip_offset
                <= #[trigger] st.2[k].patch_offset by {
                if k == prev.2.len() {
                    assert(st.2[j] == prev.2[j]);
                    assert(prev.2[j].patch_offset + 4 <= prev.2[j].rip_offset);
                    assert(p.patch_offset >= prev.1);
                } else {
                    assert(st.2[j] == prev.2[j] && st.2[k] == prev.2[k]);
                }
            }
            assert forall|k: int| 0 <= k < st.2.len() implies #[trigger] st.2[k].patch_offset + 4
                <= st.2[k].rip_offset && st.2[k].rip_offset <= st.0.len() by {
                if k < prev.2.len() {
                    assert(st.2[k] == prev.2[k]);
                }
            }
        }
    }
}

} // verus!
