//! The jump from JIT code back into the scheduler.
use vstd::prelude::*;
use vstd::bytes::{spec_u32_to_le_bytes, u32_to_le_bytes};

use crate::jit::x86_64::encoding::{le64, push_le64};

verus! {

/// Where a generated context switch must be patched once the code's final
/// address is known: the `disp32` of its `lea rcx, [rip + disp32]` sits at
/// `patch_offset`, and the resume point it must reach is `rip_offset`.
#[derive(Debug, Clone, Copy)]
pub struct ContextSwitchPatch {
    pub patch_offset: usize,
    pub rip_offset: usize,
}

/// The code of a context switch:
/// `mov rdi, [rsp + 16]; mov rsi, [rsp + 8]; lea rcx, [rip + 0]; mov rax, addr; jmp rax`.
pub open spec fn context_switch_bytes(context_switch_addr: u64) -> Seq<u8> {
    seq![
        0x48u8, 0x8B, 0x7C, 0x24, 0x10,
        0x48, 0x8B, 0x74, 0x24, 0x08,
        0x48, 0x8D, 0x0D, 0x00, 0x00, 0x00, 0x00,
        0x48, 0xB8,
    ] + le64(context_switch_addr) + seq![0xFFu8, 0xE0]
}

/// Offset of the `lea` displacement inside the context switch code.
pub open spec fn context_switch_patch_at() -> int {
    13
}

/// Offset of the resume point, right after the final `jmp rax`, inside the context switch code.
pub open spec fn context_switch_rip_at() -> int {
    29
}

/// Generates the context switch code for a position `offset` in the JIT code;
/// `context_switch_addr` is the address of the runtime's context switch routine.
pub fn gen_context_switch(offset: usize, context_switch_addr: u64) -> (res: (Vec<u8>, ContextSwitchPatch))
    requires
        offset + context_switch_rip_at() <= usize::MAX,
    ensures
        res.0@ == context_switch_bytes(context_switch_addr),
        res.0@.len() == 29,
        res.1.patch_offset == offset + context_switch_patch_at(),
        res.1.rip_offset == offset + context_switch_rip_at(),
{
    let mut code: Vec<u8> = Vec::new();
    // mov rdi, [rsp + 16]
    code.push(0x48);
    code.push(0x8B);
    code.push(0x7C);
    code.push(0x24);
    code.push(0x10);
    // mov rsi, [rsp + 8]
    code.push(0x48);
    code.push(0x8B);
    code.push(0x74);
    code.push(0x24);
    code.push(0x08);
    // lea rcx, [rip + disp32], disp32 patched later
    let lea_start = code.len();
    code.push(0x48);
    code.push(0x8D);
    code.push(0x0D);
    code.push(0x00);
    code.push(0x00);
    code.push(0x00);
    code.push(0x00);
    // mov rax, context_switch_addr
    code.push(0x48);
    code.push(0xB8);
    push_le64(&mut code, context_switch_addr);
    // jmp rax
    code.push(0xFF);
    code.push(0xE0);
    let rip_offset = code.len();
    assert(code@ =~= context_switch_bytes(context_switch_addr));
    (code, ContextSwitchPatch { patch_offset: offset + lea_start + 3, rip_offset: offset + rip_offset })
}

/// The `disp32` that a patch receives once the code is placed at `address`:
/// the distance from the end of the displacement field to the resume point,
/// both addresses read as signed machine words.
pub open spec fn patch_displacement_value(address: int, patch: ContextSwitchPatch) -> int {
    ((address + patch.rip_offset) as usize as isize) - ((address + patch.patch_offset + 4) as usize as isize)
}

/// Whether the addresses of a patch stay within the address space and its
/// displacement fits a `disp32`.
pub open spec fn displacement_fits(address: int, patch: ContextSwitchPatch) -> bool {
    &&& address + patch.rip_offset <= usize::MAX
    &&& address + patch.patch_offset + 4 <= usize::MAX
    &&& i32::MIN <= patch_displacement_value(address, patch) <= i32::MAX
}

/// Computes the displacement written into a context switch once the JIT code
/// lives at `address`.
pub fn patch_displacement(address: usize, patch: &ContextSwitchPatch) -> (displacement: i32)
    requires
        displacement_fits(address as int, *patch),
    ensures
        displacement == patch_displacement_value(address as int, *patch),
{
    let patch_address = address + patch.patch_offset;
    let rip_address = address + patch.rip_offset;
    let next_rip = patch_address + 4;
    let displacement = rip_address as isize - next_rip as isize;
    displacement as i32
}

/// Whether a patch can be applied to code of `len` bytes placed at `address`:
/// its field lies within the code and its displacement fits the field.
pub open spec fn patch_fits(address: int, len: int, patch: ContextSwitchPatch) -> bool {
    &&& patch.patch_offset + 4 <= len
    &&& displacement_fits(address, patch)
}

/// The code with the 4 bytes at `at` replaced by the little-endian `v`.
pub open spec fn write_i32(code: Seq<u8>, at: int, v: i32) -> Seq<u8> {
    let b = spec_u32_to_le_bytes(v as u32);
    code.update(at, b[0]).update(at + 1, b[1]).update(at + 2, b[2]).update(at + 3, b[3])
}

/// The code after the patches, applied in order, once it is placed at `address`.
pub open spec fn patched(code: Seq<u8>, address: int, patches: Seq<ContextSwitchPatch>) -> Seq<u8>
    decreases patches.len(),
{
    if patches.len() == 0 {
        code
    } else {
        let p = patches.last();
        write_i32(
            patched(code, address, patches.drop_last()),
            p.patch_offset as int,
            patch_displacement_value(address, p) as i32,
        )
    }
}

/// Writes into translated code, which is to be placed at `address`, the
/// displacement of each of its context switches, so that each switch resumes
/// right after itself.
pub fn patch_context_switches(code: &mut Vec<u8>, address: usize, patches: &[ContextSwitchPatch])
    requires
        forall|i: int| 0 <= i < patches@.len() ==> patch_fits(address as int, old(code)@.len() as int, #[trigger] patches@[i]),
    ensures
        final(code)@ == patched(old(code)@, address as int, patches@),
{
    let mut i: usize = 0;
    while i < patches.len()
        invariant
            i <= patches@.len(),
            code@.len() == old(code)@.len(),
            forall|j: int| 0 <= j < patches@.len() ==> patch_fits(address as int, old(code)@.len() as int, #[trigger] patches@[j]),
            code@ == patched(old(code)@, address as int, patches@.take(i as int)),
        decreases patches@.len() - i,
    {
        let patch = patches[i];
        let displacement = patch_displacement(address, &patch);
        let bytes = u32_to_le_bytes(displacement as u32);
        let at = patch.patch_offset;
        code.set(at, bytes[0]);
        code.set(at + 1, bytes[1]);
        code.set(at + 2, bytes[2]);
        code.set(at + 3, bytes[3]);
        proof {
            assert(patches@.take(i + 1).drop_last() =~= patches@.take(i as int));
        }
        i = i + 1;
    }
    assert(patches@.take(i as int) =~= patches@);
}

} // verus!
