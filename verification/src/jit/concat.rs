//! Decoding concatenated bytecode: each part decodes as it does alone.
use vstd::prelude::*;

use crate::jit::opcode::{Opcode, Operand, Register, ShiftAmount};
use crate::jit::parser::{
    parse_program, prepend, sp_0f, sp_bytes, sp_c1, sp_d3, sp_f7, sp_ff, sp_hive, sp_i32, sp_memory, sp_mov_imm, sp_opcode, sp_operand,
    sp_operands1, sp_operands2, sp_operands3, sp_opt_register, sp_program, sp_reg_operand, sp_register, sp_rel32, sp_rel8, sp_shift_imm,
    sp_u32, sp_u64, sp_u8, ParseError,
};

verus! {

/// `t` holds the bytes of `s` from position `d` on.
pub open spec fn agree(s: Seq<u8>, t: Seq<u8>, d: int) -> bool {
    &&& 0 <= d
    &&& s.len() + d <= t.len()
    &&& forall|x: int| 0 <= x < s.len() ==> #[trigger] s[x] == t[x + d]
}

/// A decoding result with its end position moved by `d`.
pub open spec fn moved<T>(r: Result<(T, int), ParseError>, d: int) -> Result<(T, int), ParseError> {
    match r {
        Ok((v, q)) => Ok((v, q + d)),
        Err(e) => Err(e),
    }
}

/// Whether reading at `p` in `s` succeeds past `p`, and reading at `p + d`
/// in `t` gives the same with the end moved by `d`.
pub open spec fn same_read<T>(rs: Result<(T, int), ParseError>, rt: Result<(T, int), ParseError>, p: int, d: int) -> bool {
    rs is Ok ==> rt == moved(rs, d) && rs->Ok_0.1 > p
}

proof fn lemma_agree_u8(s: Seq<u8>, t: Seq<u8>, d: int)
    requires
        agree(s, t, d),
    ensures
        forall|p: int| 0 <= p ==> same_read(#[trigger] sp_u8(s, p), sp_u8(t, p + d), p, d),
{
    assert forall|p: int| 0 <= p implies same_read(#[trigger] sp_u8(s, p), sp_u8(t, p + d), p, d) by {
    }
}

proof fn lemma_agree_bytes(s: Seq<u8>, t: Seq<u8>, d: int)
    requires
        agree(s, t, d),
    ensures
        forall|p: int, n: int| 0 <= p && 0 < n ==> same_read(#[trigger] sp_bytes(s, p, n), sp_bytes(t, p + d, n), p, d),
{
    assert forall|p: int, n: int| 0 <= p && 0 < n implies same_read(#[trigger] sp_bytes(s, p, n), sp_bytes(t, p + d, n), p, d) by {
        if p + n <= s.len() {
            assert(t.subrange(p + d, p + d + n) =~= s.subrange(p, p + n));
        }
    }
}

proof fn lemma_agree_u32(s: Seq<u8>, t: Seq<u8>, d: int)
    requires
        agree(s, t, d),
    ensures
        forall|p: int| 0 <= p ==> same_read(#[trigger] sp_u32(s, p), sp_u32(t, p + d), p, d),
{
    lemma_agree_bytes(s, t, d);
    assert forall|p: int| 0 <= p implies same_read(#[trigger] sp_u32(s, p), sp_u32(t, p + d), p, d) by {
    }
}

proof fn lemma_agree_i32(s: Seq<u8>, t: Seq<u8>, d: int)
    requires
        agree(s, t, d),
    ensures
        forall|p: int| 0 <= p ==> same_read(#[trigger] sp_i32(s, p), sp_i32(t, p + d), p, d),
{
    lemma_agree_u32(s, t, d);
    assert forall|p: int| 0 <= p implies same_read(#[trigger] sp_i32(s, p), sp_i32(t, p + d), p, d) by {
    }
}

proof fn lemma_agree_u64(s: Seq<u8>, t: Seq<u8>, d: int)
    requires
        agree(s, t, d),
    ensures
        forall|p: int| 0 <= p ==> same_read(#[trigger] sp_u64(s, p), sp_u64(t, p + d), p, d),
{
    lemma_agree_bytes(s, t, d);
    assert forall|p: int| 0 <= p implies same_read(#[trigger] sp_u64(s, p), sp_u64(t, p + d), p, d) by {
    }
}

proof fn lemma_agree_register(s: Seq<u8>, t: Seq<u8>, d: int)
    requires
        agree(s, t, d),
    ensures
        forall|p: int| 0 <= p ==> same_read(#[trigger] sp_register(s, p), sp_register(t, p + d), p, d),
{
    lemma_agree_u8(s, t, d);
    assert forall|p: int| 0 <= p implies same_read(#[trigger] sp_register(s, p), sp_register(t, p + d), p, d) by {
    }
}

proof fn lemma_agree_opt_register(s: Seq<u8>, t: Seq<u8>, d: int)
    requires
        agree(s, t, d),
    ensures
        forall|p: int| 0 <= p ==> same_read(#[trigger] sp_opt_register(s, p), sp_opt_register(t, p + d), p, d),
{
    lemma_agree_u8(s, t, d);
    lemma_agree_register(s, t, d);
    assert forall|p: int| 0 <= p implies same_read(#[trigger] sp_opt_register(s, p), sp_opt_register(t, p + d), p, d) by {
    }
}

proof fn lemma_agree_memory(s: Seq<u8>, t: Seq<u8>, d: int)
    requires
        agree(s, t, d),
    ensures
        forall|p: int| 0 <= p ==> same_read(#[trigger] sp_memory(s, p), sp_memory(t, p + d), p, d),
{
    lemma_agree_u8(s, t, d);
    lemma_agree_opt_register(s, t, d);
    lemma_agree_i32(s, t, d);
    assert forall|p: int| 0 <= p implies same_read(#[trigger] sp_memory(s, p), sp_memory(t, p + d), p, d) by {
    }
}

proof fn lemma_agree_operand(s: Seq<u8>, t: Seq<u8>, d: int)
    requires
        agree(s, t, d),
    ensures
        forall|p: int| 0 <= p ==> same_read(#[trigger] sp_operand(s, p), sp_operand(t, p + d), p, d),
{
    lemma_agree_u8(s, t, d);
    lemma_agree_register(s, t, d);
    lemma_agree_u64(s, t, d);
    lemma_agree_i32(s, t, d);
    lemma_agree_memory(s, t, d);
    assert forall|p: int| 0 <= p implies same_read(#[trigger] sp_operand(s, p), sp_operand(t, p + d), p, d) by {
    }
}

proof fn lemma_agree_operands1(s: Seq<u8>, t: Seq<u8>, d: int)
    requires
        agree(s, t, d),
    ensures
        forall|p: int| 0 <= p ==> same_read(#[trigger] sp_operands1(s, p), sp_operands1(t, p + d), p, d),
{
    lemma_agree_operand(s, t, d);
    assert forall|p: int| 0 <= p implies same_read(#[trigger] sp_operands1(s, p), sp_operands1(t, p + d), p, d) by {
    }
}

proof fn lemma_agree_operands2(s: Seq<u8>, t: Seq<u8>, d: int)
    requires
        agree(s, t, d),
    ensures
        forall|p: int| 0 <= p ==> same_read(#[trigger] sp_operands2(s, p), sp_operands2(t, p + d), p, d),
{
    lemma_agree_operand(s, t, d);
    assert forall|p: int| 0 <= p implies same_read(#[trigger] sp_operands2(s, p), sp_operands2(t, p + d), p, d) by {
    }
}

proof fn lemma_agree_operands3(s: Seq<u8>, t: Seq<u8>, d: int)
    requires
        agree(s, t, d),
    ensures
        forall|p: int| 0 <= p ==> same_read(#[trigger] sp_operands3(s, p), sp_operands3(t, p + d), p, d),
{
    lemma_agree_operands2(s, t, d);
    lemma_agree_operand(s, t, d);
    assert forall|p: int| 0 <= p implies same_read(#[trigger] sp_operands3(s, p), sp_operands3(t, p + d), p, d) by {
    }
}

proof fn lemma_agree_f7(s: Seq<u8>, t: Seq<u8>, d: int)
    requires
        agree(s, t, d),
    ensures
        forall|p: int| 0 <= p ==> same_read(#[trigger] sp_f7(s, p), sp_f7(t, p + d), p, d),
{
    lemma_agree_u8(s, t, d);
    lemma_agree_operand(s, t, d);
    lemma_agree_operands2(s, t, d);
    lemma_agree_operands3(s, t, d);
    assert forall|p: int| 0 <= p implies same_read(#[trigger] sp_f7(s, p), sp_f7(t, p + d), p, d) by {
    }
}

proof fn lemma_agree_ff(s: Seq<u8>, t: Seq<u8>, d: int)
    requires
        agree(s, t, d),
    ensures
        forall|p: int| 0 <= p ==> same_read(#[trigger] sp_ff(s, p), sp_ff(t, p + d), p, d),
{
    lemma_agree_u8(s, t, d);
    lemma_agree_operand(s, t, d);
    lemma_agree_operands2(s, t, d);
    lemma_agree_operands3(s, t, d);
    assert forall|p: int| 0 <= p implies same_read(#[trigger] sp_ff(s, p), sp_ff(t, p + d), p, d) by {
    }
}

proof fn lemma_agree_reg_operand(s: Seq<u8>, t: Seq<u8>, d: int)
    requires
        agree(s, t, d),
    ensures
        forall|p: int, f: spec_fn(Register, Operand) -> Opcode| 0 <= p ==> same_read(#[trigger] sp_reg_operand(s, p, f), sp_reg_operand(t, p + d, f), p, d),
{
    lemma_agree_register(s, t, d);
    lemma_agree_operand(s, t, d);
    assert forall|p: int, f: spec_fn(Register, Operand) -> Opcode| 0 <= p implies same_read(#[trigger] sp_reg_operand(s, p, f), sp_reg_operand(t, p + d, f), p, d) by {
    }
}

proof fn lemma_agree_rel32(s: Seq<u8>, t: Seq<u8>, d: int)
    requires
        agree(s, t, d),
    ensures
        forall|p: int, f: spec_fn(i32) -> Opcode| 0 <= p ==> same_read(#[trigger] sp_rel32(s, p, f), sp_rel32(t, p + d, f), p, d),
{
    lemma_agree_i32(s, t, d);
    assert forall|p: int, f: spec_fn(i32) -> Opcode| 0 <= p implies same_read(#[trigger] sp_rel32(s, p, f), sp_rel32(t, p + d, f), p, d) by {
    }
}

proof fn lemma_agree_rel8(s: Seq<u8>, t: Seq<u8>, d: int)
    requires
        agree(s, t, d),
    ensures
        forall|p: int, f: spec_fn(i8) -> Opcode| 0 <= p ==> same_read(#[trigger] sp_rel8(s, p, f), sp_rel8(t, p + d, f), p, d),
{
    lemma_agree_u8(s, t, d);
    assert forall|p: int, f: spec_fn(i8) -> Opcode| 0 <= p implies same_read(#[trigger] sp_rel8(s, p, f), sp_rel8(t, p + d, f), p, d) by {
    }
}

proof fn lemma_agree_shift_imm(s: Seq<u8>, t: Seq<u8>, d: int)
    requires
        agree(s, t, d),
    ensures
        forall|p: int, f: spec_fn(Operand, ShiftAmount) -> Opcode| 0 <= p ==> same_read(#[trigger] sp_shift_imm(s, p, f), sp_shift_imm(t, p + d, f), p, d),
{
    lemma_agree_operand(s, t, d);
    lemma_agree_u8(s, t, d);
    assert forall|p: int, f: spec_fn(Operand, ShiftAmount) -> Opcode| 0 <= p implies same_read(#[trigger] sp_shift_imm(s, p, f), sp_shift_imm(t, p + d, f), p, d) by {
    }
}

proof fn lemma_agree_mov_imm(s: Seq<u8>, t: Seq<u8>, d: int)
    requires
        agree(s, t, d),
    ensures
        forall|p: int, r: Register| 0 <= p ==> same_read(#[trigger] sp_mov_imm(s, p, r), sp_mov_imm(t, p + d, r), p, d),
{
    lemma_agree_u64(s, t, d);
    assert forall|p: int, r: Register| 0 <= p implies same_read(#[trigger] sp_mov_imm(s, p, r), sp_mov_imm(t, p + d, r), p, d) by {
    }
}

#[verifier::rlimit(100)]
proof fn lemma_agree_0f(s: Seq<u8>, t: Seq<u8>, d: int)
    requires
        agree(s, t, d),
    ensures
        forall|p: int| 0 <= p ==> same_read(#[trigger] sp_0f(s, p), sp_0f(t, p + d), p, d),
{
    lemma_agree_u8(s, t, d);
    lemma_agree_operand(s, t, d);
    lemma_agree_reg_operand(s, t, d);
    lemma_agree_rel32(s, t, d);
    lemma_agree_shift_imm(s, t, d);
    assert forall|p: int| 0 <= p implies same_read(#[trigger] sp_0f(s, p), sp_0f(t, p + d), p, d) by {
    }
}

proof fn lemma_agree_c1(s: Seq<u8>, t: Seq<u8>, d: int)
    requires
        agree(s, t, d),
    ensures
        forall|p: int| 0 <= p ==> same_read(#[trigger] sp_c1(s, p), sp_c1(t, p + d), p, d),
{
    lemma_agree_u8(s, t, d);
    lemma_agree_operand(s, t, d);
    lemma_agree_reg_operand(s, t, d);
    lemma_agree_rel32(s, t, d);
    lemma_agree_shift_imm(s, t, d);
    assert forall|p: int| 0 <= p implies same_read(#[trigger] sp_c1(s, p), sp_c1(t, p + d), p, d) by {
    }
}

proof fn lemma_agree_d3(s: Seq<u8>, t: Seq<u8>, d: int)
    requires
        agree(s, t, d),
    ensures
        forall|p: int| 0 <= p ==> same_read(#[trigger] sp_d3(s, p), sp_d3(t, p + d), p, d),
{
    lemma_agree_u8(s, t, d);
    lemma_agree_operand(s, t, d);
    lemma_agree_reg_operand(s, t, d);
    lemma_agree_rel32(s, t, d);
    lemma_agree_shift_imm(s, t, d);
    assert forall|p: int| 0 <= p implies same_read(#[trigger] sp_d3(s, p), sp_d3(t, p + d), p, d) by {
    }
}

#[verifier::rlimit(100)]
proof fn lemma_agree_hive(s: Seq<u8>, t: Seq<u8>, d: int)
    requires
        agree(s, t, d),
    ensures
        forall|p: int| 0 <= p ==> same_read(#[trigger] sp_hive(s, p), sp_hive(t, p + d), p, d),
{
    lemma_agree_u8(s, t, d);
    lemma_agree_u32(s, t, d);
    lemma_agree_u64(s, t, d);
    lemma_agree_operands1(s, t, d);
    lemma_agree_operands2(s, t, d);
    lemma_agree_operands3(s, t, d);
    assert forall|p: int| 0 <= p implies same_read(#[trigger] sp_hive(s, p), sp_hive(t, p + d), p, d) by {
    }
}

/// An instruction decodes the same from any bytes that hold the same bytes
/// from its position on, its end moved with it.
#[verifier::rlimit(100)]
proof fn lemma_agree_opcode(s: Seq<u8>, t: Seq<u8>, d: int, p: int)
    requires
        agree(s, t, d),
        0 <= p,
    ensures
        same_read(sp_opcode(s, p), sp_opcode(t, p + d), p, d),
{
    lemma_agree_u8(s, t, d);
    lemma_agree_i32(s, t, d);
    lemma_agree_u64(s, t, d);
    lemma_agree_register(s, t, d);
    lemma_agree_memory(s, t, d);
    lemma_agree_operand(s, t, d);
    lemma_agree_operands1(s, t, d);
    lemma_agree_operands2(s, t, d);
    lemma_agree_operands3(s, t, d);
    lemma_agree_f7(s, t, d);
    lemma_agree_ff(s, t, d);
    lemma_agree_reg_operand(s, t, d);
    lemma_agree_rel32(s, t, d);
    lemma_agree_rel8(s, t, d);
    lemma_agree_mov_imm(s, t, d);
    lemma_agree_0f(s, t, d);
    lemma_agree_c1(s, t, d);
    lemma_agree_d3(s, t, d);
    lemma_agree_hive(s, t, d);
    reveal(sp_opcode);
}

/// Decoding from `p + d` in `t`, which ends where `s` ends moved by `d`,
/// gives what decoding from `p` in `s` gives.
proof fn lemma_program_shift(s: Seq<u8>, t: Seq<u8>, d: int, p: int)
    requires
        agree(s, t, d),
        s.len() + d == t.len(),
        0 <= p,
        sp_program(s, p) is Ok,
    ensures
        sp_program(t, p + d) == sp_program(s, p),
    decreases s.len() - p,
{
    if p < s.len() {
        lemma_agree_opcode(s, t, d, p);
        let q = sp_opcode(s, p)->Ok_0.1;
        lemma_program_shift(s, t, d, q);
    }
}

/// Decoding `a + b` from `p` inside `a` decodes the rest of `a` as `a` alone
/// does, then goes on from where `a` ends.
proof fn lemma_program_prefix(a: Seq<u8>, b: Seq<u8>, p: int)
    requires
        0 <= p <= a.len(),
        sp_program(a, p) is Ok,
    ensures
        sp_program(a + b, p) == prepend(sp_program(a, p)->Ok_0, sp_program(a + b, a.len() as int)),
    decreases a.len() - p,
{
    let t = a + b;
    if p == a.len() {
        match sp_program(t, p) {
            Ok(r) => {
                assert(Seq::<Opcode>::empty() + r =~= r);
            },
            Err(_) => {},
        }
    } else {
        assert(agree(a, t, 0)) by {
            assert forall|x: int| 0 <= x < a.len() implies #[trigger] a[x] == t[x + 0] by {}
        }
        lemma_agree_opcode(a, t, 0, p);
        let op = sp_opcode(a, p)->Ok_0.0;
        let q = sp_opcode(a, p)->Ok_0.1;
        lemma_program_prefix(a, b, q);
        let pa = sp_program(a, q)->Ok_0;
        match sp_program(t, a.len() as int) {
            Ok(r) => {
                assert(seq![op] + (pa + r) =~= (seq![op] + pa) + r);
            },
            Err(_) => {},
        }
    }
}

/// Bytecode made of two bodies that each decode decodes to the instructions
/// of the first followed by those of the second.
pub proof fn lemma_decode_concat(a: Seq<u8>, b: Seq<u8>)
    requires
        parse_program(a) is Ok,
        parse_program(b) is Ok,
    ensures
        parse_program(a + b) == Ok::<Seq<Opcode>, ParseError>(parse_program(a)->Ok_0 + parse_program(b)->Ok_0),
{
    let t = a + b;
    lemma_program_prefix(a, b, 0);
    assert(agree(b, t, a.len() as int)) by {
        assert forall|x: int| 0 <= x < b.len() implies #[trigger] b[x] == t[x + a.len()] by {}
    }
    lemma_program_shift(b, t, a.len() as int, 0);
}

} // verus!
