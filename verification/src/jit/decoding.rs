//! What the decoder gives for single bytes: the bytes it knows, what an
//! unknown byte gives, and what reading at the end gives.
use vstd::prelude::*;

use crate::jit::opcode::{Opcode, Register, ShiftAmount};
use crate::jit::parser::{register_of_byte, sp_hive, sp_i32, sp_opcode, sp_operand, sp_operands2, sp_operands3, sp_register, sp_u64, ParseError};

verus! {

/// The first bytes of the instructions the decoder knows.
pub open spec fn is_opcode_byte(b: u8) -> bool {
    ||| b == 0x90 || b == 0x88 || b == 0x89 || b == 0x8A || b == 0x8B || b == 0x8D
    ||| b == 0x01 || b == 0x03 || b == 0x29 || b == 0x2B || b == 0x21 || b == 0x09
    ||| b == 0x31 || b == 0x85 || b == 0x39 || b == 0x3B || b == 0xF7 || b == 0xFF
    ||| b == 0xE9 || b == 0xEB || b == 0x74 || b == 0x75 || b == 0x7C || b == 0x7E
    ||| b == 0x7F || b == 0x7D || b == 0x72 || b == 0x77
    ||| b == 0x0F || b == 0xC1 || b == 0xD3 || (0xB8 <= b <= 0xBF) || b == 0xF0
}

/// The bytes after `F0` of the runtime instructions the decoder knows.
pub open spec fn is_hive_byte(b: u8) -> bool {
    ||| b <= 0x05
    ||| 0x10 <= b <= 0x19
    ||| 0x20 <= b <= 0x2B
    ||| 0x30 <= b <= 0x35
    ||| 0x40 <= b <= 0x45
    ||| 0x50 <= b <= 0x53
    ||| 0x60 <= b <= 0x63
    ||| 0x70 <= b <= 0x77
}

/// An instruction byte the decoder does not know gives `UnknownOpcode` with
/// that byte and the position just past it; at the end of the bytecode
/// there is no instruction to read.
pub proof fn lemma_unknown_opcode(s: Seq<u8>, p: int)
    requires
        0 <= p <= s.len(),
    ensures
        p == s.len() ==> sp_opcode(s, p) == Err::<(Opcode, int), ParseError>(ParseError::UnexpectedEof),
        p < s.len() && !is_opcode_byte(s[p]) ==> sp_opcode(s, p) == Err::<(Opcode, int), ParseError>(
            ParseError::UnknownOpcode(s[p], (p + 1) as usize),
        ),
{
    reveal(sp_opcode);
}

/// A runtime instruction byte the decoder does not know gives
/// `UnknownHiveOpcode` with that byte and the position just past it; at the
/// end of the bytecode there is no byte to read.
pub proof fn lemma_unknown_hive_opcode(s: Seq<u8>, q: int)
    requires
        0 <= q <= s.len(),
    ensures
        q == s.len() ==> sp_hive(s, q) == Err::<(Opcode, int), ParseError>(ParseError::UnexpectedEof),
        q < s.len() && !is_hive_byte(s[q]) ==> sp_hive(s, q) == Err::<(Opcode, int), ParseError>(
            ParseError::UnknownHiveOpcode(s[q], (q + 1) as usize),
        ),
{
}

/// A register byte names one of the sixteen registers in the order of
/// `register_of_byte` and is read with the position moved past it; a larger
/// byte gives `InvalidOperand` just past it; at the end nothing is read.
pub proof fn lemma_register_byte(s: Seq<u8>, p: int)
    requires
        0 <= p <= s.len(),
    ensures
        p == s.len() ==> sp_register(s, p) == Err::<(Register, int), ParseError>(ParseError::UnexpectedEof),
        p < s.len() && s[p] <= 15 ==> register_of_byte(s[p]) is Some && sp_register(s, p) == Ok::<
            (Register, int),
            ParseError,
        >((register_of_byte(s[p])->Some_0, p + 1)),
        p < s.len() && s[p] > 15 ==> sp_register(s, p) == Err::<(Register, int), ParseError>(
            ParseError::InvalidOperand(s[p], (p + 1) as usize),
        ),
{
}


/// The one-byte instructions the decoder knows, as the opcode table gives
/// them: a two-operand instruction takes the two operands read after its
/// byte in that order, a short jump its displacement from the next byte, and
/// `B8+r` loads the 64-bit value after it into register `r` (hardware order).
#[verifier::rlimit(100)]
pub proof fn lemma_opcode_table(s: Seq<u8>, p: int)
    requires
        0 <= p,
        sp_opcode(s, p) is Ok,
    ensures
        ({
            let op = sp_opcode(s, p)->Ok_0.0;
            let two = sp_operands2(s, p + 1)->Ok_0.0;
            &&& s[p] == 0x90 ==> op == Opcode::Nop
            &&& s[p] == 0x88 ==> op == (Opcode::Mov8 { dst: two.0, src: two.1 })
            &&& s[p] == 0x8A ==> op == (Opcode::Mov8 { dst: two.0, src: two.1 })
            &&& s[p] == 0x89 ==> op == (Opcode::Mov64 { dst: two.0, src: two.1 })
            &&& s[p] == 0x8B ==> op == (Opcode::Mov64 { dst: two.0, src: two.1 })
            &&& s[p] == 0x01 ==> op == (Opcode::Add { dst: two.0, src: two.1 })
            &&& s[p] == 0x03 ==> op == (Opcode::Add { dst: two.0, src: two.1 })
            &&& s[p] == 0x29 ==> op == (Opcode::Sub { dst: two.0, src: two.1 })
            &&& s[p] == 0x2B ==> op == (Opcode::Sub { dst: two.0, src: two.1 })
            &&& s[p] == 0x21 ==> op == (Opcode::And { dst: two.0, src: two.1 })
            &&& s[p] == 0x09 ==> op == (Opcode::Or { dst: two.0, src: two.1 })
            &&& s[p] == 0x31 ==> op == (Opcode::Xor { dst: two.0, src: two.1 })
            &&& s[p] == 0x85 ==> op == (Opcode::Test { left: two.0, right: two.1 })
            &&& s[p] == 0x39 ==> op == (Opcode::Cmp { left: two.0, right: two.1 })
            &&& s[p] == 0x3B ==> op == (Opcode::Cmp { left: two.0, right: two.1 })
            &&& s[p] == 0xEB ==> op == (Opcode::JmpRel8 { offset: s[p + 1] as i8 })
            &&& s[p] == 0x74 ==> op == (Opcode::JeRel8 { offset: s[p + 1] as i8 })
            &&& s[p] == 0x75 ==> op == (Opcode::JneRel8 { offset: s[p + 1] as i8 })
            &&& s[p] == 0x7C ==> op == (Opcode::JlRel8 { offset: s[p + 1] as i8 })
            &&& s[p] == 0x7E ==> op == (Opcode::JleRel8 { offset: s[p + 1] as i8 })
            &&& s[p] == 0x7F ==> op == (Opcode::JgRel8 { offset: s[p + 1] as i8 })
            &&& s[p] == 0x7D ==> op == (Opcode::JgeRel8 { offset: s[p + 1] as i8 })
            &&& s[p] == 0x72 ==> op == (Opcode::JbRel8 { offset: s[p + 1] as i8 })
            &&& s[p] == 0x77 ==> op == (Opcode::JaRel8 { offset: s[p + 1] as i8 })
            &&& s[p] == 0xE9 ==> op == (Opcode::JmpRel32 { offset: sp_i32(s, p + 1)->Ok_0.0 })
            &&& s[p] == 0x8D ==> op is Lea
            &&& s[p] == 0xB8 ==> op == (Opcode::MovImm64 { dst: Register::Rax, value: sp_u64(s, p + 1)->Ok_0.0 })
            &&& s[p] == 0xB9 ==> op == (Opcode::MovImm64 { dst: Register::Rcx, value: sp_u64(s, p + 1)->Ok_0.0 })
            &&& s[p] == 0xBA ==> op == (Opcode::MovImm64 { dst: Register::Rdx, value: sp_u64(s, p + 1)->Ok_0.0 })
            &&& s[p] == 0xBB ==> op == (Opcode::MovImm64 { dst: Register::Rbx, value: sp_u64(s, p + 1)->Ok_0.0 })
            &&& s[p] == 0xBC ==> op == (Opcode::MovImm64 { dst: Register::Rsp, value: sp_u64(s, p + 1)->Ok_0.0 })
            &&& s[p] == 0xBD ==> op == (Opcode::MovImm64 { dst: Register::Rbp, value: sp_u64(s, p + 1)->Ok_0.0 })
            &&& s[p] == 0xBE ==> op == (Opcode::MovImm64 { dst: Register::Rsi, value: sp_u64(s, p + 1)->Ok_0.0 })
            &&& s[p] == 0xBF ==> op == (Opcode::MovImm64 { dst: Register::Rdi, value: sp_u64(s, p + 1)->Ok_0.0 })
        }),
{
    reveal(sp_opcode);
}

/// The instructions chosen by a second byte, as the opcode table gives them:
/// the `F7`, `FF`, `C1` and `D3` groups by the digit after the first byte,
/// and the two-byte `0F` instructions by their second byte.
#[verifier::rlimit(100)]
pub proof fn lemma_opcode_group_table(s: Seq<u8>, p: int)
    requires
        0 <= p,
        sp_opcode(s, p) is Ok,
    ensures
        ({
            let op = sp_opcode(s, p)->Ok_0.0;
            let sub = s[p + 1];
            &&& true
            &&& s[p] == 0xF7 && sub == 4 ==> op is Mul
            &&& s[p] == 0xF7 && sub == 5 ==> op is Imul
            &&& s[p] == 0xF7 && sub == 6 ==> op is Div
            &&& s[p] == 0xF7 && sub == 7 ==> op is Idiv
            &&& s[p] == 0xF7 && sub == 3 ==> op is Neg
            &&& s[p] == 0xF7 && sub == 2 ==> op is Not
            &&& s[p] == 0xFF && sub == 0 ==> op is Inc
            &&& s[p] == 0xFF && sub == 1 ==> op is Dec
            &&& s[p] == 0xC1 && sub == 4 ==> op is Shl && op->Shl_amount is Immediate
            &&& s[p] == 0xC1 && sub == 5 ==> op is Shr && op->Shr_amount is Immediate
            &&& s[p] == 0xC1 && sub == 7 ==> op is Sar && op->Sar_amount is Immediate
            &&& s[p] == 0xC1 && sub == 0 ==> op is Rol && op->Rol_amount is Immediate
            &&& s[p] == 0xC1 && sub == 1 ==> op is Ror && op->Ror_amount is Immediate
            &&& s[p] == 0xD3 && sub == 4 ==> op is Shl && op->Shl_amount == ShiftAmount::Cl
            &&& s[p] == 0xD3 && sub == 5 ==> op is Shr && op->Shr_amount == ShiftAmount::Cl
            &&& s[p] == 0xD3 && sub == 7 ==> op is Sar && op->Sar_amount == ShiftAmount::Cl
            &&& s[p] == 0x0F && sub == 0x05 ==> op is Syscall
            &&& s[p] == 0x0F && sub == 0xBE ==> op is Movsx8
            &&& s[p] == 0x0F && sub == 0xBF ==> op is Movsx16
            &&& s[p] == 0x0F && sub == 0xB6 ==> op is Movzx8
            &&& s[p] == 0x0F && sub == 0xB7 ==> op is Movzx16
            &&& s[p] == 0x0F && sub == 0x84 ==> op is JeRel32
            &&& s[p] == 0x0F && sub == 0x85 ==> op is JneRel32
            &&& s[p] == 0x0F && sub == 0x8C ==> op is JlRel32
            &&& s[p] == 0x0F && sub == 0x8E ==> op is JleRel32
            &&& s[p] == 0x0F && sub == 0x8F ==> op is JgRel32
            &&& s[p] == 0x0F && sub == 0x8D ==> op is JgeRel32
            &&& s[p] == 0x0F && sub == 0x82 ==> op is JbRel32
            &&& s[p] == 0x0F && sub == 0x87 ==> op is JaRel32
            &&& s[p] == 0x0F && sub == 0x94 ==> op is Sete
            &&& s[p] == 0x0F && sub == 0x95 ==> op is Setne
            &&& s[p] == 0x0F && sub == 0x9C ==> op is Setl
            &&& s[p] == 0x0F && sub == 0x9E ==> op is Setle
            &&& s[p] == 0x0F && sub == 0x9F ==> op is Setg
            &&& s[p] == 0x0F && sub == 0x9D ==> op is Setge
            &&& s[p] == 0x0F && sub == 0x92 ==> op is Setb
            &&& s[p] == 0x0F && sub == 0x97 ==> op is Seta
        }),
{
    reveal(sp_opcode);
}

/// The runtime instructions, as the opcode table gives them: the byte after
/// `F0` names the instruction.
#[verifier::rlimit(100)]
pub proof fn lemma_runtime_opcode_table(s: Seq<u8>, p: int)
    requires
        0 <= p,
        sp_opcode(s, p) is Ok,
        s[p] == 0xF0,
    ensures
        ({
            let op = sp_opcode(s, p)->Ok_0.0;
            let sub = s[p + 1];
            &&& true
            &&& sub == 0x00 ==> op is Decl
            &&& sub == 0x01 ==> op is Param
            &&& sub == 0x02 ==> op is EndVar
            &&& sub == 0x03 ==> op is Frame
            &&& sub == 0x04 ==> op is FrameAlloc
            &&& sub == 0x05 ==> op is FrameFree
            &&& sub == 0x10 ==> op is Malloc
            &&& sub == 0x11 ==> op is Calloc
            &&& sub == 0x12 ==> op is Realloc
            &&& sub == 0x13 ==> op is Free
            &&& sub == 0x14 ==> op is Memcpy
            &&& sub == 0x15 ==> op is Memmove
            &&& sub == 0x16 ==> op is Memset
            &&& sub == 0x17 ==> op is Memcmp
            &&& sub == 0x18 ==> op is StackAlloc
            &&& sub == 0x19 ==> op is StackFree
            &&& sub == 0x20 ==> op is ProcSpawn
            &&& sub == 0x21 ==> op is ProcSelf
            &&& sub == 0x22 ==> op is ProcExit
            &&& sub == 0x23 ==> op is ProcKill
            &&& sub == 0x24 ==> op is ProcState
            &&& sub == 0x25 ==> op is ProcYield
            &&& sub == 0x26 ==> op is ProcSleep
            &&& sub == 0x27 ==> op is ProcAlive
            &&& sub == 0x28 ==> op is ProcLink
            &&& sub == 0x29 ==> op is ProcUnlink
            &&& sub == 0x2A ==> op is ProcMonitor
            &&& sub == 0x2B ==> op is ProcDemonitor
            &&& sub == 0x30 ==> op is SchedYield
            &&& sub == 0x31 ==> op is SchedWake
            &&& sub == 0x32 ==> op is SchedWait
            &&& sub == 0x33 ==> op is SchedId
            &&& sub == 0x34 ==> op is SchedCount
            &&& sub == 0x35 ==> op is SchedMigrate
            &&& sub == 0x40 ==> op is MailSend
            &&& sub == 0x41 ==> op is MailRecv
            &&& sub == 0x42 ==> op is MailTryRecv
            &&& sub == 0x43 ==> op is MailPeek
            &&& sub == 0x44 ==> op is MailLen
            &&& sub == 0x45 ==> op is MailClear
            &&& sub == 0x50 ==> op is Await
            &&& sub == 0x51 ==> op is Async
            &&& sub == 0x52 ==> op is Resume
            &&& sub == 0x53 ==> op is Suspend
            &&& sub == 0x60 ==> op is ProcessDrop
            &&& sub == 0x61 ==> op is ProcessReset
            &&& sub == 0x62 ==> op is ProcessFail
            &&& sub == 0x63 ==> op is ProcessTrap
            &&& sub == 0x70 ==> op is Jit
            &&& sub == 0x71 ==> op is HiveCall
            &&& sub == 0x72 ==> op is CallWorker
            &&& sub == 0x73 ==> op is NativeCall
            &&& sub == 0x74 ==> op is NativeReturn
            &&& sub == 0x75 ==> op is Recall
            &&& sub == 0x76 ==> op is Syscall
            &&& sub == 0x77 ==> op is Ret
        }),
{
    reveal(sp_opcode);
}

/// The number a register has in bytecode: rax, rbx, rcx, rdx, rsi, rdi, rbp,
/// rsp, then r8 to r15.
pub open spec fn bytecode_register_number(r: Register) -> u8 {
    match r {
        Register::Rax => 0,
        Register::Rbx => 1,
        Register::Rcx => 2,
        Register::Rdx => 3,
        Register::Rsi => 4,
        Register::Rdi => 5,
        Register::Rbp => 6,
        Register::Rsp => 7,
        Register::R8 => 8,
        Register::R9 => 9,
        Register::R10 => 10,
        Register::R11 => 11,
        Register::R12 => 12,
        Register::R13 => 13,
        Register::R14 => 14,
        Register::R15 => 15,
    }
}

/// A register byte names the register with that bytecode number; exactly
/// the bytes 0 to 15 name one.
pub proof fn lemma_register_numbers(b: u8)
    ensures
        register_of_byte(b) matches Some(r) ==> bytecode_register_number(r) == b,
        b <= 15 <==> register_of_byte(b) is Some,
{
}

/// The operands of a runtime instruction are those read after its two
/// bytes, in the order the instruction lists them.
#[verifier::rlimit(100)]
pub proof fn lemma_runtime_operands(s: Seq<u8>, p: int)
    requires
        0 <= p,
        sp_opcode(s, p) is Ok,
        s[p] == 0xF0,
    ensures
        ({
            let op = sp_opcode(s, p)->Ok_0.0;
            let sub = s[p + 1];
            let o1 = sp_operand(s, p + 2)->Ok_0.0;
            let o2 = sp_operands2(s, p + 2)->Ok_0.0;
            let o3 = sp_operands3(s, p + 2)->Ok_0.0;
            &&& true
            &&& sub == 0x10 ==> op == (Opcode::Malloc { dst: o2.0, size: o2.1 })
            &&& sub == 0x11 ==> op == (Opcode::Calloc { dst: o3.0, count: o3.1, size: o3.2 })
            &&& sub == 0x12 ==> op == (Opcode::Realloc { dst: o3.0, ptr: o3.1, size: o3.2 })
            &&& sub == 0x13 ==> op == (Opcode::Free { ptr: o1 })
            &&& sub == 0x14 ==> op == (Opcode::Memcpy { dst: o3.0, src: o3.1, size: o3.2 })
            &&& sub == 0x15 ==> op == (Opcode::Memmove { dst: o3.0, src: o3.1, size: o3.2 })
            &&& sub == 0x16 ==> op == (Opcode::Memset { dst: o3.0, value: o3.1, size: o3.2 })
            &&& sub == 0x17 ==> op == (Opcode::Memcmp { a: o3.0, b: o3.1, size: o3.2 })
            &&& sub == 0x18 ==> op == (Opcode::StackAlloc { dst: o2.0, size: o2.1 })
            &&& sub == 0x19 ==> op == (Opcode::StackFree { ptr: o1 })
            &&& sub == 0x20 ==> op == (Opcode::ProcSpawn { dst: o3.0, function: o3.1, args: o3.2 })
            &&& sub == 0x21 ==> op == (Opcode::ProcSelf { dst: o1 })
            &&& sub == 0x22 ==> op == (Opcode::ProcExit { reason: o1 })
            &&& sub == 0x23 ==> op == (Opcode::ProcKill { pid: o2.0, reason: o2.1 })
            &&& sub == 0x24 ==> op == (Opcode::ProcState { dst: o2.0, pid: o2.1 })
            &&& sub == 0x26 ==> op == (Opcode::ProcSleep { duration: o1 })
            &&& sub == 0x27 ==> op == (Opcode::ProcAlive { dst: o2.0, pid: o2.1 })
            &&& sub == 0x28 ==> op == (Opcode::ProcLink { pid: o1 })
            &&& sub == 0x29 ==> op == (Opcode::ProcUnlink { pid: o1 })
            &&& sub == 0x2A ==> op == (Opcode::ProcMonitor { pid: o1 })
            &&& sub == 0x2B ==> op == (Opcode::ProcDemonitor { pid: o1 })
            &&& sub == 0x31 ==> op == (Opcode::SchedWake { pid: o1 })
            &&& sub == 0x32 ==> op == (Opcode::SchedWait { event: o1 })
            &&& sub == 0x33 ==> op == (Opcode::SchedId { dst: o1 })
            &&& sub == 0x34 ==> op == (Opcode::SchedCount { dst: o1 })
            &&& sub == 0x35 ==> op == (Opcode::SchedMigrate { pid: o2.0, scheduler: o2.1 })
            &&& sub == 0x40 ==> op == (Opcode::MailSend { pid: o2.0, message: o2.1 })
            &&& sub == 0x41 ==> op == (Opcode::MailRecv { dst: o1 })
            &&& sub == 0x42 ==> op == (Opcode::MailTryRecv { dst: o1 })
            &&& sub == 0x43 ==> op == (Opcode::MailPeek { dst: o1 })
            &&& sub == 0x44 ==> op == (Opcode::MailLen { dst: o1 })
            &&& sub == 0x50 ==> op == (Opcode::Await { operation: o1 })
            &&& sub == 0x51 ==> op == (Opcode::Async { dst: o3.0, function: o3.1, args: o3.2 })
            &&& sub == 0x52 ==> op == (Opcode::Resume { process: o1 })
            &&& sub == 0x53 ==> op == (Opcode::Suspend { process: o1 })
            &&& sub == 0x60 ==> op == (Opcode::ProcessDrop { pid: o1 })
            &&& sub == 0x61 ==> op == (Opcode::ProcessReset { pid: o1 })
            &&& sub == 0x62 ==> op == (Opcode::ProcessFail { reason: o1 })
            &&& sub == 0x63 ==> op == (Opcode::ProcessTrap { handler: o1 })
            &&& sub == 0x70 ==> op == (Opcode::Jit { function: o1 })
            &&& sub == 0x71 ==> op == (Opcode::HiveCall { function: o2.0, args: o2.1 })
            &&& sub == 0x72 ==> op == (Opcode::CallWorker { worker: o2.0, args: o2.1 })
            &&& sub == 0x73 ==> op == (Opcode::NativeCall { function: o2.0, args: o2.1 })
            &&& sub == 0x74 ==> op == (Opcode::NativeReturn { value: o1 })
            &&& sub == 0x77 ==> op == (Opcode::Ret { ptr: o1 })
        }),
{
    reveal(sp_opcode);
}

} // verus!
