//! The decoded form of HIVE bytecode: instructions, operands and registers.
use vstd::prelude::*;

verus! {

/// One HIVE instruction: either an x86-64 instruction or a HIVE runtime instruction.
#[allow(inconsistent_fields)]
#[derive(Debug, Clone)]
pub enum Opcode {
    Nop,
    Mov8 { dst: Operand, src: Operand },
    Mov64 { dst: Operand, src: Operand },
    MovImm64 { dst: Register, value: u64 },
    Lea { dst: Register, src: MemoryOperand },
    Add { dst: Operand, src: Operand },
    Sub { dst: Operand, src: Operand },
    Mul { src: Operand },
    Imul { src: Operand },
    Div { src: Operand },
    Idiv { src: Operand },
    Inc { operand: Operand },
    Dec { operand: Operand },
    Neg { operand: Operand },
    And { dst: Operand, src: Operand },
    Or { dst: Operand, src: Operand },
    Xor { dst: Operand, src: Operand },
    Not { operand: Operand },
    Test { left: Operand, right: Operand },
    Cmp { left: Operand, right: Operand },
    Shl { dst: Operand, amount: ShiftAmount },
    Shr { dst: Operand, amount: ShiftAmount },
    Sar { dst: Operand, amount: ShiftAmount },
    Rol { dst: Operand, amount: ShiftAmount },
    Ror { dst: Operand, amount: ShiftAmount },
    Movsx8 { dst: Register, src: Operand },
    Movsx16 { dst: Register, src: Operand },
    Movzx8 { dst: Register, src: Operand },
    Movzx16 { dst: Register, src: Operand },
    JmpRel8 { offset: i8 },
    JmpRel32 { offset: i32 },
    JeRel8 { offset: i8 },
    JeRel32 { offset: i32 },
    JneRel8 { offset: i8 },
    JneRel32 { offset: i32 },
    JlRel8 { offset: i8 },
    JlRel32 { offset: i32 },
    JleRel8 { offset: i8 },
    JleRel32 { offset: i32 },
    JgRel8 { offset: i8 },
    JgRel32 { offset: i32 },
    JgeRel8 { offset: i8 },
    JgeRel32 { offset: i32 },
    JbRel8 { offset: i8 },
    JbRel32 { offset: i32 },
    JaRel8 { offset: i8 },
    JaRel32 { offset: i32 },
    Sete { dst: Operand },
    Setne { dst: Operand },
    Setl { dst: Operand },
    Setle { dst: Operand },
    Setg { dst: Operand },
    Setge { dst: Operand },
    Setb { dst: Operand },
    Seta { dst: Operand },
    Syscall,
    // frame instructions
    Decl { variable: Variable, ty: Type },
    Param { parameter: Variable, ty: Type },
    EndVar,
    Frame { size: u64, alignment: u64 },
    FrameAlloc { size: u64 },
    FrameFree,
    // memory
    Malloc { dst: Operand, size: Operand },
    Calloc { dst: Operand, count: Operand, size: Operand },
    Realloc { dst: Operand, ptr: Operand, size: Operand },
    Free { ptr: Operand },
    Memcpy { dst: Operand, src: Operand, size: Operand },
    Memmove { dst: Operand, src: Operand, size: Operand },
    Memset { dst: Operand, value: Operand, size: Operand },
    Memcmp { a: Operand, b: Operand, size: Operand },
    StackAlloc { dst: Operand, size: Operand },
    StackFree { ptr: Operand },
    // processes
    ProcSpawn { dst: Operand, function: Operand, args: Operand },
    ProcSelf { dst: Operand },
    ProcExit { reason: Operand },
    ProcKill { pid: Operand, reason: Operand },
    ProcState { dst: Operand, pid: Operand },
    ProcYield,
    ProcSleep { duration: Operand },
    ProcAlive { dst: Operand, pid: Operand },
    ProcLink { pid: Operand },
    ProcUnlink { pid: Operand },
    ProcMonitor { pid: Operand },
    ProcDemonitor { pid: Operand },
    // scheduler
    SchedYield,
    SchedWake { pid: Operand },
    SchedWait { event: Operand },
    SchedId { dst: Operand },
    SchedCount { dst: Operand },
    SchedMigrate { pid: Operand, scheduler: Operand },
    // mailbox
    MailSend { pid: Operand, message: Operand },
    MailRecv { dst: Operand },
    MailTryRecv { dst: Operand },
    MailPeek { dst: Operand },
    MailLen { dst: Operand },
    MailClear,
    // async
    Await { operation: Operand },
    Async { dst: Operand, function: Operand, args: Operand },
    Resume { process: Operand },
    Suspend { process: Operand },
    // process lifecycle
    ProcessDrop { pid: Operand },
    ProcessReset { pid: Operand },
    ProcessFail { reason: Operand },
    ProcessTrap { handler: Operand },
    // JIT and calls
    Jit { function: Operand },
    HiveCall { function: Operand, args: Operand },
    CallWorker { worker: Operand, args: Operand },
    NativeCall { function: Operand, args: Operand },
    NativeReturn { value: Operand },
    Recall,
    Ret { ptr: Operand },
}

/// An instruction operand.
#[derive(Debug, Clone)]
pub enum Operand {
    Register(Register),
    Immediate(i64),
    Memory(MemoryOperand),
    Variable(u32),
    FrameOffset(i32),
}

/// A general purpose x86-64 register.
#[derive(Debug, Clone, Copy, PartialEq, Eq, Structural)]
pub enum Register {
    Rax,
    Rbx,
    Rcx,
    Rdx,
    Rsi,
    Rdi,
    Rbp,
    Rsp,
    R8,
    R9,
    R10,
    R11,
    R12,
    R13,
    R14,
    R15,
}

/// A memory operand `[base + index * scale + displacement]`.
#[derive(Debug, Clone)]
pub struct MemoryOperand {
    pub base: Option<Register>,
    pub index: Option<Register>,
    pub scale: u8,
    pub displacement: i32,
}

/// A frame variable.
#[derive(Debug, Clone)]
pub struct Variable {
    pub id: u32,
}

/// A reference into the type table.
#[derive(Debug, Clone, Copy)]
pub struct Type {
    pub id: u32,
}

/// The amount of a shift or rotate instruction.
#[derive(Debug, Clone)]
pub enum ShiftAmount {
    Immediate(u8),
    Cl,
}

} // verus!
