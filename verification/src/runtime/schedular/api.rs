//! The requests a process hands to the scheduler: a tag byte and 24 bytes of
//! parameters, laid out as the translated code writes them.
use vstd::prelude::*;
use vstd::bytes::{spec_u32_from_le_bytes, spec_u64_from_le_bytes, u32_from_le_bytes, u64_from_le_bytes};
use vstd::slice::slice_subrange;

use crate::jit::opcode::Opcode;
use crate::jit::parser::sp_hive;
use crate::jit::x86_64::translate_opcode::sched_request;

verus! {

/// What a process asks the scheduler for.
#[derive(Debug, Clone, Copy, PartialEq, Eq, Structural)]
pub enum ProcessRequestTag {
    Syscall,
    Recall,
    CallWorker,
    Call,
    MailClear,
    MailLen,
    MailPeek,
    MailTryRecv,
    MailRec,
    MailSend,
    SchedMigrate,
    SchedCount,
    SchedId,
    SchedWait,
    SchedWake,
    SchedYield,
    ProcDemonitor,
    ProcMonitor,
    ProcUnlink,
    ProcLink,
    ProcAlive,
    ProcSleep,
    ProcYield,
    ProcState,
    ProcKill,
    ProcExit,
    ProcSelf,
    ProcSpawn,
    StackFree,
    StackAlloc,
    MemCmp,
    MemSet,
    MemMove,
    MemCpy,
    Free,
    ReAlloc,
    CAlloc,
    MAlloc,
    FrameFree,
    FrameAlloc,
    Frame,
    Ret,
}

/// The byte that stands for each request.
pub open spec fn tag_code(t: ProcessRequestTag) -> u8 {
    match t {
        ProcessRequestTag::Syscall => 0x76,
        ProcessRequestTag::Recall => 0x75,
        ProcessRequestTag::CallWorker => 0x72,
        ProcessRequestTag::Call => 0x71,
        ProcessRequestTag::MailClear => 0x45,
        ProcessRequestTag::MailLen => 0x44,
        ProcessRequestTag::MailPeek => 0x43,
        ProcessRequestTag::MailTryRecv => 0x42,
        ProcessRequestTag::MailRec => 0x41,
        ProcessRequestTag::MailSend => 0x40,
        ProcessRequestTag::SchedMigrate => 0x35,
        ProcessRequestTag::SchedCount => 0x34,
        ProcessRequestTag::SchedId => 0x33,
        ProcessRequestTag::SchedWait => 0x32,
        ProcessRequestTag::SchedWake => 0x31,
        ProcessRequestTag::SchedYield => 0x30,
        ProcessRequestTag::ProcDemonitor => 0x2b,
        ProcessRequestTag::ProcMonitor => 0x2a,
        ProcessRequestTag::ProcUnlink => 0x29,
        ProcessRequestTag::ProcLink => 0x28,
        ProcessRequestTag::ProcAlive => 0x27,
        ProcessRequestTag::ProcSleep => 0x26,
        ProcessRequestTag::ProcYield => 0x25,
        ProcessRequestTag::ProcState => 0x24,
        ProcessRequestTag::ProcKill => 0x23,
        ProcessRequestTag::ProcExit => 0x22,
        ProcessRequestTag::ProcSelf => 0x21,
        ProcessRequestTag::ProcSpawn => 0x20,
        ProcessRequestTag::StackFree => 0x19,
        ProcessRequestTag::StackAlloc => 0x18,
        ProcessRequestTag::MemCmp => 0x17,
        ProcessRequestTag::MemSet => 0x16,
        ProcessRequestTag::MemMove => 0x15,
        ProcessRequestTag::MemCpy => 0x14,
        ProcessRequestTag::Free => 0x13,
        ProcessRequestTag::ReAlloc => 0x12,
        ProcessRequestTag::CAlloc => 0x11,
        ProcessRequestTag::MAlloc => 0x10,
        ProcessRequestTag::FrameFree => 0x05,
        ProcessRequestTag::FrameAlloc => 0x04,
        ProcessRequestTag::Frame => 0x03,
        ProcessRequestTag::Ret => 0x77,
    }
}

/// The request a byte stands for, if any.
pub open spec fn tag_of_code(b: u8) -> Option<ProcessRequestTag> {
    if b == 0x76 {
        Some(ProcessRequestTag::Syscall)
    }
    else if b == 0x75 {
        Some(ProcessRequestTag::Recall)
    }
    else if b == 0x72 {
        Some(ProcessRequestTag::CallWorker)
    }
    else if b == 0x71 {
        Some(ProcessRequestTag::Call)
    }
    else if b == 0x45 {
        Some(ProcessRequestTag::MailClear)
    }
    else if b == 0x44 {
        Some(ProcessRequestTag::MailLen)
    }
    else if b == 0x43 {
        Some(ProcessRequestTag::MailPeek)
    }
    else if b == 0x42 {
        Some(ProcessRequestTag::MailTryRecv)
    }
    else if b == 0x41 {
        Some(ProcessRequestTag::MailRec)
    }
    else if b == 0x40 {
        Some(ProcessRequestTag::MailSend)
    }
    else if b == 0x35 {
        Some(ProcessRequestTag::SchedMigrate)
    }
    else if b == 0x34 {
        Some(ProcessRequestTag::SchedCount)
    }
    else if b == 0x33 {
        Some(ProcessRequestTag::SchedId)
    }
    else if b == 0x32 {
        Some(ProcessRequestTag::SchedWait)
    }
    else if b == 0x31 {
        Some(ProcessRequestTag::SchedWake)
    }
    else if b == 0x30 {
        Some(ProcessRequestTag::SchedYield)
    }
    else if b == 0x2b {
        Some(ProcessRequestTag::ProcDemonitor)
    }
    else if b == 0x2a {
        Some(ProcessRequestTag::ProcMonitor)
    }
    else if b == 0x29 {
        Some(ProcessRequestTag::ProcUnlink)
    }
    else if b == 0x28 {
        Some(ProcessRequestTag::ProcLink)
    }
    else if b == 0x27 {
        Some(ProcessRequestTag::ProcAlive)
    }
    else if b == 0x26 {
        Some(ProcessRequestTag::ProcSleep)
    }
    else if b == 0x25 {
        Some(ProcessRequestTag::ProcYield)
    }
    else if b == 0x24 {
        Some(ProcessRequestTag::ProcState)
    }
    else if b == 0x23 {
        Some(ProcessRequestTag::ProcKill)
    }
    else if b == 0x22 {
        Some(ProcessRequestTag::ProcExit)
    }
    else if b == 0x21 {
        Some(ProcessRequestTag::ProcSelf)
    }
    else if b == 0x20 {
        Some(ProcessRequestTag::ProcSpawn)
    }
    else if b == 0x19 {
        Some(ProcessRequestTag::StackFree)
    }
    else if b == 0x18 {
        Some(ProcessRequestTag::StackAlloc)
    }
    else if b == 0x17 {
        Some(ProcessRequestTag::MemCmp)
    }
    else if b == 0x16 {
        Some(ProcessRequestTag::MemSet)
    }
    else if b == 0x15 {
        Some(ProcessRequestTag::MemMove)
    }
    else if b == 0x14 {
        Some(ProcessRequestTag::MemCpy)
    }
    else if b == 0x13 {
        Some(ProcessRequestTag::Free)
    }
    else if b == 0x12 {
        Some(ProcessRequestTag::ReAlloc)
    }
    else if b == 0x11 {
        Some(ProcessRequestTag::CAlloc)
    }
    else if b == 0x10 {
        Some(ProcessRequestTag::MAlloc)
    }
    else if b == 0x05 {
        Some(ProcessRequestTag::FrameFree)
    }
    else if b == 0x04 {
        Some(ProcessRequestTag::FrameAlloc)
    }
    else if b == 0x03 {
        Some(ProcessRequestTag::Frame)
    }
    else if b == 0x77 {
        Some(ProcessRequestTag::Ret)
    }
    else {
        None
    }
}

impl ProcessRequestTag {
    /// The byte that stands for this request.
    pub fn code(&self) -> (b: u8)
        ensures
            b == tag_code(*self),
    {
        match self {
            ProcessRequestTag::Syscall => 0x76,
            ProcessRequestTag::Recall => 0x75,
            ProcessRequestTag::CallWorker => 0x72,
            ProcessRequestTag::Call => 0x71,
            ProcessRequestTag::MailClear => 0x45,
            ProcessRequestTag::MailLen => 0x44,
            ProcessRequestTag::MailPeek => 0x43,
            ProcessRequestTag::MailTryRecv => 0x42,
            ProcessRequestTag::MailRec => 0x41,
            ProcessRequestTag::MailSend => 0x40,
            ProcessRequestTag::SchedMigrate => 0x35,
            ProcessRequestTag::SchedCount => 0x34,
            ProcessRequestTag::SchedId => 0x33,
            ProcessRequestTag::SchedWait => 0x32,
            ProcessRequestTag::SchedWake => 0x31,
            ProcessRequestTag::SchedYield => 0x30,
            ProcessRequestTag::ProcDemonitor => 0x2b,
            ProcessRequestTag::ProcMonitor => 0x2a,
            ProcessRequestTag::ProcUnlink => 0x29,
            ProcessRequestTag::ProcLink => 0x28,
            ProcessRequestTag::ProcAlive => 0x27,
            ProcessRequestTag::ProcSleep => 0x26,
            ProcessRequestTag::ProcYield => 0x25,
            ProcessRequestTag::ProcState => 0x24,
            ProcessRequestTag::ProcKill => 0x23,
            ProcessRequestTag::ProcExit => 0x22,
            ProcessRequestTag::ProcSelf => 0x21,
            ProcessRequestTag::ProcSpawn => 0x20,
            ProcessRequestTag::StackFree => 0x19,
            ProcessRequestTag::StackAlloc => 0x18,
            ProcessRequestTag::MemCmp => 0x17,
            ProcessRequestTag::MemSet => 0x16,
            ProcessRequestTag::MemMove => 0x15,
            ProcessRequestTag::MemCpy => 0x14,
            ProcessRequestTag::Free => 0x13,
            ProcessRequestTag::ReAlloc => 0x12,
            ProcessRequestTag::CAlloc => 0x11,
            ProcessRequestTag::MAlloc => 0x10,
            ProcessRequestTag::FrameFree => 0x05,
            ProcessRequestTag::FrameAlloc => 0x04,
            ProcessRequestTag::Frame => 0x03,
            ProcessRequestTag::Ret => 0x77,
        }
    }

    /// The request a byte stands for, if any.
    pub fn from_code(b: u8) -> (t: Option<ProcessRequestTag>)
        ensures
            t == tag_of_code(b),
    {
        if b == 0x76 {
            Some(ProcessRequestTag::Syscall)
        }
        else if b == 0x75 {
            Some(ProcessRequestTag::Recall)
        }
        else if b == 0x72 {
            Some(ProcessRequestTag::CallWorker)
        }
        else if b == 0x71 {
            Some(ProcessRequestTag::Call)
        }
        else if b == 0x45 {
            Some(ProcessRequestTag::MailClear)
        }
        else if b == 0x44 {
            Some(ProcessRequestTag::MailLen)
        }
        else if b == 0x43 {
            Some(ProcessRequestTag::MailPeek)
        }
        else if b == 0x42 {
            Some(ProcessRequestTag::MailTryRecv)
        }
        else if b == 0x41 {
            Some(ProcessRequestTag::MailRec)
        }
        else if b == 0x40 {
            Some(ProcessRequestTag::MailSend)
        }
        else if b == 0x35 {
            Some(ProcessRequestTag::SchedMigrate)
        }
        else if b == 0x34 {
            Some(ProcessRequestTag::SchedCount)
        }
        else if b == 0x33 {
            Some(ProcessRequestTag::SchedId)
        }
        else if b == 0x32 {
            Some(ProcessRequestTag::SchedWait)
        }
        else if b == 0x31 {
            Some(ProcessRequestTag::SchedWake)
        }
        else if b == 0x30 {
            Some(ProcessRequestTag::SchedYield)
        }
        else if b == 0x2b {
            Some(ProcessRequestTag::ProcDemonitor)
        }
        else if b == 0x2a {
            Some(ProcessRequestTag::ProcMonitor)
        }
        else if b == 0x29 {
            Some(ProcessRequestTag::ProcUnlink)
        }
        else if b == 0x28 {
            Some(ProcessRequestTag::ProcLink)
        }
        else if b == 0x27 {
            Some(ProcessRequestTag::ProcAlive)
        }
        else if b == 0x26 {
            Some(ProcessRequestTag::ProcSleep)
        }
        else if b == 0x25 {
            Some(ProcessRequestTag::ProcYield)
        }
        else if b == 0x24 {
            Some(ProcessRequestTag::ProcState)
        }
        else if b == 0x23 {
            Some(ProcessRequestTag::ProcKill)
        }
        else if b == 0x22 {
            Some(ProcessRequestTag::ProcExit)
        }
        else if b == 0x21 {
            Some(ProcessRequestTag::ProcSelf)
        }
        else if b == 0x20 {
            Some(ProcessRequestTag::ProcSpawn)
        }
        else if b == 0x19 {
            Some(ProcessRequestTag::StackFree)
        }
        else if b == 0x18 {
            Some(ProcessRequestTag::StackAlloc)
        }
        else if b == 0x17 {
            Some(ProcessRequestTag::MemCmp)
        }
        else if b == 0x16 {
            Some(ProcessRequestTag::MemSet)
        }
        else if b == 0x15 {
            Some(ProcessRequestTag::MemMove)
        }
        else if b == 0x14 {
            Some(ProcessRequestTag::MemCpy)
        }
        else if b == 0x13 {
            Some(ProcessRequestTag::Free)
        }
        else if b == 0x12 {
            Some(ProcessRequestTag::ReAlloc)
        }
        else if b == 0x11 {
            Some(ProcessRequestTag::CAlloc)
        }
        else if b == 0x10 {
            Some(ProcessRequestTag::MAlloc)
        }
        else if b == 0x05 {
            Some(ProcessRequestTag::FrameFree)
        }
        else if b == 0x04 {
            Some(ProcessRequestTag::FrameAlloc)
        }
        else if b == 0x03 {
            Some(ProcessRequestTag::Frame)
        }
        else if b == 0x77 {
            Some(ProcessRequestTag::Ret)
        }
        else {
            None
        }
    }
}

/// Every request is read back from its byte.
pub proof fn lemma_tag_code_roundtrip(t: ProcessRequestTag)
    ensures
        tag_of_code(tag_code(t)) == Some(t),
{
}

/// The request an instruction that hands control to the scheduler makes.
pub open spec fn request_of(op: Opcode) -> Option<ProcessRequestTag> {
    match op {
        Opcode::Syscall => Some(ProcessRequestTag::Syscall),
        Opcode::FrameFree => Some(ProcessRequestTag::FrameFree),
        Opcode::Malloc { .. } => Some(ProcessRequestTag::MAlloc),
        Opcode::Calloc { .. } => Some(ProcessRequestTag::CAlloc),
        Opcode::Realloc { .. } => Some(ProcessRequestTag::ReAlloc),
        Opcode::Free { .. } => Some(ProcessRequestTag::Free),
        Opcode::Memcpy { .. } => Some(ProcessRequestTag::MemCpy),
        Opcode::Memmove { .. } => Some(ProcessRequestTag::MemMove),
        Opcode::Memset { .. } => Some(ProcessRequestTag::MemSet),
        Opcode::Memcmp { .. } => Some(ProcessRequestTag::MemCmp),
        Opcode::ProcSpawn { .. } => Some(ProcessRequestTag::ProcSpawn),
        Opcode::ProcSelf { .. } => Some(ProcessRequestTag::ProcSelf),
        Opcode::ProcExit { .. } => Some(ProcessRequestTag::ProcExit),
        Opcode::ProcKill { .. } => Some(ProcessRequestTag::ProcKill),
        Opcode::ProcState { .. } => Some(ProcessRequestTag::ProcState),
        Opcode::ProcYield => Some(ProcessRequestTag::ProcYield),
        Opcode::ProcSleep { .. } => Some(ProcessRequestTag::ProcSleep),
        Opcode::ProcAlive { .. } => Some(ProcessRequestTag::ProcAlive),
        Opcode::ProcLink { .. } => Some(ProcessRequestTag::ProcLink),
        Opcode::ProcUnlink { .. } => Some(ProcessRequestTag::ProcUnlink),
        Opcode::ProcMonitor { .. } => Some(ProcessRequestTag::ProcMonitor),
        Opcode::ProcDemonitor { .. } => Some(ProcessRequestTag::ProcDemonitor),
        Opcode::SchedYield => Some(ProcessRequestTag::SchedYield),
        Opcode::MailClear => Some(ProcessRequestTag::MailClear),
        Opcode::Ret { .. } => Some(ProcessRequestTag::Ret),
        _ => None,
    }
}

/// The scheduler reads the request the translated code writes: the byte the
/// translator stores for an instruction is the byte of that instruction's
/// request, and only those instructions write one.
pub proof fn lemma_translated_requests_are_read_back(op: Opcode)
    ensures
        sched_request(op) is Some <==> request_of(op) is Some,
        sched_request(op) matches Some((c, _)) ==> tag_of_code(c) == request_of(op) && tag_code(
            request_of(op)->Some_0,
        ) == c,
{
}

/// The request byte the translated code writes for a runtime instruction is
/// the byte that names the instruction after `F0` in the bytecode.
pub proof fn lemma_request_byte_is_instruction_byte(s: Seq<u8>, q: int)
    requires
        0 <= q,
        sp_hive(s, q) is Ok,
    ensures
        sched_request(sp_hive(s, q)->Ok_0.0) matches Some((c, _)) ==> c == s[q],
{
}

/// A request as the process leaves it for the scheduler.
#[derive(Debug, Clone, Copy)]
pub struct ProcessRequest {
    pub request: ProcessRequestTag,
    pub params: [u8; 24],
}

/// The little-endian `u32` at byte `p` of the parameters.
pub open spec fn param_u32(params: Seq<u8>, p: int) -> u32 {
    spec_u32_from_le_bytes(params.subrange(p, p + 4))
}

/// The little-endian `u64` at byte `p` of the parameters.
pub open spec fn param_u64(params: Seq<u8>, p: int) -> u64 {
    spec_u64_from_le_bytes(params.subrange(p, p + 8))
}

/// Reads the little-endian `u32` at byte `p` of the parameters.
pub fn read_param_u32(params: &[u8; 24], p: usize) -> (v: u32)
    requires
        p + 4 <= 24,
    ensures
        v == param_u32(params@, p as int),
{
    u32_from_le_bytes(slice_subrange(params.as_slice(), p, p + 4))
}

/// Reads the little-endian `u64` at byte `p` of the parameters.
pub fn read_param_u64(params: &[u8; 24], p: usize) -> (v: u64)
    requires
        p + 8 <= 24,
    ensures
        v == param_u64(params@, p as int),
{
    u64_from_le_bytes(slice_subrange(params.as_slice(), p, p + 8))
}

/// Parameters of a frame request.
#[derive(Debug, Clone, Copy, PartialEq, Eq)]
pub struct FrameParam {
    pub size: u32,
    pub alignment: u32,
}

/// Parameters of an allocation: where to store the address, and the size.
#[derive(Debug, Clone, Copy, PartialEq, Eq)]
pub struct AllocParam {
    pub dst: u64,
    pub size: u64,
}

/// Parameters of a zeroed allocation of `count` items of `size` bytes.
#[derive(Debug, Clone, Copy, PartialEq, Eq)]
pub struct CallocParam {
    pub dst: u64,
    pub count: u64,
    pub size: u64,
}

/// Parameters of a reallocation of `ptr` to `size` bytes.
#[derive(Debug, Clone, Copy, PartialEq, Eq)]
pub struct ReallocParam {
    pub dst: u64,
    pub ptr: u64,
    pub size: u64,
}

/// Parameters of a memory copy or move, or a comparison.
#[derive(Debug, Clone, Copy, PartialEq, Eq)]
pub struct MemRegionParam {
    pub dst: u64,
    pub src: u64,
    pub size: u64,
}

/// Parameters of a memory fill.
#[derive(Debug, Clone, Copy, PartialEq, Eq)]
pub struct MemsetParam {
    pub dst: u64,
    pub value: u8,
    pub size: u64,
}

/// Parameters of a process spawn: where to store the pid, the function and its arguments.
#[derive(Debug, Clone, Copy, PartialEq, Eq)]
pub struct ProcSpawnParam {
    pub dst: u64,
    pub function: u32,
    pub args: u64,
}

/// Parameters of a process kill.
#[derive(Debug, Clone, Copy, PartialEq, Eq)]
pub struct ProcKillParam {
    pub pid: u32,
    pub reason: u32,
}

/// Parameters of a question about a process: where to store the answer, and the pid.
#[derive(Debug, Clone, Copy, PartialEq, Eq)]
pub struct ProcPidParam {
    pub dst: u64,
    pub pid: u32,
}

/// Parameters of a migration to another scheduler.
#[derive(Debug, Clone, Copy, PartialEq, Eq)]
pub struct SchedMigrateParam {
    pub pid: u32,
    pub scheduler: u32,
}

/// Parameters of a message send: the receiver and the message's length and address.
#[derive(Debug, Clone, Copy, PartialEq, Eq)]
pub struct MailSendParam {
    pub pid: u32,
    pub message: (u64, u64),
}

/// Parameters of an asynchronous call.
#[derive(Debug, Clone, Copy, PartialEq, Eq)]
pub struct AsyncParam {
    pub dst: u32,
    pub function: u32,
    pub args: u64,
}

/// Parameters of a call: the function and the address of its arguments.
#[derive(Debug, Clone, Copy, PartialEq, Eq)]
pub struct CallParam {
    pub function: u32,
    pub args: u64,
}

} // verus!
