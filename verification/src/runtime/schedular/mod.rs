//! Scheduling of processes: their stacks, contexts, requests and states.
pub mod api;
pub mod context;
pub mod request_handler;
pub mod stack;

use std::collections::VecDeque;

use vstd::prelude::*;

use crate::runtime::schedular::api::{ProcessRequest, ProcessRequestTag};
use crate::runtime::schedular::context::{zero_context, HiveContext};
use crate::runtime::schedular::stack::{first_at, first_fit, lemma_first_fit_from, split_at, FrameState, Stack, StackRegion};

verus! {

/// A process identifier.
pub type Pid = u32;

/// A process's saved registers and its latest request.
pub struct Process {
    pub context: HiveContext,
    pub request: ProcessRequest,
}

/// What a process waits for, if anything.
#[derive(Debug, Clone, Copy, PartialEq, Eq, Structural)]
pub enum ProcessState {
    Running,
    /// Waits for a message, to be stored at address `dst`.
    WaitingRecv { dst: u64 },
    /// Waits for the file descriptor `fd`.
    WaitingFD { fd: i32 },
    /// Sleeps until the time `end`, in microseconds since the Unix epoch.
    Sleep { end: i64 },
}

/// The scheduler's record of one process.
pub struct ProcessRegistryEntry {
    pub pid: Pid,
    /// The frames of the process's calls, innermost last.
    pub stack_frames: Vec<StackRegion>,
    pub process: Box<Process>,
    pub state: ProcessState,
    pub mailbox: VecDeque<u64>,
}

/// What the scheduler does with a process on its turn.
#[derive(Debug, Clone, Copy, PartialEq, Eq, Structural)]
pub enum PollAction {
    /// Leave the process for now.
    Skip,
    /// Switch to the process.
    Run,
    /// Store the message `msg` at address `dst`, then switch to the process.
    Deliver { dst: u64, msg: u64 },
}

/// The outcome of a process's turn at time `now`: a waiting receiver with
/// mail takes the first message and runs, a sleeper whose time has come runs,
/// a running process runs, and the others are left.
pub open spec fn spec_poll(state: ProcessState, mailbox: Seq<u64>, now: i64) -> (ProcessState, Seq<u64>, PollAction) {
    match state {
        ProcessState::Running => (state, mailbox, PollAction::Run),
        ProcessState::WaitingRecv { dst } => if mailbox.len() == 0 {
            (state, mailbox, PollAction::Skip)
        } else {
            (ProcessState::Running, mailbox.drop_first(), PollAction::Deliver { dst, msg: mailbox[0] })
        },
        ProcessState::Sleep { end } => if now >= end {
            (ProcessState::Running, mailbox, PollAction::Run)
        } else {
            (state, mailbox, PollAction::Skip)
        },
        ProcessState::WaitingFD { .. } => (state, mailbox, PollAction::Skip),
    }
}

impl ProcessRegistryEntry {
    /// Decides this process's turn at time `now` (microseconds since the Unix
    /// epoch). Waiting for a file descriptor is not supported.
    pub fn poll(&mut self, now: i64) -> (action: PollAction)
        requires
            !(old(self).state is WaitingFD),
        ensures
            (final(self).state, final(self).mailbox@, action) == spec_poll(old(self).state, old(self).mailbox@, now),
            final(self).pid == old(self).pid,
            final(self).stack_frames@ == old(self).stack_frames@,
            final(self).process == old(self).process,
    {
        match self.state {
            ProcessState::Running => PollAction::Run,
            ProcessState::WaitingRecv { dst } => {
                match self.mailbox.pop_front() {
                    Some(msg) => {
                        self.state = ProcessState::Running;
                        PollAction::Deliver { dst, msg }
                    },
                    None => PollAction::Skip,
                }
            },
            ProcessState::Sleep { end } => {
                if now >= end {
                    self.state = ProcessState::Running;
                    PollAction::Run
                } else {
                    PollAction::Skip
                }
            },
            ProcessState::WaitingFD { .. } => PollAction::Skip,
        }
    }
}

/// A scheduler: its processes, its own saved context, the stack memory its
/// processes run on, and the shared runtime state `M`.
pub struct Schedular<M> {
    pub process_registry: Vec<ProcessRegistryEntry>,
    pub context: HiveContext,
    pub stack: Stack,
    pub manager: M,
}

impl<M> Schedular<M> {
    /// A scheduler without processes whose stack is the `stack_size` bytes at
    /// `stack_start`.
    pub fn new(manager: M, stack_start: usize, stack_size: usize) -> (s: Self)
        requires
            stack_size > 0,
            stack_start + stack_size <= usize::MAX,
        ensures
            s.process_registry@.len() == 0,
            s.context == zero_context(),
            s.stack.wf(),
            s.stack.start == stack_start,
            s.stack.size == stack_size,
            s.stack.frames@ == seq![
                StackRegion { start: stack_start, end: (stack_start + stack_size) as usize, state: FrameState::Free },
            ],
            s.manager == manager,
    {
        Schedular {
            process_registry: Vec::with_capacity(100),
            context: HiveContext::default(),
            stack: Stack::new(stack_start, stack_size),
            manager,
        }
    }

    /// Starts a process `pid` whose code starts at `code_addr` and whose frame
    /// has `frame_size` bytes: its context starts at the code, with `rbx` 5 and
    /// `r12` 12 and the stack pointer set up in a new frame; it is running,
    /// with an empty mailbox and no call frames, and its request is a yield.
    /// Returns the stack pointer, where the caller stores the three words the
    /// code expects. The stack must have room.
    pub fn new_process(&mut self, pid: u32, code_addr: u64, frame_size: u32) -> (rsp: usize)
        requires
            old(self).stack.wf(),
            first_fit(old(self).stack.frames@, frame_size as int) is Some,
            old(self).stack.frames@[first_fit(old(self).stack.frames@, frame_size as int)->Some_0].start
                + frame_size >= 24,
        ensures
            final(self).stack.wf(),
            final(self).stack.frames@ == split_at(
                old(self).stack.frames@,
                first_fit(old(self).stack.frames@, frame_size as int)->Some_0,
                pid,
                frame_size as int,
            ),
            final(self).context == old(self).context,
            final(self).manager == old(self).manager,
            final(self).process_registry@.len() == old(self).process_registry@.len() + 1,
            forall|k: int|
                0 <= k < old(self).process_registry@.len() ==> final(self).process_registry@[k]
                    == old(self).process_registry@[k],
            ({
                let e = final(self).process_registry@.last();
                &&& e.pid == pid
                &&& e.stack_frames@.len() == 0
                &&& e.state == ProcessState::Running
                &&& e.mailbox@.len() == 0
                &&& e.process.request.request == ProcessRequestTag::SchedYield
                &&& e.process.request.params@ == Seq::new(24, |i: int| 0u8)
                &&& e.process.context == (HiveContext { rip: code_addr, rbx: 5, r12: 12, rsp: rsp as u64, ..zero_context() })
            }),
            rsp % 16 == 0,
            ({
                let i = first_fit(old(self).stack.frames@, frame_size as int)->Some_0;
                let f = old(self).stack.frames@[i];
                &&& final(self).stack.frames@[i] == (StackRegion {
                    start: f.start,
                    end: (f.start + frame_size) as usize,
                    state: FrameState::Used(pid),
                })
                &&& f.start + frame_size - 39 <= rsp <= f.start + frame_size - 24
                &&& rsp + 24 <= final(self).stack.frames@[i].end
            }),
    {
        proof {
            lemma_first_fit_from(self.stack.frames@, frame_size as int, 0);
        }
        let mut context = HiveContext::default();
        context.rip = code_addr;
        context.rbx = 5;
        context.r12 = 12;
        let rsp = self.stack.new_proc_stack(pid, frame_size as usize, &mut context);
        let process = Process {
            context,
            request: ProcessRequest { request: ProcessRequestTag::SchedYield, params: [0u8; 24] },
        };
        let entry = ProcessRegistryEntry {
            pid,
            stack_frames: Vec::new(),
            process: Box::new(process),
            state: ProcessState::Running,
            mailbox: VecDeque::new(),
        };
        self.process_registry.push(entry);
        rsp
    }

    /// Gives the process at position `pid` of the registry a new call frame of
    /// `frame_size` bytes. The stack must have room.
    pub fn call_function(&mut self, pid: Pid, function_id: u32, args: u64, frame_size: usize)
        requires
            old(self).stack.wf(),
            first_fit(old(self).stack.frames@, frame_size as int) is Some,
            pid < old(self).process_registry@.len(),
        ensures
            final(self).stack.wf(),
            ({
                let i = first_fit(old(self).stack.frames@, frame_size as int)->Some_0;
                let f = old(self).stack.frames@[i];
                &&& final(self).stack.frames@ == split_at(old(self).stack.frames@, i, pid, frame_size as int)
                &&& final(self).process_registry@.len() == old(self).process_registry@.len()
                &&& forall|k: int|
                    0 <= k < old(self).process_registry@.len() && k != pid ==> final(self).process_registry@[k]
                        == old(self).process_registry@[k]
                &&& final(self).process_registry@[pid as int].stack_frames@ == old(self).process_registry@[pid as int].stack_frames@.push(
                    StackRegion { start: f.start, end: (f.start + frame_size) as usize, state: FrameState::Used(pid) },
                )
                &&& final(self).process_registry@[pid as int].pid == old(self).process_registry@[pid as int].pid
                &&& final(self).process_registry@[pid as int].state == old(self).process_registry@[pid as int].state
                &&& final(self).process_registry@[pid as int].mailbox@ == old(self).process_registry@[pid as int].mailbox@
                &&& final(self).process_registry@[pid as int].process == old(self).process_registry@[pid as int].process
            }),
            final(self).context == old(self).context,
            final(self).manager == old(self).manager,
    {
        let frame = self.stack.allocate(pid, frame_size);
        match frame {
            Some(frame) => {
                let mut entry = self.process_registry.remove(pid as usize);
                entry.stack_frames.push(frame);
                self.process_registry.insert(pid as usize, entry);
                proof {
                    assert(self.process_registry@ =~= old(self).process_registry@.update(pid as int, entry));
                }
            },
            None => {
                proof {
                    assert(false);
                }
            },
        }
    }

    /// Ends the innermost call of the process at position `pid` of the
    /// registry: its last frame is removed and freed on the stack. The process
    /// must have a frame, and the stack must know it.
    pub fn return_function(&mut self, pid: Pid)
        requires
            old(self).stack.wf(),
            pid < old(self).process_registry@.len(),
            old(self).process_registry@[pid as int].stack_frames@.len() > 0,
            first_at(
                old(self).stack.frames@,
                old(self).process_registry@[pid as int].stack_frames@.last().start as int,
            ) is Some,
        ensures
            final(self).stack.wf(),
            ({
                let e = old(self).process_registry@[pid as int];
                let fs = old(self).stack.frames@;
                let j = first_at(fs, e.stack_frames@.last().start as int)->Some_0;
                &&& final(self).stack.frames@ == fs.update(j, StackRegion { start: fs[j].start, end: fs[j].end, state: FrameState::Free })
                &&& final(self).process_registry@.len() == old(self).process_registry@.len()
                &&& forall|k: int|
                    0 <= k < old(self).process_registry@.len() && k != pid ==> final(self).process_registry@[k]
                        == old(self).process_registry@[k]
                &&& final(self).process_registry@[pid as int].stack_frames@ == e.stack_frames@.drop_last()
                &&& final(self).process_registry@[pid as int].pid == e.pid
                &&& final(self).process_registry@[pid as int].state == e.state
                &&& final(self).process_registry@[pid as int].mailbox@ == e.mailbox@
                &&& final(self).process_registry@[pid as int].process == e.process
            }),
            final(self).context == old(self).context,
            final(self).manager == old(self).manager,
    {
        let mut entry = self.process_registry.remove(pid as usize);
        let frame = entry.stack_frames.pop();
        self.process_registry.insert(pid as usize, entry);
        proof {
            assert(self.process_registry@ =~= old(self).process_registry@.update(pid as int, entry));
        }
        match frame {
            Some(frame) => {
                self.stack.free(frame.start);
            },
            None => {
                proof {
                    assert(false);
                }
            },
        }
    }
}

} // verus!
