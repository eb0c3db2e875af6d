use std::collections::VecDeque;
use std::sync::Arc;

use hivehq::error::HiveError;
use hivehq::parser::load_file::LoadedFile;
use hivehq::runtime::load_exec::{ExecPageManager, FunctionId, LoadPlan, LoadedFunc, PAGE_SIZE};
use hivehq::runtime::manager::{Manager, PidSlot};
use hivehq::runtime::schedular::api::{ProcessRequest, ProcessRequestTag};
use hivehq::runtime::schedular::context::HiveContext;
use hivehq::runtime::schedular::request_handler::{handle_request, is_handled, RequestAction};
use hivehq::runtime::schedular::stack::{FrameState, Stack, StackRegion};
use hivehq::runtime::schedular::{PollAction, Process, ProcessRegistryEntry, ProcessState, Schedular};

fn region(start: usize, end: usize, state: FrameState) -> StackRegion {
    StackRegion { start, end, state }
}

#[test]
fn stack_starts_as_one_free_frame() {
    let s = Stack::new(0x1000, 256);
    assert_eq!(s.start, 0x1000);
    assert_eq!(s.end, 0x1100);
    assert_eq!(s.size, 256);
    assert_eq!(s.frames, vec![region(0x1000, 0x1100, FrameState::Free)]);
}

#[test]
fn stack_allocates_first_fit_and_splits() {
    let mut s = Stack::new(0x1000, 256);
    let a = s.allocate(1, 64).unwrap();
    assert_eq!(a, region(0x1000, 0x1040, FrameState::Used(1)));
    let b = s.allocate(2, 192).unwrap();
    assert_eq!(b, region(0x1040, 0x1100, FrameState::Used(2)));
    // Exactly filled: no free remainder follows.
    assert_eq!(s.frames, vec![a, b]);
    assert_eq!(s.allocate(3, 1), None);
    assert_eq!(s.frames, vec![a, b]);
}

#[test]
fn stack_free_and_compact_merge_neighbours() {
    let mut s = Stack::new(0, 300);
    let a = s.allocate(1, 100).unwrap();
    let b = s.allocate(2, 100).unwrap();
    s.free(a.start);
    s.free(b.start);
    assert_eq!(
        s.frames,
        vec![region(0, 100, FrameState::Free), region(100, 200, FrameState::Free), region(200, 300, FrameState::Free)]
    );
    s.compact();
    assert_eq!(s.frames, vec![region(0, 300, FrameState::Free)]);
}

#[test]
fn stack_compact_keeps_used_frames() {
    let mut s = Stack::new(0, 300);
    let a = s.allocate(1, 100).unwrap();
    let _b = s.allocate(2, 100).unwrap();
    s.free(a.start);
    s.compact();
    assert_eq!(
        s.frames,
        vec![region(0, 100, FrameState::Free), region(100, 200, FrameState::Used(2)), region(200, 300, FrameState::Free)]
    );
    // The first fit skips a free frame that is too small.
    let c = s.allocate(3, 150);
    assert_eq!(c, None);
    let d = s.allocate(3, 80).unwrap();
    assert_eq!(d, region(0, 80, FrameState::Used(3)));
}

#[test]
fn stack_allocate_free_compact_restores_frames() {
    let mut s = Stack::new(0x2000, 512);
    let _keep = s.allocate(1, 128).unwrap();
    let before = s.frames.clone();
    let r = s.allocate(2, 200).unwrap();
    s.free(r.start);
    s.compact();
    assert_eq!(s.frames, before);
}

#[test]
fn new_proc_stack_aligns_the_stack_pointer() {
    let mut s = Stack::new(0x1000, 0x100);
    let mut ctx = HiveContext::default();
    let rsp = s.new_proc_stack(4, 0x45, &mut ctx);
    // The frame is 0x1000..0x1045; 0x1045 - 24 = 0x102d, rounded down to 16.
    assert_eq!(rsp, 0x1020);
    assert_eq!(ctx.rsp, 0x1020);
    assert_eq!(ctx.rip, 0);
    assert_eq!(s.frames[0], region(0x1000, 0x1045, FrameState::Used(4)));
}

#[test]
fn exec_pages_plan_fills_then_new_pages() {
    let m = ExecPageManager::new(2);
    assert_eq!(m.functions, vec![None, None]);
    assert_eq!(m.plan_load(5000), Ok(LoadPlan::NewPages { pages: 2 }));
    assert_eq!(m.plan_load(PAGE_SIZE), Ok(LoadPlan::NewPages { pages: 1 }));
    assert_eq!(m.plan_load(PAGE_SIZE + 1), Ok(LoadPlan::NewPages { pages: 2 }));
    assert!(matches!(m.plan_load(0), Err(HiveError::EmptyFunction)));
}

#[test]
fn exec_pages_commit_records_pages_and_function() {
    let mut m = ExecPageManager::new(2);
    let (plan, f) = m.commit_load(FunctionId(1), 5000, 0x10000);
    assert_eq!(plan, LoadPlan::NewPages { pages: 2 });
    assert_eq!(f, LoadedFunc { id: FunctionId(1), ptr: 0x10000, len: 5000 });
    assert_eq!(f.ptr(), 0x10000);
    assert_eq!(f.len(), 5000);
    assert!(!f.is_empty());
    assert_eq!(f.id(), FunctionId(1));
    assert_eq!(m.pages.len(), 2);
    assert_eq!(m.pages[0].page.ptr, 0x10000);
    assert_eq!(m.pages[0].used, PAGE_SIZE);
    assert_eq!(m.pages[1].page.ptr, 0x10000 + PAGE_SIZE);
    assert_eq!(m.pages[1].used, 5000 - PAGE_SIZE);
    assert_eq!(m.pages[1].remaining(), 2 * PAGE_SIZE - 5000);
    assert!(m.func_exists(FunctionId(1)));
    assert!(!m.func_exists(FunctionId(0)));
    assert_eq!(m.get_func(FunctionId(1)), Ok(f));
    // The next function goes whole into the free room of the second page.
    assert_eq!(m.plan_load(100), Ok(LoadPlan::Fill { page: 1, offset: 5000 - PAGE_SIZE }));
    let (plan, g) = m.commit_load(FunctionId(0), 100, 0);
    assert_eq!(plan, LoadPlan::Fill { page: 1, offset: 5000 - PAGE_SIZE });
    assert_eq!(g.ptr, 0x10000 + 5000 + 0);
    assert_eq!(m.pages[1].used, 5000 - PAGE_SIZE + 100);
    assert_eq!(m.pages.len(), 2);
    // Code that fits no free room gets pages of its own, in one run.
    let (plan, h) = m.commit_load(FunctionId(0), PAGE_SIZE, 0x40000);
    assert_eq!(plan, LoadPlan::NewPages { pages: 1 });
    assert_eq!(h.ptr, 0x40000);
    assert_eq!(m.pages.len(), 3);
}

#[test]
fn exec_pages_record_functions_past_the_table() {
    let mut m = ExecPageManager::new(0);
    let (_, f) = m.commit_load(FunctionId(3), 1, 0x5000);
    assert_eq!(m.functions.len(), 4);
    assert!(m.func_exists(FunctionId(3)));
    assert!(!m.func_exists(FunctionId(2)));
    assert_eq!(m.get_func(FunctionId(3)), Ok(f));
    // Looking up a function past the table grows the table.
    assert_eq!(m.get_func(FunctionId(6)), Err(HiveError::FunctionNotLoaded(FunctionId(6))));
    assert_eq!(m.functions.len(), 7);
}

fn entry(pid: u32, tag: ProcessRequestTag, params: [u8; 24]) -> ProcessRegistryEntry {
    ProcessRegistryEntry {
        pid,
        stack_frames: Vec::new(),
        process: Box::new(Process {
            context: HiveContext::default(),
            request: ProcessRequest { request: tag, params },
        }),
        state: ProcessState::Running,
        mailbox: VecDeque::new(),
    }
}

#[test]
fn pids_are_allocated_lowest_first() {
    let mut m = Manager {
        exec_page_manager: ExecPageManager::new(0),
        pids: Vec::new(),
        loaded_file: LoadedFile::default(),
    };
    let p = Arc::new(entry(0, ProcessRequestTag::SchedYield, [0; 24]));
    assert_eq!(m.allocate_pid(p.clone()), Ok(0));
    assert_eq!(m.allocate_pid(p.clone()), Ok(1));
    m.pids[0] = PidSlot::Unused;
    assert_eq!(m.allocate_pid(p.clone()), Ok(0));
    assert_eq!(m.allocate_pid(p), Ok(2));
    assert_eq!(m.pids.len(), 3);
}

fn schedular_with(entries: Vec<ProcessRegistryEntry>) -> Schedular<()> {
    let mut s = Schedular::new((), 0x8000, 0x1000);
    for e in entries {
        s.process_registry.push(e);
    }
    s
}

#[test]
fn exit_request_removes_the_process() {
    let mut params = [0u8; 24];
    params[0] = 7;
    let mut s = schedular_with(vec![
        entry(10, ProcessRequestTag::SchedYield, [0; 24]),
        entry(11, ProcessRequestTag::ProcExit, params),
    ]);
    let action = handle_request(1, &mut s);
    assert_eq!(action, RequestAction::Exit { pid: 11, code: 7 });
    assert_eq!(s.process_registry.len(), 1);
    assert_eq!(s.process_registry[0].pid, 10);
}

fn kill_params(pid: u32) -> [u8; 24] {
    let mut params = [0u8; 24];
    params[0..4].copy_from_slice(&pid.to_le_bytes());
    params
}

fn pids_of<T>(s: &Schedular<T>) -> Vec<u32> {
    s.process_registry.iter().map(|e| e.pid).collect()
}

#[test]
fn kill_request_removes_processes_with_the_pid() {
    let mut s = schedular_with(vec![
        entry(5, ProcessRequestTag::SchedYield, [0; 24]),
        entry(6, ProcessRequestTag::SchedYield, [0; 24]),
        entry(7, ProcessRequestTag::ProcKill, kill_params(5)),
    ]);
    let action = handle_request(2, &mut s);
    assert_eq!(action, RequestAction::Nothing);
    assert_eq!(pids_of(&s), vec![6, 7]);
}

#[test]
fn kill_request_reaches_the_last_entry() {
    let mut s = schedular_with(vec![
        entry(1, ProcessRequestTag::ProcKill, kill_params(2)),
        entry(2, ProcessRequestTag::SchedYield, [0; 24]),
    ]);
    assert_eq!(handle_request(0, &mut s), RequestAction::Nothing);
    assert_eq!(pids_of(&s), vec![1]);
}

#[test]
fn kill_request_keeps_the_order_of_the_others() {
    let mut s = schedular_with(vec![
        entry(9, ProcessRequestTag::SchedYield, [0; 24]),
        entry(1, ProcessRequestTag::ProcKill, kill_params(9)),
        entry(2, ProcessRequestTag::SchedYield, [0; 24]),
        entry(9, ProcessRequestTag::SchedYield, [0; 24]),
    ]);
    assert_eq!(handle_request(1, &mut s), RequestAction::Nothing);
    assert_eq!(pids_of(&s), vec![1, 2]);
}

#[test]
fn memory_requests_are_handed_back() {
    let mut params = [0u8; 24];
    params[0..8].copy_from_slice(&0x1000u64.to_le_bytes());
    params[8..16].copy_from_slice(&0x2000u64.to_le_bytes());
    params[16..24].copy_from_slice(&0x30u64.to_le_bytes());
    let mut s = schedular_with(vec![
        entry(1, ProcessRequestTag::MAlloc, params),
        entry(2, ProcessRequestTag::CAlloc, params),
        entry(3, ProcessRequestTag::ReAlloc, params),
        entry(4, ProcessRequestTag::Free, params),
        entry(5, ProcessRequestTag::ProcSelf, params),
        entry(6, ProcessRequestTag::Call, params),
    ]);
    assert_eq!(handle_request(0, &mut s), RequestAction::Malloc { dst: 0x1000, size: 0x2000 });
    assert_eq!(handle_request(1, &mut s), RequestAction::Calloc { dst: 0x1000, count: 0x2000, size: 0x30 });
    assert_eq!(handle_request(2, &mut s), RequestAction::Realloc { dst: 0x1000, ptr: 0x2000, size: 0x30 });
    assert_eq!(handle_request(3, &mut s), RequestAction::Free { ptr: 0x1000 });
    assert_eq!(handle_request(4, &mut s), RequestAction::WritePid { dst: 0x1000, pid: 5 });
    assert_eq!(handle_request(5, &mut s), RequestAction::Nothing);
    assert_eq!(s.process_registry.len(), 6);
}

#[test]
fn polling_delivers_mail_and_wakes_sleepers() {
    let mut e = entry(1, ProcessRequestTag::SchedYield, [0; 24]);
    e.state = ProcessState::WaitingRecv { dst: 0x44 };
    assert_eq!(e.poll(0), PollAction::Skip);
    e.mailbox.push_back(9);
    e.mailbox.push_back(10);
    assert_eq!(e.poll(0), PollAction::Deliver { dst: 0x44, msg: 9 });
    assert_eq!(e.state, ProcessState::Running);
    assert_eq!(e.mailbox.len(), 1);
    e.state = ProcessState::Sleep { end: 100 };
    assert_eq!(e.poll(99), PollAction::Skip);
    assert_eq!(e.state, ProcessState::Sleep { end: 100 });
    assert_eq!(e.poll(100), PollAction::Run);
    assert_eq!(e.state, ProcessState::Running);
    assert_eq!(e.poll(0), PollAction::Run);
}

#[test]
fn new_process_sets_up_context_and_stack() {
    let mut s = schedular_with(Vec::new());
    let rsp = s.new_process(3, 0xdead_0000, 64);
    assert_eq!(rsp, 0x8000 + 64 - 32);
    assert_eq!(s.process_registry.len(), 1);
    let e = &s.process_registry[0];
    assert_eq!(e.pid, 3);
    assert_eq!(e.state, ProcessState::Running);
    assert_eq!(e.process.context.rip, 0xdead_0000);
    assert_eq!(e.process.context.rbx, 5);
    assert_eq!(e.process.context.r12, 12);
    assert_eq!(e.process.context.rsp, rsp as u64);
    assert_eq!(e.process.request.request, ProcessRequestTag::SchedYield);
    assert_eq!(s.stack.frames[0], StackRegion { start: 0x8000, end: 0x8040, state: FrameState::Used(3) });
}

#[test]
fn call_and_return_push_and_free_frames() {
    let mut s = schedular_with(vec![entry(0, ProcessRequestTag::SchedYield, [0; 24])]);
    s.call_function(0, 1, 0, 32);
    assert_eq!(s.process_registry[0].stack_frames, vec![region(0x8000, 0x8020, FrameState::Used(0))]);
    s.return_function(0);
    assert_eq!(s.process_registry[0].stack_frames.len(), 0);
    assert_eq!(s.stack.frames[0], region(0x8000, 0x8020, FrameState::Free));
}

#[test]
fn request_tags_round_trip_through_their_bytes() {
    assert_eq!(ProcessRequestTag::ProcExit.code(), 0x22);
    assert_eq!(ProcessRequestTag::Ret.code(), 0x77);
    assert_eq!(ProcessRequestTag::from_code(0x30), Some(ProcessRequestTag::SchedYield));
    assert_eq!(ProcessRequestTag::from_code(0x00), None);
    for b in 0..=255u8 {
        if let Some(t) = ProcessRequestTag::from_code(b) {
            assert_eq!(t.code(), b);
        }
    }
}

#[test]
fn stack_searches_report_positions() {
    let mut s = Stack::new(0, 300);
    let a = s.allocate(1, 100).unwrap();
    assert_eq!(s.find_fit(150), Some(1));
    assert_eq!(s.find_fit(250), None);
    assert_eq!(s.find_frame(a.start), Some(0));
    assert_eq!(s.find_frame(100), Some(1));
    assert_eq!(s.find_frame(42), None);
}

#[test]
fn request_checks() {
    assert!(is_handled(ProcessRequestTag::MAlloc));
    assert!(is_handled(ProcessRequestTag::ProcKill));
    assert!(!is_handled(ProcessRequestTag::MailSend));
}

#[test]
fn compacting_twice_is_compacting_once() {
    let mut s = Stack {
        start: 0,
        end: 60,
        size: 60,
        frames: vec![
            region(0, 10, FrameState::Free),
            region(10, 20, FrameState::Free),
            region(20, 30, FrameState::Used(1)),
            region(30, 40, FrameState::Free),
            region(40, 50, FrameState::Free),
            region(50, 60, FrameState::Used(2)),
        ],
    };
    s.compact();
    let once = s.frames.clone();
    assert_eq!(
        once,
        vec![
            region(0, 20, FrameState::Free),
            region(20, 30, FrameState::Used(1)),
            region(30, 50, FrameState::Free),
            region(50, 60, FrameState::Used(2)),
        ]
    );
    s.compact();
    assert_eq!(s.frames, once);
    // The used frames and the number of free bytes stay.
    let used: Vec<StackRegion> = s.frames.iter().copied().filter(|r| r.state != FrameState::Free).collect();
    assert_eq!(used, vec![region(20, 30, FrameState::Used(1)), region(50, 60, FrameState::Used(2))]);
    let free: usize = s.frames.iter().filter(|r| r.state == FrameState::Free).map(|r| r.end - r.start).sum();
    assert_eq!(free, 40);
}

#[test]
fn allocate_then_free_then_compact_restores_the_frames() {
    let mut s = Stack::new(0x100, 64);
    let before = s.frames.clone();
    let f = s.allocate(9, 24).unwrap();
    s.free(f.start);
    s.compact();
    assert_eq!(s.frames, before);
}

#[test]
fn free_after_allocate_restores_the_free_bytes() {
    let mut s = Stack {
        start: 0,
        end: 40,
        size: 40,
        frames: vec![
            region(0, 10, FrameState::Free),
            region(10, 30, FrameState::Free),
            region(30, 40, FrameState::Used(1)),
        ],
    };
    let free_addrs = |s: &Stack| -> Vec<usize> {
        s.frames.iter().filter(|r| r.state == FrameState::Free).flat_map(|r| r.start..r.end).collect()
    };
    let before = free_addrs(&s);
    let r = s.allocate(2, 4).unwrap();
    assert_eq!(r, region(0, 4, FrameState::Used(2)));
    s.free(r.start);
    assert_eq!(free_addrs(&s), before);
    assert_eq!(
        s.frames,
        vec![
            region(0, 4, FrameState::Free),
            region(4, 10, FrameState::Free),
            region(10, 30, FrameState::Free),
            region(30, 40, FrameState::Used(1)),
        ]
    );
}
