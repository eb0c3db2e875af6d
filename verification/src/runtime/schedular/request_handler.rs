//! What the scheduler does with a process's request.
use vstd::prelude::*;

use crate::runtime::schedular::api::{param_u32, param_u64, read_param_u32, read_param_u64, ProcessRequestTag};
use crate::runtime::schedular::{Pid, ProcessRegistryEntry, Schedular};

verus! {

/// The work a request leaves for the runtime around the scheduler.
#[derive(Debug, Clone, Copy, PartialEq, Eq, Structural)]
pub enum RequestAction {
    /// Nothing is left to do.
    Nothing,
    /// Process `pid` exited with `code`; report it.
    Exit { pid: Pid, code: u8 },
    /// Release the heap block at `ptr`.
    Free { ptr: u64 },
    /// Store the pid `pid` at address `dst`.
    WritePid { dst: u64, pid: Pid },
    /// Resize the heap block at `ptr` to `size` bytes; store the new address at `dst`.
    Realloc { dst: u64, ptr: u64, size: u64 },
    /// Allocate `count` zeroed items of `size` bytes; store the address at `dst`.
    Calloc { dst: u64, count: u64, size: u64 },
    /// Allocate `size` bytes; store the address at `dst`.
    Malloc { dst: u64, size: u64 },
}

/// The requests the scheduler serves.
pub open spec fn handled(t: ProcessRequestTag) -> bool {
    match t {
        ProcessRequestTag::Recall | ProcessRequestTag::Call | ProcessRequestTag::Ret
        | ProcessRequestTag::ProcKill | ProcessRequestTag::ProcExit | ProcessRequestTag::ProcSelf
        | ProcessRequestTag::Free | ProcessRequestTag::ReAlloc | ProcessRequestTag::CAlloc
        | ProcessRequestTag::MAlloc => true,
        _ => false,
    }
}

/// The registry without the processes whose pid is `pid`, the others in
/// their order.
pub open spec fn without_pid(reg: Seq<ProcessRegistryEntry>, pid: Pid) -> Seq<ProcessRegistryEntry>
    decreases reg.len(),
{
    if reg.len() == 0 {
        reg
    } else {
        let rest = without_pid(reg.drop_first(), pid);
        if reg[0].pid == pid {
            rest
        } else {
            seq![reg[0]] + rest
        }
    }
}

/// The registry and the work left after serving the request of the process
/// at position `i`; the request's parameters are read little-endian.
pub open spec fn spec_handle(reg: Seq<ProcessRegistryEntry>, i: int) -> (Seq<ProcessRegistryEntry>, RequestAction) {
    let e = reg[i];
    let params = e.process.request.params@;
    match e.process.request.request {
        ProcessRequestTag::ProcKill => (without_pid(reg, param_u32(params, 0)), RequestAction::Nothing),
        ProcessRequestTag::ProcExit => (reg.remove(i), RequestAction::Exit { pid: e.pid, code: params[0] }),
        ProcessRequestTag::ProcSelf => (reg, RequestAction::WritePid { dst: param_u64(params, 0), pid: e.pid }),
        ProcessRequestTag::Free => (reg, RequestAction::Free { ptr: param_u64(params, 0) }),
        ProcessRequestTag::ReAlloc => (
            reg,
            RequestAction::Realloc { dst: param_u64(params, 0), ptr: param_u64(params, 8), size: param_u64(params, 16) },
        ),
        ProcessRequestTag::CAlloc => (
            reg,
            RequestAction::Calloc { dst: param_u64(params, 0), count: param_u64(params, 8), size: param_u64(params, 16) },
        ),
        ProcessRequestTag::MAlloc => (reg, RequestAction::Malloc { dst: param_u64(params, 0), size: param_u64(params, 8) }),
        _ => (reg, RequestAction::Nothing),
    }
}

/// Serves the request of the process at position `process_i`. A kill removes
/// every process with the given pid and keeps the others in their order; an
/// exit removes the process; asking for its own pid and the memory requests
/// are handed back as work to do. Only the requests of `handled` are served.
pub fn handle_request<M>(process_i: usize, schedular: &mut Schedular<M>) -> (action: RequestAction)
    requires
        process_i < old(schedular).process_registry@.len(),
        handled(old(schedular).process_registry@[process_i as int].process.request.request),
    ensures
        (final(schedular).process_registry@, action) == spec_handle(old(schedular).process_registry@, process_i as int),
        final(schedular).stack == old(schedular).stack,
        final(schedular).context == old(schedular).context,
        final(schedular).manager == old(schedular).manager,
{
    let ghost reg = schedular.process_registry@;
    let tag = schedular.process_registry[process_i].process.request.request;
    let params = schedular.process_registry[process_i].process.request.params;
    let pid = schedular.process_registry[process_i].pid;
    match tag {
        ProcessRequestTag::ProcKill => {
            let target = read_param_u32(&params, 0);
            let mut rest: Vec<ProcessRegistryEntry> = Vec::new();
            std::mem::swap(&mut rest, &mut schedular.process_registry);
            let mut kept: Vec<ProcessRegistryEntry> = Vec::new();
            while rest.len() > 0
                invariant
                    kept@ + without_pid(rest@, target) == without_pid(reg, target),
                decreases rest@.len(),
            {
                let ghost before = rest@;
                let e = rest.remove(0);
                assert(before.drop_first() =~= rest@);
                if e.pid != target {
                    assert(kept@.push(e) + without_pid(rest@, target) =~= kept@ + (seq![e] + without_pid(rest@, target)));
                    kept.push(e);
                }
            }
            assert(kept@ + without_pid(rest@, target) =~= kept@);
            schedular.process_registry = kept;
            RequestAction::Nothing
        },
        ProcessRequestTag::ProcExit => {
            schedular.process_registry.remove(process_i);
            RequestAction::Exit { pid, code: params[0] }
        },
        ProcessRequestTag::ProcSelf => RequestAction::WritePid { dst: read_param_u64(&params, 0), pid },
        ProcessRequestTag::Free => RequestAction::Free { ptr: read_param_u64(&params, 0) },
        ProcessRequestTag::ReAlloc => RequestAction::Realloc {
            dst: read_param_u64(&params, 0),
            ptr: read_param_u64(&params, 8),
            size: read_param_u64(&params, 16),
        },
        ProcessRequestTag::CAlloc => RequestAction::Calloc {
            dst: read_param_u64(&params, 0),
            count: read_param_u64(&params, 8),
            size: read_param_u64(&params, 16),
        },
        ProcessRequestTag::MAlloc => RequestAction::Malloc {
            dst: read_param_u64(&params, 0),
            size: read_param_u64(&params, 8),
        },
        _ => RequestAction::Nothing,
    }
}

/// Whether the scheduler serves a request.
pub fn is_handled(tag: ProcessRequestTag) -> (b: bool)
    ensures
        b == handled(tag),
{
    match tag {
        ProcessRequestTag::Recall | ProcessRequestTag::Call | ProcessRequestTag::Ret
        | ProcessRequestTag::ProcKill | ProcessRequestTag::ProcExit | ProcessRequestTag::ProcSelf
        | ProcessRequestTag::Free | ProcessRequestTag::ReAlloc | ProcessRequestTag::CAlloc
        | ProcessRequestTag::MAlloc => true,
        _ => false,
    }
}

/// Killing `pid` keeps exactly the processes with another pid, in their
/// order: the registry filtered by pid.
pub proof fn lemma_kill_filters_pid(reg: Seq<ProcessRegistryEntry>, pid: Pid)
    ensures
        without_pid(reg, pid) == reg.filter(|e: ProcessRegistryEntry| e.pid != pid),
        forall|k: int| 0 <= k < without_pid(reg, pid).len() ==> #[trigger] without_pid(reg, pid)[k].pid != pid,
    decreases reg.len(),
{
    let pred = |e: ProcessRegistryEntry| e.pid != pid;
    if reg.len() > 0 {
        let rest = reg.drop_first();
        lemma_kill_filters_pid(rest, pid);
        assert(reg =~= seq![reg[0]] + rest);
        Seq::filter_distributes_over_add(seq![reg[0]], rest, pred);
        reveal_with_fuel(Seq::filter, 2);
        assert(seq![reg[0]].drop_last() =~= Seq::<ProcessRegistryEntry>::empty());
        if reg[0].pid == pid {
            assert(seq![reg[0]].filter(pred) =~= Seq::<ProcessRegistryEntry>::empty());
        } else {
            assert(seq![reg[0]].filter(pred) =~= seq![reg[0]]);
        }
    } else {
        assert(reg.filter(pred) =~= reg);
    }
    let w = without_pid(reg, pid);
    assert forall|k: int| 0 <= k < w.len() implies #[trigger] w[k].pid != pid by {
        reg.lemma_filter_pred(pred, k);
    }
}

} // verus!
