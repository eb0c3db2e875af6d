//! State shared by the schedulers: executable memory, process identifiers
//! and the loaded file.
use std::sync::Arc;

use vstd::prelude::*;

use crate::error::HiveError;
use crate::parser::LoadedFile;
use crate::runtime::load_exec::ExecPageManager;
use crate::runtime::schedular::ProcessRegistryEntry;

verus! {

/// A process identifier slot: free, or held by a process.
pub enum PidSlot {
    Unused,
    Used(Arc<ProcessRegistryEntry>),
}

/// The runtime state that all schedulers share.
pub struct Manager {
    pub exec_page_manager: ExecPageManager,
    pub pids: Vec<PidSlot>,
    pub loaded_file: LoadedFile,
}

/// The first free slot from `k` on.
pub open spec fn first_unused_from(pids: Seq<PidSlot>, k: int) -> Option<int>
    decreases pids.len() - k,
{
    if k < 0 || k >= pids.len() {
        None
    } else if pids[k] is Unused {
        Some(k)
    } else {
        first_unused_from(pids, k + 1)
    }
}

/// The first free slot.
pub open spec fn first_unused(pids: Seq<PidSlot>) -> Option<int> {
    first_unused_from(pids, 0)
}

/// The slots and the outcome after giving `process` a pid: the first free
/// slot if there is one, else a new slot at the end, as long as its number
/// fits a `u32`.
pub open spec fn spec_allocate_pid(pids: Seq<PidSlot>, process: Arc<ProcessRegistryEntry>) -> (Seq<PidSlot>, Result<u32, HiveError>) {
    match first_unused(pids) {
        Some(k) => (pids.update(k, PidSlot::Used(process)), Ok(k as u32)),
        None => if pids.len() > u32::MAX {
            (pids, Err(HiveError::NoPidsAvailable))
        } else {
            (pids.push(PidSlot::Used(process)), Ok(pids.len() as u32))
        },
    }
}

/// The first free slot from `k` on is free, and the slots between are used.
pub proof fn lemma_first_unused_from(pids: Seq<PidSlot>, k: int)
    requires
        0 <= k,
    ensures
        match first_unused_from(pids, k) {
            Some(i) => k <= i < pids.len() && pids[i] is Unused
                && forall|j: int| k <= j < i ==> (#[trigger] pids[j]) is Used,
            None => forall|j: int| k <= j < pids.len() ==> (#[trigger] pids[j]) is Used,
        },
    decreases pids.len() - k,
{
    if 0 <= k < pids.len() && !(pids[k] is Unused) {
        lemma_first_unused_from(pids, k + 1);
    }
}

impl Manager {
    /// Gives `process` the lowest free pid, or a new one after all the pids
    /// in use.
    pub fn allocate_pid(&mut self, process: Arc<ProcessRegistryEntry>) -> (res: Result<u32, HiveError>)
        ensures
            (final(self).pids@, res) == spec_allocate_pid(old(self).pids@, process),
            final(self).exec_page_manager == old(self).exec_page_manager,
            final(self).loaded_file == old(self).loaded_file,
    {
        let ghost pids = self.pids@;
        let mut pid: usize = 0;
        while pid < self.pids.len()
            invariant
                self.pids@ == pids,
                pids == old(self).pids@,
                pid <= pids.len(),
                first_unused(pids) == first_unused_from(pids, pid as int),
                self.exec_page_manager == old(self).exec_page_manager,
                self.loaded_file == old(self).loaded_file,
            decreases pids.len() - pid,
        {
            let unused = match self.pids[pid] {
                PidSlot::Unused => true,
                PidSlot::Used(_) => false,
            };
            if unused {
                self.pids.set(pid, PidSlot::Used(process));
                return Ok(pid as u32);
            }
            pid = pid + 1;
        }
        let pid = self.pids.len();
        if pid as u64 > u32::MAX as u64 {
            return Err(HiveError::NoPidsAvailable);
        }
        self.pids.push(PidSlot::Used(process));
        Ok(pid as u32)
    }
}

/// A pid that was just given out is not given out again by the next
/// allocation, as long as the pids stay within `u32`.
pub proof fn lemma_allocated_pids_differ(
    pids: Seq<PidSlot>,
    first: Arc<ProcessRegistryEntry>,
    second: Arc<ProcessRegistryEntry>,
)
    requires
        pids.len() < u32::MAX,
    ensures
        ({
            let (after, r1) = spec_allocate_pid(pids, first);
            let (_, r2) = spec_allocate_pid(after, second);
            r1 matches Ok(p1) && r2 matches Ok(p2) && p1 != p2
        }),
{
    lemma_first_unused_from(pids, 0);
    let (after, r1) = spec_allocate_pid(pids, first);
    lemma_first_unused_from(after, 0);
    match first_unused(pids) {
        Some(k) => {
            assert(after[k] is Used);
        },
        None => {
            assert(after[pids.len() as int] is Used);
        },
    }
}

} // verus!
