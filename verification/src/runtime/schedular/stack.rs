//! The scheduler's stack memory, cut into frames that processes use.
use vstd::prelude::*;

use crate::runtime::schedular::context::HiveContext;
use crate::runtime::schedular::Pid;

verus! {

/// Whether a frame belongs to a process or is free.
#[derive(Debug, Clone, Copy, PartialEq, Eq, Structural)]
pub enum FrameState {
    Used(Pid),
    Free,
}

/// The frame of addresses `start..end`.
#[derive(Debug, Clone, Copy, PartialEq, Eq, Structural)]
pub struct StackRegion {
    pub start: usize,
    pub end: usize,
    pub state: FrameState,
}

/// Stack memory `start..end` of `size` bytes, cut into frames in address order.
pub struct Stack {
    pub start: usize,
    pub end: usize,
    pub size: usize,
    pub frames: Vec<StackRegion>,
}

/// Whether a frame is free.
pub open spec fn is_free(r: StackRegion) -> bool {
    r.state is Free
}

/// Whether the frames cover `start..end` in address order, each one ending
/// where the next starts.
pub open spec fn tiles(fs: Seq<StackRegion>, start: int, end: int) -> bool {
    &&& fs.len() >= 1
    &&& fs[0].start == start
    &&& fs.last().end == end
    &&& forall|i: int| 0 <= i < fs.len() ==> (#[trigger] fs[i]).start <= fs[i].end
    &&& forall|i: int, j: int| 0 <= i && j == i + 1 && j < fs.len() ==> #[trigger] fs[i].end == #[trigger] fs[j].start
}

/// Whether no two neighbouring frames are both free.
pub open spec fn no_adjacent_free(fs: Seq<StackRegion>) -> bool {
    forall|i: int, j: int| 0 <= i && j == i + 1 && j < fs.len() ==> !(is_free(#[trigger] fs[i]) && is_free(#[trigger] fs[j]))
}

/// Whether a free frame has room for `size` bytes.
pub open spec fn fits_in(r: StackRegion, size: int) -> bool {
    is_free(r) && r.end - r.start >= size
}

/// The first frame from `k` on that is free with room for `size` bytes.
pub open spec fn first_fit_from(fs: Seq<StackRegion>, size: int, k: int) -> Option<int>
    decreases fs.len() - k,
{
    if k < 0 || k >= fs.len() {
        None
    } else if fits_in(fs[k], size) {
        Some(k)
    } else {
        first_fit_from(fs, size, k + 1)
    }
}

/// The first free frame with room for `size` bytes.
pub open spec fn first_fit(fs: Seq<StackRegion>, size: int) -> Option<int> {
    first_fit_from(fs, size, 0)
}

/// The first frame from `k` on that starts at `start`.
pub open spec fn first_at_from(fs: Seq<StackRegion>, start: int, k: int) -> Option<int>
    decreases fs.len() - k,
{
    if k < 0 || k >= fs.len() {
        None
    } else if fs[k].start == start {
        Some(k)
    } else {
        first_at_from(fs, start, k + 1)
    }
}

/// The first frame that starts at `start`.
pub open spec fn first_at(fs: Seq<StackRegion>, start: int) -> Option<int> {
    first_at_from(fs, start, 0)
}

/// The frames after giving `size` bytes of frame `i` to `pid`: the frame
/// shrinks to its first `size` bytes and is used; the rest, if any, follows
/// it as a free frame.
pub open spec fn split_at(fs: Seq<StackRegion>, i: int, pid: Pid, size: int) -> Seq<StackRegion> {
    let f = fs[i];
    let used = StackRegion { start: f.start, end: (f.start + size) as usize, state: FrameState::Used(pid) };
    if f.end - f.start > size {
        fs.update(i, used).insert(i + 1, StackRegion { start: (f.start + size) as usize, end: f.end, state: FrameState::Free })
    } else {
        fs.update(i, used)
    }
}

/// The frames with every run of neighbouring free frames merged into one free
/// frame spanning the run.
#[verifier::opaque]
pub open spec fn merged(fs: Seq<StackRegion>) -> Seq<StackRegion>
    decreases fs.len(),
{
    if fs.len() <= 1 {
        fs
    } else {
        let rest = merged(fs.drop_first());
        if is_free(fs[0]) && is_free(rest[0]) {
            seq![StackRegion { start: fs[0].start, end: rest[0].end, state: FrameState::Free }] + rest.drop_first()
        } else {
            seq![fs[0]] + rest
        }
    }
}

impl Stack {
    /// The stack's invariant: `size` bytes from `start` to `end`, tiled by the frames.
    pub open spec fn wf(&self) -> bool {
        &&& self.start + self.size == self.end
        &&& tiles(self.frames@, self.start as int, self.end as int)
    }

    /// A stack over the `size` bytes at `start`, one free frame.
    pub fn new(start: usize, size: usize) -> (s: Self)
        requires
            size > 0,
            start + size <= usize::MAX,
        ensures
            s.wf(),
            s.start == start,
            s.size == size,
            s.end == start + size,
            s.frames@ == seq![StackRegion { start, end: (start + size) as usize, state: FrameState::Free }],
    {
        let end = start + size;
        let mut frames: Vec<StackRegion> = Vec::new();
        frames.push(StackRegion { start, end, state: FrameState::Free });
        Stack { start, end, size, frames }
    }

    /// The position of the first free frame with room for `size` bytes.
    pub fn find_fit(&self, size: usize) -> (res: Option<usize>)
        ensures
            match first_fit(self.frames@, size as int) {
                Some(i) => res == Some(i as usize),
                None => res is None,
            },
    {
        let mut i: usize = 0;
        while i < self.frames.len()
            invariant
                i <= self.frames@.len(),
                first_fit(self.frames@, size as int) == first_fit_from(self.frames@, size as int, i as int),
            decreases self.frames@.len() - i,
        {
            let frame = self.frames[i];
            let free = match frame.state {
                FrameState::Free => true,
                FrameState::Used(_) => false,
            };
            if free && frame.start <= frame.end && frame.end - frame.start >= size {
                return Some(i);
            }
            i = i + 1;
        }
        None
    }

    /// The position of the first frame that starts at `start`.
    pub fn find_frame(&self, start: usize) -> (res: Option<usize>)
        ensures
            match first_at(self.frames@, start as int) {
                Some(i) => res == Some(i as usize),
                None => res is None,
            },
    {
        let mut i: usize = 0;
        while i < self.frames.len()
            invariant
                i <= self.frames@.len(),
                first_at(self.frames@, start as int) == first_at_from(self.frames@, start as int, i as int),
            decreases self.frames@.len() - i,
        {
            if self.frames[i].start == start {
                return Some(i);
            }
            i = i + 1;
        }
        None
    }

    /// Gives `size` bytes of the first free frame that has room to `pid`.
    /// The frame keeps its start and is cut to `size` bytes; the rest of it
    /// stays free right after it. `None`, with the frames unchanged, where no
    /// free frame has room.
    pub fn allocate(&mut self, pid: Pid, size: usize) -> (res: Option<StackRegion>)
        requires
            old(self).wf(),
        ensures
            final(self).wf(),
            final(self).start == old(self).start,
            final(self).end == old(self).end,
            final(self).size == old(self).size,
            match first_fit(old(self).frames@, size as int) {
                None => res is None && final(self).frames@ == old(self).frames@,
                Some(i) => res == Some(
                    StackRegion {
                        start: old(self).frames@[i].start,
                        end: (old(self).frames@[i].start + size) as usize,
                        state: FrameState::Used(pid),
                    },
                ) && final(self).frames@ == split_at(old(self).frames@, i, pid, size as int),
            },
    {
        let ghost fs = self.frames@;
        let mut i: usize = 0;
        while i < self.frames.len()
            invariant
                self.frames@ == fs,
                fs == old(self).frames@,
                self.start == old(self).start,
                self.end == old(self).end,
                self.size == old(self).size,
                self.wf(),
                i <= fs.len(),
                first_fit(fs, size as int) == first_fit_from(fs, size as int, i as int),
            decreases fs.len() - i,
        {
            let frame = self.frames[i];
            let is_free_frame = match frame.state {
                FrameState::Free => true,
                FrameState::Used(_) => false,
            };
            if !is_free_frame || frame.end - frame.start < size {
                i = i + 1;
                continue;
            }
            let available = frame.end - frame.start;
            let end = frame.start + size;
            let used = StackRegion { start: frame.start, end, state: FrameState::Used(pid) };
            self.frames.set(i, used);
            if available > size {
                self.frames.insert(i + 1, StackRegion { start: end, end: frame.end, state: FrameState::Free });
            }
            proof {
                let nf = self.frames@;
                assert(nf == split_at(fs, i as int, pid, size as int));
                assert forall|k: int, l: int| 0 <= k && l == k + 1 && l < nf.len() implies #[trigger] nf[k].end == #[trigger] nf[l].start by {
                    if k < i {
                        assert(nf[k] == fs[k]);
                    }
                }
                assert forall|k: int| 0 <= k < nf.len() implies (#[trigger] nf[k]).start <= nf[k].end by {
                    if k < i {
                        assert(nf[k] == fs[k]);
                    }
                }
            }
            return Some(used);
        }
        None
    }

    /// Makes the first frame that starts at `start` free.
    pub fn free(&mut self, start: usize)
        requires
            old(self).wf(),
            first_at(old(self).frames@, start as int) is Some,
        ensures
            final(self).wf(),
            final(self).start == old(self).start,
            final(self).end == old(self).end,
            final(self).size == old(self).size,
            final(self).frames@ == old(self).frames@.update(
                first_at(old(self).frames@, start as int)->Some_0,
                StackRegion {
                    start: old(self).frames@[first_at(old(self).frames@, start as int)->Some_0].start,
                    end: old(self).frames@[first_at(old(self).frames@, start as int)->Some_0].end,
                    state: FrameState::Free,
                },
            ),
    {
        let ghost fs = self.frames@;
        let mut i: usize = 0;
        while i < self.frames.len()
            invariant
                self.frames@ == fs,
                fs == old(self).frames@,
                self.start == old(self).start,
                self.end == old(self).end,
                self.size == old(self).size,
                self.wf(),
                i <= fs.len(),
                first_at(fs, start as int) == first_at_from(fs, start as int, i as int),
            decreases fs.len() - i,
        {
            let frame = self.frames[i];
            if frame.start == start {
                self.frames.set(i, StackRegion { start: frame.start, end: frame.end, state: FrameState::Free });
                proof {
                    let nf = self.frames@;
                    assert forall|k: int, l: int| 0 <= k && l == k + 1 && l < nf.len() implies #[trigger] nf[k].end == #[trigger] nf[l].start by {
                        assert(fs[k].end == fs[l].start);
                    }
                }
                return;
            }
            i = i + 1;
        }
    }

    /// Merges every run of neighbouring free frames into one free frame.
    pub fn compact(&mut self)
        requires
            old(self).wf(),
        ensures
            final(self).wf(),
            final(self).start == old(self).start,
            final(self).end == old(self).end,
            final(self).size == old(self).size,
            final(self).frames@ == merged(old(self).frames@),
            no_adjacent_free(final(self).frames@),
    {
        let ghost fs = self.frames@;
        let mut i: usize = 0;
        assert(self.frames@.subrange(0, 0) + merged(self.frames@.subrange(0, self.frames@.len() as int)) =~= merged(fs)) by {
            assert(self.frames@.subrange(0, self.frames@.len() as int) =~= fs);
        }
        while i < self.frames.len() - 1
            invariant
                fs == old(self).frames@,
                self.start == old(self).start,
                self.end == old(self).end,
                self.size == old(self).size,
                self.wf(),
                i < self.frames@.len(),
                self.frames@.subrange(0, i as int) + merged(self.frames@.subrange(i as int, self.frames@.len() as int)) == merged(fs),
                forall|k: int, l: int| 0 <= k < i && l == k + 1 ==> !(is_free(#[trigger] self.frames@[k]) && is_free(#[trigger] self.frames@[l])),
            decreases self.frames@.len() - i,
        {
            let current = self.frames[i];
            let next = self.frames[i + 1];
            let current_free = match current.state {
                FrameState::Free => true,
                FrameState::Used(_) => false,
            };
            let next_free = match next.state {
                FrameState::Free => true,
                FrameState::Used(_) => false,
            };
            let ghost before = self.frames@;
            if current_free && next_free {
                self.frames.set(i, StackRegion { start: current.start, end: next.end, state: FrameState::Free });
                self.frames.remove(i + 1);
                proof {
                    lemma_compact_merge_step(before, i as int, self.start as int, self.end as int, merged(fs));
                }
            } else {
                proof {
                    lemma_compact_skip_step(before, i as int, merged(fs));
                }
                i = i + 1;
            }
        }
        proof {
            let nf = self.frames@;
            reveal(merged);
            assert(nf.subrange(i as int, nf.len() as int).len() <= 1);
            assert(nf.subrange(0, i as int) + nf.subrange(i as int, nf.len() as int) =~= nf);
        }
    }

    /// Gives a frame of `size` bytes to process `pid`, as `allocate` does, and
    /// sets up the process's stack pointer in it: 24 bytes below the frame's
    /// end, rounded down to a multiple of 16. The three words there (the
    /// request, the scheduler context and the process context) are the
    /// caller's to write. The stack must have room.
    pub fn new_proc_stack(&mut self, pid: u32, size: usize, process_context: &mut HiveContext) -> (rsp: usize)
        requires
            old(self).wf(),
            first_fit(old(self).frames@, size as int) is Some,
            old(self).frames@[first_fit(old(self).frames@, size as int)->Some_0].start + size >= 24,
        ensures
            final(self).wf(),
            final(self).start == old(self).start,
            final(self).end == old(self).end,
            final(self).size == old(self).size,
            ({
                let i = first_fit(old(self).frames@, size as int)->Some_0;
                let end = old(self).frames@[i].start + size;
                &&& final(self).frames@ == split_at(old(self).frames@, i, pid, size as int)
                &&& rsp == ((end - 24) as usize & !15usize)
                &&& rsp % 16 == 0
                &&& end - 39 <= rsp <= end - 24
            }),
            *final(process_context) == (HiveContext { rsp: rsp as u64, ..*old(process_context) }),
    {
        proof {
            lemma_first_fit_from(self.frames@, size as int, 0);
        }
        let region = self.allocate(pid, size);
        match region {
            Some(r) => {
                let top: usize = r.end - 24;
                let rsp: usize = top & !15usize;
                assert(rsp % 16 == 0 && top - 15 <= rsp <= top) by (bit_vector)
                    requires
                        rsp == top & !15usize,
                ;
                process_context.rsp = rsp as u64;
                rsp
            },
            None => {
                proof {
                    assert(false);
                }
                0
            },
        }
    }
}

/// The first fit from `k` is a free frame with room, and no frame between `k`
/// and it has room; where there is none, no frame from `k` on has room.
pub proof fn lemma_first_fit_from(fs: Seq<StackRegion>, size: int, k: int)
    requires
        0 <= k,
    ensures
        match first_fit_from(fs, size, k) {
            Some(i) => k <= i < fs.len() && fits_in(fs[i], size)
                && forall|j: int| k <= j < i ==> !fits_in(#[trigger] fs[j], size),
            None => forall|j: int| k <= j < fs.len() ==> !fits_in(#[trigger] fs[j], size),
        },
    decreases fs.len() - k,
{
    if k < fs.len() && !fits_in(fs[k], size) {
        lemma_first_fit_from(fs, size, k + 1);
    }
}

/// One merge of the compaction keeps the frames tiled, the merge of the whole
/// unchanged, and the frames before `i` without free neighbours.
proof fn lemma_compact_merge_step(before: Seq<StackRegion>, i: int, start: int, end: int, m: Seq<StackRegion>)
    requires
        tiles(before, start, end),
        0 <= i,
        i + 1 < before.len(),
        is_free(before[i]),
        is_free(before[i + 1]),
        before.subrange(0, i) + merged(before.subrange(i, before.len() as int)) == m,
        forall|k: int, l: int| 0 <= k < i && l == k + 1 ==> !(is_free(#[trigger] before[k]) && is_free(#[trigger] before[l])),
    ensures
        ({
            let nf = before.update(i, StackRegion { start: before[i].start, end: before[i + 1].end, state: FrameState::Free }).remove(i + 1);
            &&& tiles(nf, start, end)
            &&& nf.subrange(0, i) + merged(nf.subrange(i, nf.len() as int)) == m
            &&& forall|k: int, l: int| 0 <= k < i && l == k + 1 ==> !(is_free(#[trigger] nf[k]) && is_free(#[trigger] nf[l]))
        }),
{
    let current = before[i];
    let next = before[i + 1];
    let ab = StackRegion { start: current.start, end: next.end, state: FrameState::Free };
    let nf = before.update(i, ab).remove(i + 1);
    let n = before.len();
    let rest = before.subrange(i + 2, n as int);
    assert(before.subrange(i, n as int) =~= seq![current, next] + rest);
    assert(nf.subrange(i, nf.len() as int) =~= seq![ab] + rest);
    lemma_merge_pair(current, next, rest);
    assert(nf.subrange(0, i) =~= before.subrange(0, i));
    assert forall|k: int, l: int| 0 <= k && l == k + 1 && l < nf.len() implies #[trigger] nf[k].end == #[trigger] nf[l].start by {
        if k < i {
            assert(nf[k] == before[k]);
        } else {
            assert(nf[l] == before[k + 2]);
        }
    }
    assert forall|k: int| 0 <= k < nf.len() implies (#[trigger] nf[k]).start <= nf[k].end by {
        if k > i {
            assert(nf[k] == before[k + 1]);
        }
    }
    assert forall|k: int, l: int| 0 <= k < i && l == k + 1 implies !(is_free(#[trigger] nf[k]) && is_free(#[trigger] nf[l])) by {
        assert(nf[k] == before[k]);
    }
}

/// Moving past a frame that cannot merge with the next keeps the merge of the
/// whole unchanged.
proof fn lemma_compact_skip_step(before: Seq<StackRegion>, i: int, m: Seq<StackRegion>)
    requires
        0 <= i,
        i + 1 < before.len(),
        !(is_free(before[i]) && is_free(before[i + 1])),
        before.subrange(0, i) + merged(before.subrange(i, before.len() as int)) == m,
    ensures
        before.subrange(0, i + 1) + merged(before.subrange(i + 1, before.len() as int)) == m,
{
    let n = before.len();
    let current = before[i];
    let rest = before.subrange(i + 1, n as int);
    assert(before.subrange(i, n as int) =~= seq![current] + rest);
    assert(rest[0] == before[i + 1]);
    lemma_merge_cons(current, rest);
    assert(before.subrange(0, i + 1) =~= before.subrange(0, i) + seq![current]);
    assert(before.subrange(0, i) + (seq![current] + merged(rest)) =~= before.subrange(0, i + 1) + merged(rest));
}

/// The first merged frame starts where the first frame starts and is free
/// exactly when the first frame is; a used first frame is kept as it is.
pub proof fn lemma_merged_first(fs: Seq<StackRegion>)
    requires
        fs.len() >= 1,
    ensures
        merged(fs).len() >= 1,
        merged(fs)[0].start == fs[0].start,
        is_free(merged(fs)[0]) == is_free(fs[0]),
        !is_free(fs[0]) ==> merged(fs)[0] == fs[0],
    decreases fs.len(),
{
    reveal(merged);
    if fs.len() > 1 {
        lemma_merged_first(fs.drop_first());
    }
}

/// Merging two neighbouring free frames first does not change the merge.
pub proof fn lemma_merge_pair(a: StackRegion, b: StackRegion, rest: Seq<StackRegion>)
    requires
        is_free(a),
        is_free(b),
    ensures
        merged(seq![a, b] + rest) == merged(seq![StackRegion { start: a.start, end: b.end, state: FrameState::Free }] + rest),
{
    reveal(merged);
    let ab = StackRegion { start: a.start, end: b.end, state: FrameState::Free };
    let x = seq![a, b] + rest;
    let y = seq![ab] + rest;
    assert(x.drop_first() =~= seq![b] + rest);
    lemma_merged_first(seq![b] + rest);
    if rest.len() == 0 {
        assert(y =~= seq![ab]);
        assert(seq![b] + rest =~= seq![b]);
        assert(merged(x) =~= seq![ab]);
    } else {
        assert(y.drop_first() =~= rest);
        assert((seq![b] + rest).drop_first() =~= rest);
        lemma_merged_first(rest);
        let r2 = merged(rest);
        let r1 = merged(seq![b] + rest);
        if is_free(r2[0]) {
            assert(r1.drop_first() =~= r2.drop_first());
        } else {
            assert(r1 == seq![b] + r2);
            assert(r1.drop_first() =~= r2);
        }
    }
}

/// A frame that cannot merge with the frame after it stays in front of the
/// merge of the rest.
pub proof fn lemma_merge_cons(a: StackRegion, rest: Seq<StackRegion>)
    requires
        rest.len() >= 1,
        !(is_free(a) && is_free(rest[0])),
    ensures
        merged(seq![a] + rest) == seq![a] + merged(rest),
{
    reveal(merged);
    let x = seq![a] + rest;
    assert(x.drop_first() =~= rest);
    lemma_merged_first(rest);
}


/// Frames without free neighbours are their own merge.
pub proof fn lemma_merged_noop(fs: Seq<StackRegion>)
    requires
        no_adjacent_free(fs),
    ensures
        merged(fs) == fs,
    decreases fs.len(),
{
    reveal(merged);
    if fs.len() > 1 {
        let rest = fs.drop_first();
        assert forall|i: int, j: int| 0 <= i && j == i + 1 && j < rest.len() implies !(is_free(
            #[trigger] rest[i],
        ) && is_free(#[trigger] rest[j])) by {
            assert(rest[i] == fs[i + 1] && rest[j] == fs[j + 1]);
        }
        lemma_merged_noop(rest);
        assert(!(is_free(fs[0]) && is_free(fs[1])));
        assert(seq![fs[0]] + rest =~= fs);
    }
}

/// A prefix without free neighbours that cannot merge with what follows it
/// stays in front of the merge of the rest.
pub proof fn lemma_merged_prefix(p: Seq<StackRegion>, s: Seq<StackRegion>)
    requires
        p.len() >= 1,
        s.len() >= 1,
        no_adjacent_free(p),
        !(is_free(p.last()) && is_free(s[0])),
    ensures
        merged(p + s) == p + merged(s),
    decreases p.len(),
{
    if p.len() == 1 {
        assert(p + s =~= seq![p[0]] + s);
        lemma_merge_cons(p[0], s);
        assert(seq![p[0]] + merged(s) =~= p + merged(s));
    } else {
        let q = p.drop_first();
        assert forall|i: int, j: int| 0 <= i && j == i + 1 && j < q.len() implies !(is_free(
            #[trigger] q[i],
        ) && is_free(#[trigger] q[j])) by {
            assert(q[i] == p[i + 1] && q[j] == p[j + 1]);
        }
        assert(q.last() == p.last());
        lemma_merged_prefix(q, s);
        assert(p + s =~= seq![p[0]] + (q + s));
        assert((q + s)[0] == p[1]);
        lemma_merge_cons(p[0], q + s);
        assert(seq![p[0]] + (q + merged(s)) =~= p + merged(s));
    }
}

/// In tiled frames that are all non-empty, frames further on start later.
pub proof fn lemma_starts_increase(fs: Seq<StackRegion>, start: int, end: int, k: int, i: int)
    requires
        tiles(fs, start, end),
        forall|j: int| 0 <= j < fs.len() ==> (#[trigger] fs[j]).start < fs[j].end,
        0 <= k < i < fs.len(),
    ensures
        fs[k].start < fs[i].start,
    decreases i - k,
{
    assert(fs[k].end == fs[k + 1].start);
    if k + 1 < i {
        lemma_starts_increase(fs, start, end, k + 1, i);
    }
}

/// The frames after a free frame of compacted frames stay as they are when
/// merged behind it.
proof fn lemma_merged_after_free(fs: Seq<StackRegion>, i: int)
    requires
        0 <= i < fs.len(),
        is_free(fs[i]),
        no_adjacent_free(fs),
    ensures
        merged(seq![fs[i]] + fs.subrange(i + 1, fs.len() as int)) == seq![fs[i]] + fs.subrange(i + 1, fs.len() as int),
{
    let tail = fs.subrange(i + 1, fs.len() as int);
    assert forall|x: int, y: int| 0 <= x && y == x + 1 && y < tail.len() implies !(is_free(
        #[trigger] tail[x],
    ) && is_free(#[trigger] tail[y])) by {
        assert(tail[x] == fs[i + 1 + x] && tail[y] == fs[i + 1 + y]);
    }
    lemma_merged_noop(tail);
    if tail.len() == 0 {
        reveal(merged);
        assert(seq![fs[i]] + tail =~= seq![fs[i]]);
    } else {
        assert(tail[0] == fs[i + 1]);
        lemma_merge_cons(fs[i], tail);
    }
}

/// Freeing the frame cut from free frame `i` and merging from there gives
/// back frame `i` and the frames after it.
proof fn lemma_merged_split(fs: Seq<StackRegion>, i: int, pid: Pid, size: int)
    requires
        0 <= i < fs.len(),
        fits_in(fs[i], size),
        0 <= size,
        no_adjacent_free(fs),
    ensures
        ({
            let a = split_at(fs, i, pid, size);
            let b = a.update(i, StackRegion { start: a[i].start, end: a[i].end, state: FrameState::Free });
            &&& b.subrange(0, i) == fs.subrange(0, i)
            &&& merged(b.subrange(i, b.len() as int)) == fs.subrange(i, fs.len() as int)
        }),
{
    let f = fs[i];
    let a = split_at(fs, i, pid, size);
    let b = a.update(i, StackRegion { start: a[i].start, end: a[i].end, state: FrameState::Free });
    let tail = fs.subrange(i + 1, fs.len() as int);
    let whole = StackRegion { start: f.start, end: f.end, state: FrameState::Free };
    assert(whole == f);
    lemma_merged_after_free(fs, i);
    assert(fs.subrange(i, fs.len() as int) =~= seq![whole] + tail);
    assert(b.subrange(0, i) =~= fs.subrange(0, i));
    if f.end - f.start > size {
        let lo = StackRegion { start: f.start, end: (f.start + size) as usize, state: FrameState::Free };
        let hi = StackRegion { start: (f.start + size) as usize, end: f.end, state: FrameState::Free };
        assert(b.subrange(i, b.len() as int) =~= seq![lo, hi] + tail);
        lemma_merge_pair(lo, hi, tail);
    } else {
        assert(b.subrange(i, b.len() as int) =~= seq![whole] + tail);
    }
}

/// Allocating a frame, freeing it again and compacting gives back the frames
/// of a compacted stack whose frames are all non-empty: `free` finds the
/// allocated frame by its start, and compaction merges it with the rest of
/// the frame it was cut from.
pub proof fn lemma_allocate_free_compact(fs: Seq<StackRegion>, start: int, end: int, pid: Pid, size: int)
    requires
        tiles(fs, start, end),
        no_adjacent_free(fs),
        forall|j: int| 0 <= j < fs.len() ==> (#[trigger] fs[j]).start < fs[j].end,
        first_fit(fs, size) is Some,
        0 <= size,
    ensures
        ({
            let i = first_fit(fs, size)->Some_0;
            let a = split_at(fs, i, pid, size);
            &&& first_at(a, fs[i].start as int) == Some(i)
            &&& merged(a.update(i, StackRegion { start: a[i].start, end: a[i].end, state: FrameState::Free })) == fs
        }),
{
    lemma_first_fit_from(fs, size, 0);
    let i = first_fit(fs, size)->Some_0;
    let f = fs[i];
    let a = split_at(fs, i, pid, size);
    let b = a.update(i, StackRegion { start: a[i].start, end: a[i].end, state: FrameState::Free });
    // `free` finds frame `i`.
    assert forall|k: int| 0 <= k < i implies (#[trigger] a[k]).start != f.start by {
        lemma_starts_increase(fs, start, end, k, i);
    }
    lemma_first_at_skip(a, f.start as int, 0, i);
    // Compaction restores the frame.
    lemma_merged_split(fs, i, pid, size);
    let head = fs.subrange(0, i);
    let rest = b.subrange(i, b.len() as int);
    assert(b =~= head + rest);
    assert(head + fs.subrange(i, fs.len() as int) =~= fs);
    if i == 0 {
        assert(b =~= rest);
    } else {
        assert(!is_free(head.last())) by {
            assert(head.last() == fs[i - 1]);
            assert(!(is_free(fs[i - 1]) && is_free(fs[i])));
        }
        assert forall|x: int, y: int| 0 <= x && y == x + 1 && y < head.len() implies !(is_free(
            #[trigger] head[x],
        ) && is_free(#[trigger] head[y])) by {
            assert(head[x] == fs[x] && head[y] == fs[y]);
        }
        assert(rest[0] == b[i]);
        lemma_merged_prefix(head, rest);
    }
}

/// Searching for a start from any frame before the first frame with that
/// start gives the same frame.
proof fn lemma_first_at_skip(fs: Seq<StackRegion>, start: int, k: int, i: int)
    requires
        0 <= k <= i < fs.len(),
        fs[i].start == start,
        forall|j: int| 0 <= j < i ==> (#[trigger] fs[j]).start != start,
    ensures
        first_at_from(fs, start, k) == Some(i),
    decreases i - k,
{
    if k < i {
        lemma_first_at_skip(fs, start, k + 1, i);
    }
}

/// The used frames, in order.
pub open spec fn used_frames(fs: Seq<StackRegion>) -> Seq<StackRegion>
    decreases fs.len(),
{
    if fs.len() == 0 {
        Seq::empty()
    } else if is_free(fs[0]) {
        used_frames(fs.drop_first())
    } else {
        seq![fs[0]] + used_frames(fs.drop_first())
    }
}

/// After merging, no two neighbouring frames are both free.
pub proof fn lemma_merged_no_adjacent_free(fs: Seq<StackRegion>)
    ensures
        no_adjacent_free(merged(fs)),
    decreases fs.len(),
{
    reveal(merged);
    if fs.len() > 1 {
        let tail = fs.drop_first();
        let rest = merged(tail);
        lemma_merged_no_adjacent_free(tail);
        lemma_merged_first(tail);
        let m = merged(fs);
        if is_free(fs[0]) && is_free(rest[0]) {
            let f = StackRegion { start: fs[0].start, end: rest[0].end, state: FrameState::Free };
            assert(m == seq![f] + rest.drop_first());
            assert forall|i: int, j: int| 0 <= i && j == i + 1 && j < m.len() implies !(is_free(
                #[trigger] m[i],
            ) && is_free(#[trigger] m[j])) by {
                assert(m[j] == rest[j]);
                if i > 0 {
                    assert(m[i] == rest[i]);
                } else {
                    assert(!(is_free(rest[0]) && is_free(rest[1])));
                }
            }
        } else {
            assert(m == seq![fs[0]] + rest);
            assert forall|i: int, j: int| 0 <= i && j == i + 1 && j < m.len() implies !(is_free(
                #[trigger] m[i],
            ) && is_free(#[trigger] m[j])) by {
                assert(m[j] == rest[j - 1]);
                if i > 0 {
                    assert(m[i] == rest[i - 1]);
                }
            }
        }
    }
}

/// Compacting twice is compacting once: the frames after one compaction
/// have no free neighbours left to merge.
pub proof fn lemma_compact_idempotent(fs: Seq<StackRegion>)
    ensures
        merged(merged(fs)) == merged(fs),
{
    lemma_merged_no_adjacent_free(fs);
    lemma_merged_noop(merged(fs));
}

/// Compaction keeps the used frames, in order: it only merges free ones.
pub proof fn lemma_compact_keeps_used_frames(fs: Seq<StackRegion>)
    ensures
        used_frames(merged(fs)) == used_frames(fs),
    decreases fs.len(),
{
    reveal(merged);
    if fs.len() > 1 {
        let tail = fs.drop_first();
        let rest = merged(tail);
        lemma_compact_keeps_used_frames(tail);
        lemma_merged_first(tail);
        let m = merged(fs);
        if is_free(fs[0]) && is_free(rest[0]) {
            let f = StackRegion { start: fs[0].start, end: rest[0].end, state: FrameState::Free };
            assert(m == seq![f] + rest.drop_first());
            assert(m.drop_first() =~= rest.drop_first());
            assert(used_frames(m) == used_frames(rest.drop_first()));
            assert(used_frames(rest) == used_frames(rest.drop_first()));
        } else {
            assert(m == seq![fs[0]] + rest);
            assert(m.drop_first() =~= rest);
            assert(m[0] == fs[0]);
        }
    }
}

/// The number of bytes in free frames.
pub open spec fn free_size(fs: Seq<StackRegion>) -> int
    decreases fs.len(),
{
    if fs.len() == 0 {
        0
    } else {
        (if is_free(fs[0]) { fs[0].end - fs[0].start } else { 0 }) + free_size(fs.drop_first())
    }
}

/// Compaction keeps the number of free bytes: each merged frame spans the
/// free frames it replaces, which meet end to start.
pub proof fn lemma_compact_keeps_free_size(fs: Seq<StackRegion>)
    requires
        forall|i: int, j: int| 0 <= i && j == i + 1 && j < fs.len() ==> #[trigger] fs[i].end == #[trigger] fs[j].start,
    ensures
        free_size(merged(fs)) == free_size(fs),
    decreases fs.len(),
{
    reveal(merged);
    if fs.len() > 1 {
        let tail = fs.drop_first();
        assert forall|i: int, j: int| 0 <= i && j == i + 1 && j < tail.len() implies #[trigger] tail[i].end
            == #[trigger] tail[j].start by {
            assert(tail[i] == fs[i + 1] && tail[j] == fs[j + 1]);
        }
        lemma_compact_keeps_free_size(tail);
        lemma_merged_first(tail);
        let rest = merged(tail);
        let m = merged(fs);
        assert(fs[0].end == fs[1].start);
        if is_free(fs[0]) && is_free(rest[0]) {
            let f = StackRegion { start: fs[0].start, end: rest[0].end, state: FrameState::Free };
            assert(m == seq![f] + rest.drop_first());
            assert(m.drop_first() =~= rest.drop_first());
        } else {
            assert(m == seq![fs[0]] + rest);
            assert(m.drop_first() =~= rest);
        }
    }
}

/// The addresses of a frame.
pub open spec fn frame_bytes(r: StackRegion) -> Set<int> {
    Set::new(|x: int| r.start <= x < r.end)
}

/// The addresses in free frames.
pub open spec fn free_bytes(fs: Seq<StackRegion>) -> Set<int>
    decreases fs.len(),
{
    if fs.len() == 0 {
        Set::empty()
    } else {
        (if is_free(fs[0]) { frame_bytes(fs[0]) } else { Set::empty() }).union(free_bytes(fs.drop_first()))
    }
}

/// Compaction keeps the addresses in free frames: each merged frame covers
/// exactly the free frames it replaces, which meet end to start.
pub proof fn lemma_compact_keeps_free_bytes(fs: Seq<StackRegion>)
    requires
        forall|i: int, j: int| 0 <= i && j == i + 1 && j < fs.len() ==> #[trigger] fs[i].end == #[trigger] fs[j].start,
        forall|i: int| 0 <= i < fs.len() ==> (#[trigger] fs[i]).start <= fs[i].end,
    ensures
        free_bytes(merged(fs)) == free_bytes(fs),
        forall|k: int| 0 <= k < merged(fs).len() ==> (#[trigger] merged(fs)[k]).start <= merged(fs)[k].end,
    decreases fs.len(),
{
    reveal(merged);
    if fs.len() > 1 {
        let tail = fs.drop_first();
        assert forall|i: int, j: int| 0 <= i && j == i + 1 && j < tail.len() implies #[trigger] tail[i].end
            == #[trigger] tail[j].start by {
            assert(tail[i] == fs[i + 1] && tail[j] == fs[j + 1]);
        }
        assert forall|i: int| 0 <= i < tail.len() implies (#[trigger] tail[i]).start <= tail[i].end by {
            assert(tail[i] == fs[i + 1]);
        }
        lemma_compact_keeps_free_bytes(tail);
        lemma_merged_first(tail);
        let rest = merged(tail);
        let m = merged(fs);
        assert(fs[0].end == fs[1].start);
        if is_free(fs[0]) && is_free(rest[0]) {
            let f = StackRegion { start: fs[0].start, end: rest[0].end, state: FrameState::Free };
            assert(m == seq![f] + rest.drop_first());
            assert(m.drop_first() =~= rest.drop_first());
            assert(rest[0].start <= rest[0].end);
            assert(frame_bytes(f) =~= frame_bytes(fs[0]).union(frame_bytes(rest[0])));
            assert(free_bytes(m) =~= frame_bytes(fs[0]).union(free_bytes(rest)));
            assert forall|k: int| 0 <= k < m.len() implies (#[trigger] m[k]).start <= m[k].end by {
                if k > 0 {
                    assert(m[k] == rest[k]);
                }
            }
        } else {
            assert(m == seq![fs[0]] + rest);
            assert(m.drop_first() =~= rest);
            assert forall|k: int| 0 <= k < m.len() implies (#[trigger] m[k]).start <= m[k].end by {
                if k > 0 {
                    assert(m[k] == rest[k - 1]);
                }
            }
        }
    } else {
        assert(merged(fs) == fs);
    }
}

/// The free addresses and the free byte count of two runs of frames are
/// those of each run together.
pub proof fn lemma_free_of_concat(p: Seq<StackRegion>, q: Seq<StackRegion>)
    ensures
        free_bytes(p + q) == free_bytes(p).union(free_bytes(q)),
        free_size(p + q) == free_size(p) + free_size(q),
    decreases p.len(),
{
    if p.len() == 0 {
        assert(p + q =~= q);
        assert(free_bytes(p).union(free_bytes(q)) =~= free_bytes(q));
    } else {
        lemma_free_of_concat(p.drop_first(), q);
        assert((p + q).drop_first() =~= p.drop_first() + q);
        assert((p + q)[0] == p[0]);
        let h: Set<int> = if is_free(p[0]) { frame_bytes(p[0]) } else { Set::empty() };
        assert(h.union(free_bytes(p.drop_first()).union(free_bytes(q))) =~= h.union(free_bytes(p.drop_first())).union(
            free_bytes(q),
        ));
    }
}

/// Freeing a frame just allocated gives back the free addresses of before
/// the allocation: `free` finds the allocated frame by its start and makes it
/// free, and every other frame keeps its bounds and state.
pub proof fn lemma_free_after_allocate(fs: Seq<StackRegion>, start: int, end: int, pid: Pid, size: int)
    requires
        tiles(fs, start, end),
        forall|j: int| 0 <= j < fs.len() ==> (#[trigger] fs[j]).start < fs[j].end,
        first_fit(fs, size) is Some,
        0 <= size,
    ensures
        ({
            let i = first_fit(fs, size)->Some_0;
            let a = split_at(fs, i, pid, size);
            let b = a.update(i, StackRegion { start: a[i].start, end: a[i].end, state: FrameState::Free });
            &&& first_at(a, fs[i].start as int) == Some(i)
            &&& free_bytes(b) == free_bytes(fs)
            &&& free_size(b) == free_size(fs)
        }),
{
    lemma_first_fit_from(fs, size, 0);
    let i = first_fit(fs, size)->Some_0;
    let f = fs[i];
    let a = split_at(fs, i, pid, size);
    let b = a.update(i, StackRegion { start: a[i].start, end: a[i].end, state: FrameState::Free });
    // `free` finds frame `i`.
    assert forall|k: int| 0 <= k < i implies (#[trigger] a[k]).start != f.start by {
        lemma_starts_increase(fs, start, end, k, i);
    }
    lemma_first_at_skip(a, f.start as int, 0, i);
    // The freed frames cover the frame they were cut from.
    let head = fs.subrange(0, i);
    let tail = fs.subrange(i + 1, fs.len() as int);
    assert(fs =~= head + (seq![f] + tail));
    lemma_free_of_concat(head, seq![f] + tail);
    lemma_free_of_concat(seq![f], tail);
    let lo = StackRegion { start: f.start, end: (f.start + size) as usize, state: FrameState::Free };
    if f.end - f.start > size {
        let hi = StackRegion { start: (f.start + size) as usize, end: f.end, state: FrameState::Free };
        assert(b =~= head + (seq![lo, hi] + tail));
        lemma_free_of_concat(head, seq![lo, hi] + tail);
        lemma_free_of_concat(seq![lo, hi], tail);
        lemma_free_of_concat(seq![lo], seq![hi]);
        assert(seq![lo] + seq![hi] =~= seq![lo, hi]);
        assert(seq![lo].drop_first() =~= Seq::<StackRegion>::empty());
        assert(seq![hi].drop_first() =~= Seq::<StackRegion>::empty());
        assert(seq![f].drop_first() =~= Seq::<StackRegion>::empty());
        assert(free_bytes(seq![lo].drop_first()) =~= Set::<int>::empty());
        assert(free_bytes(seq![lo]) =~= frame_bytes(lo));
        assert(free_bytes(seq![hi]) =~= frame_bytes(hi));
        assert(free_bytes(seq![f]) =~= frame_bytes(f));
        assert(frame_bytes(lo).union(frame_bytes(hi)) =~= frame_bytes(f));
        assert(free_size(seq![lo].drop_first()) == 0);
        assert(free_size(seq![lo]) == size);
        assert(free_size(seq![hi]) == f.end - f.start - size);
        assert(free_size(seq![f]) == f.end - f.start);
        assert(free_bytes(b) =~= free_bytes(fs));
        assert(free_size(b) == free_size(fs));
    } else {
        assert(b =~= head + (seq![lo] + tail));
        lemma_free_of_concat(head, seq![lo] + tail);
        lemma_free_of_concat(seq![lo], tail);
        assert(seq![lo].drop_first() =~= Seq::<StackRegion>::empty());
        assert(seq![f].drop_first() =~= Seq::<StackRegion>::empty());
        assert(frame_bytes(lo) =~= frame_bytes(f));
        assert(free_bytes(seq![lo].drop_first()) =~= Set::<int>::empty());
        assert(free_bytes(seq![lo]) =~= frame_bytes(lo));
        assert(free_bytes(seq![f]) =~= frame_bytes(f));
        assert(free_size(seq![lo]) == free_size(seq![f]));
        assert(free_bytes(b) =~= free_bytes(fs));
        assert(free_size(b) == free_size(fs));
    }
}

} // verus!
