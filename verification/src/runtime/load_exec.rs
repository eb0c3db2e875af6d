//! Executable memory for translated functions: which pages hold code, how
//! full they are, and where each loaded function starts.
use vstd::prelude::*;

use crate::error::HiveError;

verus! {

/// The size of a page of executable memory.
pub const PAGE_SIZE: usize = 4096;

/// The index of a function in the file's function table.
#[derive(Debug, Clone, Copy, PartialEq, Eq, Structural, Hash)]
pub struct FunctionId(pub u32);

/// A page of executable memory: `size` bytes at address `ptr`.
#[derive(Debug, Clone, Copy, PartialEq, Eq, Structural)]
pub struct ExecPage {
    pub ptr: usize,
    pub size: usize,
}

/// A function placed in executable memory: `len` bytes from address `ptr`.
#[derive(Debug, Clone, Copy, PartialEq, Eq, Structural)]
pub struct LoadedFunc {
    pub id: FunctionId,
    pub ptr: usize,
    pub len: usize,
}

impl LoadedFunc {
    pub fn ptr(&self) -> (p: usize)
        ensures
            p == self.ptr,
    {
        self.ptr
    }

    pub fn len(&self) -> (l: usize)
        ensures
            l == self.len,
    {
        self.len
    }

    pub fn is_empty(&self) -> (b: bool)
        ensures
            b == (self.len == 0),
    {
        self.len == 0
    }

    pub fn id(&self) -> (i: FunctionId)
        ensures
            i == self.id,
    {
        self.id
    }
}

/// A page the manager fills with code: its first `used` bytes are taken.
#[derive(Debug, Clone, Copy, PartialEq, Eq, Structural)]
pub struct ManagedPage {
    pub page: ExecPage,
    pub used: usize,
}

impl ManagedPage {
    /// The bytes of the page still free.
    pub fn remaining(&self) -> (r: usize)
        requires
            self.used <= PAGE_SIZE,
        ensures
            r == PAGE_SIZE - self.used,
    {
        PAGE_SIZE - self.used
    }
}

/// Where a function's code goes: whole into the free room of one page, or
/// into `pages` new pages at consecutive addresses, each full but the last.
#[derive(Debug, Clone, Copy, PartialEq, Eq, Structural)]
pub enum LoadPlan {
    /// The code goes to byte `offset` of page `page`.
    Fill { page: usize, offset: usize },
    /// The code goes to the start of `pages` new pages in a row.
    NewPages { pages: usize },
}

/// The first page from `k` on whose free room holds `len` bytes.
pub open spec fn first_room_from(pages: Seq<ManagedPage>, len: int, k: int) -> Option<int>
    decreases pages.len() - k,
{
    if k < 0 || k >= pages.len() {
        None
    } else if PAGE_SIZE - pages[k].used >= len {
        Some(k)
    } else {
        first_room_from(pages, len, k + 1)
    }
}

/// The number of pages `len` bytes of code take.
pub open spec fn pages_for(len: int) -> int {
    (len - 1) / (PAGE_SIZE as int) + 1
}

/// Where `len` bytes of code go: into the first page with room for all of
/// them, else into new pages.
pub open spec fn spec_plan(pages: Seq<ManagedPage>, len: int) -> LoadPlan {
    match first_room_from(pages, len, 0) {
        Some(k) => LoadPlan::Fill { page: k as usize, offset: pages[k].used },
        None => LoadPlan::NewPages { pages: pages_for(len) as usize },
    }
}

/// The `n` new pages from address `base` holding `len` bytes of code: each
/// page full but the last, which holds the rest.
pub open spec fn new_region(base: int, len: int, n: int) -> Seq<ManagedPage> {
    Seq::new(
        n as nat,
        |j: int|
            ManagedPage {
                page: ExecPage { ptr: (base + j * (PAGE_SIZE as int)) as usize, size: PAGE_SIZE },
                used: if j < n - 1 { PAGE_SIZE } else { (len - (n - 1) * (PAGE_SIZE as int)) as usize },
            },
    )
}

/// The function table with `id` in it: a table too short for it first grows
/// with empty slots.
pub open spec fn grown(fs: Seq<Option<LoadedFunc>>, id: FunctionId) -> Seq<Option<LoadedFunc>> {
    if fs.len() <= id.0 {
        fs + Seq::new((id.0 - fs.len() + 1) as nat, |j: int| None::<LoadedFunc>)
    } else {
        fs
    }
}

/// The function table after loading function `id`: the function takes its
/// slot, the table growing to reach it where it is too short.
pub open spec fn register(fs: Seq<Option<LoadedFunc>>, id: FunctionId, f: LoadedFunc) -> Seq<Option<LoadedFunc>> {
    grown(fs, id).update(id.0 as int, Some(f))
}

/// Tracks the pages of executable memory and the loaded functions. A loaded
/// function stays loaded, and the pages holding code stay in use.
pub struct ExecPageManager {
    pub pages: Vec<ManagedPage>,
    pub functions: Vec<Option<LoadedFunc>>,
}

impl ExecPageManager {
    /// Every page is a whole page within the address space, with at most a
    /// page's bytes taken.
    pub open spec fn wf(&self) -> bool {
        forall|k: int|
            0 <= k < self.pages@.len() ==> {
                &&& (#[trigger] self.pages@[k]).used <= PAGE_SIZE
                &&& self.pages@[k].page.size == PAGE_SIZE
                &&& self.pages@[k].page.ptr + PAGE_SIZE <= usize::MAX
            }
    }

    /// A manager without pages whose function table has `num_funcs` empty slots.
    pub fn new(num_funcs: usize) -> (m: Self)
        ensures
            m.wf(),
            m.pages@.len() == 0,
            m.functions@ == Seq::new(num_funcs as nat, |j: int| None::<LoadedFunc>),
    {
        let mut functions: Vec<Option<LoadedFunc>> = Vec::with_capacity(num_funcs);
        let mut i: usize = 0;
        while i < num_funcs
            invariant
                i <= num_funcs,
                functions@ == Seq::new(i as nat, |j: int| None::<LoadedFunc>),
            decreases num_funcs - i,
        {
            functions.push(None);
            i = i + 1;
            assert(functions@ =~= Seq::new(i as nat, |j: int| None::<LoadedFunc>));
        }
        ExecPageManager { pages: Vec::new(), functions }
    }

    /// The loaded function `id`. Where the function table is too short for
    /// it, it first grows to reach `id` with empty slots.
    pub fn get_func(&mut self, id: FunctionId) -> (res: Result<LoadedFunc, HiveError>)
        ensures
            final(self).pages@ == old(self).pages@,
            final(self).functions@ == if old(self).functions@.len() <= id.0 {
                old(self).functions@ + Seq::new((id.0 - old(self).functions@.len() + 1) as nat, |j: int| None::<LoadedFunc>)
            } else {
                old(self).functions@
            },
            match final(self).functions@[id.0 as int] {
                Some(f) => res == Ok::<LoadedFunc, HiveError>(f),
                None => res == Err::<LoadedFunc, HiveError>(HiveError::FunctionNotLoaded(id)),
            },
    {
        let index = id.0 as usize;
        if self.functions.len() <= index {
            let ghost start = self.functions@;
            while self.functions.len() <= index
                invariant
                    start.len() <= index,
                    self.functions@.len() <= index + 1,
                    self.functions@ == start + Seq::new((self.functions@.len() - start.len()) as nat, |j: int| None::<LoadedFunc>),
                    self.pages@ == old(self).pages@,
                    start == old(self).functions@,
                decreases index + 1 - self.functions@.len(),
            {
                self.functions.push(None);
                assert(self.functions@ =~= start + Seq::new((self.functions@.len() - start.len()) as nat, |j: int| None::<LoadedFunc>));
            }
        }
        match self.functions[index] {
            Some(f) => Ok(f),
            None => Err(HiveError::FunctionNotLoaded(id)),
        }
    }

    /// Whether function `id` is loaded.
    pub fn func_exists(&self, id: FunctionId) -> (b: bool)
        ensures
            b == (id.0 < self.functions@.len() && self.functions@[id.0 as int] is Some),
    {
        let index = id.0 as usize;
        if index < self.functions.len() {
            match self.functions[index] {
                Some(_) => true,
                None => false,
            }
        } else {
            false
        }
    }

    /// Plans where `len` bytes of code go: whole into the first page with
    /// room for them, else into new pages in a row. Code of no bytes is
    /// refused.
    pub fn plan_load(&self, len: usize) -> (res: Result<LoadPlan, HiveError>)
        requires
            self.wf(),
        ensures
            len == 0 ==> res == Err::<LoadPlan, HiveError>(HiveError::EmptyFunction),
            len > 0 ==> res == Ok::<LoadPlan, HiveError>(spec_plan(self.pages@, len as int)),
    {
        if len == 0 {
            return Err(HiveError::EmptyFunction);
        }
        let mut k: usize = 0;
        while k < self.pages.len()
            invariant
                self.wf(),
                len > 0,
                k <= self.pages@.len(),
                first_room_from(self.pages@, len as int, 0) == first_room_from(self.pages@, len as int, k as int),
            decreases self.pages@.len() - k,
        {
            let managed = self.pages[k];
            if managed.remaining() >= len {
                return Ok(LoadPlan::Fill { page: k, offset: managed.used });
            }
            k = k + 1;
        }
        Ok(LoadPlan::NewPages { pages: (len - 1) / PAGE_SIZE + 1 })
    }

    /// Loads `len` bytes of code as function `id` as the plan says. New
    /// pages, where the plan asks for them, have been mapped in a row at
    /// `base`. The function starts where its first byte goes and the function
    /// table records it. Returns the plan, for copying the code, and the
    /// function.
    pub fn commit_load(&mut self, id: FunctionId, len: usize, base: usize) -> (res: (LoadPlan, LoadedFunc))
        requires
            old(self).wf(),
            len > 0,
            spec_plan(old(self).pages@, len as int) is NewPages ==> base + pages_for(len as int) * (PAGE_SIZE as int)
                <= usize::MAX,
        ensures
            final(self).wf(),
            res.0 == spec_plan(old(self).pages@, len as int),
            match res.0 {
                LoadPlan::Fill { page, offset } => {
                    let m = old(self).pages@[page as int];
                    &&& final(self).pages@ == old(self).pages@.update(
                        page as int,
                        ManagedPage { page: m.page, used: (m.used + len) as usize },
                    )
                    &&& res.1 == (LoadedFunc { id, ptr: (m.page.ptr + offset) as usize, len })
                },
                LoadPlan::NewPages { pages } => {
                    &&& final(self).pages@ == old(self).pages@ + new_region(base as int, len as int, pages as int)
                    &&& res.1 == (LoadedFunc { id, ptr: base, len })
                },
            },
            final(self).functions@ == register(old(self).functions@, id, res.1),
    {
        let page_count: usize = self.pages.len();
        proof {
            lemma_first_room(self.pages@, len as int, 0);
        }
        let plan = match self.plan_load(len) {
            Ok(p) => p,
            Err(_) => {
                proof {
                    assert(false);
                }
                LoadPlan::NewPages { pages: 0 }
            },
        };
        let ptr: usize = match plan {
            LoadPlan::Fill { page, offset } => {
                let mut m = self.pages[page];
                let ptr = m.page.ptr + offset;
                m.used = m.used + len;
                self.pages.set(page, m);
                ptr
            },
            LoadPlan::NewPages { pages } => {
                let ghost start = self.pages@;
                proof {
                    lemma_pages_for(len as int);
                }
                let mut j: usize = 0;
                while j < pages
                    invariant
                        pages == pages_for(len as int),
                        len > 0,
                        base + pages * PAGE_SIZE <= usize::MAX,
                        (pages - 1) * PAGE_SIZE < len <= pages * PAGE_SIZE,
                        j <= pages,
                        self.pages@ == start + new_region(base as int, len as int, pages as int).take(j as int),
                        self.functions@ == old(self).functions@,
                    decreases pages - j,
                {
                    let used: usize = if j + 1 < pages { PAGE_SIZE } else { len - j * PAGE_SIZE };
                    let page = ManagedPage { page: ExecPage { ptr: base + j * PAGE_SIZE, size: PAGE_SIZE }, used };
                    self.pages.push(page);
                    j = j + 1;
                    assert(self.pages@ =~= start + new_region(base as int, len as int, pages as int).take(j as int));
                }
                assert(new_region(base as int, len as int, pages as int).take(j as int) =~= new_region(
                    base as int,
                    len as int,
                    pages as int,
                ));
                base
            },
        };
        let func = LoadedFunc { id, ptr, len };
        let ghost placed = self.pages@;
        let index = id.0 as usize;
        if self.functions.len() <= index {
            let ghost start = self.functions@;
            let mut c: usize = index - self.functions.len();
            while c != 0
                invariant
                    start.len() <= index,
                    self.functions@.len() + c == index,
                    self.pages@ == placed,
                    self.functions@ == start + Seq::new((self.functions@.len() - start.len()) as nat, |j: int| None::<LoadedFunc>),
                decreases c,
            {
                self.functions.push(None);
                c = c - 1;
                assert(self.functions@ =~= start + Seq::new((self.functions@.len() - start.len()) as nat, |j: int| None::<LoadedFunc>));
            }
            self.functions.push(None);
            assert(self.functions@ =~= start + Seq::new((self.functions@.len() - start.len()) as nat, |j: int| None::<LoadedFunc>));
        }
        assert(self.functions@ == grown(old(self).functions@, id));
        self.functions.set(index, Some(func));
        proof {
            assert(old(self).pages@.len() == page_count);
            lemma_plan_places_code(old(self).pages@, len as int);
            lemma_pages_for(len as int);
            let n = pages_for(len as int);
            assert forall|k: int| 0 <= k < self.pages@.len() implies {
                &&& (#[trigger] self.pages@[k]).used <= PAGE_SIZE
                &&& self.pages@[k].page.size == PAGE_SIZE
                &&& self.pages@[k].page.ptr + PAGE_SIZE <= usize::MAX
            } by {
                match plan {
                    LoadPlan::Fill { page, offset } => {
                        assert(old(self).pages@[k].used <= PAGE_SIZE);
                    },
                    LoadPlan::NewPages { pages } => {
                        if k >= old(self).pages@.len() {
                            let j = k - old(self).pages@.len();
                            assert(self.pages@[k] == new_region(base as int, len as int, n)[j]);
                            assert(j * 4096 + 4096 <= n * 4096) by (nonlinear_arith)
                                requires
                                    0 <= j < n,
                            ;
                        } else {
                            assert(old(self).pages@[k].used <= PAGE_SIZE);
                        }
                    },
                }
            }
        }
        (plan, func)
    }
}

impl Default for ExecPageManager {
    fn default() -> (m: Self)
        ensures
            m.wf(),
            m.pages@.len() == 0,
            m.functions@.len() == 0,
    {
        ExecPageManager::new(0)
    }
}

/// The first page with room from `k` on has room, and no page between `k`
/// and it has; where there is none, no page from `k` on has room.
pub proof fn lemma_first_room(pages: Seq<ManagedPage>, len: int, k: int)
    requires
        0 <= k,
    ensures
        match first_room_from(pages, len, k) {
            Some(i) => k <= i < pages.len() && PAGE_SIZE - pages[i].used >= len
                && forall|j: int| k <= j < i ==> PAGE_SIZE - (#[trigger] pages[j]).used < len,
            None => forall|j: int| k <= j < pages.len() ==> PAGE_SIZE - (#[trigger] pages[j]).used < len,
        },
    decreases pages.len() - k,
{
    if k < pages.len() && PAGE_SIZE - pages[k].used < len {
        lemma_first_room(pages, len, k + 1);
    }
}

/// A function's code is placed as one run of bytes: either whole into the
/// free room of a page, right after the bytes taken, or from the start of
/// new pages in a row, just enough of them, each full but the last.
pub proof fn lemma_plan_places_code(pages: Seq<ManagedPage>, len: int)
    requires
        0 < len <= usize::MAX,
        pages.len() <= usize::MAX,
    ensures
        match spec_plan(pages, len) {
            LoadPlan::Fill { page, offset } => {
                &&& 0 <= page < pages.len()
                &&& offset == pages[page as int].used
                &&& offset + len <= PAGE_SIZE
            },
            LoadPlan::NewPages { pages: n } => {
                &&& n >= 1
                &&& (n - 1) * (PAGE_SIZE as int) < len <= n * (PAGE_SIZE as int)
                &&& forall|j: int| 0 <= j < n - 1 ==> #[trigger] new_region(0, len, n as int)[j].used == PAGE_SIZE
                &&& new_region(0, len, n as int)[n - 1].used + (n - 1) * (PAGE_SIZE as int) == len
            },
        },
{
    lemma_first_room(pages, len, 0);
    lemma_pages_for(len);
    let n = pages_for(len);
    assert(new_region(0, len, n)[n - 1].used == len - (n - 1) * 4096);
}

/// Code of `len` bytes needs `pages_for(len)` pages: one at least, and the
/// last of them not empty.
pub proof fn lemma_pages_for(len: int)
    requires
        0 < len,
    ensures
        pages_for(len) >= 1,
        (pages_for(len) - 1) * (PAGE_SIZE as int) < len <= pages_for(len) * (PAGE_SIZE as int),
{
    let q = (len - 1) / 4096;
    assert(q * 4096 <= len - 1 < q * 4096 + 4096) by (nonlinear_arith)
        requires
            q == (len - 1) / 4096,
            len > 0,
    ;
}

/// Recording a loaded function: it is found in its slot afterwards, and the
/// other slots keep what they held.
pub proof fn lemma_register_then_lookup(fs: Seq<Option<LoadedFunc>>, id: FunctionId, f: LoadedFunc)
    ensures
        register(fs, id, f)[id.0 as int] == Some(f),
        register(fs, id, f).len() == if fs.len() <= id.0 { id.0 + 1 } else { fs.len() as int },
        forall|j: int| 0 <= j < fs.len() && j != id.0 ==> #[trigger] register(fs, id, f)[j] == fs[j],
{
}

} // verus!
