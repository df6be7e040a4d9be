//! The linear memory of one execution and the record of the pages it wrote.

use crate::error::{Failure, HypervisorError};
use crate::page_map::{page_in, PageIndex, PageMap, PAGE_SIZE};
use vstd::prelude::*;

verus! {

/// The size in bytes of the pages in which a guest's memory is sized.
pub const WASM_PAGE_SIZE: usize = 65536;

/// How an execution records the pages it writes.
#[derive(Clone, Copy, Debug, PartialEq, Eq, Structural)]
pub enum DirtyPageTracking {
    /// Nothing is recorded: whoever persists the memory takes every page as
    /// written, or compares the memory with what it was.
    Ignore,
    /// Every write records the pages it reaches, each page once.
    Track,
}

/// Whether `count` bytes from offset `dst` lie within a memory of `len` bytes.
pub open spec fn fits(len: nat, dst: int, count: nat) -> bool {
    0 <= dst && dst + count <= len
}

/// The memory after `data` was copied to offset `dst`.
pub open spec fn overwrite(heap: Seq<u8>, dst: int, data: Seq<u8>) -> Seq<u8> {
    Seq::new(
        heap.len(),
        |i: int|
            if dst <= i < dst + data.len() {
                data[i - dst]
            } else {
                heap[i]
            },
    )
}

/// The pages that a write of `count` bytes to offset `dst` reaches: none for
/// an empty write, else those from the page of its first byte to the page of
/// its last.
pub open spec fn pages_touched(dst: int, count: nat) -> Set<int> {
    Set::new(|p: int| count > 0 && dst / (PAGE_SIZE as int) <= p <= (dst + count - 1) / (PAGE_SIZE as int))
}

/// The content of page `p` of a memory.
pub open spec fn page_of(heap: Seq<u8>, p: int) -> Seq<u8> {
    heap.subrange(p * PAGE_SIZE, (p + 1) * PAGE_SIZE)
}

/// The pages whose content differs between two memories of the same size.
pub open spec fn changed_pages(before: Seq<u8>, after: Seq<u8>) -> Set<int> {
    Set::new(
        |p: int| 0 <= p < before.len() / (PAGE_SIZE as nat) && page_of(before, p) != page_of(after, p),
    )
}

/// The memory of an execution with the set of pages recorded as written.
pub struct RegionState {
    pub bytes: Seq<u8>,
    pub dirty: Set<int>,
    pub tracking: DirtyPageTracking,
}

impl RegionState {
    /// The state in which an execution starts: nothing is recorded yet.
    pub open spec fn fresh(bytes: Seq<u8>, tracking: DirtyPageTracking) -> RegionState {
        RegionState { bytes, dirty: Set::empty(), tracking }
    }

    /// The state after a write. A write that does not lie within the memory
    /// is refused and changes nothing.
    pub open spec fn write(self, dst: int, data: Seq<u8>) -> RegionState {
        if fits(self.bytes.len(), dst, data.len()) {
            RegionState {
                bytes: overwrite(self.bytes, dst, data),
                dirty: if self.tracking is Track {
                    self.dirty.union(pages_touched(dst, data.len()))
                } else {
                    self.dirty
                },
                tracking: self.tracking,
            }
        } else {
            self
        }
    }

    /// The state after a sequence of writes, applied in order.
    pub open spec fn run(self, writes: Seq<(int, Seq<u8>)>) -> RegionState
        decreases writes.len(),
    {
        if writes.len() == 0 {
            self
        } else {
            self.run(writes.drop_last()).write(writes.last().0, writes.last().1)
        }
    }
}

/// Whether every page that `state` has not recorded holds what it holds in
/// `heap`.
pub open spec fn unrecorded_unchanged(state: RegionState, heap: Seq<u8>) -> bool {
    &&& state.bytes.len() == heap.len()
    &&& forall|p: int|
        0 <= p < heap.len() / (PAGE_SIZE as nat) && !state.dirty.contains(p) ==> #[trigger] page_of(
            state.bytes,
            p,
        ) == page_of(heap, p)
}

/// A tracked write leaves every page that stays unrecorded as it was.
pub proof fn lemma_write_keeps_unrecorded(state: RegionState, heap: Seq<u8>, dst: int, data: Seq<u8>)
    requires
        state.tracking is Track,
        unrecorded_unchanged(state, heap),
    ensures
        unrecorded_unchanged(state.write(dst, data), heap),
{
    let after = state.write(dst, data);
    if fits(state.bytes.len(), dst, data.len()) {
        assert forall|p: int|
            0 <= p < heap.len() / (PAGE_SIZE as nat) && !after.dirty.contains(p) implies #[trigger] page_of(
            after.bytes,
            p,
        ) == page_of(heap, p) by {
            assert(!state.dirty.contains(p));
            assert(!pages_touched(dst, data.len()).contains(p));
            assert(page_of(state.bytes, p) == page_of(heap, p));
            assert forall|i: int| p * PAGE_SIZE <= i < (p + 1) * PAGE_SIZE implies after.bytes[i]
                == #[trigger] state.bytes[i] by {
                if data.len() > 0 {
                    assert(i / (PAGE_SIZE as int) == p);
                    if dst <= i < dst + data.len() {
                        assert(dst / (PAGE_SIZE as int) <= p);
                        assert(p <= (dst + data.len() - 1) / (PAGE_SIZE as int));
                    }
                }
            }
            assert(page_of(after.bytes, p) =~= page_of(state.bytes, p));
        }
    }
}

/// Whether `listed` holds exactly the pages of `pages`, in ascending order and
/// each once.
pub open spec fn lists(listed: Seq<PageIndex>, pages: Set<int>) -> bool {
    &&& forall|i: int, j: int| 0 <= i < j < listed.len() ==> listed[i].0 < listed[j].0
    &&& forall|i: int| 0 <= i < listed.len() ==> pages.contains(#[trigger] listed[i].0 as int)
    &&& forall|p: int|
        pages.contains(p) ==> exists|i: int| 0 <= i < listed.len() && #[trigger] listed[i].0 == p
}

/// The memory that the first `num_pages` pages of a page map make up.
pub open spec fn flatten(pages: Map<u64, Seq<u8>>, num_pages: nat) -> Seq<u8> {
    Seq::new(
        num_pages * (PAGE_SIZE as nat),
        |i: int| page_in(pages, (i / (PAGE_SIZE as int)) as u64)[i % (PAGE_SIZE as int)],
    )
}

/// The failure of an access that does not lie within the memory.
pub open spec fn out_of_bounds() -> Failure {
    Failure::ContractViolation("memory access out of bounds"@)
}

/// The linear memory that one execution owns: a whole number of pages, with
/// the pages written so far where the execution tracks them.
pub struct MemoryRegion {
    bytes: Vec<u8>,
    dirty: Vec<bool>,
    tracking: DirtyPageTracking,
    initial: Ghost<Seq<u8>>,
}

impl MemoryRegion {
    pub closed spec fn wf(self) -> bool {
        &&& self.bytes@.len() == self.dirty@.len() * PAGE_SIZE
        &&& self.tracking is Ignore ==> forall|p: int|
            0 <= p < self.dirty@.len() ==> !#[trigger] self.dirty@[p]
        &&& self.initial@.len() == self.bytes@.len()
        &&& self.tracking is Track ==> unrecorded_unchanged(self@, self.initial@)
        &&& self.bytes@.len() <= usize::MAX
    }

    /// The memory as it was when the execution started.
    pub closed spec fn initial(self) -> Seq<u8> {
        self.initial@
    }

    pub closed spec fn view(self) -> RegionState {
        RegionState {
            bytes: self.bytes@,
            dirty: Set::new(|p: int| 0 <= p < self.dirty@.len() && self.dirty@[p]),
            tracking: self.tracking,
        }
    }

    /// The number of pages of the memory.
    pub open spec fn num_pages(self) -> nat {
        self@.bytes.len() / (PAGE_SIZE as nat)
    }

    /// The memory is a whole number of pages that can be addressed, the
    /// recorded pages are pages of it, and nothing is recorded where the
    /// execution does not track.
    pub proof fn lemma_shape(self)
        requires
            self.wf(),
        ensures
            self@.bytes.len() == self.num_pages() * PAGE_SIZE,
            self@.bytes.len() <= usize::MAX,
            self.num_pages() <= usize::MAX,
            forall|p: int| self@.dirty.contains(p) ==> 0 <= p < self.num_pages(),
            self@.tracking is Ignore ==> self@.dirty == Set::<int>::empty(),
            self.initial().len() == self@.bytes.len(),
    {
        assert(self.bytes@.len() / (PAGE_SIZE as nat) == self.dirty@.len()) by (nonlinear_arith)
            requires
                self.bytes@.len() == self.dirty@.len() * PAGE_SIZE,
                PAGE_SIZE == 4096,
        ;
        if self@.tracking is Ignore {
            assert(self@.dirty =~= Set::<int>::empty());
        }
    }

    /// In a tracked execution every page whose content differs from what it
    /// was at the start is recorded, and a page that is not recorded holds
    /// what it held at the start.
    pub proof fn lemma_changes_are_recorded(self)
        requires
            self.wf(),
            self@.tracking is Track,
        ensures
            changed_pages(self.initial(), self@.bytes).subset_of(self@.dirty),
            unrecorded_unchanged(self@, self.initial()),
    {
    }

    /// A zero-filled memory of `num_wasm_pages` pages of 64 KiB at the start
    /// of an execution. `None` where that size cannot be addressed.
    pub fn new(num_wasm_pages: usize, tracking: DirtyPageTracking) -> (region: Option<Self>)
        ensures
            region is Some <==> num_wasm_pages * WASM_PAGE_SIZE <= usize::MAX,
            region matches Some(r) ==> r.wf() && r@ == RegionState::fresh(
                Seq::new((num_wasm_pages * WASM_PAGE_SIZE) as nat, |i: int| 0u8),
                tracking,
            ) && r.initial() == r@.bytes,
    {
        let size = match num_wasm_pages.checked_mul(WASM_PAGE_SIZE) {
            Some(size) => size,
            None => {
                return None;
            },
        };
        let bytes = vec![0u8; size];
        let dirty = vec![false; size / PAGE_SIZE];
        let ghost initial = bytes@;
        let region = MemoryRegion { bytes, dirty, tracking, initial: Ghost(initial) };
        proof {
            assert(region.bytes@ =~= Seq::new(size as nat, |i: int| 0u8));
            assert(region@.dirty =~= Set::<int>::empty());
            assert(region@.bytes == initial);
            assert(unrecorded_unchanged(region@, initial));
        }
        Some(region)
    }

    /// The size of the memory in bytes.
    pub fn len(&self) -> (n: usize)
        ensures
            n == self@.bytes.len(),
    {
        self.bytes.len()
    }

    pub fn tracking(&self) -> (tracking: DirtyPageTracking)
        ensures
            tracking == self@.tracking,
    {
        self.tracking
    }

    /// The whole memory.
    pub fn as_slice(&self) -> (bytes: &[u8])
        ensures
            bytes@ == self@.bytes,
    {
        self.bytes.as_slice()
    }

    /// Copies `data` to offset `dst` and, where the execution tracks, records
    /// the pages reached. A range that does not lie within the memory is a
    /// contract violation, and nothing is written.
    pub fn write(&mut self, dst: usize, data: &[u8]) -> (outcome: Result<(), HypervisorError>)
        requires
            old(self).wf(),
        ensures
            final(self).wf(),
            final(self)@ == old(self)@.write(dst as int, data@),
            final(self).initial() == old(self).initial(),
            outcome is Ok <==> fits(old(self)@.bytes.len(), dst as int, data@.len()),
            outcome matches Err(e) ==> e@ == out_of_bounds(),
    {
        let count = data.len();
        if dst > self.bytes.len() || count > self.bytes.len() - dst {
            return Err(HypervisorError::contract_violation("memory access out of bounds"));
        }
        let ghost before = self.bytes@;
        let mut i: usize = 0;
        while i < count
            invariant
                i <= count,
                count == data@.len(),
                dst + count <= self.bytes@.len() <= usize::MAX,
                self.bytes@.len() == before.len(),
                self.dirty == old(self).dirty,
                self.tracking == old(self).tracking,
                self.initial == old(self).initial,
                forall|j: int|
                    0 <= j < before.len() ==> #[trigger] self.bytes@[j] == if dst <= j < dst + i {
                        data@[j - dst]
                    } else {
                        before[j]
                    },
            decreases count - i,
        {
            self.bytes.set(dst + i, data[i]);
            i = i + 1;
        }
        assert(self.bytes@ =~= overwrite(before, dst as int, data@));
        if count > 0 {
            match self.tracking {
                DirtyPageTracking::Track => {
                    let first = dst / PAGE_SIZE;
                    let last = (dst + count - 1) / PAGE_SIZE;
                    let ghost marked = self.dirty@;
                    let mut p: usize = first;
                    while p <= last
                        invariant
                            first <= p <= last + 1,
                            last < self.dirty@.len() <= usize::MAX,
                            self.dirty@.len() == marked.len(),
                            self.bytes@ == overwrite(before, dst as int, data@),
                            self.tracking == old(self).tracking,
                            self.initial == old(self).initial,
                            forall|q: int|
                                0 <= q < marked.len() ==> #[trigger] self.dirty@[q] == (marked[q]
                                    || first <= q < p),
                        decreases last + 1 - p,
                    {
                        self.dirty.set(p, true);
                        p = p + 1;
                    }
                    assert(self@.dirty =~= old(self)@.dirty.union(
                        pages_touched(dst as int, count as nat),
                    ));
                    proof {
                        lemma_write_keeps_unrecorded(old(self)@, self.initial@, dst as int, data@);
                    }
                },
                DirtyPageTracking::Ignore => {
                    assert(self@.dirty =~= old(self)@.dirty);
                },
            }
        } else {
            assert(pages_touched(dst as int, count as nat) =~= Set::<int>::empty());
            assert(self@.dirty =~= old(self)@.dirty.union(pages_touched(dst as int, count as nat)));
            proof {
                if self.tracking is Track {
                    lemma_write_keeps_unrecorded(old(self)@, self.initial@, dst as int, data@);
                }
            }
        }
        Ok(())
    }

    /// The `count` bytes from `offset`. A range that does not lie within the
    /// memory is a contract violation.
    pub fn read(&self, offset: usize, count: usize) -> (outcome: Result<Vec<u8>, HypervisorError>)
        ensures
            outcome is Ok <==> fits(self@.bytes.len(), offset as int, count as nat),
            outcome matches Ok(data) ==> data@ == self@.bytes.subrange(
                offset as int,
                offset + count,
            ),
            outcome matches Err(e) ==> e@ == out_of_bounds(),
    {
        if offset > self.bytes.len() || count > self.bytes.len() - offset {
            return Err(HypervisorError::contract_violation("memory access out of bounds"));
        }
        let mut data: Vec<u8> = Vec::new();
        let mut i: usize = 0;
        while i < count
            invariant
                i <= count,
                offset + count <= self.bytes@.len() <= usize::MAX,
                data@ == self.bytes@.subrange(offset as int, offset + i),
            decreases count - i,
        {
            data.push(self.bytes[offset + i]);
            assert(data@ =~= self.bytes@.subrange(offset as int, offset + i + 1));
            i = i + 1;
        }
        Ok(data)
    }
}

/// The pages that `marks` marks, in ascending order.
fn list_marked(marks: &Vec<bool>) -> (listed: Vec<PageIndex>)
    ensures
        lists(listed@, Set::new(|p: int| 0 <= p < marks@.len() && marks@[p])),
{
    let mut listed: Vec<PageIndex> = Vec::new();
    let mut p: usize = 0;
    while p < marks.len()
        invariant
            p <= marks@.len(),
            forall|i: int, j: int| 0 <= i < j < listed@.len() ==> listed@[i].0 < listed@[j].0,
            forall|i: int|
                0 <= i < listed@.len() ==> (#[trigger] listed@[i]).0 < p && marks@[listed@[i].0 as int],
            forall|q: int|
                0 <= q < p && marks@[q] ==> exists|i: int|
                    0 <= i < listed@.len() && #[trigger] listed@[i].0 == q,
        decreases marks@.len() - p,
    {
        if marks[p] {
            let ghost before = listed@;
            listed.push(PageIndex(p as u64));
            proof {
                assert forall|q: int| 0 <= q < p + 1 && marks@[q] implies exists|i: int|
                    0 <= i < listed@.len() && #[trigger] listed@[i].0 == q by {
                    if q < p {
                        let i = choose|i: int| 0 <= i < before.len() && #[trigger] before[i].0 == q;
                        assert(listed@[i].0 == q);
                    } else {
                        assert(listed@[before.len() as int].0 == q);
                    }
                }
            }
        }
        p = p + 1;
    }
    listed
}

/// Whether page `p` differs between the two memories.
fn page_differs(a: &[u8], b: &[u8], p: usize) -> (differs: bool)
    requires
        (p + 1) * PAGE_SIZE <= a@.len(),
        a@.len() == b@.len(),
    ensures
        differs == (page_of(a@, p as int) != page_of(b@, p as int)),
{
    let len = a.len();
    assert(p * PAGE_SIZE + PAGE_SIZE <= len) by (nonlinear_arith)
        requires
            (p + 1) * PAGE_SIZE <= len,
    ;
    let start = p * PAGE_SIZE;
    let mut k: usize = 0;
    while k < PAGE_SIZE
        invariant
            k <= PAGE_SIZE,
            start == p * PAGE_SIZE,
            start + PAGE_SIZE <= a@.len(),
            a@.len() == b@.len(),
            forall|j: int| start <= j < start + k ==> a@[j] == b@[j],
        decreases PAGE_SIZE - k,
    {
        if a[start + k] != b[start + k] {
            proof {
                assert(page_of(a@, p as int)[k as int] == a@[start + k]);
                assert(page_of(b@, p as int)[k as int] == b@[start + k]);
            }
            return true;
        }
        k = k + 1;
    }
    assert(page_of(a@, p as int) =~= page_of(b@, p as int));
    false
}

impl MemoryRegion {
    /// The memory that the first pages of a page map make up, at the start of
    /// an execution: `num_wasm_pages` pages of 64 KiB. `None` where that size
    /// cannot be addressed.
    pub fn from_page_map(
        page_map: &PageMap,
        num_wasm_pages: usize,
        tracking: DirtyPageTracking,
    ) -> (region: Option<Self>)
        requires
            page_map.wf(),
        ensures
            region is Some <==> num_wasm_pages * WASM_PAGE_SIZE <= usize::MAX,
            region matches Some(r) ==> r.wf() && r@ == RegionState::fresh(
                flatten(page_map@, (num_wasm_pages * (WASM_PAGE_SIZE / PAGE_SIZE)) as nat),
                tracking,
            ) && r.initial() == r@.bytes,
    {
        let size = match num_wasm_pages.checked_mul(WASM_PAGE_SIZE) {
            Some(size) => size,
            None => {
                return None;
            },
        };
        let num_pages = size / PAGE_SIZE;
        let mut bytes: Vec<u8> = Vec::new();
        let mut p: usize = 0;
        while p < num_pages
            invariant
                p <= num_pages,
                num_pages * PAGE_SIZE == size,
                page_map.wf(),
                bytes@ == flatten(page_map@, p as nat),
            decreases num_pages - p,
        {
            let ghost before = bytes@;
            let page = page_map.get_page(PageIndex(p as u64));
            bytes.extend_from_slice(page);
            proof {
                let after = flatten(page_map@, (p + 1) as nat);
                assert(bytes@.len() == after.len());
                assert forall|i: int| 0 <= i < after.len() implies bytes@[i] == after[i] by {
                    if i < before.len() {
                        assert(bytes@[i] == before[i]);
                    } else {
                        assert(i / (PAGE_SIZE as int) == p);
                        assert(i % (PAGE_SIZE as int) == i - before.len());
                    }
                }
                assert(bytes@ =~= after);
            }
            p = p + 1;
        }
        let dirty = vec![false; num_pages];
        let ghost initial = bytes@;
        let region = MemoryRegion { bytes, dirty, tracking, initial: Ghost(initial) };
        proof {
            assert(region@.dirty =~= Set::<int>::empty());
            assert(region@.bytes == initial);
            assert(unrecorded_unchanged(region@, initial));
        }
        Some(region)
    }

    /// The pages recorded as written, in ascending order and each once.
    /// Nothing is recorded where the execution does not track.
    pub fn dirty_pages(&self) -> (listed: Vec<PageIndex>)
        requires
            self.wf(),
        ensures
            lists(listed@, self@.dirty),
    {
        list_marked(&self.dirty)
    }

    /// Every page of the memory, in ascending order: what an execution that
    /// does not track has to be taken to have written.
    pub fn all_pages(&self) -> (listed: Vec<PageIndex>)
        requires
            self.wf(),
        ensures
            lists(listed@, Set::new(|p: int| 0 <= p < self.num_pages())),
    {
        proof {
            self.lemma_shape();
        }
        let marks = vec![true; self.dirty.len()];
        let listed = list_marked(&marks);
        assert(Set::new(|p: int| 0 <= p < marks@.len() && marks@[p]) =~= Set::new(
            |p: int| 0 <= p < self.num_pages(),
        ));
        listed
    }

    /// The pages whose content differs from `before`, found by comparing the
    /// two memories byte for byte. `None` where `before` is of another size.
    pub fn changed_since(&self, before: &[u8]) -> (listed: Option<Vec<PageIndex>>)
        requires
            self.wf(),
        ensures
            listed is Some <==> before@.len() == self@.bytes.len(),
            listed matches Some(pages) ==> lists(pages@, changed_pages(before@, self@.bytes)),
    {
        if before.len() != self.bytes.len() {
            return None;
        }
        proof {
            self.lemma_shape();
        }
        let num_pages = self.dirty.len();
        let mut marks: Vec<bool> = Vec::new();
        let mut p: usize = 0;
        while p < num_pages
            invariant
                p <= num_pages,
                num_pages == self.dirty@.len(),
                self.bytes@.len() == num_pages * PAGE_SIZE,
                before@.len() == self.bytes@.len(),
                marks@.len() == p,
                forall|q: int|
                    0 <= q < p ==> #[trigger] marks@[q] == (page_of(before@, q) != page_of(
                        self.bytes@,
                        q,
                    )),
            decreases num_pages - p,
        {
            assert((p + 1) * PAGE_SIZE <= num_pages * PAGE_SIZE) by (nonlinear_arith)
                requires
                    p < num_pages,
            ;
            marks.push(page_differs(before, self.bytes.as_slice(), p));
            p = p + 1;
        }
        let listed = list_marked(&marks);
        assert(Set::new(|q: int| 0 <= q < marks@.len() && marks@[q]) =~= changed_pages(
            before@,
            self@.bytes,
        ));
        Some(listed)
    }
}

} // verus!
