//! The persistent, versioned record of a canister's heap, page by page.

use std::collections::BTreeMap;
use std::sync::Arc;
use vstd::prelude::*;

verus! {

/// The size in bytes of the pages in which the heap is tracked and persisted.
pub const PAGE_SIZE: usize = 4096;

/// The zero-based number of a page within a canister's heap.
#[derive(Clone, Copy, Debug, PartialEq, Eq, PartialOrd, Ord, Hash, Structural)]
pub struct PageIndex(pub u64);

impl PageIndex {
    pub fn new(index: u64) -> (page: Self)
        ensures
            page.0 == index,
    {
        PageIndex(index)
    }

    pub fn get(&self) -> (index: u64)
        ensures
            index == self.0,
    {
        self.0
    }
}

/// The content of a page that was never written.
pub open spec fn zero_page() -> Seq<u8> {
    Seq::new(PAGE_SIZE as nat, |i: int| 0u8)
}

/// The content that a sequence of page writes leaves for page `index`: that of
/// the last write to it, `None` where no write names it.
pub open spec fn last_written(entries: Seq<(u64, Seq<u8>)>, index: u64) -> Option<Seq<u8>>
    decreases entries.len(),
{
    if entries.len() == 0 {
        None
    } else if entries.last().0 == index {
        Some(entries.last().1)
    } else {
        last_written(entries.drop_last(), index)
    }
}

/// The content of page `index` in a map of written pages: its entry, or zeros.
pub open spec fn page_in(pages: Map<u64, Seq<u8>>, index: u64) -> Seq<u8> {
    if pages.contains_key(index) {
        pages[index]
    } else {
        zero_page()
    }
}

/// The written pages after a sequence of page writes, applied in order.
pub open spec fn merged(pages: Map<u64, Seq<u8>>, entries: Seq<(u64, Seq<u8>)>) -> Map<
    u64,
    Seq<u8>,
>
    decreases entries.len(),
{
    if entries.len() == 0 {
        pages
    } else {
        merged(pages, entries.drop_last()).insert(entries.last().0, entries.last().1)
    }
}

/// After a merge, a page named by the writes holds what was last written to
/// it, and every other page is what it was.
pub proof fn lemma_merged_page(pages: Map<u64, Seq<u8>>, entries: Seq<(u64, Seq<u8>)>, index: u64)
    ensures
        page_in(merged(pages, entries), index) == match last_written(entries, index) {
            Some(content) => content,
            None => page_in(pages, index),
        },
        merged(pages, entries).contains_key(index) <==> pages.contains_key(index) || last_written(
            entries,
            index,
        ) is Some,
    decreases entries.len(),
{
    if entries.len() > 0 {
        lemma_merged_page(pages, entries.drop_last(), index);
    }
}

/// The pages that one execution modified, each with its content at the end of
/// the execution.
pub struct PageDelta {
    pages: Vec<(u64, Vec<u8>)>,
}

impl PageDelta {
    pub closed spec fn wf(self) -> bool {
        forall|i: int| 0 <= i < self.pages@.len() ==> (#[trigger] self.pages@[i]).1@.len() == PAGE_SIZE
    }

    /// The pages of the delta in the order in which they were added.
    pub closed spec fn entries(self) -> Seq<(u64, Seq<u8>)> {
        Seq::new(self.pages@.len(), |i: int| (self.pages@[i].0, self.pages@[i].1@))
    }

    pub fn new() -> (delta: Self)
        ensures
            delta.wf(),
            delta.entries() == Seq::<(u64, Seq<u8>)>::empty(),
    {
        let delta = PageDelta { pages: Vec::new() };
        assert(delta.entries() =~= Seq::<(u64, Seq<u8>)>::empty());
        delta
    }

    pub fn len(&self) -> (n: usize)
        ensures
            n == self.entries().len(),
    {
        self.pages.len()
    }

    /// Adds a page with its content. A content that is not exactly one page
    /// long is refused, and the delta stays as it was.
    pub fn push(&mut self, index: PageIndex, content: Vec<u8>) -> (added: bool)
        requires
            old(self).wf(),
        ensures
            final(self).wf(),
            added == (content@.len() == PAGE_SIZE),
            added ==> final(self).entries() == old(self).entries().push((index.0, content@)),
            !added ==> final(self).entries() == old(self).entries(),
    {
        if content.len() != PAGE_SIZE {
            return false;
        }
        let ghost before = self.entries();
        self.pages.push((index.0, content));
        assert(self.entries() =~= before.push((index.0, content@)));
        true
    }
}

/// The heap of a canister as its pages, across executions. A page that was
/// never written reads as zeros. A copy of a map shares its pages with the
/// map it was made from: an update replaces the pages of its delta and leaves
/// every other page where it was.
#[derive(Clone)]
pub struct PageMap {
    pages: BTreeMap<u64, Arc<Vec<u8>>>,
    zeros: Vec<u8>,
}

impl PageMap {
    pub closed spec fn wf(self) -> bool {
        &&& self.zeros@ == zero_page()
        &&& forall|k: u64| #[trigger]
            self.pages@.contains_key(k) ==> self.pages@[k]@.len() == PAGE_SIZE
    }

    /// The pages that were written, each with its content.
    pub closed spec fn view(self) -> Map<u64, Seq<u8>> {
        Map::new(|k: u64| self.pages@.contains_key(k), |k: u64| self.pages@[k]@)
    }

    /// The content of a page: what was last written to it, or zeros.
    pub open spec fn page(self, index: u64) -> Seq<u8> {
        page_in(self@, index)
    }

    /// Every page of the map, written or not, is one page long.
    pub proof fn lemma_page_len(self)
        requires
            self.wf(),
        ensures
            forall|index: u64| self@.contains_key(index) ==> (#[trigger] self@[index]).len()
                == PAGE_SIZE,
            forall|index: u64| (#[trigger] self.page(index)).len() == PAGE_SIZE,
    {
    }

    pub fn new() -> (map: Self)
        ensures
            map.wf(),
            map@ == Map::<u64, Seq<u8>>::empty(),
    {
        let map = PageMap { pages: BTreeMap::new(), zeros: vec![0u8; PAGE_SIZE] };
        assert(map.zeros@ =~= zero_page());
        assert(map@ =~= Map::<u64, Seq<u8>>::empty());
        map
    }

    /// The content of page `index`, or the all-zero page if it was never
    /// written.
    pub fn get_page(&self, index: PageIndex) -> (content: &[u8])
        requires
            self.wf(),
        ensures
            content@ == self.page(index.0),
            content@.len() == PAGE_SIZE,
    {
        broadcast use vstd::std_specs::btree::group_btree_axioms;

        match self.pages.get(&index.0) {
            Some(page) => page.as_slice(),
            None => self.zeros.as_slice(),
        }
    }
}


impl PageMap {
    /// Merges the pages that an execution modified. The pages of the delta
    /// take the content that the delta gives them, the last entry for a page
    /// deciding; every other page stays what it was.
    pub fn update(&mut self, delta: &PageDelta)
        requires
            old(self).wf(),
            delta.wf(),
        ensures
            final(self).wf(),
            final(self)@ == merged(old(self)@, delta.entries()),
            forall|index: u64| #[trigger]
                final(self).page(index) == match last_written(delta.entries(), index) {
                    Some(content) => content,
                    None => old(self).page(index),
                },
    {
        broadcast use vstd::std_specs::btree::group_btree_axioms;

        let ghost before = self@;
        let mut i: usize = 0;
        while i < delta.pages.len()
            invariant
                i <= delta.pages@.len(),
                self.wf(),
                delta.wf(),
                self@ == merged(before, delta.entries().take(i as int)),
            decreases delta.pages@.len() - i,
        {
            let index: u64 = delta.pages[i].0;
            let content = delta.pages[i].1.clone();
            assert(content@ =~= delta.pages@[i as int].1@);
            let ghost previous = self@;
            self.pages.insert(index, Arc::new(content));
            proof {
                let taken = delta.entries().take(i as int + 1);
                assert(taken.drop_last() =~= delta.entries().take(i as int));
                assert(taken.last() == (index, content@));
                assert(self@ =~= previous.insert(index, content@));
            }
            i = i + 1;
        }
        proof {
            assert(delta.entries().take(i as int) =~= delta.entries());
            assert forall|index: u64| #[trigger]
                self.page(index) == match last_written(delta.entries(), index) {
                    Some(content) => content,
                    None => page_in(before, index),
                } by {
                lemma_merged_page(before, delta.entries(), index);
            }
        }
    }

    /// Another version of the map with the same pages, shared with this one
    /// and not copied.
    pub fn snapshot(&self) -> (copy: Self)
        requires
            self.wf(),
        ensures
            copy.wf(),
            copy@ == self@,
    {
        let copy = PageMap { pages: self.pages.clone(), zeros: self.zeros.clone() };
        assert(copy.zeros@ =~= self.zeros@);
        assert(copy@ =~= self@);
        copy
    }

    /// Whether both maps hold page `index` in one and the same allocation.
    pub fn shares_page(&self, other: &PageMap, index: PageIndex) -> (shared: bool)
        ensures
            shared ==> self@.contains_key(index.0) && other@.contains_key(index.0) && self@[index.0]
                == other@[index.0],
    {
        broadcast use vstd::std_specs::btree::group_btree_axioms;

        match (self.pages.get(&index.0), other.pages.get(&index.0)) {
            (Some(mine), Some(theirs)) => same_allocation(mine, theirs),
            _ => false,
        }
    }
}

/// `std::sync::Arc::ptr_eq`: whether the two pointers lead to the same
/// allocation. Where they do, they hold the same value.
#[verifier::external_body]
fn same_allocation(a: &Arc<Vec<u8>>, b: &Arc<Vec<u8>>) -> (same: bool)
    ensures
        same ==> *a == *b,
{
    Arc::ptr_eq(a, b)
}

} // verus!
