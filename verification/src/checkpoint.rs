//! What an execution hands over when it ends, and the merge of its pages into
//! the page map.

use crate::counter::instructions_consumed;
use crate::memory::{
    changed_pages, flatten, lists, page_of, DirtyPageTracking, MemoryRegion,
    RegionState,
};
use crate::page_map::{last_written, lemma_merged_page, merged, page_in, PageDelta, PageIndex, PageMap, PAGE_SIZE};
use crate::tracking::{lemma_changes_are_recorded, lemma_memory_is_replay, replay};
use vstd::prelude::*;

verus! {

/// The delta that gives each listed page its content in `bytes`.
pub open spec fn delta_of(bytes: Seq<u8>, listed: Seq<PageIndex>) -> Seq<(u64, Seq<u8>)> {
    Seq::new(listed.len(), |i: int| (listed[i].0, page_of(bytes, listed[i].0 as int)))
}

/// Whether `listed` names page `index`.
pub open spec fn names(listed: Seq<PageIndex>, index: u64) -> bool {
    exists|i: int| 0 <= i < listed.len() && #[trigger] listed[i].0 == index
}

/// What the delta of the listed pages holds for a page: its content in
/// `bytes` where the page is listed, nothing where it is not.
pub proof fn lemma_delta_of_listed(bytes: Seq<u8>, listed: Seq<PageIndex>, index: u64)
    ensures
        last_written(delta_of(bytes, listed), index) == if names(listed, index) {
            Some(page_of(bytes, index as int))
        } else {
            None
        },
    decreases listed.len(),
{
    let delta = delta_of(bytes, listed);
    if listed.len() > 0 {
        let shorter = listed.drop_last();
        assert(delta.drop_last() =~= delta_of(bytes, shorter));
        lemma_delta_of_listed(bytes, shorter, index);
        if listed.last().0 == index {
            assert(listed[listed.len() - 1].0 == index);
        } else if names(shorter, index) {
            let i = choose|i: int| 0 <= i < shorter.len() && #[trigger] shorter[i].0 == index;
            assert(listed[i].0 == index);
        } else if names(listed, index) {
            let i = choose|i: int| 0 <= i < listed.len() && #[trigger] listed[i].0 == index;
            assert(shorter[i].0 == index);
        }
    }
}

/// The content of each listed page of the memory, to be merged into the page
/// map.
pub fn compute_page_delta(region: &MemoryRegion, pages: &[PageIndex]) -> (delta: PageDelta)
    requires
        region.wf(),
        forall|i: int| 0 <= i < pages@.len() ==> (#[trigger] pages@[i]).0 < region.num_pages(),
    ensures
        delta.wf(),
        delta.entries() == delta_of(region@.bytes, pages@),
{
    proof {
        region.lemma_shape();
    }
    let len = region.len();
    let mut delta = PageDelta::new();
    let mut i: usize = 0;
    while i < pages.len()
        invariant
            i <= pages@.len(),
            region.wf(),
            len == region@.bytes.len(),
            region@.bytes.len() == region.num_pages() * PAGE_SIZE,
            forall|j: int| 0 <= j < pages@.len() ==> (#[trigger] pages@[j]).0 < region.num_pages(),
            delta.wf(),
            delta.entries() == delta_of(region@.bytes, pages@.take(i as int)),
        decreases pages@.len() - i,
    {
        let index = pages[i];
        assert((index.0 + 1) * PAGE_SIZE <= region.num_pages() * PAGE_SIZE) by (nonlinear_arith)
            requires
                index.0 < region.num_pages(),
        ;
        let offset = (index.0 as usize) * PAGE_SIZE;
        match region.read(offset, PAGE_SIZE) {
            Ok(content) => {
                delta.push(index, content);
                proof {
                    assert(content@ == page_of(region@.bytes, index.0 as int));
                    assert(pages@.take(i as int + 1).drop_last() =~= pages@.take(i as int));
                    assert(delta.entries() =~= delta_of(
                        region@.bytes,
                        pages@.take(i as int + 1),
                    ));
                }
            },
            Err(_) => {
                assert(false);
            },
        }
        i = i + 1;
    }
    assert(pages@.take(i as int) =~= pages@);
    delta
}

/// What an execution reports when it ends.
pub struct ExecutionReport {
    /// The budget the execution began with less what is left.
    pub instructions_consumed: i128,
    /// The pages to take as written: those recorded where the execution
    /// tracked, every page of the memory where it did not.
    pub dirty_pages: Vec<PageIndex>,
    /// The size of the memory in bytes.
    pub final_heap_size: usize,
}

/// The pages that have to be taken as written at the end of an execution.
pub open spec fn pages_to_persist(region: MemoryRegion) -> Set<int> {
    match region@.tracking {
        DirtyPageTracking::Track => region@.dirty,
        DirtyPageTracking::Ignore => Set::new(|p: int| 0 <= p < region.num_pages()),
    }
}

/// The report of an execution that began with `initial_budget` instructions
/// and ends with `remaining_budget`.
pub fn finish_execution(region: &MemoryRegion, initial_budget: i64, remaining_budget: i64) -> (report:
    ExecutionReport)
    requires
        region.wf(),
    ensures
        report.instructions_consumed == initial_budget - remaining_budget,
        lists(report.dirty_pages@, pages_to_persist(*region)),
        report.final_heap_size == region@.bytes.len(),
{
    let dirty_pages = match region.tracking() {
        DirtyPageTracking::Track => region.dirty_pages(),
        DirtyPageTracking::Ignore => region.all_pages(),
    };
    ExecutionReport {
        instructions_consumed: instructions_consumed(initial_budget, remaining_budget),
        dirty_pages,
        final_heap_size: region.len(),
    }
}

/// Merges what an execution wrote into the page map, once, when the execution
/// has ended: the pages it recorded where it tracked, every page where it did
/// not. Where the memory of the execution was made from this page map, every
/// page of the map then holds what the memory holds, whichever way the
/// execution tracked.
pub fn checkpoint(page_map: &mut PageMap, region: MemoryRegion)
    requires
        old(page_map).wf(),
        region.wf(),
    ensures
        final(page_map).wf(),
        forall|index: u64| #[trigger]
            final(page_map).page(index) == if pages_to_persist(region).contains(index as int) {
                page_of(region@.bytes, index as int)
            } else {
                old(page_map).page(index)
            },
        region.initial() == flatten(old(page_map)@, region.num_pages()) ==> forall|p: int|
            0 <= p < region.num_pages() ==> #[trigger] final(page_map).page(p as u64) == page_of(
                region@.bytes,
                p,
            ),
{
    proof {
        region.lemma_shape();
    }
    let pages = match region.tracking() {
        DirtyPageTracking::Track => region.dirty_pages(),
        DirtyPageTracking::Ignore => region.all_pages(),
    };
    let delta = compute_page_delta(&region, pages.as_slice());
    page_map.update(&delta);
    proof {
        assert forall|index: u64| #[trigger]
            page_map.page(index) == if pages_to_persist(region).contains(index as int) {
                page_of(region@.bytes, index as int)
            } else {
                old(page_map).page(index)
            } by {
            lemma_delta_of_listed(region@.bytes, pages@, index);
            if names(pages@, index) {
                let i = choose|i: int| 0 <= i < pages@.len() && #[trigger] pages@[i].0 == index;
                assert(pages_to_persist(region).contains(pages@[i].0 as int));
            }
        }
        if region.initial() == flatten(old(page_map)@, region.num_pages()) {
            assert forall|p: int| 0 <= p < region.num_pages() implies #[trigger] page_map.page(
                p as u64,
            ) == page_of(region@.bytes, p) by {
                if !pages_to_persist(region).contains(p) {
                    region.lemma_changes_are_recorded();
                    old(page_map).lemma_page_len();
                    lemma_page_of_flatten(old(page_map)@, region.num_pages(), p);
                }
            }
        }
    }
}

/// A page of the memory that a page map makes up is that page of the map.
pub proof fn lemma_page_of_flatten(pages: Map<u64, Seq<u8>>, num_pages: nat, p: int)
    requires
        0 <= p < num_pages,
        num_pages <= u64::MAX,
        forall|k: u64| pages.contains_key(k) ==> (#[trigger] pages[k]).len() == PAGE_SIZE,
    ensures
        page_of(flatten(pages, num_pages), p) == page_in(pages, p as u64),
{
    let heap = flatten(pages, num_pages);
    assert((p + 1) * PAGE_SIZE <= num_pages * PAGE_SIZE) by (nonlinear_arith)
        requires
            p < num_pages,
    ;
    assert forall|k: int| 0 <= k < PAGE_SIZE implies #[trigger] page_of(heap, p)[k] == page_in(
        pages,
        p as u64,
    )[k] by {
        let i = p * PAGE_SIZE + k;
        assert(i / (PAGE_SIZE as int) == p);
        assert(i % (PAGE_SIZE as int) == k);
    }
    assert(page_of(heap, p) =~= page_in(pages, p as u64));
}

/// For every sequence of writes: a memory is made from the first `num_pages`
/// pages of a page map, the writes run on it under tracking, and the content
/// of the recorded pages is merged into the map. Then every page read back
/// from the map is that page of a flat buffer into which the same writes
/// were replayed.
pub proof fn lemma_merge_matches_replay(
    pages: Map<u64, Seq<u8>>,
    num_pages: nat,
    writes: Seq<(int, Seq<u8>)>,
    listed: Seq<PageIndex>,
)
    requires
        num_pages <= u64::MAX,
        forall|k: u64| pages.contains_key(k) ==> (#[trigger] pages[k]).len() == PAGE_SIZE,
        lists(
            listed,
            RegionState::fresh(flatten(pages, num_pages), DirtyPageTracking::Track).run(writes).dirty,
        ),
    ensures
        forall|p: int|
            0 <= p < num_pages ==> #[trigger] page_in(
                merged(pages, delta_of(replay(flatten(pages, num_pages), writes), listed)),
                p as u64,
            ) == page_of(replay(flatten(pages, num_pages), writes), p),
{
    let heap = flatten(pages, num_pages);
    let end = RegionState::fresh(heap, DirtyPageTracking::Track).run(writes);
    let buffer = replay(heap, writes);
    lemma_memory_is_replay(heap, DirtyPageTracking::Track, writes);
    lemma_changes_are_recorded(heap, writes);
    assert(heap.len() / (PAGE_SIZE as nat) == num_pages) by (nonlinear_arith)
        requires
            heap.len() == num_pages * (PAGE_SIZE as nat),
            PAGE_SIZE == 4096,
    ;
    assert forall|p: int| 0 <= p < num_pages implies #[trigger] page_in(
        merged(pages, delta_of(buffer, listed)),
        p as u64,
    ) == page_of(buffer, p) by {
        lemma_merged_page(pages, delta_of(buffer, listed), p as u64);
        lemma_delta_of_listed(buffer, listed, p as u64);
        if names(listed, p as u64) {
        } else {
            assert(!end.dirty.contains(p));
            assert(!changed_pages(heap, buffer).contains(p));
            lemma_page_of_flatten(pages, num_pages, p);
        }
    }
}

/// The same for an execution that does not track, after every page of the
/// memory was merged.
pub proof fn lemma_full_merge_matches_replay(
    pages: Map<u64, Seq<u8>>,
    num_pages: nat,
    writes: Seq<(int, Seq<u8>)>,
    listed: Seq<PageIndex>,
)
    requires
        num_pages <= u64::MAX,
        lists(listed, Set::new(|p: int| 0 <= p < num_pages)),
    ensures
        forall|p: int|
            0 <= p < num_pages ==> #[trigger] page_in(
                merged(pages, delta_of(replay(flatten(pages, num_pages), writes), listed)),
                p as u64,
            ) == page_of(replay(flatten(pages, num_pages), writes), p),
{
    let buffer = replay(flatten(pages, num_pages), writes);
    assert forall|p: int| 0 <= p < num_pages implies #[trigger] page_in(
        merged(pages, delta_of(buffer, listed)),
        p as u64,
    ) == page_of(buffer, p) by {
        lemma_merged_page(pages, delta_of(buffer, listed), p as u64);
        lemma_delta_of_listed(buffer, listed, p as u64);
        assert(Set::new(|q: int| 0 <= q < num_pages).contains(p));
    }
}

} // verus!
