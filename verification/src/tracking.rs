//! What dirty-page tracking guarantees of every sequence of writes.

use crate::memory::{
    changed_pages, fits, lemma_write_keeps_unrecorded, overwrite, page_of, pages_touched,
    unrecorded_unchanged, DirtyPageTracking, RegionState,
};
use crate::page_map::PAGE_SIZE;
use vstd::prelude::*;

verus! {

/// The pages reached by those writes of a sequence that lie within a memory
/// of `len` bytes.
pub open spec fn pages_reached(len: nat, writes: Seq<(int, Seq<u8>)>) -> Set<int>
    decreases writes.len(),
{
    if writes.len() == 0 {
        Set::empty()
    } else {
        let earlier = pages_reached(len, writes.drop_last());
        let (dst, data) = writes.last();
        if fits(len, dst, data.len()) {
            earlier.union(pages_touched(dst, data.len()))
        } else {
            earlier
        }
    }
}

/// The flat buffer after the writes were replayed into it in order, a write
/// that does not lie within the buffer being skipped.
pub open spec fn replay(heap: Seq<u8>, writes: Seq<(int, Seq<u8>)>) -> Seq<u8>
    decreases writes.len(),
{
    if writes.len() == 0 {
        heap
    } else {
        let earlier = replay(heap, writes.drop_last());
        let (dst, data) = writes.last();
        if fits(earlier.len(), dst, data.len()) {
            overwrite(earlier, dst, data)
        } else {
            earlier
        }
    }
}

proof fn lemma_run_tracks(heap: Seq<u8>, writes: Seq<(int, Seq<u8>)>)
    ensures
        ({
            let end = RegionState::fresh(heap, DirtyPageTracking::Track).run(writes);
            &&& end.tracking is Track
            &&& unrecorded_unchanged(end, heap)
            &&& end.dirty == pages_reached(heap.len(), writes)
        }),
    decreases writes.len(),
{
    if writes.len() > 0 {
        lemma_run_tracks(heap, writes.drop_last());
        let earlier = RegionState::fresh(heap, DirtyPageTracking::Track).run(writes.drop_last());
        lemma_write_keeps_unrecorded(earlier, heap, writes.last().0, writes.last().1);
    }
}

/// Whatever is written, the memory of an execution does not depend on how
/// the execution tracks: it is the flat buffer after the same writes.
pub proof fn lemma_memory_is_replay(
    heap: Seq<u8>,
    tracking: DirtyPageTracking,
    writes: Seq<(int, Seq<u8>)>,
)
    ensures
        RegionState::fresh(heap, tracking).run(writes).bytes == replay(heap, writes),
        RegionState::fresh(heap, tracking).run(writes).tracking == tracking,
        replay(heap, writes).len() == heap.len(),
    decreases writes.len(),
{
    if writes.len() > 0 {
        lemma_memory_is_replay(heap, tracking, writes.drop_last());
    }
}

/// An execution that does not track records nothing.
pub proof fn lemma_ignore_records_nothing(heap: Seq<u8>, writes: Seq<(int, Seq<u8>)>)
    ensures
        RegionState::fresh(heap, DirtyPageTracking::Ignore).run(writes).dirty == Set::<int>::empty(),
    decreases writes.len(),
{
    if writes.len() > 0 {
        lemma_ignore_records_nothing(heap, writes.drop_last());
        lemma_memory_is_replay(heap, DirtyPageTracking::Ignore, writes.drop_last());
    }
}

/// For every sequence of writes, a tracked execution records exactly the
/// pages that its accepted writes reach, and every page whose content at the
/// end differs from its content at the start is among them.
pub proof fn lemma_changes_are_recorded(heap: Seq<u8>, writes: Seq<(int, Seq<u8>)>)
    ensures
        ({
            let end = RegionState::fresh(heap, DirtyPageTracking::Track).run(writes);
            &&& end.dirty == pages_reached(heap.len(), writes)
            &&& changed_pages(heap, end.bytes).subset_of(end.dirty)
        }),
{
    lemma_run_tracks(heap, writes);
}

/// For every sequence of writes to a memory of whole pages after which each
/// page reached holds other content than before, the set that a tracked
/// execution records equals the set of pages that a byte-for-byte comparison
/// of the memory before and after finds changed.
pub proof fn lemma_recorded_equals_changed(heap: Seq<u8>, writes: Seq<(int, Seq<u8>)>)
    requires
        heap.len() % (PAGE_SIZE as nat) == 0,
        forall|p: int|
            pages_reached(heap.len(), writes).contains(p) ==> page_of(heap, p) != page_of(
                replay(heap, writes),
                p,
            ),
    ensures
        RegionState::fresh(heap, DirtyPageTracking::Track).run(writes).dirty == changed_pages(
            heap,
            replay(heap, writes),
        ),
{
    lemma_run_tracks(heap, writes);
    lemma_memory_is_replay(heap, DirtyPageTracking::Track, writes);
    lemma_reached_within(heap.len(), writes);
    let end = RegionState::fresh(heap, DirtyPageTracking::Track).run(writes);
    assert(end.dirty =~= changed_pages(heap, end.bytes));
}

/// The pages reached by writes to a memory of whole pages are pages of it.
pub proof fn lemma_reached_within(len: nat, writes: Seq<(int, Seq<u8>)>)
    requires
        len % (PAGE_SIZE as nat) == 0,
    ensures
        forall|p: int| pages_reached(len, writes).contains(p) ==> 0 <= p < len / (PAGE_SIZE as nat),
    decreases writes.len(),
{
    if writes.len() > 0 {
        lemma_reached_within(len, writes.drop_last());
        let (dst, data) = writes.last();
        if fits(len, dst, data.len()) {
            assert forall|p: int| pages_touched(dst, data.len()).contains(p) implies 0 <= p < len
                / (PAGE_SIZE as nat) by {
                let last = dst + data.len() - 1;
                assert(0 <= dst / (PAGE_SIZE as int));
                assert(last / (PAGE_SIZE as int) < (len as int) / (PAGE_SIZE as int)) by {
                    assert(last < len);
                    assert((len as int) % (PAGE_SIZE as int) == 0);
                }
            }
        }
        assert forall|p: int| pages_reached(len, writes).contains(p) implies 0 <= p < len / (
        PAGE_SIZE as nat) by {
            if !pages_reached(len, writes.drop_last()).contains(p) {
                assert(fits(len, dst, data.len()));
                assert(pages_touched(dst, data.len()).contains(p));
            }
        }
    }
}

/// Writing again to pages that are already recorded records nothing new: a
/// page is in the set once, however often it is written.
pub proof fn lemma_rewrite_records_nothing_new(state: RegionState, dst: int, data: Seq<u8>)
    requires
        pages_touched(dst, data.len()).subset_of(state.dirty),
    ensures
        state.write(dst, data).dirty == state.dirty,
{
    assert(state.write(dst, data).dirty =~= state.dirty);
}

} // verus!
