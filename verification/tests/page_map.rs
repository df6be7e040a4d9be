use canister_sandbox::checkpoint::checkpoint;
use canister_sandbox::memory::{DirtyPageTracking, MemoryRegion};
use canister_sandbox::page_map::{PageDelta, PageIndex, PageMap, PAGE_SIZE};

#[test]
fn unwritten_page_reads_as_zeros() {
    let map = PageMap::new();
    assert_eq!(map.get_page(PageIndex::new(7)), &[0u8; PAGE_SIZE][..]);
    assert_eq!(map.get_page(PageIndex::new(u64::MAX)), &[0u8; PAGE_SIZE][..]);
}

#[test]
fn update_replaces_only_the_pages_of_the_delta() {
    let mut first = PageDelta::new();
    assert!(first.push(PageIndex::new(1), vec![1u8; PAGE_SIZE]));
    assert!(first.push(PageIndex::new(2), vec![2u8; PAGE_SIZE]));
    let mut map = PageMap::new();
    map.update(&first);
    let published = map.clone();

    let mut second = PageDelta::new();
    assert!(second.push(PageIndex::new(2), vec![3u8; PAGE_SIZE]));
    assert!(second.push(PageIndex::new(2), vec![4u8; PAGE_SIZE]));
    assert_eq!(second.len(), 2);
    map.update(&second);

    assert_eq!(map.get_page(PageIndex::new(1)), &[1u8; PAGE_SIZE][..]);
    assert_eq!(map.get_page(PageIndex::new(2)), &[4u8; PAGE_SIZE][..]);
    assert_eq!(map.get_page(PageIndex::new(3)), &[0u8; PAGE_SIZE][..]);
    // the published version is what it was
    assert_eq!(published.get_page(PageIndex::new(2)), &[2u8; PAGE_SIZE][..]);
    // the page outside the delta is shared, the page inside it is not
    assert!(map.shares_page(&published, PageIndex::new(1)));
    assert!(!map.shares_page(&published, PageIndex::new(2)));
    assert!(!map.shares_page(&published, PageIndex::new(3)));
    let snapshot = map.snapshot();
    assert!(snapshot.shares_page(&map, PageIndex::new(2)));
}

#[test]
fn delta_refuses_content_that_is_not_a_page() {
    let mut delta = PageDelta::new();
    assert!(!delta.push(PageIndex::new(0), vec![1u8; PAGE_SIZE - 1]));
    assert!(!delta.push(PageIndex::new(0), vec![]));
    assert_eq!(delta.len(), 0);
}

#[test]
fn checkpoint_makes_the_map_hold_the_memory() {
    for tracking in [DirtyPageTracking::Track, DirtyPageTracking::Ignore] {
        let mut map = PageMap::new();
        let mut first = MemoryRegion::from_page_map(&map, 1, tracking).unwrap();
        first.write(PAGE_SIZE + 1, &[1, 2, 3]).unwrap();
        first.write(3 * PAGE_SIZE - 1, &[4, 5]).unwrap();
        let after_first = first.as_slice().to_vec();
        checkpoint(&mut map, first);

        let mut second = MemoryRegion::from_page_map(&map, 1, tracking).unwrap();
        assert_eq!(second.as_slice(), &after_first[..]);
        second.write(PAGE_SIZE + 2, &[9]).unwrap();
        let after_second = second.as_slice().to_vec();
        checkpoint(&mut map, second);

        for page in 0..16 {
            assert_eq!(
                map.get_page(PageIndex::new(page as u64)),
                &after_second[page * PAGE_SIZE..(page + 1) * PAGE_SIZE]
            );
        }
        assert_eq!(&map.get_page(PageIndex::new(1))[..4], &[0, 1, 9, 3]);
        assert_eq!(map.get_page(PageIndex::new(2))[PAGE_SIZE - 1], 4);
        assert_eq!(map.get_page(PageIndex::new(3))[0], 5);
        assert_eq!(map.get_page(PageIndex::new(16)), &[0u8; PAGE_SIZE][..]);
    }
}
