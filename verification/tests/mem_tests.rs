use mycelium_kernel::mem::{
    classify_memory_map, AllocError, PageAllocator, Region, RegionKind, RegionOutcome,
};

fn free(base_addr: u64, size: u64) -> Region {
    Region { base_addr, size, kind: RegionKind::Free }
}

fn reserved(base_addr: u64, size: u64) -> Region {
    Region { base_addr, size, kind: RegionKind::Reserved }
}

#[test]
fn allocator_starts_inert() {
    let a = PageAllocator::new(0x1000);
    assert!(!a.is_armed());
    assert_eq!(a.attempts(), 0);
    assert_eq!(a.region_count(), 0);
    assert_eq!(a.min_page_size(), 0x1000);
}

#[test]
fn add_before_arm_is_rejected() {
    let mut a = PageAllocator::new(0x1000);
    let r = a.add_region(free(0x1000, 0x2000));
    assert_eq!(r, Err(AllocError::NotArmed));
    assert_eq!(a.region_count(), 0);
    assert_eq!(a.attempts(), 1);
}

#[test]
fn arming_twice_fails_loudly() {
    let mut a = PageAllocator::new(0x1000);
    assert_eq!(a.set_vm_offset(0xffff_8000_0000_0000), Ok(()));
    assert!(a.is_armed());
    assert_eq!(a.set_vm_offset(0), Err(AllocError::AlreadyArmed));
    assert!(a.is_armed());
}

#[test]
fn small_region_is_reported_rejected() {
    let mut a = PageAllocator::new(0x1000);
    a.set_vm_offset(0).unwrap();
    let r = a.add_region(free(0x3000, 0x500));
    assert_eq!(r, Err(AllocError::TooSmall));
    assert_eq!(a.region_count(), 0);
    assert_eq!(a.attempts(), 1);
}

#[test]
fn duplicate_registration_is_rejected_not_corrupting() {
    let mut a = PageAllocator::new(0x1000);
    a.set_vm_offset(0).unwrap();
    assert_eq!(a.add_region(free(0x1000, 0x2000)), Ok(()));
    assert_eq!(a.region_count(), 1);
    let second = a.add_region(free(0x1000, 0x2000));
    assert_eq!(second, Err(AllocError::Overlap));
    assert_eq!(a.region_count(), 1);
    assert_eq!(a.registered_region(0), (0x1000, 0x2000));
    assert_eq!(a.attempts(), 2);
}

#[test]
fn partial_overlap_is_rejected() {
    let mut a = PageAllocator::new(0x1000);
    a.set_vm_offset(0).unwrap();
    assert_eq!(a.add_region(free(0x1000, 0x2000)), Ok(()));
    assert_eq!(a.add_region(free(0x2000, 0x2000)), Err(AllocError::Overlap));
    assert_eq!(a.add_region(free(0x3000, 0x1000)), Ok(()));
    assert_eq!(a.region_count(), 2);
}

#[test]
fn region_past_address_space_is_rejected() {
    let mut a = PageAllocator::new(0x1000);
    a.set_vm_offset(0).unwrap();
    let r = a.add_region(free(u64::MAX - 0x100, 0x2000));
    assert_eq!(r, Err(AllocError::AddressOverflow));
    assert_eq!(a.region_count(), 0);
}

#[test]
fn classifier_scenario_memory_map() {
    // Memory map: a reserved region, a large free region, and a free region
    // smaller than the minimum page size.
    let map = vec![
        reserved(0, 0x1000),
        free(0x1000, 0x2000),
        free(0x3000, 0x500),
    ];
    let mut a = PageAllocator::new(0x1000);
    a.set_vm_offset(0).unwrap();
    let (summary, outcomes) = classify_memory_map(&mut a, &map);
    assert_eq!(summary.total, 3);
    assert_eq!(summary.free, 2);
    assert_eq!(a.attempts(), 2);
    assert_eq!(summary.added, 1);
    assert_eq!(summary.rejected, 1);
    assert_eq!(summary.free_bytes, 0x2000 + 0x500);
    assert_eq!(
        outcomes,
        vec![
            RegionOutcome::NotFree,
            RegionOutcome::Added,
            RegionOutcome::Rejected(AllocError::TooSmall),
        ]
    );
    assert_eq!(a.region_count(), 1);
    assert_eq!(a.registered_region(0), (0x1000, 0x2000));
}

#[test]
fn classifier_counts_free_regions_as_attempts() {
    let map = vec![
        free(0x1000, 0x1000),
        reserved(0x2000, 0x1000),
        free(0x1000, 0x1000),
        free(0x10000, 0x4000),
        reserved(0x20000, 0x100),
    ];
    let mut a = PageAllocator::new(0x1000);
    a.set_vm_offset(0).unwrap();
    let (summary, _outcomes) = classify_memory_map(&mut a, &map);
    assert_eq!(summary.total, 5);
    assert_eq!(summary.free, 3);
    // Every free region is exactly one registration attempt, even the
    // duplicate one the allocator rejects.
    assert_eq!(a.attempts(), 3);
    assert_eq!(summary.added, 2);
    assert_eq!(summary.rejected, 1);
}

#[test]
fn classifier_continues_after_rejection() {
    let map = vec![free(0x3000, 0x500), free(0x10000, 0x2000)];
    let mut a = PageAllocator::new(0x1000);
    a.set_vm_offset(0).unwrap();
    let (summary, outcomes) = classify_memory_map(&mut a, &map);
    assert_eq!(summary.added, 1);
    assert_eq!(summary.rejected, 1);
    assert_eq!(
        outcomes,
        vec![
            RegionOutcome::Rejected(AllocError::TooSmall),
            RegionOutcome::Added,
        ]
    );
    assert_eq!(a.registered_region(0), (0x10000, 0x2000));
}

#[test]
fn classifier_on_empty_map() {
    let map: Vec<Region> = Vec::new();
    let mut a = PageAllocator::new(0x1000);
    a.set_vm_offset(0).unwrap();
    let (summary, outcomes) = classify_memory_map(&mut a, &map);
    assert_eq!(summary.total, 0);
    assert_eq!(summary.free, 0);
    assert_eq!(summary.free_bytes, 0);
    assert_eq!(summary.added, 0);
    assert_eq!(summary.rejected, 0);
    assert!(outcomes.is_empty());
}

#[test]
fn classifier_does_not_assume_sorted_maps() {
    let map = vec![free(0x100000, 0x10000), free(0x1000, 0x1000)];
    let mut a = PageAllocator::new(0x1000);
    a.set_vm_offset(0).unwrap();
    let (summary, _outcomes) = classify_memory_map(&mut a, &map);
    assert_eq!(summary.added, 2);
    assert_eq!(a.registered_region(0), (0x100000, 0x10000));
    assert_eq!(a.registered_region(1), (0x1000, 0x1000));
}
