use winter::memory::{
    group_memory_allocations, next_query_address, FreeMemoryRegion, MemoryAllocation,
    MemoryPermissions, MemoryPermissionsRwe, MemoryRegion, ReservedMemoryRegion, MEM_COMMIT,
    MEM_FREE,
};

fn region(address: usize, size: usize, allocation_address: usize) -> ReservedMemoryRegion {
    ReservedMemoryRegion {
        address,
        size,
        is_committed: true,
        allocation_address,
        permissions: MemoryPermissions { rwe: MemoryPermissionsRwe::ReadWrite, is_guard: false },
    }
}

#[test]
fn permissions_decode_known_constants() {
    let cases = [
        (0x00u32, MemoryPermissionsRwe::Unknown),
        (0x01, MemoryPermissionsRwe::NoAccess),
        (0x02, MemoryPermissionsRwe::Read),
        (0x04, MemoryPermissionsRwe::ReadWrite),
        (0x08, MemoryPermissionsRwe::ReadWriteCow),
        (0x10, MemoryPermissionsRwe::Execute),
        (0x20, MemoryPermissionsRwe::ReadExecute),
        (0x40, MemoryPermissionsRwe::ReadWriteExecute),
    ];
    for (constant, rwe) in cases {
        let permissions = MemoryPermissions::from_winapi_constant(constant);
        assert_eq!(permissions, MemoryPermissions { rwe, is_guard: false });
        let guarded = MemoryPermissions::from_winapi_constant(constant | 0x100);
        assert_eq!(guarded, MemoryPermissions { rwe, is_guard: true });
    }
}

#[test]
fn permissions_round_trip_through_constant() {
    for rwe in [
        MemoryPermissionsRwe::Unknown,
        MemoryPermissionsRwe::NoAccess,
        MemoryPermissionsRwe::Read,
        MemoryPermissionsRwe::ReadWrite,
        MemoryPermissionsRwe::ReadWriteCow,
        MemoryPermissionsRwe::Execute,
        MemoryPermissionsRwe::ReadExecute,
        MemoryPermissionsRwe::ReadWriteExecute,
    ] {
        for is_guard in [false, true] {
            let permissions = MemoryPermissions { rwe, is_guard };
            let constant = permissions.to_winapi_constant();
            assert_eq!(MemoryPermissions::from_winapi_constant(constant), permissions);
        }
    }
}

#[test]
fn permissions_encode_exact_constants() {
    let guarded_execute_read = MemoryPermissions {
        rwe: MemoryPermissionsRwe::ReadExecute,
        is_guard: true,
    };
    assert_eq!(guarded_execute_read.to_winapi_constant(), 0x120);
    let no_access = MemoryPermissions { rwe: MemoryPermissionsRwe::NoAccess, is_guard: false };
    assert_eq!(no_access.to_winapi_constant(), 0x01);
}

#[test]
fn permissions_ignore_other_high_bits() {
    // PAGE_NOCACHE (0x200) is dropped; the guard bit is kept.
    let permissions = MemoryPermissions::from_winapi_constant(0x304);
    assert_eq!(permissions, MemoryPermissions { rwe: MemoryPermissionsRwe::ReadWrite, is_guard: true });
    assert_eq!(permissions.to_winapi_constant(), 0x104);
}

#[test]
fn query_of_free_region() {
    let region = MemoryRegion::from_query(0x1000, 0, 0x3000, MEM_FREE, 0);
    assert_eq!(region, MemoryRegion::Free(FreeMemoryRegion { address: 0x1000, size: 0x3000 }));
    assert_eq!(region.address(), 0x1000);
    assert_eq!(region.size(), 0x3000);
}

#[test]
fn query_of_reserved_region() {
    let committed = MemoryRegion::from_query(0x2000, 0x1000, 0x1000, MEM_COMMIT, 0x104);
    match committed {
        MemoryRegion::Reserved(r) => {
            assert_eq!(r.address(), 0x2000);
            assert_eq!(r.size(), 0x1000);
            assert!(r.is_committed());
            assert_eq!(r.allocation_address(), 0x1000);
            assert_eq!(
                r.permissions(),
                MemoryPermissions { rwe: MemoryPermissionsRwe::ReadWrite, is_guard: true }
            );
        }
        MemoryRegion::Free(_) => panic!("expected a reserved region"),
    }
    // MEM_RESERVE: reserved but not committed.
    let reserved = MemoryRegion::from_query(0x5000, 0x5000, 0x1000, 0x2000, 0x01);
    match reserved {
        MemoryRegion::Reserved(r) => assert!(!r.is_committed()),
        MemoryRegion::Free(_) => panic!("expected a reserved region"),
    }
}

#[test]
fn query_walk_stops_on_wrap() {
    assert_eq!(next_query_address(0x1000, 0x1000, 0x2000), Some(0x3000));
    assert_eq!(next_query_address(0x1800, 0x1000, 0x2000), Some(0x3000));
    assert_eq!(next_query_address(usize::MAX - 0xfff, usize::MAX - 0xfff, 0x1000), None);
}

#[test]
fn group_regions_into_allocations() {
    let regions = vec![
        region(0x1000, 0x1000, 0x1000),
        region(0x2000, 0x2000, 0x1000),
        region(0x4000, 0x1000, 0x4000),
        region(0x5000, 0x1000, 0x1000),
    ];
    let allocations: Vec<MemoryAllocation> = group_memory_allocations(regions.clone());
    assert_eq!(allocations.len(), 3);
    assert_eq!(allocations[0].address, 0x1000);
    assert_eq!(allocations[0].size, 0x3000);
    assert_eq!(allocations[0].regions, vec![regions[0], regions[1]]);
    assert_eq!(allocations[1].address, 0x4000);
    assert_eq!(allocations[1].size, 0x1000);
    assert_eq!(allocations[1].regions, vec![regions[2]]);
    // A later run with a base seen before is a separate allocation.
    assert_eq!(allocations[2].address, 0x1000);
    assert_eq!(allocations[2].size, 0x1000);
    assert_eq!(allocations[2].regions, vec![regions[3]]);
}

#[test]
fn group_no_regions() {
    assert!(group_memory_allocations(Vec::new()).is_empty());
}
