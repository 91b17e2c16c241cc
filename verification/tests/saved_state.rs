use winter::memory::{MemoryAllocation, MemoryPermissions, MemoryPermissionsRwe, ReservedMemoryRegion};
use winter::saved_state::{
    permissions_need_update, plan_allocation_changes, regions_to_save, AllocationChange,
};

fn reserved(address: usize, size: usize, committed: bool, guard: bool) -> ReservedMemoryRegion {
    ReservedMemoryRegion {
        address,
        size,
        is_committed: committed,
        allocation_address: address,
        permissions: MemoryPermissions { rwe: MemoryPermissionsRwe::ReadWrite, is_guard: guard },
    }
}

fn allocation(address: usize, size: usize) -> MemoryAllocation {
    MemoryAllocation { address, size, regions: vec![reserved(address, size, true, false)] }
}

#[test]
fn plan_keeps_identical_layout() {
    let layout = vec![allocation(0x1000, 0x1000), allocation(0x4000, 0x2000)];
    assert!(plan_allocation_changes(&layout, &layout).is_empty());
}

#[test]
fn plan_frees_new_and_allocates_missing() {
    let current = vec![allocation(0x1000, 0x1000), allocation(0x3000, 0x1000), allocation(0x8000, 0x1000)];
    let saved = vec![allocation(0x1000, 0x1000), allocation(0x5000, 0x1000)];
    let changes = plan_allocation_changes(&current, &saved);
    assert_eq!(
        changes,
        vec![
            AllocationChange::Free { address: 0x3000 },
            AllocationChange::Allocate { address: 0x5000, size: 0x1000 },
            AllocationChange::Free { address: 0x8000 },
        ]
    );
}

#[test]
fn plan_replaces_resized_allocation() {
    let current = vec![allocation(0x1000, 0x2000)];
    let saved = vec![allocation(0x1000, 0x1000)];
    assert_eq!(
        plan_allocation_changes(&current, &saved),
        vec![
            AllocationChange::Free { address: 0x1000 },
            AllocationChange::Allocate { address: 0x1000, size: 0x1000 },
        ]
    );
}

#[test]
fn plan_from_empty_process() {
    let saved = vec![allocation(0x1000, 0x1000), allocation(0x3000, 0x1000)];
    assert_eq!(
        plan_allocation_changes(&Vec::new(), &saved),
        vec![
            AllocationChange::Allocate { address: 0x1000, size: 0x1000 },
            AllocationChange::Allocate { address: 0x3000, size: 0x1000 },
        ]
    );
    assert_eq!(
        plan_allocation_changes(&saved, &Vec::new()),
        vec![AllocationChange::Free { address: 0x1000 }, AllocationChange::Free { address: 0x3000 }]
    );
}

#[test]
fn saved_regions_are_committed_and_unguarded() {
    let allocations = vec![
        MemoryAllocation {
            address: 0x1000,
            size: 0x3000,
            regions: vec![
                reserved(0x1000, 0x1000, true, false),
                reserved(0x2000, 0x1000, false, false),
                reserved(0x3000, 0x1000, true, true),
            ],
        },
        allocation(0x8000, 0x2000),
    ];
    assert_eq!(regions_to_save(&allocations), vec![(0x1000, 0x1000), (0x8000, 0x2000)]);
}

#[test]
fn permissions_update_only_on_difference() {
    let region = reserved(0x1000, 0x1000, true, false);
    assert!(!permissions_need_update(&region, &region));
    let guarded = reserved(0x1000, 0x1000, true, true);
    assert!(permissions_need_update(&region, &guarded));
    let bigger = reserved(0x1000, 0x2000, true, false);
    assert!(permissions_need_update(&region, &bigger));
    let mut moved = region;
    moved.address = 0x2000;
    assert!(permissions_need_update(&region, &moved));
}

#[test]
fn applying_plan_restores_saved_layout() {
    let current = vec![
        allocation(0x1000, 0x1000),
        allocation(0x2000, 0x3000),
        allocation(0x9000, 0x1000),
        allocation(0xa000, 0x1000),
    ];
    let saved = vec![
        allocation(0x1000, 0x1000),
        allocation(0x2000, 0x1000),
        allocation(0x6000, 0x2000),
        allocation(0xa000, 0x1000),
    ];
    let mut layout: Vec<(usize, usize)> = current.iter().map(|a| (a.address, a.size)).collect();
    for change in plan_allocation_changes(&current, &saved) {
        match change {
            AllocationChange::Free { address } => layout.retain(|e| e.0 != address),
            AllocationChange::Allocate { address, size } => layout.push((address, size)),
        }
    }
    layout.sort();
    let expected: Vec<(usize, usize)> = saved.iter().map(|a| (a.address, a.size)).collect();
    assert_eq!(layout, expected);
}
