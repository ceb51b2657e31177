use kml_rhi::vulkan::{
    build_queue_create_entries, find_direct_queue_family_index, find_queue_family_index,
    find_queue_family_indices, QueueFamilyProperties, QueueTopology, QUEUE_COMPUTE, QUEUE_GRAPHICS,
    QUEUE_TRANSFER,
};

fn qf(queue_flags: u32, queue_count: u32) -> QueueFamilyProperties {
    QueueFamilyProperties { queue_flags, queue_count }
}

const DIRECT: u32 = QUEUE_GRAPHICS | QUEUE_COMPUTE | QUEUE_TRANSFER;

#[test]
fn scenario_dedicated_families() {
    // F0 universal with two queues, F1 compute-only, F2 transfer-only.
    let families = vec![qf(DIRECT, 2), qf(QUEUE_COMPUTE, 4), qf(QUEUE_TRANSFER, 1)];
    let t = find_queue_family_indices(&families).unwrap();
    assert_eq!(t.direct_family, 0);
    assert_eq!(t.compute_family, 1);
    assert_eq!(t.transfer_family, 2);
    let entries = build_queue_create_entries(&t);
    assert_eq!(entries.len(), 3);
    assert_eq!(entries[0].queue_family_index, 0);
    assert_eq!(entries[1].queue_family_index, 1);
    assert_eq!(entries[2].queue_family_index, 2);
    assert!(entries.iter().all(|e| e.queue_count == 1));
}

#[test]
fn scenario_single_universal_family() {
    // One family serving every role; the entries deduplicate to one.
    let families = vec![qf(DIRECT, 1)];
    let t = find_queue_family_indices(&families).unwrap();
    assert_eq!(t.direct_family, 0);
    assert_eq!(t.compute_family, 0);
    assert_eq!(t.transfer_family, 0);
    let entries = build_queue_create_entries(&t);
    assert_eq!(entries.len(), 1);
    assert_eq!(entries[0].queue_family_index, 0);
    assert_eq!(entries[0].queue_count, 1);
}

#[test]
fn scenario_relaxed_exclusivity() {
    // No fully exclusive compute or transfer family exists; the selector
    // relaxes to "not graphics" and picks F1 for both roles.
    let families = vec![qf(DIRECT, 1), qf(QUEUE_COMPUTE | QUEUE_TRANSFER, 2)];
    let t = find_queue_family_indices(&families).unwrap();
    assert_eq!(t.direct_family, 0);
    assert_eq!(t.compute_family, 1);
    assert_eq!(t.transfer_family, 1);
    let entries = build_queue_create_entries(&t);
    assert_eq!(entries.len(), 2);
    assert_eq!(entries[0].queue_family_index, 0);
    assert_eq!(entries[1].queue_family_index, 1);
}

#[test]
fn no_direct_family_fails() {
    let families = vec![qf(QUEUE_COMPUTE, 4), qf(QUEUE_TRANSFER, 2)];
    assert!(find_queue_family_indices(&families).is_none());
    assert!(find_direct_queue_family_index(&families).is_none());
}

#[test]
fn empty_family_list_fails() {
    let families: Vec<QueueFamilyProperties> = Vec::new();
    assert!(find_queue_family_indices(&families).is_none());
}

#[test]
fn zero_queue_count_never_selected() {
    // A qualifying family with no queues does not count.
    let families = vec![qf(DIRECT, 0)];
    assert!(find_direct_queue_family_index(&families).is_none());
}

#[test]
fn greatest_count_wins() {
    let families = vec![qf(DIRECT, 1), qf(DIRECT, 3), qf(DIRECT, 2)];
    assert_eq!(find_direct_queue_family_index(&families), Some(1));
}

#[test]
fn tie_keeps_earliest_family() {
    let families = vec![qf(DIRECT, 2), qf(DIRECT, 2)];
    assert_eq!(find_direct_queue_family_index(&families), Some(0));
}

#[test]
fn undesired_flags_exclude_family() {
    // F0 carries graphics, so it is excluded when graphics is undesired.
    let families = vec![qf(DIRECT, 8), qf(QUEUE_COMPUTE, 1)];
    assert_eq!(
        find_queue_family_index(&families, QUEUE_COMPUTE, QUEUE_GRAPHICS | QUEUE_TRANSFER),
        Some(1)
    );
    assert_eq!(
        find_queue_family_index(&families, QUEUE_COMPUTE, 0),
        Some(0)
    );
}

#[test]
fn compute_relaxes_to_not_transfer() {
    // The only compute families besides direct carry graphics; the chain
    // relaxes past "not graphics" down to "not transfer".
    let families = vec![qf(DIRECT, 1), qf(QUEUE_GRAPHICS | QUEUE_COMPUTE, 2)];
    let t = find_queue_family_indices(&families).unwrap();
    assert_eq!(t.compute_family, 1);
}

#[test]
fn compute_falls_back_to_direct() {
    // Only the universal family exposes compute at all: every relaxation
    // fails and the direct family serves compute too.
    let families = vec![qf(DIRECT, 1), qf(QUEUE_TRANSFER, 2)];
    let t = find_queue_family_indices(&families).unwrap();
    assert_eq!(t.direct_family, 0);
    assert_eq!(t.compute_family, 0);
    assert_eq!(t.transfer_family, 1);
}

#[test]
fn entries_dedup_transfer_equal_compute() {
    // Direct differs, compute and transfer share a family: two entries.
    let t = QueueTopology { direct_family: 0, compute_family: 1, transfer_family: 1 };
    let entries = build_queue_create_entries(&t);
    assert_eq!(entries.len(), 2);
}

#[test]
fn entries_dedup_transfer_equal_direct() {
    let t = QueueTopology { direct_family: 0, compute_family: 1, transfer_family: 0 };
    let entries = build_queue_create_entries(&t);
    assert_eq!(entries.len(), 2);
    assert_eq!(entries[0].queue_family_index, 0);
    assert_eq!(entries[1].queue_family_index, 1);
}
