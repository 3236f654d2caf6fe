use vkez::flags::{contains, count_ones, intersects};
use vkez::{
    QueueFamilyProperties, QueueFamilyRequest, PRIORITY_ONE_BITS, QUEUE_COMPUTE, QUEUE_FLAGS_ALL,
    QUEUE_GRAPHICS, QUEUE_SPARSE_BINDING, QUEUE_TRANSFER,
};

fn family(queue_flags: u32, queue_count: u32) -> QueueFamilyProperties {
    QueueFamilyProperties {
        queue_flags,
        queue_count,
    }
}

#[test]
fn empty_request_takes_first_family() {
    let q = QueueFamilyRequest::empty();
    let fams = vec![
        family(QUEUE_TRANSFER, 1),
        family(QUEUE_GRAPHICS | QUEUE_COMPUTE, 16),
        family(0, 0),
    ];
    assert_eq!(q.choose_queue_family_index(&fams), Some(0));
    let fams = vec![family(0, 0)];
    assert_eq!(q.choose_queue_family_index(&fams), Some(0));
}

#[test]
fn empty_family_list_gives_none() {
    let q = QueueFamilyRequest::empty();
    assert_eq!(q.choose_queue_family_index(&[]), None);
    let q = QueueFamilyRequest::empty().require_compute().amount(2);
    assert_eq!(q.choose_queue_family_index(&[]), None);
    assert!(q.get_create_info(&[]).is_none());
}

#[test]
fn missing_required_bit_is_never_chosen() {
    let q = QueueFamilyRequest::empty().require_graphics().require_compute();
    let fams = vec![
        family(QUEUE_GRAPHICS, 4),
        family(QUEUE_COMPUTE | QUEUE_TRANSFER, 4),
    ];
    assert_eq!(q.choose_queue_family_index(&fams), None);
    let fams = vec![
        family(QUEUE_GRAPHICS, 4),
        family(QUEUE_COMPUTE | QUEUE_GRAPHICS, 4),
    ];
    assert_eq!(q.choose_queue_family_index(&fams), Some(1));
}

#[test]
fn forbidden_bit_is_never_chosen() {
    let q = QueueFamilyRequest::empty()
        .require_compute()
        .must_not_support(QUEUE_GRAPHICS);
    let fams = vec![
        family(QUEUE_GRAPHICS | QUEUE_COMPUTE, 4),
        family(QUEUE_COMPUTE | QUEUE_TRANSFER, 4),
    ];
    assert_eq!(q.choose_queue_family_index(&fams), Some(1));
    let fams = vec![family(QUEUE_GRAPHICS | QUEUE_COMPUTE, 4)];
    assert_eq!(q.choose_queue_family_index(&fams), None);
}

#[test]
fn too_few_queues_is_never_chosen() {
    let q = QueueFamilyRequest::empty()
        .require_compute()
        .prefer_support(QUEUE_TRANSFER)
        .amount(3);
    let fams = vec![
        family(QUEUE_COMPUTE | QUEUE_TRANSFER, 2),
        family(QUEUE_COMPUTE, 3),
    ];
    assert_eq!(q.choose_queue_family_index(&fams), Some(1));
    let fams = vec![family(QUEUE_COMPUTE | QUEUE_TRANSFER, 2)];
    assert_eq!(q.choose_queue_family_index(&fams), None);
}

#[test]
fn equal_scores_go_to_lower_index() {
    let q = QueueFamilyRequest::empty()
        .require_compute()
        .prefer_support(QUEUE_TRANSFER)
        .prefer_not_support(QUEUE_GRAPHICS);
    let fams = vec![
        family(QUEUE_GRAPHICS, 1),
        family(QUEUE_COMPUTE | QUEUE_TRANSFER | QUEUE_SPARSE_BINDING, 1),
        family(QUEUE_COMPUTE | QUEUE_TRANSFER, 1),
    ];
    assert_eq!(q.choose_queue_family_index(&fams), Some(1));
}

#[test]
fn more_preferred_bits_win() {
    let q = QueueFamilyRequest::empty()
        .require_compute()
        .prefer_support(QUEUE_TRANSFER | QUEUE_SPARSE_BINDING)
        .prefer_not_support(QUEUE_GRAPHICS);
    let fams = vec![
        family(QUEUE_COMPUTE, 1),
        family(QUEUE_COMPUTE | QUEUE_TRANSFER | QUEUE_GRAPHICS, 1),
        family(QUEUE_COMPUTE | QUEUE_SPARSE_BINDING | QUEUE_TRANSFER | QUEUE_GRAPHICS, 1),
        family(QUEUE_COMPUTE | QUEUE_TRANSFER, 1),
    ];
    assert_eq!(q.choose_queue_family_index(&fams), Some(2));
}

#[test]
fn prefer_alone_picks_dedicated_compute_family() {
    let q = QueueFamilyRequest::empty()
        .must_support(QUEUE_COMPUTE)
        .prefer_not_support(QUEUE_GRAPHICS | QUEUE_TRANSFER);
    let fams = vec![
        family(QUEUE_GRAPHICS | QUEUE_COMPUTE | QUEUE_TRANSFER, 2),
        family(QUEUE_COMPUTE, 2),
    ];
    assert_eq!(q.choose_queue_family_index(&fams), Some(1));

    let q = QueueFamilyRequest::empty().require_compute().prefer_alone();
    assert_eq!(q.choose_queue_family_index(&fams), Some(1));
}

#[test]
fn prefer_alone_marks_everything_else_unwanted() {
    let q = QueueFamilyRequest::empty()
        .require_compute()
        .prefer_support(QUEUE_TRANSFER)
        .prefer_alone();
    assert_eq!(
        q.prefer_not_support,
        QUEUE_FLAGS_ALL & !(QUEUE_COMPUTE | QUEUE_TRANSFER)
    );
    assert_eq!(q.prefer_not_support, 0x179);
    assert_eq!(q.must_support, QUEUE_COMPUTE);
    assert_eq!(q.prefer_support, QUEUE_TRANSFER);
}

#[test]
fn builders_accumulate_flags() {
    let q = QueueFamilyRequest::empty()
        .require_graphics()
        .require_transfer()
        .must_not_support(QUEUE_SPARSE_BINDING)
        .prefer_support(QUEUE_COMPUTE);
    assert_eq!(q.must_support, QUEUE_GRAPHICS | QUEUE_TRANSFER);
    assert_eq!(q.must_not_support, QUEUE_SPARSE_BINDING);
    assert_eq!(q.prefer_support, QUEUE_COMPUTE);
    assert_eq!(q.prefer_not_support, 0);
    assert!(q.priorities.is_empty());
}

#[test]
fn amount_fills_priorities_with_one() {
    let q = QueueFamilyRequest::empty().amount(3);
    assert_eq!(q.priorities, vec![PRIORITY_ONE_BITS; 3]);
    assert_eq!(f32::from_bits(q.priorities[0]), 1.0);
    let q = q.amount(0);
    assert!(q.priorities.is_empty());
}

#[test]
fn create_info_copies_priorities() {
    let priorities = vec![1.0f32.to_bits(), 0.5f32.to_bits()];
    let q = QueueFamilyRequest::empty()
        .require_compute()
        .amount_with_priorities(priorities.clone());
    let fams = vec![family(QUEUE_GRAPHICS, 4), family(QUEUE_COMPUTE, 2)];
    let info = q.get_create_info(&fams).unwrap();
    assert_eq!(info.queue_family_index, 1);
    assert_eq!(info.queue_priorities, priorities);
    let fams = vec![family(QUEUE_COMPUTE, 1)];
    assert!(q.get_create_info(&fams).is_none());
}

#[test]
fn bit_helpers() {
    assert_eq!(count_ones(0), 0);
    assert_eq!(count_ones(0x17f), 8);
    assert_eq!(count_ones(u32::MAX), 32);
    assert_eq!(count_ones(0x8000_0001), 2);
    assert!(contains(0b111, 0b101));
    assert!(!contains(0b011, 0b101));
    assert!(contains(5, 0));
    assert!(intersects(0b110, 0b011));
    assert!(!intersects(0b100, 0b011));
}

#[test]
fn prefer_alone_replaces_earlier_unwanted_flags() {
    let q = QueueFamilyRequest::empty()
        .require_graphics()
        .prefer_not_support(QUEUE_GRAPHICS)
        .prefer_alone();
    assert_eq!(q.prefer_not_support, 0x17e);
    assert_eq!(q.must_support, QUEUE_GRAPHICS);
}
