use descriptor_pool::descriptor_set::chunk::LocalPoolInner;
use descriptor_pool::descriptor_set::growth::{grown, FIRST_CAPACITY};

#[test]
fn fresh_chunk_holds_its_batch() {
    let chunk = LocalPoolInner::new(9, vec![10, 20, 30]);
    assert_eq!(chunk.batch(), 9);
    assert_eq!(chunk.capacity(), 3);
    assert_eq!(chunk.available(), 3);
    assert_eq!(chunk.on_loan(), 0);
    assert!(chunk.is_unreferenced());
}

#[test]
fn empty_chunk_gives_nothing() {
    let mut chunk = LocalPoolInner::new(9, Vec::new());
    assert_eq!(chunk.capacity(), 0);
    assert_eq!(chunk.take(), None);
    assert_eq!(chunk.available(), 0);
    assert_eq!(chunk.on_loan(), 0);
}

#[test]
fn take_hands_out_the_sets_in_order() {
    let mut chunk = LocalPoolInner::new(9, vec![10, 20, 30]);
    assert_eq!(chunk.take(), Some(10));
    assert_eq!(chunk.available(), 2);
    assert_eq!(chunk.on_loan(), 1);
    assert!(!chunk.is_unreferenced());
    assert_eq!(chunk.take(), Some(20));
    assert_eq!(chunk.take(), Some(30));
    assert_eq!(chunk.take(), None);
    assert_eq!(chunk.take(), None);
    assert_eq!(chunk.available(), 0);
    assert_eq!(chunk.on_loan(), 3);
}

#[test]
fn give_back_queues_behind_the_free_sets() {
    let mut chunk = LocalPoolInner::new(9, vec![10, 20, 30]);
    assert_eq!(chunk.take(), Some(10));
    assert_eq!(chunk.take(), Some(20));
    chunk.give_back(10);
    assert_eq!(chunk.available(), 2);
    assert_eq!(chunk.on_loan(), 1);
    assert_eq!(chunk.take(), Some(30));
    assert_eq!(chunk.take(), Some(10));
    assert_eq!(chunk.take(), None);
    chunk.give_back(30);
    chunk.give_back(20);
    chunk.give_back(10);
    assert!(chunk.is_unreferenced());
    assert_eq!(chunk.available(), 3);
    assert_eq!(chunk.take(), Some(30));
    assert_eq!(chunk.take(), Some(20));
    assert_eq!(chunk.take(), Some(10));
}

#[test]
fn large_batch_keeps_its_order() {
    // More sets than one segment of the queue holds.
    let sets: Vec<u64> = (0..1000).map(|i| 7 * i + 1).collect();
    let mut chunk = LocalPoolInner::new(1, sets.clone());
    assert_eq!(chunk.capacity(), 1000);
    for expected in &sets {
        assert_eq!(chunk.take(), Some(*expected));
    }
    assert_eq!(chunk.take(), None);
    for set in sets.iter().rev() {
        chunk.give_back(*set);
    }
    assert_eq!(chunk.available(), 1000);
    for expected in sets.iter().rev() {
        assert_eq!(chunk.take(), Some(*expected));
    }
}

#[test]
fn capacity_doubles_and_saturates() {
    assert_eq!(FIRST_CAPACITY, 3);
    assert_eq!(grown(3), 6);
    assert_eq!(grown(6), 12);
    assert_eq!(grown(0), 0);
    assert_eq!(grown(1), 2);
    assert_eq!(grown(0x7fff_ffff), 0xffff_fffe);
    assert_eq!(grown(0x8000_0000), u32::MAX);
    assert_eq!(grown(u32::MAX), u32::MAX);
    // Thirty doublings of three still fit; the next one does not.
    let mut capacity = FIRST_CAPACITY;
    for _ in 0..30 {
        capacity = grown(capacity);
    }
    assert_eq!(capacity, 3_221_225_472);
    assert_eq!(grown(capacity), u32::MAX);
    assert_eq!(grown(grown(capacity)), u32::MAX);
}
