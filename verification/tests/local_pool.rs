use descriptor_pool::descriptor_set::fixed_size_pool::{
    LocalPool, LocalPoolAlloc, PoolAction, PoolEvent,
};
use descriptor_pool::descriptor_set::pool::DescriptorPoolAllocError;
use descriptor_pool::OomError;

// A pool on device 7 whose batches hold consecutive sets: batch `n` holds
// `100 * n + 1`, `100 * n + 2`, and so on.
fn batch(n: u64, count: u32) -> PoolEvent {
    PoolEvent::Created { batch: 1000 + n, sets: (1..=count as u64).map(|i| 100 * n + i).collect() }
}

fn expect_create(action: PoolAction) -> (u64, u32) {
    match action {
        PoolAction::Create { device, count } => (device, count),
        other => panic!("the pool did not ask for a batch: {:?}", other),
    }
}

fn expect_alloc(action: PoolAction) -> (LocalPoolAlloc, Option<u64>) {
    match action {
        PoolAction::Allocated { alloc, retired } => (alloc, retired),
        other => panic!("the pool did not allocate: {:?}", other),
    }
}

#[test]
fn new_pool_has_nothing() {
    let pool = LocalPool::new(7);
    assert_eq!(pool.device(), 7);
    assert_eq!(pool.next_capacity(), 3);
    assert_eq!(pool.current_pool(), None);
    assert_eq!(pool.num_created(), 0);
    assert!(!pool.is_alive(0));
    assert_eq!(pool.available(0), None);
    assert_eq!(pool.on_loan(0), None);
}

#[test]
fn first_request_asks_for_three_sets() {
    let mut pool = LocalPool::new(7);
    assert_eq!(expect_create(pool.allocate(PoolEvent::Request)), (7, 3));
    assert_eq!(pool.next_capacity(), 3);
    assert_eq!(pool.current_pool(), None);
    assert_eq!(pool.num_created(), 0);
}

#[test]
fn pool_grows_from_three_to_six() {
    let mut pool = LocalPool::new(7);
    assert_eq!(expect_create(pool.allocate(PoolEvent::Request)), (7, 3));
    let (first, retired) = expect_alloc(pool.allocate(batch(0, 3)));
    assert_eq!(retired, None);
    assert_eq!((first.chunk(), first.inner()), (0, 1));
    assert_eq!(pool.available(0), Some(2));
    assert_eq!(pool.on_loan(0), Some(1));
    assert_eq!(pool.next_capacity(), 6);
    assert_eq!(pool.current_pool(), Some(0));

    let (second, _) = expect_alloc(pool.allocate(PoolEvent::Request));
    let (third, _) = expect_alloc(pool.allocate(PoolEvent::Request));
    assert_eq!((second.chunk(), second.inner()), (0, 2));
    assert_eq!((third.chunk(), third.inner()), (0, 3));
    assert_eq!(pool.available(0), Some(0));
    assert_eq!(pool.on_loan(0), Some(3));

    assert_eq!(expect_create(pool.allocate(PoolEvent::Request)), (7, 6));
    let (fourth, retired) = expect_alloc(pool.allocate(batch(1, 6)));
    assert_eq!(retired, None);
    assert_eq!((fourth.chunk(), fourth.inner()), (1, 101));
    assert_eq!(pool.current_pool(), Some(1));
    assert_eq!(pool.next_capacity(), 12);
    assert_eq!(pool.available(1), Some(5));

    // The first chunk lives on for as long as its sets are on loan.
    assert!(pool.is_alive(0));
    assert_eq!(pool.release(first), None);
    assert!(pool.is_alive(0));
    assert_eq!(pool.release(second), None);
    assert!(pool.is_alive(0));
    assert_eq!(pool.release(third), Some(1000));
    assert!(!pool.is_alive(0));
    assert!(pool.is_alive(1));
    assert_eq!(pool.release(fourth), None);
    assert!(pool.is_alive(1));
}

#[test]
fn release_after_the_failed_pop_goes_to_the_old_chunk() {
    let mut pool = LocalPool::new(7);
    pool.allocate(PoolEvent::Request);
    let (first, _) = expect_alloc(pool.allocate(batch(0, 3)));
    let (second, _) = expect_alloc(pool.allocate(PoolEvent::Request));
    let (third, _) = expect_alloc(pool.allocate(PoolEvent::Request));

    // The fourth request finds the reserve empty and asks for a batch. The
    // second set comes back while that batch is being created.
    assert_eq!(expect_create(pool.allocate(PoolEvent::Request)), (7, 6));
    assert_eq!(pool.release(second), None);
    assert_eq!(pool.available(0), Some(1));

    // The batch is installed all the same, and the request is served from it.
    let (fourth, retired) = expect_alloc(pool.allocate(batch(1, 6)));
    assert_eq!(retired, None);
    assert_eq!((fourth.chunk(), fourth.inner()), (1, 101));
    assert_eq!(pool.current_pool(), Some(1));
    assert_eq!(pool.num_created(), 2);

    // The set that came back waits in the chunk that it came from.
    assert!(pool.is_alive(0));
    assert_eq!(pool.available(0), Some(1));
    assert_eq!(pool.on_loan(0), Some(2));
    let (fifth, _) = expect_alloc(pool.allocate(PoolEvent::Request));
    assert_eq!((fifth.chunk(), fifth.inner()), (1, 102));

    assert_eq!(pool.release(first), None);
    assert_eq!(pool.release(third), Some(1000));
    assert!(!pool.is_alive(0));
}

#[test]
fn release_before_the_request_is_served_without_growth() {
    let mut pool = LocalPool::new(7);
    pool.allocate(PoolEvent::Request);
    let (_first, _) = expect_alloc(pool.allocate(batch(0, 3)));
    let (second, _) = expect_alloc(pool.allocate(PoolEvent::Request));
    let (_third, _) = expect_alloc(pool.allocate(PoolEvent::Request));
    assert_eq!(pool.release(second), None);
    let (again, retired) = expect_alloc(pool.allocate(PoolEvent::Request));
    assert_eq!(retired, None);
    assert_eq!((again.chunk(), again.inner()), (0, 2));
    assert_eq!(pool.num_created(), 1);
    assert_eq!(pool.next_capacity(), 6);
}

#[test]
fn failed_creation_leaves_the_pool_as_it_was() {
    let mut pool = LocalPool::new(7);
    assert_eq!(expect_create(pool.allocate(PoolEvent::Request)), (7, 3));
    match pool.allocate(PoolEvent::Failed(DescriptorPoolAllocError::OutOfDeviceMemory)) {
        PoolAction::Failed(error) => assert_eq!(error, OomError::OutOfDeviceMemory),
        other => panic!("unexpected answer: {:?}", other),
    }
    assert_eq!(pool.next_capacity(), 3);
    assert_eq!(pool.current_pool(), None);
    assert_eq!(pool.num_created(), 0);
    assert_eq!(expect_create(pool.allocate(PoolEvent::Request)), (7, 3));
}

#[test]
fn failed_growth_keeps_the_current_chunk() {
    let mut pool = LocalPool::new(7);
    pool.allocate(PoolEvent::Request);
    let (first, _) = expect_alloc(pool.allocate(batch(0, 3)));
    let (_second, _) = expect_alloc(pool.allocate(PoolEvent::Request));
    let (_third, _) = expect_alloc(pool.allocate(PoolEvent::Request));
    assert_eq!(expect_create(pool.allocate(PoolEvent::Request)), (7, 6));
    match pool.allocate(PoolEvent::Failed(DescriptorPoolAllocError::OutOfHostMemory)) {
        PoolAction::Failed(error) => assert_eq!(error, OomError::OutOfHostMemory),
        other => panic!("unexpected answer: {:?}", other),
    }
    assert_eq!(pool.next_capacity(), 6);
    assert_eq!(pool.current_pool(), Some(0));
    assert_eq!(pool.num_created(), 1);
    assert_eq!(pool.on_loan(0), Some(3));
    assert_eq!(expect_create(pool.allocate(PoolEvent::Request)), (7, 6));
    // The pool still works: a set that comes back is handed out again.
    assert_eq!(pool.release(first), None);
    let (again, _) = expect_alloc(pool.allocate(PoolEvent::Request));
    assert_eq!((again.chunk(), again.inner()), (0, 1));
}

#[test]
fn batches_double_in_size() {
    let mut pool = LocalPool::new(1);
    let mut held = Vec::new();
    let mut expected: u32 = 3;
    for n in 0..8u64 {
        let (device, count) = expect_create(pool.allocate(PoolEvent::Request));
        assert_eq!(device, 1);
        assert_eq!(count, expected);
        assert_eq!(count, 3 * (1u32 << n));
        let (alloc, retired) = expect_alloc(pool.allocate(batch(n, count)));
        assert_eq!(retired, None);
        assert_eq!(alloc.chunk() as u64, n);
        held.push(alloc);
        // Use the batch up, so that the next request has to grow the pool.
        for _ in 1..count {
            let (alloc, retired) = expect_alloc(pool.allocate(PoolEvent::Request));
            assert_eq!(retired, None);
            assert_eq!(alloc.chunk() as u64, n);
            held.push(alloc);
        }
        assert_eq!(pool.available(n as usize), Some(0));
        expected *= 2;
        assert_eq!(pool.next_capacity(), expected);
    }
    assert_eq!(pool.num_created(), 8);
    assert_eq!(held.len(), 3 * 255);
}

#[test]
fn released_set_is_handed_out_again() {
    let mut pool = LocalPool::new(7);
    pool.allocate(PoolEvent::Request);
    let (first, _) = expect_alloc(pool.allocate(batch(0, 3)));
    assert_eq!(first.inner(), 1);
    assert_eq!(pool.release(first), None);
    // The set queues up behind the two that are still free.
    assert_eq!(pool.available(0), Some(3));
    let order: Vec<u64> = (0..3)
        .map(|_| expect_alloc(pool.allocate(PoolEvent::Request)).0.inner())
        .collect();
    assert_eq!(order, vec![2, 3, 1]);
    assert_eq!(expect_create(pool.allocate(PoolEvent::Request)), (7, 6));
}

#[test]
fn sets_come_back_in_the_order_of_release() {
    let mut pool = LocalPool::new(7);
    pool.allocate(PoolEvent::Request);
    let (first, _) = expect_alloc(pool.allocate(batch(0, 3)));
    let (second, _) = expect_alloc(pool.allocate(PoolEvent::Request));
    let (third, _) = expect_alloc(pool.allocate(PoolEvent::Request));
    assert_eq!(pool.release(third), None);
    assert_eq!(pool.release(first), None);
    assert_eq!(pool.release(second), None);
    assert_eq!(pool.available(0), Some(3));
    assert_eq!(pool.on_loan(0), Some(0));
    // The current chunk stays though nothing is on loan from it.
    assert!(pool.is_alive(0));
    let order: Vec<u64> = (0..3)
        .map(|_| expect_alloc(pool.allocate(PoolEvent::Request)).0.inner())
        .collect();
    assert_eq!(order, vec![3, 1, 2]);
}

#[test]
fn no_set_is_on_loan_twice() {
    let mut pool = LocalPool::new(7);
    let mut held: Vec<LocalPoolAlloc> = Vec::new();
    let mut batches = 0u64;
    for step in 0..200u32 {
        if step % 3 == 2 {
            // Give one back, from the middle of what is held.
            let alloc = held.remove(held.len() / 2);
            pool.release(alloc);
        } else {
            let alloc = match pool.allocate(PoolEvent::Request) {
                PoolAction::Allocated { alloc, .. } => alloc,
                PoolAction::Create { count, .. } => {
                    let event = batch(batches, count);
                    batches += 1;
                    expect_alloc(pool.allocate(event)).0
                }
                other => panic!("unexpected answer: {:?}", other),
            };
            assert!(held
                .iter()
                .all(|other| (other.chunk(), other.inner()) != (alloc.chunk(), alloc.inner())));
            held.push(alloc);
        }
        // In every living chunk the free sets and the lent ones add up to the
        // size of its batch, and the lent ones are those that are held.
        for chunk in 0..pool.num_created() {
            let lent = held.iter().filter(|alloc| alloc.chunk() == chunk).count() as u32;
            match (pool.available(chunk), pool.on_loan(chunk)) {
                (Some(free), Some(on_loan)) => {
                    assert_eq!(on_loan, lent);
                    assert_eq!(free + on_loan, 3 * (1u32 << chunk));
                }
                (None, None) => assert_eq!(lent, 0),
                other => panic!("the two counts disagree: {:?}", other),
            }
        }
    }
}

#[test]
fn old_chunk_survives_until_its_last_set_is_back() {
    let mut pool = LocalPool::new(7);
    pool.allocate(PoolEvent::Request);
    let mut old = vec![expect_alloc(pool.allocate(batch(0, 3))).0];
    old.push(expect_alloc(pool.allocate(PoolEvent::Request)).0);
    old.push(expect_alloc(pool.allocate(PoolEvent::Request)).0);
    pool.allocate(PoolEvent::Request);
    let (_new, retired) = expect_alloc(pool.allocate(batch(1, 6)));
    assert_eq!(retired, None);
    assert_eq!(pool.current_pool(), Some(1));
    let last = old.pop().unwrap();
    for alloc in old {
        assert!(pool.is_alive(0));
        assert_eq!(pool.release(alloc), None);
    }
    assert!(pool.is_alive(0));
    assert_eq!(pool.available(0), Some(2));
    assert_eq!(pool.release(last), Some(1000));
    assert!(!pool.is_alive(0));
    assert_eq!(pool.available(0), None);
    assert_eq!(pool.on_loan(0), None);
    // The place of the chunk is not used again.
    assert_eq!(pool.num_created(), 2);
    assert_eq!(pool.current_pool(), Some(1));
}

#[test]
fn unreferenced_chunk_is_retired_when_it_is_replaced() {
    let mut pool = LocalPool::new(7);
    pool.allocate(PoolEvent::Request);
    let first = expect_alloc(pool.allocate(batch(0, 3))).0;
    let second = expect_alloc(pool.allocate(PoolEvent::Request)).0;
    let third = expect_alloc(pool.allocate(PoolEvent::Request)).0;
    assert_eq!(expect_create(pool.allocate(PoolEvent::Request)), (7, 6));
    // Everything comes back while the new batch is being created.
    assert_eq!(pool.release(first), None);
    assert_eq!(pool.release(second), None);
    assert_eq!(pool.release(third), None);
    assert!(pool.is_alive(0));
    let (fourth, retired) = expect_alloc(pool.allocate(batch(1, 6)));
    assert_eq!(retired, Some(1000));
    assert!(!pool.is_alive(0));
    assert_eq!((fourth.chunk(), fourth.inner()), (1, 101));
}

#[test]
fn all_released_sets_are_in_the_reserve() {
    let mut pool = LocalPool::new(7);
    let mut held = Vec::new();
    pool.allocate(PoolEvent::Request);
    held.push(expect_alloc(pool.allocate(batch(0, 3))).0);
    held.push(expect_alloc(pool.allocate(PoolEvent::Request)).0);
    held.push(expect_alloc(pool.allocate(PoolEvent::Request)).0);
    pool.allocate(PoolEvent::Request);
    held.push(expect_alloc(pool.allocate(batch(1, 6))).0);
    for _ in 1..6 {
        held.push(expect_alloc(pool.allocate(PoolEvent::Request)).0);
    }
    assert_eq!(pool.available(1), Some(0));
    let from_current: Vec<LocalPoolAlloc> =
        held.into_iter().filter(|alloc| alloc.chunk() == 1).collect();
    assert_eq!(from_current.len(), 6);
    for alloc in from_current.into_iter().rev() {
        assert_eq!(pool.release(alloc), None);
    }
    assert_eq!(pool.available(1), Some(6));
    assert_eq!(pool.on_loan(1), Some(0));
    let order: Vec<u64> = (0..6)
        .map(|_| expect_alloc(pool.allocate(PoolEvent::Request)).0.inner())
        .collect();
    assert_eq!(order, vec![106, 105, 104, 103, 102, 101]);
}

#[test]
fn out_of_memory_errors_are_passed_on_unchanged() {
    assert_eq!(DescriptorPoolAllocError::OutOfHostMemory.into_oom(), OomError::OutOfHostMemory);
    assert_eq!(
        DescriptorPoolAllocError::OutOfDeviceMemory.into_oom(),
        OomError::OutOfDeviceMemory
    );
}
