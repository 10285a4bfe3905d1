//! The queue in which a chunk keeps its free descriptor sets.
//!
//! The queue is `crossbeam_queue::SegQueue`. Nothing in this file is proved:
//! the contracts say what the queue's source shows. Each function takes the
//! queue by exclusive reference, so that nothing else pushes or pops while it
//! runs; a `SegQueue` then is a plain first-in, first-out queue.

use crossbeam_queue::SegQueue;
use vstd::prelude::*;

verus! {

/// `crossbeam_queue::SegQueue`, made known so that it can stand in fields and
/// signatures. Nothing of its inside is visible to the proofs.
#[verifier::external_type_specification]
#[verifier::external_body]
#[verifier::reject_recursive_types(T)]
pub struct ExSegQueue<T>(SegQueue<T>);

/// The sets that a queue holds, from the head, which `pop` takes next, to the
/// tail, where `push` puts the newest.
pub uninterp spec fn queued(queue: SegQueue<u64>) -> Seq<u64>;

/// `SegQueue::new`: a new queue holds nothing.
#[verifier::external_body]
pub(crate) fn new_queue() -> (queue: SegQueue<u64>)
    ensures
        queued(queue) == Seq::<u64>::empty(),
{
    SegQueue::new()
}

/// `SegQueue::push`: the value goes to the tail, behind everything that the
/// queue holds, and nothing else changes.
#[verifier::external_body]
pub(crate) fn push_back(queue: &mut SegQueue<u64>, set: u64)
    ensures
        queued(*final(queue)) == queued(*old(queue)).push(set),
{
    queue.push(set)
}

/// `SegQueue::pop`: an empty queue returns `None` and stays empty. Any other
/// queue returns the element at its head and keeps the rest, in order.
#[verifier::external_body]
pub(crate) fn pop_front(queue: &mut SegQueue<u64>) -> (head: Option<u64>)
    ensures
        match head {
            Some(set) => {
                &&& queued(*old(queue)).len() > 0
                &&& set == queued(*old(queue))[0]
                &&& queued(*final(queue)) == queued(*old(queue)).drop_first()
            },
            None => {
                &&& queued(*old(queue)).len() == 0
                &&& queued(*final(queue)) == queued(*old(queue))
            },
        },
{
    queue.pop()
}

} // verus!
