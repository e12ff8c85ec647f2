//! Bounded frame queue that drops new items when full.

use std::sync::mpsc::{Receiver, SyncSender};
use vstd::prelude::*;

verus! {

#[verifier::external_type_specification]
#[verifier::external_body]
#[verifier::reject_recursive_types(T)]
pub struct ExSyncSender<T>(SyncSender<T>);

#[verifier::external_type_specification]
#[verifier::external_body]
#[verifier::reject_recursive_types(T)]
pub struct ExReceiver<T>(Receiver<T>);

/// Calls `std::sync::mpsc::sync_channel(bound)`: a bounded channel whose sender blocks
/// or refuses when `bound` items are queued. Nothing is claimed of the pair that comes back.
#[verifier::external_body]
fn bounded_channel<T>(bound: usize) -> (SyncSender<T>, Receiver<T>)
    requires
        bound >= 1,
{
    std::sync::mpsc::sync_channel(bound)
}

/// Calls `SyncSender::try_send` and reports whether the item was queued. Whether it is
/// depends on how full the queue is and on the receiving thread, so nothing is claimed of
/// the result.
#[verifier::external_body]
fn try_send_item<T>(tx: &SyncSender<T>, item: T) -> bool {
    tx.try_send(item).is_ok()
}

/// The capacity a queue is created with: the requested depth, at least one.
pub open spec fn queue_capacity(depth: usize) -> usize {
    if depth < 1 {
        1
    } else {
        depth
    }
}

/// Sending half of a bounded queue; counts the items it had to drop.
#[verifier::reject_recursive_types(T)]
pub struct DropChannel<T> {
    tx: SyncSender<T>,
    dropped: u64,
    capacity: Ghost<usize>,
    queued: Ghost<Seq<T>>,
}

impl<T> DropChannel<T> {
    /// Number of items dropped so far.
    pub closed spec fn dropped_count(&self) -> u64 {
        self.dropped
    }

    /// The underlying channel sender.
    pub closed spec fn sending_half(&self) -> SyncSender<T> {
        self.tx
    }

    /// The items the queue accepted so far, in the order they were pushed.
    pub closed spec fn queued_items(&self) -> Seq<T> {
        self.queued@
    }

    /// The capacity the queue was requested with (`max(depth, 1)`). This is the bound
    /// handed to `sync_channel`; nothing here ties it to the capacity of the channel that
    /// comes back, nor to what the receiver gets, since the std channel exposes neither.
    pub closed spec fn requested_capacity(&self) -> usize {
        self.capacity@
    }

    /// A sender and its receiver over a queue of `depth.max(1)` items. The recorded
    /// capacity is the bound requested of `sync_channel`; see [`Self::requested_capacity`].
    pub fn pair(depth: usize) -> (r: (Self, Receiver<T>))
        ensures
            r.0.dropped_count() == 0,
            r.0.queued_items() == Seq::<T>::empty(),
            r.0.requested_capacity() == queue_capacity(depth),
    {
        let bound: usize = if depth < 1 {
            1
        } else {
            depth
        };
        let (tx, rx) = bounded_channel(bound);
        (DropChannel { tx, dropped: 0, capacity: Ghost(bound), queued: Ghost(Seq::empty()) }, rx)
    }

    /// Queue `item` unless the queue is full or its receiver is gone: an accepted item is
    /// appended to the items queued so far; a refused item is dropped and counted (the
    /// count wraps around at `u64::MAX`).
    pub fn try_push(&mut self, item: T) -> (queued: bool)
        ensures
            final(self).requested_capacity() == old(self).requested_capacity(),
            final(self).sending_half() == old(self).sending_half(),
            queued ==> final(self).dropped_count() == old(self).dropped_count(),
            queued ==> final(self).queued_items() == old(self).queued_items().push(item),
            !queued ==> final(self).dropped_count() == old(self).dropped_count().wrapping_add(1),
            !queued ==> final(self).queued_items() == old(self).queued_items(),
    {
        let ghost pushed = item;
        if try_send_item(&self.tx, item) {
            proof {
                self.queued@ = self.queued@.push(pushed);
            }
            true
        } else {
            self.dropped = self.dropped.wrapping_add(1);
            false
        }
    }

    pub fn dropped(&self) -> (n: u64)
        ensures
            n == self.dropped_count(),
    {
        self.dropped
    }

    pub fn sender(&self) -> (tx: &SyncSender<T>)
        ensures
            *tx == self.sending_half(),
    {
        &self.tx
    }
}

} // verus!
