//! Bounded hand-off between threads that never blocks the producer.

use vstd::prelude::*;

verus! {

/// `crossbeam::channel::Sender`, the sending side of a channel: carried about, never
/// looked into.
#[verifier::external_type_specification]
#[verifier::external_body]
#[verifier::reject_recursive_types(T)]
pub struct ExSender<T>(crossbeam::channel::Sender<T>);

/// `crossbeam::channel::Receiver`, the receiving side of a channel: carried about, never
/// looked into.
#[verifier::external_type_specification]
#[verifier::external_body]
#[verifier::reject_recursive_types(T)]
pub struct ExReceiver<T>(crossbeam::channel::Receiver<T>);

/// What became of an item offered to a bounded channel.
pub enum Publish<T> {
    /// The channel took the item.
    Delivered,
    /// The channel was full; the item comes back.
    Full(T),
    /// Every receiver is gone; the item comes back.
    Disconnected(T),
}

impl<T> Publish<T> {
    /// True when the item did not enter the channel.
    pub open spec fn dropped(&self) -> bool {
        !(self is Delivered)
    }

    /// The item that came back, if it did not enter the channel.
    pub open spec fn returned(&self) -> Option<T> {
        match self {
            Publish::Delivered => None,
            Publish::Full(item) => Some(*item),
            Publish::Disconnected(item) => Some(*item),
        }
    }
}

/// `crossbeam::channel::bounded`: a channel that holds at most `capacity` items.
/// Nothing is claimed of the two ends.
#[verifier::external_body]
pub(crate) fn bounded<T>(capacity: usize) -> (ends: (crossbeam::channel::Sender<T>, crossbeam::channel::Receiver<T>)) {
    crossbeam::channel::bounded(capacity)
}

/// `Sender::try_send`: offers `item` without blocking. Whether the channel takes it depends
/// on what other threads have done; when it does not, the error hands the same item back.
#[verifier::external_body]
pub(crate) fn try_send<T>(sender: &crossbeam::channel::Sender<T>, item: T) -> (outcome: Publish<T>)
    ensures
        outcome.dropped() ==> outcome.returned() == Some(item),
{
    match sender.try_send(item) {
        Ok(()) => Publish::Delivered,
        Err(crossbeam::channel::TrySendError::Full(back)) => Publish::Full(back),
        Err(crossbeam::channel::TrySendError::Disconnected(back)) => Publish::Disconnected(back),
    }
}

/// `Receiver::clone`: another handle on the same channel, so that `same_channel` holds of
/// the two. Handles on one channel are taken for the same value.
#[verifier::external_body]
pub(crate) fn clone_receiver<T>(receiver: &crossbeam::channel::Receiver<T>) -> (handle: crossbeam::channel::Receiver<T>)
    ensures
        handle == *receiver,
{
    receiver.clone()
}

/// True when `after` is `before` with one more item at its end.
pub open spec fn one_more<T>(before: Seq<T>, after: Seq<T>) -> bool {
    after.len() == before.len() + 1 && after.drop_last() == before
}

/// Number of items that an encoder's output channel holds before it drops.
pub const OUTPUT_CAPACITY: usize = 10;

/// Whether an item reached the channel.
#[derive(Debug, Clone, Copy, PartialEq, Eq, Structural)]
pub enum Outcome {
    /// The channel took the item.
    Delivered,
    /// The channel was full and the item was dropped.
    DroppedFull,
    /// No receiver was left and the item was dropped.
    DroppedDisconnected,
}

/// The items that a channel took after one more offer: `item` counts if the channel took
/// it.
pub open spec fn taken_after<T>(taken: Seq<T>, item: T, outcome: Outcome) -> Seq<T> {
    if outcome == Outcome::Delivered {
        taken.push(item)
    } else {
        taken
    }
}

/// The sending end of a channel together with a record of what went through it: every
/// item that was offered, and those among them that the channel took.
#[verifier::reject_recursive_types(T)]
pub struct Outlet<T> {
    sender: crossbeam::channel::Sender<T>,
    offered: Ghost<Seq<T>>,
    taken: Ghost<Seq<T>>,
}

impl<T> Outlet<T> {
    /// The sending end. It is the same for the whole life of the outlet.
    pub closed spec fn sender(&self) -> crossbeam::channel::Sender<T> {
        self.sender
    }

    /// Every item that was offered to the channel through this outlet, oldest first,
    /// whether the channel took it or not.
    pub closed spec fn offered(&self) -> Seq<T> {
        self.offered@
    }

    /// Every item that the channel took from this outlet, oldest first. Receivers get
    /// them in this order.
    pub closed spec fn taken(&self) -> Seq<T> {
        self.taken@
    }

    /// An outlet on `sender` through which nothing has gone yet.
    pub fn new(sender: crossbeam::channel::Sender<T>) -> (outlet: Self)
        ensures
            outlet.sender() == sender,
            outlet.offered() == Seq::<T>::empty(),
            outlet.taken() == Seq::<T>::empty(),
    {
        Outlet { sender, offered: Ghost(Seq::empty()), taken: Ghost(Seq::empty()) }
    }

    /// Offers `item` to the channel, once and without waiting, and says what became of
    /// it. An item that the channel does not take is gone.
    pub fn offer(&mut self, item: T) -> (outcome: Outcome)
        ensures
            final(self).sender() == old(self).sender(),
            final(self).offered() == old(self).offered().push(item),
            final(self).taken() == taken_after(old(self).taken(), item, outcome),
    {
        let ghost offered = item;
        let outcome = match try_send(&self.sender, item) {
            Publish::Delivered => Outcome::Delivered,
            Publish::Full(_) => Outcome::DroppedFull,
            Publish::Disconnected(_) => Outcome::DroppedDisconnected,
        };
        proof {
            self.offered = Ghost(self.offered@.push(offered));
            if outcome == Outcome::Delivered {
                self.taken = Ghost(self.taken@.push(offered));
            }
        }
        outcome
    }
}

/// The output of an encoder: a bounded channel that the encoder fills without ever
/// waiting, and a count of the items that found no room in it.
#[verifier::reject_recursive_types(T)]
pub struct OutputChannel<T> {
    outlet: Outlet<T>,
    receiver: crossbeam::channel::Receiver<T>,
    dropped: u64,
}

impl<T> OutputChannel<T> {
    /// The two ends of the channel. They are the same for the whole life of the output.
    pub closed spec fn ends(&self) -> (crossbeam::channel::Sender<T>, crossbeam::channel::Receiver<T>) {
        (self.outlet.sender(), self.receiver)
    }

    /// Number of items dropped so far; it stops counting at `u64::MAX`.
    pub closed spec fn dropped_count(&self) -> nat {
        self.dropped as nat
    }

    /// Every item that was offered to the channel, oldest first, whether the channel took
    /// it or not.
    pub closed spec fn offered(&self) -> Seq<T> {
        self.outlet.offered()
    }

    /// Every item that the channel took from this output, oldest first. Receivers get
    /// them in this order.
    pub closed spec fn taken(&self) -> Seq<T> {
        self.outlet.taken()
    }

    /// The items taken after one more publication: `item` counts if the channel took it.
    pub open spec fn taken_after(taken: Seq<T>, item: T, outcome: Outcome) -> Seq<T> {
        taken_after(taken, item, outcome)
    }

    /// The drop count after one more publication.
    pub open spec fn count_after(dropped: nat, outcome: Outcome) -> nat {
        if outcome == Outcome::Delivered || dropped >= u64::MAX {
            dropped
        } else {
            dropped + 1
        }
    }

    /// An output with room for `capacity` items and nothing dropped.
    pub fn bounded(capacity: usize) -> (output: Self)
        ensures
            output.dropped_count() == 0,
            output.offered() == Seq::<T>::empty(),
            output.taken() == Seq::<T>::empty(),
    {
        let (sender, receiver) = bounded(capacity);
        OutputChannel { outlet: Outlet::new(sender), receiver, dropped: 0 }
    }

    /// Offers `item` to the channel. This never blocks and never fails: an item that the
    /// channel does not take is dropped and counted.
    pub fn publish(&mut self, item: T) -> (outcome: Outcome)
        ensures
            final(self).ends() == old(self).ends(),
            final(self).dropped_count() == Self::count_after(old(self).dropped_count(), outcome),
            final(self).offered() == old(self).offered().push(item),
            final(self).taken() == Self::taken_after(old(self).taken(), item, outcome),
    {
        let outcome = self.outlet.offer(item);
        if outcome != Outcome::Delivered && self.dropped < u64::MAX {
            self.dropped = self.dropped + 1;
        }
        outcome
    }

    /// A receiving handle on the channel. Every call gives a handle on the same channel.
    pub fn subscribe(&self) -> (handle: crossbeam::channel::Receiver<T>)
        ensures
            handle == self.ends().1,
    {
        clone_receiver(&self.receiver)
    }

    /// Number of items dropped so far.
    pub fn dropped(&self) -> (count: u64)
        ensures
            count == self.dropped_count(),
    {
        self.dropped
    }
}

} // verus!
