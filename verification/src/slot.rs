use crate::channel::{EventReceiver, Polled};
use parking_lot::Mutex;
use std::sync::Arc;
use std::task::Context;
use vstd::prelude::*;

verus! {

/// `parking_lot::Mutex`, a lock around shared data.
#[verifier::external_type_specification]
#[verifier::external_body]
#[verifier::reject_recursive_types(R)]
#[verifier::reject_recursive_types(T)]
pub struct ExMutex<R, T: ?Sized>(parking_lot::lock_api::Mutex<R, T>);

/// `parking_lot::RawMutex`, the state of such a lock.
#[verifier::external_type_specification]
#[verifier::external_body]
pub struct ExRawMutex(parking_lot::RawMutex);

/// A handle on a shared place where a receiver waits to be picked up. It records whether the place
/// was made for it, what it has left there, what it saw on looking, and how often it was shared.
#[verifier::reject_recursive_types(T)]
pub struct PendingSlot<T> {
    cell: Arc<Mutex<Option<EventReceiver<T>>>>,
    own: Ghost<bool>,
    offered: Ghost<Seq<(int, Option<EventReceiver<T>>)>>,
    looks: Ghost<Seq<bool>>,
    shares: Ghost<nat>,
}

/// What was found on emptying a place, with a record of where.
#[verifier::reject_recursive_types(T)]
pub struct Found<T> {
    receiver: Option<EventReceiver<T>>,
    place: Ghost<Arc<Mutex<Option<EventReceiver<T>>>>>,
}

/// There was no receiver to pick up, with a record of where.
#[verifier::reject_recursive_types(T)]
pub struct NothingPending<T> {
    place: Ghost<Arc<Mutex<Option<EventReceiver<T>>>>>,
}

/// A receiver that was picked up, with a record of where.
#[verifier::reject_recursive_types(T)]
pub struct PickedUp<T> {
    receiver: EventReceiver<T>,
    place: Ghost<Arc<Mutex<Option<EventReceiver<T>>>>>,
}

impl<T> PendingSlot<T> {
    /// The place itself. Handles with the same place share what is in it.
    pub closed spec fn place(self) -> Arc<Mutex<Option<EventReceiver<T>>>> {
        self.cell
    }

    /// The place was made for this handle, and not shared from another one.
    pub closed spec fn is_own(self) -> bool {
        self.own@
    }

    /// The channels whose receivers were left in the place through this handle, in order, each with
    /// the receiver that was there before, if any.
    pub closed spec fn offered(self) -> Seq<(int, Option<EventReceiver<T>>)> {
        self.offered@
    }

    /// What this handle saw each time it looked, in order: whether there was nothing to pick up.
    pub closed spec fn looks(self) -> Seq<bool> {
        self.looks@
    }

    /// How many further handles on the place were made of this one.
    pub closed spec fn shares(self) -> nat {
        self.shares@
    }

    /// Nothing was done through this handle: nothing was left, there was no look, and no further
    /// handle was made of it.
    pub open spec fn is_unused(self) -> bool {
        &&& self.offered().len() == 0
        &&& self.looks().len() == 0
        &&& self.shares() == 0
    }

    /// It is the handle that was `before`, on the same place, and it was not shared since.
    pub open spec fn continues(self, before: PendingSlot<T>) -> bool {
        &&& self.place() == before.place()
        &&& self.is_own() == before.is_own()
        &&& self.shares() == before.shares()
    }

    /// Calls `Mutex::new` on an empty option. What a lock holds changes behind shared references, so
    /// it is not a property of the lock that could be stated.
    #[verifier::external_body]
    fn empty_cell() -> (cell: Mutex<Option<EventReceiver<T>>>) {
        Mutex::new(None)
    }

    /// A new place with nothing in it.
    pub(crate) fn new() -> (slot: Self)
        ensures
            slot.is_own(),
            slot.is_unused(),
    {
        PendingSlot {
            cell: Arc::new(Self::empty_cell()),
            own: Ghost(true),
            offered: Ghost(Seq::empty()),
            looks: Ghost(Seq::empty()),
            shares: Ghost(0),
        }
    }

    /// Another handle on the same place.
    pub(crate) fn share(&mut self) -> (slot: Self)
        ensures
            slot.place() == old(self).place(),
            !slot.is_own(),
            slot.is_unused(),
            final(self).place() == old(self).place(),
            final(self).is_own() == old(self).is_own(),
            final(self).offered() == old(self).offered(),
            final(self).looks() == old(self).looks(),
            final(self).shares() == old(self).shares() + 1,
    {
        self.shares = Ghost((self.shares@ + 1) as nat);
        PendingSlot {
            cell: self.cell.clone(),
            own: Ghost(false),
            offered: Ghost(Seq::empty()),
            looks: Ghost(Seq::empty()),
            shares: Ghost(0),
        }
    }

    /// Calls `Mutex::lock` and then `Option::replace`, which leave the receiver in the place and
    /// return the one that was there. A place starts empty, and only the one handle that it was made
    /// for may leave something, so there was nothing before the first call, and later what was left
    /// last, unless another handle has taken it since. Only receivers that were never polled may be
    /// left, and none is polled while it is there. What comes back goes on the record of this handle.
    #[verifier::external_body]
    pub(crate) fn offer(&mut self, receiver: EventReceiver<T>) -> (displaced: Option<
        EventReceiver<T>,
    >)
        requires
            old(self).is_own(),
            receiver.answers() == Seq::<Polled<T>>::empty(),
        ensures
            displaced matches Some(earlier) ==> {
                &&& old(self).offered().len() > 0
                &&& earlier.channel() == old(self).offered().last().0
                &&& earlier.answers() == Seq::<Polled<T>>::empty()
            },
            final(self).continues(*old(self)),
            final(self).offered() == old(self).offered().push((receiver.channel(), displaced)),
            final(self).looks() == old(self).looks(),
    {
        self.cell.lock().replace(receiver)
    }

    /// Calls `Mutex::lock` and then `Option::take`, which empty the place and return what was
    /// there. Whether that is a receiver is up to the other handles; what was found keeps a record
    /// of this place. Only receivers that were never polled are left there, and none is polled while
    /// it is there. The handle is used up, so it takes no more than once.
    #[verifier::external_body]
    pub(crate) fn take(self) -> (found: Found<T>)
        ensures
            found.place() == self.place(),
            found.receiver() matches Some(r) ==> r.answers() == Seq::<Polled<T>>::empty(),
    {
        Found { receiver: self.cell.lock().take(), place: Ghost(arbitrary()) }
    }

    /// Calls `Mutex::lock` and then `Option::is_none`, which tell whether there is nothing to pick
    /// up at the moment. That is up to the other handles; the answer goes on the record of this one.
    #[verifier::external_body]
    pub(crate) fn is_empty(&mut self) -> (empty: bool)
        ensures
            final(self).continues(*old(self)),
            final(self).offered() == old(self).offered(),
            final(self).looks() == old(self).looks().push(empty),
    {
        self.cell.lock().is_none()
    }
}

impl<T> Found<T> {
    /// The place that was emptied.
    pub closed spec fn place(self) -> Arc<Mutex<Option<EventReceiver<T>>>> {
        self.place@
    }

    /// The receiver that was there.
    pub closed spec fn receiver(self) -> Option<EventReceiver<T>> {
        self.receiver
    }

    /// `claimed` is what becomes of it: the receiver if there was one, and an error otherwise.
    pub open spec fn becomes(self, claimed: Result<PickedUp<T>, NothingPending<T>>) -> bool {
        match self.receiver() {
            Some(receiver) => claimed matches Ok(picked) && picked.receiver() == receiver
                && picked.place() == self.place(),
            None => claimed matches Err(nothing) && nothing.place() == self.place(),
        }
    }

    /// Tells whether a receiver was picked up.
    pub fn claim(self) -> (claimed: Result<PickedUp<T>, NothingPending<T>>)
        ensures
            self.becomes(claimed),
    {
        match self.receiver {
            Some(receiver) => Ok(PickedUp { receiver, place: self.place }),
            None => Err(NothingPending { place: self.place }),
        }
    }
}

impl<T> NothingPending<T> {
    /// The place where there was nothing.
    pub closed spec fn place(self) -> Arc<Mutex<Option<EventReceiver<T>>>> {
        self.place@
    }
}

impl<T> PickedUp<T> {
    /// The place that the receiver was picked up from.
    pub closed spec fn place(self) -> Arc<Mutex<Option<EventReceiver<T>>>> {
        self.place@
    }

    /// The receiver.
    pub closed spec fn receiver(self) -> EventReceiver<T> {
        self.receiver
    }

    /// Polls the receiver once, and passes on what it answers.
    pub(crate) fn poll_next(&mut self, cx: &mut Context<'_>) -> (polled: Polled<T>)
        ensures
            final(self).place() == old(self).place(),
            final(self).receiver().channel() == old(self).receiver().channel(),
            final(self).receiver().answers() == old(self).receiver().answers().push(polled),
            old(self).receiver().has_ended() ==> polled is End,
    {
        self.receiver.poll_next(cx)
    }
}

} // verus!
