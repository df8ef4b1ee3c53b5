use crate::channel::{EventReceiver, EventSender, Polled};
use crate::error::TransportError;
use crate::event::{ListenerEvent, RelayedEvent};
use crate::slot::{Found, NothingPending, PendingSlot, PickedUp};
use crate::transport::Transport;
use libp2p::Multiaddr;
use std::task::Context;
use vstd::prelude::*;

verus! {

/// The number of events that may wait for the outer transport, besides one for each sender.
pub const PROXY_BUFFER: usize = 256;

/// The base transport as the outer transport sees it. It dials through the base transport, but it
/// listens to the events that the combined transport passes on.
#[verifier::reject_recursive_types(TBase)]
pub struct ProxyTransport<TBase: Transport> {
    pending: PendingSlot<RelayedEvent<TBase::Output>>,
    base: TBase,
}

impl<TBase: Transport + Clone> Clone for ProxyTransport<TBase> {
    /// A proxy of a clone of the base transport, with a pending slot of its own.
    fn clone(&self) -> (copy: Self)
        ensures
            call_ensures(TBase::clone, (&self.base(),), copy.base()),
            copy.pending().is_own(),
            copy.pending().is_unused(),
    {
        ProxyTransport { pending: PendingSlot::new(), base: self.base.clone() }
    }
}

impl<TBase: Transport> ProxyTransport<TBase> {
    /// The base transport.
    pub closed spec fn base(self) -> TBase {
        self.base
    }

    /// Where the receiver of the events waits to be picked up.
    pub closed spec fn pending(self) -> PendingSlot<RelayedEvent<TBase::Output>> {
        self.pending
    }

    /// A proxy of `base`, with a pending slot of its own.
    pub(crate) fn new(base: TBase) -> (proxy: Self)
        ensures
            proxy.base() == base,
            proxy.pending().is_own(),
            proxy.pending().is_unused(),
    {
        ProxyTransport { pending: PendingSlot::new(), base }
    }

    /// Makes the proxy wait at the pending slot of another one.
    pub(crate) fn join(&mut self, other: &mut Self)
        ensures
            final(self).base() == old(self).base(),
            final(self).pending().place() == old(other).pending().place(),
            !final(self).pending().is_own(),
            final(self).pending().is_unused(),
            final(other).base() == old(other).base(),
            final(other).pending().place() == old(other).pending().place(),
            final(other).pending().is_own() == old(other).pending().is_own(),
            final(other).pending().offered() == old(other).pending().offered(),
            final(other).pending().looks() == old(other).pending().looks(),
            final(other).pending().shares() == old(other).pending().shares() + 1,
    {
        self.pending = other.pending.share();
    }

    /// Opens the channel to the outer transport and leaves its receiver in the pending slot.
    /// Returns the sender, and the receiver that was in the slot before, if any.
    pub(crate) fn arm(&mut self) -> (armed: (
        EventSender<RelayedEvent<TBase::Output>>,
        Option<EventReceiver<RelayedEvent<TBase::Output>>>,
    ))
        requires
            old(self).pending().is_own(),
        ensures
            armed.1 is Some ==> old(self).pending().offered().len() > 0,
            armed.0.is_fresh(),
            armed.0.buffer() == PROXY_BUFFER,
            final(self).base() == old(self).base(),
            final(self).pending().continues(old(self).pending()),
            final(self).pending().offered() == old(self).pending().offered().push(
                (armed.0.channel(), armed.1),
            ),
            final(self).pending().looks() == old(self).pending().looks(),
    {
        let (sender, receiver) = EventSender::open(PROXY_BUFFER);
        let displaced = self.pending.offer(receiver);
        (sender, displaced)
    }

    /// Looks whether the receiver has been picked up, at the moment of asking.
    pub(crate) fn is_claimed(&mut self) -> (claimed: bool)
        ensures
            final(self).base() == old(self).base(),
            final(self).pending().continues(old(self).pending()),
            final(self).pending().offered() == old(self).pending().offered(),
            final(self).pending().looks() == old(self).pending().looks().push(claimed),
    {
        self.pending.is_empty()
    }

    /// `found` is what comes of emptying the pending slot through this proxy.
    pub closed spec fn picks_up(self, found: Found<RelayedEvent<TBase::Output>>) -> bool {
        call_ensures(PendingSlot::<RelayedEvent<TBase::Output>>::take, (self.pending,), found)
    }

    /// To pick up is to take, once, what is in the place that this proxy waits at.
    pub(crate) proof fn law_picks_up(self, found: Found<RelayedEvent<TBase::Output>>)
        requires
            self.picks_up(found),
        ensures
            call_ensures(
                PendingSlot::<RelayedEvent<TBase::Output>>::take,
                (self.pending(),),
                found,
            ),
    {
    }

    /// Picks up the receiver of the events, from which nothing was read yet, or tells that the
    /// pending slot was empty. The address plays no part: the base transport listens already.
    pub fn listen_on(self, _addr: Multiaddr) -> (listener: Result<
        PickedUp<RelayedEvent<TBase::Output>>,
        NothingPending<RelayedEvent<TBase::Output>>,
    >)
        ensures
            exists|found: Found<RelayedEvent<TBase::Output>>|
                {
                    &&& #[trigger] self.picks_up(found)
                    &&& found.becomes(listener)
                    &&& found.place() == self.pending().place()
                    &&& found.receiver() matches Some(receiver) ==> receiver.answers() == Seq::<
                        Polled<RelayedEvent<TBase::Output>>,
                    >::empty()
                },
    {
        let found = self.pending.take();
        assert(self.picks_up(found));
        found.claim()
    }

    /// Dials through the base transport.
    pub fn dial(self, addr: Multiaddr) -> (dial: Result<TBase::Dial, TransportError<TBase::Error>>)
        ensures
            call_ensures(TBase::dial, (self.base(), addr), dial),
    {
        self.base.dial(addr)
    }

    /// Translates an address as the base transport does.
    pub fn address_translation(&self, listen: &Multiaddr, observed: &Multiaddr) -> (translated:
        Option<Multiaddr>)
        ensures
            call_ensures(
                TBase::address_translation,
                (&self.base(), listen, observed),
                translated,
            ),
    {
        self.base.address_translation(listen, observed)
    }
}

/// What the proxy's listener yields when an event arrives. A connection that was passed on is
/// already established, so its upgrade is a success. The listener itself never fails.
pub open spec fn proxied<O, E>(event: RelayedEvent<O>) -> Result<ListenerEvent<Result<O, E>, E>, E> {
    Ok(
        match event {
            RelayedEvent::NewAddress(a) => ListenerEvent::NewAddress(a),
            RelayedEvent::AddressExpired(a) => ListenerEvent::AddressExpired(a),
            RelayedEvent::Upgrade { connection, local_addr, remote_addr } => ListenerEvent::Upgrade {
                upgrade: Ok(connection),
                local_addr,
                remote_addr,
            },
        },
    )
}

/// Handles an event that arrives at the proxy.
pub fn on_relayed_event<O, E>(event: RelayedEvent<O>) -> (item: Result<
    ListenerEvent<Result<O, E>, E>,
    E,
>)
    ensures
        item == proxied::<O, E>(event),
{
    Ok(
        match event {
            RelayedEvent::NewAddress(a) => ListenerEvent::NewAddress(a),
            RelayedEvent::AddressExpired(a) => ListenerEvent::AddressExpired(a),
            RelayedEvent::Upgrade { connection, local_addr, remote_addr } => ListenerEvent::Upgrade {
                upgrade: Ok(connection),
                local_addr,
                remote_addr,
            },
        },
    )
}

/// What the proxy's listener yields when its receiver answers a poll.
pub open spec fn proxied_answer<O, E>(answer: Polled<RelayedEvent<O>>) -> Polled<
    Result<ListenerEvent<Result<O, E>, E>, E>,
> {
    match answer {
        Polled::Item(event) => Polled::Item(proxied(event)),
        Polled::End => Polled::End,
        Polled::Pending => Polled::Pending,
    }
}

/// Handles what the receiver answers to a poll.
pub fn on_answer<O, E>(answer: Polled<RelayedEvent<O>>) -> (polled: Polled<
    Result<ListenerEvent<Result<O, E>, E>, E>,
>)
    ensures
        polled == proxied_answer::<O, E>(answer),
{
    match answer {
        Polled::Item(event) => Polled::Item(on_relayed_event(event)),
        Polled::End => Polled::End,
        Polled::Pending => Polled::Pending,
    }
}

impl<O> PickedUp<RelayedEvent<O>> {
    /// Polls the receiver once, and yields its answer as an item of the proxy's listener. A listener
    /// that has ended stays so.
    pub fn poll_item<E>(&mut self, cx: &mut Context<'_>) -> (polled: Polled<
        Result<ListenerEvent<Result<O, E>, E>, E>,
    >)
        ensures
            final(self).place() == old(self).place(),
            final(self).receiver().channel() == old(self).receiver().channel(),
            exists|answer: Polled<RelayedEvent<O>>|
                {
                    &&& polled == #[trigger] proxied_answer::<O, E>(answer)
                    &&& final(self).receiver().answers() == old(self).receiver().answers().push(
                        answer,
                    )
                },
            old(self).receiver().has_ended() ==> polled is End,
    {
        let answer = self.poll_next(cx);
        on_answer(answer)
    }
}

} // verus!
