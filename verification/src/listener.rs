use crate::channel::{EventSender, SendFailure};
use crate::error::CombinedError;
use crate::event::{EitherOutput, ListenerEvent, RelayedEvent};
use libp2p::Multiaddr;
use vstd::prelude::*;

verus! {

/// The copy of an event of the base transport that goes to the outer one. Addresses are copied;
/// errors are reported once, by the base transport, and connections have to pass the switch first.
pub open spec fn copied<U, O, E>(event: ListenerEvent<U, E>) -> Option<RelayedEvent<O>> {
    match event {
        ListenerEvent::NewAddress(a) => Some(RelayedEvent::NewAddress(a)),
        ListenerEvent::AddressExpired(a) => Some(RelayedEvent::AddressExpired(a)),
        ListenerEvent::Upgrade { .. } => None,
        ListenerEvent::Error(_) => None,
    }
}

/// The copy of what the base listener yields that goes to the outer transport.
pub open spec fn copied_item<U, O, E>(item: Result<ListenerEvent<U, E>, E>) -> Option<
    RelayedEvent<O>,
> {
    match item {
        Ok(event) => copied(event),
        Err(_) => None,
    }
}

/// How many ways to the outer transport an event of the base transport opens: one for a connection.
pub open spec fn ways_opened<U, E>(event: ListenerEvent<U, E>) -> nat {
    match event {
        ListenerEvent::Upgrade { .. } => 1,
        _ => 0,
    }
}

/// How many ways to the outer transport are opened by what the base listener yields.
pub open spec fn ways_opened_by_item<U, E>(item: Result<ListenerEvent<U, E>, E>) -> nat {
    match item {
        Ok(event) => ways_opened(event),
        Err(_) => 0,
    }
}

/// `out` is what the combined transport reports when the base transport, whose relay sends through
/// `sender`, reports `event`.
pub open spec fn reports_base_event<U, OU, O, E, OE>(
    sender: EventSender<RelayedEvent<O>>,
    event: ListenerEvent<U, E>,
    out: ListenerEvent<EitherOutput<PendingUpgrade<U, O>, OU>, CombinedError<E, OE>>,
) -> bool {
    match event {
        ListenerEvent::NewAddress(a) => out == ListenerEvent::<
            EitherOutput<PendingUpgrade<U, O>, OU>,
            CombinedError<E, OE>,
        >::NewAddress(a),
        ListenerEvent::AddressExpired(a) => out == ListenerEvent::<
            EitherOutput<PendingUpgrade<U, O>, OU>,
            CombinedError<E, OE>,
        >::AddressExpired(a),
        ListenerEvent::Error(e) => out == ListenerEvent::<
            EitherOutput<PendingUpgrade<U, O>, OU>,
            CombinedError<E, OE>,
        >::Error(CombinedError::Base(e)),
        ListenerEvent::Upgrade { upgrade, local_addr, remote_addr } => {
            &&& out matches ListenerEvent::Upgrade {
                upgrade: EitherOutput::First(pending),
                local_addr: l,
                remote_addr: r,
            }
            &&& l == local_addr
            &&& r == remote_addr
            &&& pending.upgrade == upgrade
            &&& pending.handover.local_addr() == local_addr
            &&& pending.handover.remote_addr() == remote_addr
            &&& pending.handover.sender().channel() == sender.channel()
            &&& pending.handover.sender().buffer() == sender.buffer()
            &&& pending.handover.sender().is_fresh()
        },
    }
}

/// `out` is what the combined transport reports when the base listener, whose relay sends through
/// `sender`, yields `item`.
pub open spec fn reports_base_item<U, OU, O, E, OE>(
    sender: EventSender<RelayedEvent<O>>,
    item: Result<ListenerEvent<U, E>, E>,
    out: Result<
        ListenerEvent<EitherOutput<PendingUpgrade<U, O>, OU>, CombinedError<E, OE>>,
        CombinedError<E, OE>,
    >,
) -> bool {
    match item {
        Ok(event) => out matches Ok(reported) && reports_base_event(sender, event, reported),
        Err(e) => out matches Err(CombinedError::Base(reported)) && reported == e,
    }
}

/// What the combined transport reports when the outer transport reports `event`.
pub open spec fn outer_event<P, OU, E, OE>(event: ListenerEvent<OU, OE>) -> ListenerEvent<
    EitherOutput<P, OU>,
    CombinedError<E, OE>,
> {
    match event {
        ListenerEvent::NewAddress(a) => ListenerEvent::NewAddress(a),
        ListenerEvent::AddressExpired(a) => ListenerEvent::AddressExpired(a),
        ListenerEvent::Error(e) => ListenerEvent::Error(CombinedError::Outer(e)),
        ListenerEvent::Upgrade { upgrade, local_addr, remote_addr } => ListenerEvent::Upgrade {
            upgrade: EitherOutput::Second(upgrade),
            local_addr,
            remote_addr,
        },
    }
}

/// What the combined transport reports when the outer listener yields `item`.
pub open spec fn outer_item<P, OU, E, OE>(item: Result<ListenerEvent<OU, OE>, OE>) -> Result<
    ListenerEvent<EitherOutput<P, OU>, CombinedError<E, OE>>,
    CombinedError<E, OE>,
> {
    match item {
        Ok(event) => Ok(outer_event(event)),
        Err(e) => Err(CombinedError::Outer(e)),
    }
}

/// `reported` is what comes of it when one of the two listeners yields `item`, and `before` becomes
/// `after`: the handle that address events of the base transport are copied to. What the outer
/// listener yields is reported, and nothing is sent.
pub open spec fn hears<U, OU, O, E, OE>(
    before: EventSender<RelayedEvent<O>>,
    item: EitherOutput<Result<ListenerEvent<U, E>, E>, Result<ListenerEvent<OU, OE>, OE>>,
    reported: Result<
        Result<
            ListenerEvent<EitherOutput<PendingUpgrade<U, O>, OU>, CombinedError<E, OE>>,
            CombinedError<E, OE>,
        >,
        SendFailure,
    >,
    after: EventSender<RelayedEvent<O>>,
) -> bool {
    match item {
        EitherOutput::First(item) => {
            &&& before.sends(copied_item(item), reported, after)
            &&& after.others() == before.others() + ways_opened_by_item(item)
            &&& reported matches Ok(out) ==> reports_base_item(before, item, out)
        },
        EitherOutput::Second(item) => {
            &&& after == before
            &&& reported matches Ok(out)
            &&& out == outer_item::<PendingUpgrade<U, O>, OU, E, OE>(item)
        },
    }
}

/// How a connection attempt of the base transport ends for the combined transport.
pub open spec fn base_connection<O, OO, E, OE>(outcome: Result<O, E>) -> Result<
    EitherOutput<O, OO>,
    CombinedError<E, OE>,
> {
    match outcome {
        Ok(connection) => Ok(EitherOutput::First(connection)),
        Err(e) => Err(CombinedError::Base(e)),
    }
}

/// How a connection attempt of the outer transport ends for the combined transport.
pub open spec fn outer_connection<O, OO, E, OE>(outcome: Result<OO, OE>) -> Result<
    EitherOutput<O, OO>,
    CombinedError<E, OE>,
> {
    match outcome {
        Ok(connection) => Ok(EitherOutput::Second(connection)),
        Err(e) => Err(CombinedError::Outer(e)),
    }
}

/// The event that the outer transport is handed once the switch has given its verdict on a
/// connection: the connection itself if the switch wants it upgraded, nothing otherwise.
pub open spec fn handed_over<O>(
    verdict: Result<O, O>,
    local_addr: Multiaddr,
    remote_addr: Multiaddr,
) -> Option<RelayedEvent<O>> {
    match verdict {
        Ok(connection) => Some(RelayedEvent::Upgrade { connection, local_addr, remote_addr }),
        Err(_) => None,
    }
}

/// How a connection ends on the base side once the switch has given its verdict.
pub open spec fn switch_result<O, OO, E, OE>(verdict: Result<O, O>) -> Result<
    EitherOutput<O, OO>,
    CombinedError<E, OE>,
> {
    match verdict {
        Ok(_) => Err(CombinedError::UpgradedToOuterTransport),
        Err(connection) => Ok(EitherOutput::First(connection)),
    }
}

/// The part of a combined listener that follows the base transport: it copies address events to
/// the outer transport and keeps a handle ready for each incoming connection.
#[verifier::reject_recursive_types(O)]
pub struct BaseRelay<O> {
    sender: EventSender<RelayedEvent<O>>,
}

/// The way from an incoming connection of the base transport to the outer transport.
#[verifier::reject_recursive_types(O)]
pub struct Handover<O> {
    sender: EventSender<RelayedEvent<O>>,
    local_addr: Multiaddr,
    remote_addr: Multiaddr,
}

/// An incoming connection of the base transport that is being set up.
#[verifier::reject_recursive_types(O)]
pub struct PendingUpgrade<U, O> {
    /// The set-up in the base transport.
    pub upgrade: U,
    /// What follows once the base transport is done.
    pub handover: Handover<O>,
}

/// What to do after the base transport has set up a connection, or failed to.
#[verifier::reject_recursive_types(O)]
pub enum UpgradeStep<O, OO, E, OE> {
    /// Ask the switch about the connection, and take its verdict to the handover.
    AskSwitch {
        /// The connection to ask about.
        connection: O,
        /// Where the verdict goes.
        handover: Handover<O>,
    },
    /// There is nothing left to do.
    Done(Result<EitherOutput<O, OO>, CombinedError<E, OE>>),
}

/// Copies an event of the base transport for the outer one.
pub fn copy_event<U, O, E>(event: &ListenerEvent<U, E>) -> (copy: Option<RelayedEvent<O>>)
    ensures
        copy == copied::<U, O, E>(*event),
{
    match event {
        ListenerEvent::NewAddress(a) => Some(RelayedEvent::NewAddress(a.clone())),
        ListenerEvent::AddressExpired(a) => Some(RelayedEvent::AddressExpired(a.clone())),
        ListenerEvent::Upgrade { .. } => None,
        ListenerEvent::Error(_) => None,
    }
}

impl<O> BaseRelay<O> {
    /// The handle that address events are copied to.
    pub closed spec fn sender(self) -> EventSender<RelayedEvent<O>> {
        self.sender
    }

    /// A relay that sends through `sender`.
    pub(crate) fn new(sender: EventSender<RelayedEvent<O>>) -> (relay: Self)
        ensures
            relay.sender() == sender,
    {
        BaseRelay { sender }
    }

    /// Handles an event of the base transport. Address events are copied to the outer transport
    /// first. The event itself is reported; a connection comes with its own way to the outer
    /// transport. If the channel to the outer transport does not take the copy, nothing is
    /// reported.
    pub fn on_event<U, OU, E, OE>(&mut self, event: ListenerEvent<U, E>) -> (reported: Result<
        ListenerEvent<EitherOutput<PendingUpgrade<U, O>, OU>, CombinedError<E, OE>>,
        SendFailure,
    >)
        ensures
            old(self).sender().sends(copied(event), reported, final(self).sender()),
            final(self).sender().others() == old(self).sender().others() + ways_opened(event),
            reported matches Ok(out) ==> reports_base_event(old(self).sender(), event, out),
    {
        if let Some(copy) = copy_event(&event) {
            if let Err(why) = self.sender.start_send(copy) {
                return Err(why);
            }
        }
        let out = match event {
            ListenerEvent::Upgrade { upgrade, local_addr, remote_addr } => {
                let handover = Handover {
                    sender: self.sender.another(),
                    local_addr: local_addr.clone(),
                    remote_addr: remote_addr.clone(),
                };
                ListenerEvent::Upgrade {
                    upgrade: EitherOutput::First(PendingUpgrade { upgrade, handover }),
                    local_addr,
                    remote_addr,
                }
            },
            ListenerEvent::NewAddress(a) => ListenerEvent::NewAddress(a),
            ListenerEvent::AddressExpired(a) => ListenerEvent::AddressExpired(a),
            ListenerEvent::Error(e) => ListenerEvent::Error(CombinedError::Base(e)),
        };
        Ok(out)
    }

    /// Handles what the base listener yields: an event, or the error that ends it.
    pub fn on_item<U, OU, E, OE>(&mut self, item: Result<ListenerEvent<U, E>, E>) -> (reported: Result<
        Result<
            ListenerEvent<EitherOutput<PendingUpgrade<U, O>, OU>, CombinedError<E, OE>>,
            CombinedError<E, OE>,
        >,
        SendFailure,
    >)
        ensures
            old(self).sender().sends(copied_item(item), reported, final(self).sender()),
            final(self).sender().others() == old(self).sender().others() + ways_opened_by_item(
                item,
            ),
            reported matches Ok(out) ==> reports_base_item(old(self).sender(), item, out),
    {
        match item {
            Ok(event) => match self.on_event(event) {
                Ok(out) => Ok(Ok(out)),
                Err(why) => Err(why),
            },
            Err(e) => Ok(Err(CombinedError::Base(e))),
        }
    }

    /// Handles what either of the two listeners yields.
    pub fn on_yield<U, OU, E, OE>(
        &mut self,
        item: EitherOutput<Result<ListenerEvent<U, E>, E>, Result<ListenerEvent<OU, OE>, OE>>,
    ) -> (reported: Result<
        Result<
            ListenerEvent<EitherOutput<PendingUpgrade<U, O>, OU>, CombinedError<E, OE>>,
            CombinedError<E, OE>,
        >,
        SendFailure,
    >)
        ensures
            hears(old(self).sender(), item, reported, final(self).sender()),
    {
        match item {
            EitherOutput::First(item) => self.on_item(item),
            EitherOutput::Second(item) => Ok(on_outer_item(item)),
        }
    }
}

impl<O> Handover<O> {
    /// The handle that the connection is sent through.
    pub closed spec fn sender(self) -> EventSender<RelayedEvent<O>> {
        self.sender
    }

    /// The local address that the connection came in on.
    pub closed spec fn local_addr(self) -> Multiaddr {
        self.local_addr
    }

    /// The address that the connection came from.
    pub closed spec fn remote_addr(self) -> Multiaddr {
        self.remote_addr
    }

    /// The handle is kept for the one connection.
    #[verifier::type_invariant]
    spec fn is_unused(self) -> bool {
        self.sender.is_fresh()
    }

    /// Takes what the base transport made of the connection. An established connection goes to the
    /// switch; a failure is reported as one of the base transport.
    pub fn accepted<OO, E, OE>(self, outcome: Result<O, E>) -> (step: UpgradeStep<O, OO, E, OE>)
        ensures
            match outcome {
                Ok(connection) => step == (UpgradeStep::<O, OO, E, OE>::AskSwitch {
                    connection,
                    handover: self,
                }),
                Err(e) => step == UpgradeStep::<O, OO, E, OE>::Done(Err(CombinedError::Base(e))),
            },
    {
        match outcome {
            Ok(connection) => UpgradeStep::AskSwitch { connection, handover: self },
            Err(e) => UpgradeStep::Done(Err(CombinedError::Base(e))),
        }
    }

    /// Takes the verdict of the switch. On `Ok` the connection is sent to the outer transport, and
    /// the base side ends with `UpgradedToOuterTransport`. On `Err` the connection stays with the
    /// base transport. Sending fails only if the outer transport has stopped listening. The handle
    /// that was used comes back with the outcome.
    pub fn switched<OO, E, OE>(self, verdict: Result<O, O>) -> (end: (
        Result<Result<EitherOutput<O, OO>, CombinedError<E, OE>>, SendFailure>,
        EventSender<RelayedEvent<O>>,
    ))
        ensures
            self.sender().is_fresh(),
            self.sender().sends(
                handed_over(verdict, self.local_addr(), self.remote_addr()),
                end.0,
                end.1,
            ),
            end.1.others() == 0,
            match end.0 {
                Ok(result) => result == switch_result::<O, OO, E, OE>(verdict),
                Err(why) => verdict is Ok && why is Disconnected,
            },
    {
        proof {
            use_type_invariant(&self);
        }
        let Handover { mut sender, local_addr, remote_addr } = self;
        match verdict {
            Ok(connection) => match sender.start_send(
                RelayedEvent::Upgrade { connection, local_addr, remote_addr },
            ) {
                Ok(()) => (Ok(Err(CombinedError::UpgradedToOuterTransport)), sender),
                Err(why) => (Err(why), sender),
            },
            Err(connection) => (Ok(Ok(EitherOutput::First(connection))), sender),
        }
    }
}

/// Handles what the outer listener yields: an event, or the error that ends it.
pub fn on_outer_item<P, OU, E, OE>(item: Result<ListenerEvent<OU, OE>, OE>) -> (reported: Result<
    ListenerEvent<EitherOutput<P, OU>, CombinedError<E, OE>>,
    CombinedError<E, OE>,
>)
    ensures
        reported == outer_item::<P, OU, E, OE>(item),
{
    let second = |upgrade: OU| -> (tagged: EitherOutput<P, OU>)
        ensures
            tagged matches EitherOutput::Second(inner) && inner == upgrade
    {
        EitherOutput::Second(upgrade)
    };
    let outer = |e: OE| -> (tagged: CombinedError<E, OE>)
        ensures
            tagged matches CombinedError::Outer(inner) && inner == e
    {
        CombinedError::Outer(e)
    };
    match item {
        Ok(event) => Ok(event.map(second).map_err(outer)),
        Err(e) => Err(CombinedError::Outer(e)),
    }
}

/// Reports how a connection attempt of the base transport ended.
pub fn on_base_connection<O, OO, E, OE>(outcome: Result<O, E>) -> (reported: Result<
    EitherOutput<O, OO>,
    CombinedError<E, OE>,
>)
    ensures
        reported == base_connection::<O, OO, E, OE>(outcome),
{
    match outcome {
        Ok(connection) => Ok(EitherOutput::First(connection)),
        Err(e) => Err(CombinedError::Base(e)),
    }
}

/// Reports how a connection attempt of the outer transport ended.
pub fn on_outer_connection<O, OO, E, OE>(outcome: Result<OO, OE>) -> (reported: Result<
    EitherOutput<O, OO>,
    CombinedError<E, OE>,
>)
    ensures
        reported == outer_connection::<O, OO, E, OE>(outcome),
{
    match outcome {
        Ok(connection) => Ok(EitherOutput::Second(connection)),
        Err(e) => Err(CombinedError::Outer(e)),
    }
}

} // verus!
