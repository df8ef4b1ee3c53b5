use crate::channel::{taken, Attempt, EventSender, Polled, SendFailure};
use crate::combined::{on_base_dialled, on_outer_dialled, DialStep};
use crate::error::{CombinedError, TransportError};
use crate::event::{EitherOutput, ListenerEvent, RelayedEvent};
use crate::listener::{
    copy_event, on_base_connection, on_outer_connection, on_outer_item, BaseRelay, Handover,
    PendingUpgrade, UpgradeStep,
};
use crate::proxy::{on_answer, on_relayed_event};
use crate::slot::PickedUp;
use crate::switch::is_probably_http;
use libp2p::Multiaddr;
use std::task::Context;
use vstd::prelude::*;

verus! {

/// An event of the base transport is reported as it is, as one of the base side. Addresses are sent
/// to the outer transport first, once and unchanged, and nothing else is sent; only if that is
/// refused is nothing reported. A connection gets a handle of its own on the same channel.
pub proof fn law_base_event<U, OU, O, E, OE>(
    relay: &mut BaseRelay<O>,
    event: ListenerEvent<U, E>,
    reported: Result<
        ListenerEvent<EitherOutput<PendingUpgrade<U, O>, OU>, CombinedError<E, OE>>,
        SendFailure,
    >,
)
    requires
        call_ensures(BaseRelay::<O>::on_event::<U, OU, E, OE>, (relay, event), reported),
    ensures
        ({
            let before = old(relay).sender();
            let after = final(relay).sender();
            &&& after.channel() == before.channel()
            &&& after.buffer() == before.buffer()
            &&& match event {
                ListenerEvent::NewAddress(a) => {
                    &&& after.others() == before.others()
                    &&& match reported {
                        Ok(ListenerEvent::NewAddress(told)) => {
                            &&& told == a
                            &&& after.attempts() == before.attempts().push(
                                Attempt { message: RelayedEvent::NewAddress(a), refused: None },
                            )
                        },
                        Err(why) => {
                            &&& after.attempts() == before.attempts().push(
                                Attempt { message: RelayedEvent::NewAddress(a), refused: Some(why) },
                            )
                            &&& before.attempts().len() == 0 ==> why is Disconnected
                        },
                        _ => false,
                    }
                },
                ListenerEvent::AddressExpired(a) => {
                    &&& after.others() == before.others()
                    &&& match reported {
                        Ok(ListenerEvent::AddressExpired(told)) => {
                            &&& told == a
                            &&& after.attempts() == before.attempts().push(
                                Attempt { message: RelayedEvent::AddressExpired(a), refused: None },
                            )
                        },
                        Err(why) => {
                            &&& after.attempts() == before.attempts().push(
                                Attempt { message: RelayedEvent::AddressExpired(a), refused: Some(why) },
                            )
                            &&& before.attempts().len() == 0 ==> why is Disconnected
                        },
                        _ => false,
                    }
                },
                ListenerEvent::Error(e) => {
                    &&& after.others() == before.others()
                    &&& after.attempts() == before.attempts()
                    &&& reported matches Ok(ListenerEvent::Error(CombinedError::Base(told)))
                    &&& told == e
                },
                ListenerEvent::Upgrade { upgrade, local_addr, remote_addr } => {
                    &&& after.others() == before.others() + 1
                    &&& after.attempts() == before.attempts()
                    &&& reported matches Ok(ListenerEvent::Upgrade {
                        upgrade: EitherOutput::First(pending),
                        local_addr: l,
                        remote_addr: r,
                    })
                    &&& l == local_addr
                    &&& r == remote_addr
                    &&& pending.upgrade == upgrade
                    &&& pending.handover.local_addr() == local_addr
                    &&& pending.handover.remote_addr() == remote_addr
                    &&& pending.handover.sender().channel() == before.channel()
                    &&& pending.handover.sender().buffer() == before.buffer()
                    &&& pending.handover.sender().attempts().len() == 0
                },
            }
        }),
{
}

/// What the base listener yields is reported: an event as the same event, the error that ends it as
/// an error of the base side. The report is an error exactly if the item is one, and there is no
/// report only for an address whose copy was refused.
pub proof fn law_base_item<U, OU, O, E, OE>(
    relay: &mut BaseRelay<O>,
    item: Result<ListenerEvent<U, E>, E>,
    reported: Result<
        Result<
            ListenerEvent<EitherOutput<PendingUpgrade<U, O>, OU>, CombinedError<E, OE>>,
            CombinedError<E, OE>,
        >,
        SendFailure,
    >,
)
    requires
        call_ensures(BaseRelay::<O>::on_item::<U, OU, E, OE>, (relay, item), reported),
    ensures
        reported matches Ok(out) ==> (out is Err <==> item is Err),
        ({
            let before = old(relay).sender();
            let after = final(relay).sender();
            &&& after.channel() == before.channel()
            &&& after.buffer() == before.buffer()
            &&& match item {
                Err(e) => {
                    &&& after.others() == before.others()
                    &&& after.attempts() == before.attempts()
                    &&& reported matches Ok(Err(CombinedError::Base(told)))
                    &&& told == e
                },
                Ok(event) => match event {
                    ListenerEvent::NewAddress(a) => {
                        &&& after.others() == before.others()
                        &&& match reported {
                            Ok(Ok(ListenerEvent::NewAddress(told))) => {
                                &&& told == a
                                &&& after.attempts() == before.attempts().push(
                                    Attempt { message: RelayedEvent::NewAddress(a), refused: None },
                                )
                            },
                            Err(why) => {
                                &&& after.attempts() == before.attempts().push(
                                    Attempt { message: RelayedEvent::NewAddress(a), refused: Some(why) },
                                )
                                &&& before.attempts().len() == 0 ==> why is Disconnected
                            },
                            _ => false,
                        }
                    },
                    ListenerEvent::AddressExpired(a) => {
                        &&& after.others() == before.others()
                        &&& match reported {
                            Ok(Ok(ListenerEvent::AddressExpired(told))) => {
                                &&& told == a
                                &&& after.attempts() == before.attempts().push(
                                    Attempt { message: RelayedEvent::AddressExpired(a), refused: None },
                                )
                            },
                            Err(why) => {
                                &&& after.attempts() == before.attempts().push(
                                    Attempt { message: RelayedEvent::AddressExpired(a), refused: Some(why) },
                                )
                                &&& before.attempts().len() == 0 ==> why is Disconnected
                            },
                            _ => false,
                        }
                    },
                    ListenerEvent::Error(e) => {
                        &&& after.others() == before.others()
                        &&& after.attempts() == before.attempts()
                        &&& reported matches Ok(Ok(ListenerEvent::Error(CombinedError::Base(told))))
                        &&& told == e
                    },
                    ListenerEvent::Upgrade { upgrade, local_addr, remote_addr } => {
                        &&& after.others() == before.others() + 1
                        &&& after.attempts() == before.attempts()
                        &&& reported matches Ok(Ok(ListenerEvent::Upgrade {
                            upgrade: EitherOutput::First(pending),
                            local_addr: l,
                            remote_addr: r,
                        }))
                        &&& l == local_addr
                        &&& r == remote_addr
                        &&& pending.upgrade == upgrade
                        &&& pending.handover.local_addr() == local_addr
                        &&& pending.handover.remote_addr() == remote_addr
                        &&& pending.handover.sender().channel() == before.channel()
                        &&& pending.handover.sender().buffer() == before.buffer()
                        &&& pending.handover.sender().attempts().len() == 0
                    },
                },
            }
        }),
{
}

/// What either listener yields is reported, with its side. An item of the base listener is treated as
/// above. An item of the outer listener is always reported, its connection tagged as one of the outer
/// side and its error likewise, and it leaves the relay as it was.
pub proof fn law_either_item<U, OU, O, E, OE>(
    relay: &mut BaseRelay<O>,
    item: EitherOutput<Result<ListenerEvent<U, E>, E>, Result<ListenerEvent<OU, OE>, OE>>,
    reported: Result<
        Result<
            ListenerEvent<EitherOutput<PendingUpgrade<U, O>, OU>, CombinedError<E, OE>>,
            CombinedError<E, OE>,
        >,
        SendFailure,
    >,
)
    requires
        call_ensures(BaseRelay::<O>::on_yield::<U, OU, E, OE>, (relay, item), reported),
    ensures
        ({
            let before = old(relay).sender();
            let after = final(relay).sender();
            &&& after.channel() == before.channel()
            &&& after.buffer() == before.buffer()
            &&& match item {
                EitherOutput::First(Err(e)) => {
                    &&& after.others() == before.others()
                    &&& after.attempts() == before.attempts()
                    &&& reported matches Ok(Err(CombinedError::Base(told)))
                    &&& told == e
                },
                EitherOutput::First(Ok(event)) => match event {
                    ListenerEvent::NewAddress(a) => {
                        &&& after.others() == before.others()
                        &&& match reported {
                            Ok(Ok(ListenerEvent::NewAddress(told))) => {
                                &&& told == a
                                &&& after.attempts() == before.attempts().push(
                                    Attempt { message: RelayedEvent::NewAddress(a), refused: None },
                                )
                            },
                            Err(why) => {
                                &&& after.attempts() == before.attempts().push(
                                    Attempt { message: RelayedEvent::NewAddress(a), refused: Some(why) },
                                )
                                &&& before.attempts().len() == 0 ==> why is Disconnected
                            },
                            _ => false,
                        }
                    },
                    ListenerEvent::AddressExpired(a) => {
                        &&& after.others() == before.others()
                        &&& match reported {
                            Ok(Ok(ListenerEvent::AddressExpired(told))) => {
                                &&& told == a
                                &&& after.attempts() == before.attempts().push(
                                    Attempt { message: RelayedEvent::AddressExpired(a), refused: None },
                                )
                            },
                            Err(why) => {
                                &&& after.attempts() == before.attempts().push(
                                    Attempt { message: RelayedEvent::AddressExpired(a), refused: Some(why) },
                                )
                                &&& before.attempts().len() == 0 ==> why is Disconnected
                            },
                            _ => false,
                        }
                    },
                    ListenerEvent::Error(e) => {
                        &&& after.others() == before.others()
                        &&& after.attempts() == before.attempts()
                        &&& reported matches Ok(Ok(ListenerEvent::Error(CombinedError::Base(told))))
                        &&& told == e
                    },
                    ListenerEvent::Upgrade { upgrade, local_addr, remote_addr } => {
                        &&& after.others() == before.others() + 1
                        &&& after.attempts() == before.attempts()
                        &&& reported matches Ok(Ok(ListenerEvent::Upgrade {
                            upgrade: EitherOutput::First(pending),
                            local_addr: l,
                            remote_addr: r,
                        }))
                        &&& l == local_addr
                        &&& r == remote_addr
                        &&& pending.upgrade == upgrade
                        &&& pending.handover.local_addr() == local_addr
                        &&& pending.handover.remote_addr() == remote_addr
                        &&& pending.handover.sender().channel() == before.channel()
                        &&& pending.handover.sender().buffer() == before.buffer()
                        &&& pending.handover.sender().attempts().len() == 0
                    },
                },
                EitherOutput::Second(outer) => {
                    &&& after == before
                    &&& match outer {
                        Err(e) => reported matches Ok(Err(CombinedError::Outer(told))) && told == e,
                        Ok(ListenerEvent::NewAddress(a)) => reported matches Ok(
                            Ok(ListenerEvent::NewAddress(told)),
                        ) && told == a,
                        Ok(ListenerEvent::AddressExpired(a)) => reported matches Ok(
                            Ok(ListenerEvent::AddressExpired(told)),
                        ) && told == a,
                        Ok(ListenerEvent::Error(e)) => reported matches Ok(
                            Ok(ListenerEvent::Error(CombinedError::Outer(told))),
                        ) && told == e,
                        Ok(ListenerEvent::Upgrade { upgrade, local_addr, remote_addr }) => {
                            &&& reported matches Ok(
                                Ok(
                                    ListenerEvent::Upgrade {
                                        upgrade: EitherOutput::Second(told),
                                        local_addr: l,
                                        remote_addr: r,
                                    },
                                ),
                            )
                            &&& told == upgrade
                            &&& l == local_addr
                            &&& r == remote_addr
                        },
                    }
                },
            }
        }),
{
}

/// Nothing is lost for want of the outer transport but the addresses that it was to hear of: there is
/// no report only if the base side yielded an address and the channel refused its copy.
pub proof fn law_only_a_refused_address_is_not_reported<U, OU, O, E, OE>(
    relay: &mut BaseRelay<O>,
    item: EitherOutput<Result<ListenerEvent<U, E>, E>, Result<ListenerEvent<OU, OE>, OE>>,
    reported: Result<
        Result<
            ListenerEvent<EitherOutput<PendingUpgrade<U, O>, OU>, CombinedError<E, OE>>,
            CombinedError<E, OE>,
        >,
        SendFailure,
    >,
)
    requires
        call_ensures(BaseRelay::<O>::on_yield::<U, OU, E, OE>, (relay, item), reported),
    ensures
        reported matches Err(why) ==> {
            let attempts = final(relay).sender().attempts();
            &&& item matches EitherOutput::First(Ok(event))
            &&& event is NewAddress || event is AddressExpired
            &&& attempts.len() == old(relay).sender().attempts().len() + 1
            &&& attempts.last().refused == Some(why)
        },
        (reported is Ok && final(relay).sender().attempts() != old(relay).sender().attempts())
            ==> final(relay).sender().attempts().last().refused is None,
{
}

/// What becomes of an incoming connection of the base transport, from the item that its listener
/// yields to the verdict of the switch. The switch is asked about the connection that was set up. If
/// it passes a connection on, the channel of the relay is sent that one, with the addresses of the
/// item, once; the base side says so if the channel took it. If it keeps one, the base side yields
/// that one, and nothing is sent.
pub proof fn law_connection_from_item_to_verdict<U, OU, O, OO, E, OE>(
    relay: &mut BaseRelay<O>,
    upgrade: U,
    local_addr: Multiaddr,
    remote_addr: Multiaddr,
    reported: Result<
        Result<
            ListenerEvent<EitherOutput<PendingUpgrade<U, O>, OU>, CombinedError<E, OE>>,
            CombinedError<E, OE>,
        >,
        SendFailure,
    >,
    pending: PendingUpgrade<U, O>,
    established: O,
    step: UpgradeStep<O, OO, E, OE>,
    connection: O,
    handover: Handover<O>,
    verdict: Result<O, O>,
    end: (
        Result<Result<EitherOutput<O, OO>, CombinedError<E, OE>>, SendFailure>,
        EventSender<RelayedEvent<O>>,
    ),
)
    requires
        call_ensures(
            BaseRelay::<O>::on_item::<U, OU, E, OE>,
            (relay, Ok(ListenerEvent::Upgrade { upgrade, local_addr, remote_addr })),
            reported,
        ),
        reported matches Ok(Ok(ListenerEvent::Upgrade { upgrade: EitherOutput::First(first), .. }))
            && first == pending,
        call_ensures(
            Handover::<O>::accepted::<OO, E, OE>,
            (pending.handover, Ok(established)),
            step,
        ),
        step matches UpgradeStep::AskSwitch { connection: asked, handover: kept } && asked
            == connection && kept == handover,
        call_ensures(Handover::<O>::switched::<OO, E, OE>, (handover, verdict), end),
    ensures
        connection == established,
        end.1.channel() == old(relay).sender().channel(),
        match verdict {
            Ok(passed_on) => {
                &&& end.1.attempts().len() == 1
                &&& end.1.attempts()[0].message == (RelayedEvent::Upgrade {
                    connection: passed_on,
                    local_addr,
                    remote_addr,
                })
                &&& match end.1.attempts()[0].refused {
                    None => end.0 matches Ok(Err(CombinedError::UpgradedToOuterTransport)),
                    Some(why) => end.0 matches Err(told) && told == why && why is Disconnected,
                }
            },
            Err(kept) => {
                &&& end.1.attempts().len() == 0
                &&& end.0 matches Ok(Ok(EitherOutput::First(yielded)))
                &&& yielded == kept
            },
        },
{
}

/// A connection that the base transport has set up goes to the switch, with its way to the outer
/// transport; one that it failed to set up ends with the error of the base side.
pub proof fn law_established_connections_reach_the_switch<O, OO, E, OE>(
    handover: Handover<O>,
    outcome: Result<O, E>,
    step: UpgradeStep<O, OO, E, OE>,
)
    requires
        call_ensures(Handover::<O>::accepted::<OO, E, OE>, (handover, outcome), step),
    ensures
        match outcome {
            Ok(established) => {
                &&& step matches UpgradeStep::AskSwitch { connection, handover: kept }
                &&& connection == established
                &&& kept == handover
            },
            Err(e) => step matches UpgradeStep::Done(Err(CombinedError::Base(told))) && told == e,
        },
{
}

/// The verdict of the switch decides where a connection comes out, whatever its handover is.
pub proof fn law_verdict_decides<O, OO, E, OE>(
    handover: Handover<O>,
    verdict: Result<O, O>,
    end: (
        Result<Result<EitherOutput<O, OO>, CombinedError<E, OE>>, SendFailure>,
        EventSender<RelayedEvent<O>>,
    ),
)
    requires
        call_ensures(Handover::<O>::switched::<OO, E, OE>, (handover, verdict), end),
    ensures
        end.1.channel() == handover.sender().channel(),
        end.1.buffer() == handover.sender().buffer(),
        end.1.others() == 0,
        match verdict {
            Ok(passed_on) => {
                &&& end.1.attempts().len() == 1
                &&& end.1.attempts()[0].message == (RelayedEvent::Upgrade {
                    connection: passed_on,
                    local_addr: handover.local_addr(),
                    remote_addr: handover.remote_addr(),
                })
                &&& match end.1.attempts()[0].refused {
                    None => end.0 matches Ok(Err(CombinedError::UpgradedToOuterTransport)),
                    Some(why) => end.0 matches Err(told) && told == why && why is Disconnected,
                }
            },
            Err(kept) => {
                &&& end.1.attempts().len() == 0
                &&& end.0 matches Ok(Ok(EitherOutput::First(yielded)))
                &&& yielded == kept
            },
        },
{
}

/// What the outer listener yields is reported as it is, as of the outer side.
pub proof fn law_outer_item<P, OU, E, OE>(
    item: Result<ListenerEvent<OU, OE>, OE>,
    reported: Result<
        ListenerEvent<EitherOutput<P, OU>, CombinedError<E, OE>>,
        CombinedError<E, OE>,
    >,
)
    requires
        call_ensures(on_outer_item::<P, OU, E, OE>, (item,), reported),
    ensures
        match item {
            Err(e) => reported matches Err(CombinedError::Outer(told)) && told == e,
            Ok(ListenerEvent::NewAddress(a)) => reported matches Ok(ListenerEvent::NewAddress(told))
                && told == a,
            Ok(ListenerEvent::AddressExpired(a)) => reported matches Ok(
                ListenerEvent::AddressExpired(told),
            ) && told == a,
            Ok(ListenerEvent::Error(e)) => reported matches Ok(
                ListenerEvent::Error(CombinedError::Outer(told)),
            ) && told == e,
            Ok(ListenerEvent::Upgrade { upgrade, local_addr, remote_addr }) => {
                &&& reported matches Ok(
                    ListenerEvent::Upgrade {
                        upgrade: EitherOutput::Second(told),
                        local_addr: l,
                        remote_addr: r,
                    },
                )
                &&& told == upgrade
                &&& l == local_addr
                &&& r == remote_addr
            },
        },
{
}

/// An established connection is never lost, and keeps its side: what the base transport set up is
/// yielded as of the base side, and what the outer one set up as of the outer side. A failure is
/// reported as one of the transport that failed.
pub proof fn law_connections_keep_their_side<O, OO, E, OE>(
    base: Result<O, E>,
    outer: Result<OO, OE>,
    from_base: Result<EitherOutput<O, OO>, CombinedError<E, OE>>,
    from_outer: Result<EitherOutput<O, OO>, CombinedError<E, OE>>,
)
    requires
        call_ensures(on_base_connection::<O, OO, E, OE>, (base,), from_base),
        call_ensures(on_outer_connection::<O, OO, E, OE>, (outer,), from_outer),
    ensures
        match base {
            Ok(connection) => from_base matches Ok(EitherOutput::First(told)) && told == connection,
            Err(e) => from_base matches Err(CombinedError::Base(told)) && told == e,
        },
        match outer {
            Ok(connection) => from_outer matches Ok(EitherOutput::Second(told)) && told
                == connection,
            Err(e) => from_outer matches Err(CombinedError::Outer(told)) && told == e,
        },
{
}

/// Only addresses are copied for the outer transport, and unchanged.
pub proof fn law_copy<U, O, E>(event: &ListenerEvent<U, E>, copy: Option<RelayedEvent<O>>)
    requires
        call_ensures(copy_event::<U, O, E>, (event,), copy),
    ensures
        match *event {
            ListenerEvent::NewAddress(a) => copy matches Some(RelayedEvent::NewAddress(told))
                && told == a,
            ListenerEvent::AddressExpired(a) => copy matches Some(
                RelayedEvent::AddressExpired(told),
            ) && told == a,
            ListenerEvent::Upgrade { .. } => copy is None,
            ListenerEvent::Error(_) => copy is None,
        },
{
}

/// An event that arrives at a proxy is yielded as it is, a connection as one that is established.
pub proof fn law_relayed_event<O, E>(
    event: RelayedEvent<O>,
    item: Result<ListenerEvent<Result<O, E>, E>, E>,
)
    requires
        call_ensures(on_relayed_event::<O, E>, (event,), item),
    ensures
        match event {
            RelayedEvent::NewAddress(a) => item matches Ok(ListenerEvent::NewAddress(told)) && told
                == a,
            RelayedEvent::AddressExpired(a) => item matches Ok(
                ListenerEvent::AddressExpired(told),
            ) && told == a,
            RelayedEvent::Upgrade { connection, local_addr, remote_addr } => {
                &&& item matches Ok(
                    ListenerEvent::Upgrade {
                        upgrade: Ok(told),
                        local_addr: l,
                        remote_addr: r,
                    },
                )
                &&& told == connection
                &&& l == local_addr
                &&& r == remote_addr
            },
        },
{
}

/// What a receiver answers is yielded: events as they are, the end as the end, and nothing as nothing
/// yet.
pub proof fn law_answer<O, E>(
    answer: Polled<RelayedEvent<O>>,
    polled: Polled<Result<ListenerEvent<Result<O, E>, E>, E>>,
)
    requires
        call_ensures(on_answer::<O, E>, (answer,), polled),
    ensures
        match answer {
            Polled::Item(RelayedEvent::NewAddress(a)) => polled matches Polled::Item(
                Ok(ListenerEvent::NewAddress(told)),
            ) && told == a,
            Polled::Item(RelayedEvent::AddressExpired(a)) => polled matches Polled::Item(
                Ok(ListenerEvent::AddressExpired(told)),
            ) && told == a,
            Polled::Item(RelayedEvent::Upgrade { connection, local_addr, remote_addr }) => {
                &&& polled matches Polled::Item(
                    Ok(
                        ListenerEvent::Upgrade {
                            upgrade: Ok(told),
                            local_addr: l,
                            remote_addr: r,
                        },
                    ),
                )
                &&& told == connection
                &&& l == local_addr
                &&& r == remote_addr
            },
            Polled::End => polled is End,
            Polled::Pending => polled is Pending,
        },
{
}

/// To poll the listener of a proxy is to poll its receiver once, and to yield what it answered. After
/// the end there is nothing but the end.
pub proof fn law_poll<O, E>(
    picked: &mut PickedUp<RelayedEvent<O>>,
    cx: &mut Context<'_>,
    polled: Polled<Result<ListenerEvent<Result<O, E>, E>, E>>,
)
    requires
        call_ensures(PickedUp::<RelayedEvent<O>>::poll_item::<E>, (picked, cx), polled),
    ensures
        ({
            let before = old(picked).receiver().answers();
            let after = final(picked).receiver().answers();
            &&& final(picked).place() == old(picked).place()
            &&& final(picked).receiver().channel() == old(picked).receiver().channel()
            &&& after.len() == before.len() + 1
            &&& after.drop_last() == before
            &&& before.len() > 0 && before.last() is End ==> polled is End
            &&& match after.last() {
                Polled::Item(RelayedEvent::NewAddress(a)) => polled matches Polled::Item(
                    Ok(ListenerEvent::NewAddress(told)),
                ) && told == a,
                Polled::Item(RelayedEvent::AddressExpired(a)) => polled matches Polled::Item(
                    Ok(ListenerEvent::AddressExpired(told)),
                ) && told == a,
                Polled::Item(RelayedEvent::Upgrade { connection, local_addr, remote_addr }) => {
                    &&& polled matches Polled::Item(
                        Ok(
                            ListenerEvent::Upgrade {
                                upgrade: Ok(told),
                                local_addr: l,
                                remote_addr: r,
                            },
                        ),
                    )
                    &&& told == connection
                    &&& l == local_addr
                    &&& r == remote_addr
                },
                Polled::End => polled is End,
                Polled::Pending => polled is Pending,
            }
        }),
{
    assert(final(picked).receiver().answers().drop_last() =~= old(picked).receiver().answers());
}

/// After the outer transport was asked to dial, its dial goes on if it started one. Otherwise, for
/// whatever reason it failed, the base transport is next: with the address that was handed back, or
/// with the one that was to be dialled.
pub proof fn law_outer_dialled<OD, OE>(
    addr: Multiaddr,
    answer: Result<OD, TransportError<OE>>,
    step: DialStep<OD>,
)
    requires
        call_ensures(on_outer_dialled::<OD, OE>, (addr, answer), step),
    ensures
        match answer {
            Ok(dial) => step matches DialStep::Dialling(told) && told == dial,
            Err(TransportError::MultiaddrNotSupported(rejected)) => step matches DialStep::TryBase(
                next,
            ) && next == rejected,
            Err(TransportError::Other(_)) => step matches DialStep::TryBase(next) && next == addr,
        },
{
}

/// The answer of the base transport to a dial is the outcome, as of the base side.
pub proof fn law_base_dialled<BD, OD, BE, OE>(
    answer: Result<BD, TransportError<BE>>,
    end: Result<EitherOutput<BD, OD>, TransportError<CombinedError<BE, OE>>>,
)
    requires
        call_ensures(on_base_dialled::<BD, OD, BE, OE>, (answer,), end),
    ensures
        match answer {
            Ok(dial) => end matches Ok(EitherOutput::First(told)) && told == dial,
            Err(TransportError::MultiaddrNotSupported(rejected)) => end matches Err(
                TransportError::MultiaddrNotSupported(told),
            ) && told == rejected,
            Err(TransportError::Other(e)) => end matches Err(
                TransportError::Other(CombinedError::Base(told)),
            ) && told == e,
        },
{
}

/// Errors on starting to listen or to dial tell which transport they come from, and an address that
/// is not supported is handed back.
pub proof fn law_failure<BE, OE>(
    base: TransportError<BE>,
    outer: TransportError<OE>,
    from_base: TransportError<CombinedError<BE, OE>>,
    from_outer: TransportError<CombinedError<BE, OE>>,
)
    requires
        call_ensures(TransportError::<BE>::from_base::<OE>, (base,), from_base),
        call_ensures(TransportError::<OE>::from_outer::<BE>, (outer,), from_outer),
    ensures
        match base {
            TransportError::MultiaddrNotSupported(addr) => from_base
                matches TransportError::MultiaddrNotSupported(told) && told == addr,
            TransportError::Other(e) => from_base matches TransportError::Other(
                CombinedError::Base(told),
            ) && told == e,
        },
        match outer {
            TransportError::MultiaddrNotSupported(addr) => from_outer
                matches TransportError::MultiaddrNotSupported(told) && told == addr,
            TransportError::Other(e) => from_outer matches TransportError::Other(
                CombinedError::Outer(told),
            ) && told == e,
        },
{
}

/// A connection is probably HTTP exactly if its first bytes could be peeked at and spell `GET`.
pub proof fn law_http_starts_with_get(peeked: Option<[u8; 3]>, http: bool)
    requires
        call_ensures(is_probably_http, (peeked,), http),
    ensures
        http <==> (peeked matches Some(bytes) && bytes@[0] == 71 && bytes@[1] == 69 && bytes@[2]
            == 84),
{
    if let Some(bytes) = peeked {
        if bytes@[0] == 71 && bytes@[1] == 69 && bytes@[2] == 84 {
            assert(bytes@ =~= seq![71u8, 69u8, 84u8]);
        }
    }
}

/// An error is shown as the transport that failed shows its own, and a connection that was passed on
/// by the fixed text.
pub proof fn law_fmt<Base, Outer, F, R, B, O, T>(
    error: CombinedError<Base, Outer>,
    f: F,
    base: B,
    outer: O,
    text: T,
    shown: R,
) where
    B: FnOnce(&Base, F) -> R,
    O: FnOnce(&Outer, F) -> R,
    T: FnOnce(&'static str, F) -> R,

    requires
        call_ensures(
            CombinedError::<Base, Outer>::fmt::<F, R>,
            (&error, f, base, outer, text),
            shown,
        ),
    ensures
        match error {
            CombinedError::Base(e) => call_ensures(base, (&e, f), shown),
            CombinedError::Outer(e) => call_ensures(outer, (&e, f), shown),
            CombinedError::UpgradedToOuterTransport => call_ensures(
                text,
                ("Upgraded to outer transport", f),
                shown,
            ),
        },
{
}

/// The cause of an error is the one that the transport that failed gives, and a connection that was
/// passed on has none.
pub proof fn law_source<'a, Base, Outer, S, B, O>(
    error: &'a CombinedError<Base, Outer>,
    base: B,
    outer: O,
    cause: Option<S>,
) where B: FnOnce(&'a Base) -> Option<S>, O: FnOnce(&'a Outer) -> Option<S>
    requires
        call_ensures(CombinedError::<Base, Outer>::source::<'a, S>, (error, base, outer), cause),
    ensures
        match *error {
            CombinedError::Base(e) => call_ensures(base, (&e,), cause),
            CombinedError::Outer(e) => call_ensures(outer, (&e,), cause),
            CombinedError::UpgradedToOuterTransport => cause is None,
        },
{
}

/// To map an error is to map what is in `Other`; an address that is not supported is handed back.
pub proof fn law_map_failure<A, B, F: FnOnce(A) -> B>(
    error: TransportError<A>,
    f: F,
    mapped: TransportError<B>,
)
    requires
        call_ensures(TransportError::<A>::map::<B>, (error, f), mapped),
    ensures
        match error {
            TransportError::MultiaddrNotSupported(addr) => mapped
                matches TransportError::MultiaddrNotSupported(told) && told == addr,
            TransportError::Other(e) => mapped matches TransportError::Other(told) && call_ensures(
                f,
                (e,),
                told,
            ),
        },
{
}

/// To map an event is to map the connection that came in, and its error with the other function;
/// addresses are kept.
pub proof fn law_map_event<A, B, E, D, F: FnOnce(A) -> B, G: FnOnce(E) -> D>(
    event: ListenerEvent<A, E>,
    f: F,
    mapped: ListenerEvent<B, E>,
    g: G,
    mapped_err: ListenerEvent<A, D>,
)
    requires
        call_ensures(ListenerEvent::<A, E>::map::<B>, (event, f), mapped),
        call_ensures(ListenerEvent::<A, E>::map_err::<D>, (event, g), mapped_err),
    ensures
        match event {
            ListenerEvent::NewAddress(a) => {
                &&& mapped matches ListenerEvent::NewAddress(told) && told == a
                &&& mapped_err matches ListenerEvent::NewAddress(told) && told == a
            },
            ListenerEvent::AddressExpired(a) => {
                &&& mapped matches ListenerEvent::AddressExpired(told) && told == a
                &&& mapped_err matches ListenerEvent::AddressExpired(told) && told == a
            },
            ListenerEvent::Error(e) => {
                &&& mapped matches ListenerEvent::Error(told) && told == e
                &&& mapped_err matches ListenerEvent::Error(told) && call_ensures(g, (e,), told)
            },
            ListenerEvent::Upgrade { upgrade, local_addr, remote_addr } => {
                &&& mapped matches ListenerEvent::Upgrade {
                    upgrade: told,
                    local_addr: l,
                    remote_addr: r,
                } && call_ensures(f, (upgrade,), told) && l == local_addr && r == remote_addr
                &&& mapped_err matches ListenerEvent::Upgrade {
                    upgrade: told,
                    local_addr: l,
                    remote_addr: r,
                } && told == upgrade && l == local_addr && r == remote_addr
            },
        },
{
}

/// What a channel has taken from a handle are the messages of the attempts that were not refused: a
/// refused attempt adds nothing, and any other adds its message at the end.
pub proof fn law_refused_messages_are_not_taken<T>(attempts: Seq<Attempt<T>>, attempt: Attempt<T>)
    ensures
        taken(Seq::<Attempt<T>>::empty()).len() == 0,
        attempt.refused is Some ==> taken(attempts.push(attempt)) == taken(attempts),
        attempt.refused is None ==> {
            &&& taken(attempts.push(attempt)).len() == taken(attempts).len() + 1
            &&& taken(attempts.push(attempt)).last() == attempt.message
            &&& taken(attempts.push(attempt)).drop_last() == taken(attempts)
        },
{
    assert(attempts.push(attempt).drop_last() =~= attempts);
    assert(taken(attempts).push(attempt.message).drop_last() =~= taken(attempts));
}

} // verus!
