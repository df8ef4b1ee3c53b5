use crate::channel::Polled;
use crate::combined::{
    ArmedTransport, BaseListening, BothListening, CombinedListener, CombinedTransport,
};
use crate::error::{base_failure, outer_failure, CombinedError, TransportError};
use crate::event::{EitherOutput, RelayedEvent};
use crate::proxy::ProxyTransport;
use crate::slot::{Found, NothingPending, PickedUp};
use crate::transport::Transport;
use libp2p::Multiaddr;
use vstd::prelude::*;

verus! {

/// A combined transport is made of what it is given: the base transport itself, a proxy of a clone of
/// it, and an outer transport that was made of another proxy, which waits at the same place as the
/// first one and has left nothing there.
pub proof fn law_new<TBase, TOuter, C, U, M>(
    base: TBase,
    construct_outer: C,
    try_upgrade: U,
    map_base_addr_to_outer: M,
    combined: CombinedTransport<TBase, TOuter, C, U, M>,
) where
    TBase: Transport + Clone,
    C: Fn(ProxyTransport<TBase>) -> TOuter,
    M: Fn(Multiaddr) -> Multiaddr,

    requires
        call_ensures(
            CombinedTransport::<TBase, TOuter, C, U, M>::new,
            (base, construct_outer, try_upgrade, map_base_addr_to_outer),
            combined,
        ),
    ensures
        combined.base() == base,
        combined.construct_outer() == construct_outer,
        combined.try_upgrade() == try_upgrade,
        combined.map_base_addr_to_outer() == map_base_addr_to_outer,
        call_ensures(TBase::clone, (&base,), combined.proxy().base()),
        combined.proxy().pending().is_own(),
        combined.proxy().pending().shares() == 1,
        combined.proxy().pending().offered().len() == 0,
        combined.proxy().pending().looks().len() == 0,
        exists|inner: ProxyTransport<TBase>|
            {
                &&& #[trigger] call_ensures(construct_outer, (inner,), combined.outer())
                &&& call_ensures(TBase::clone, (&combined.proxy().base(),), inner.base())
                &&& inner.pending().place() == combined.proxy().pending().place()
                &&& !inner.pending().is_own()
                &&& inner.pending().shares() == 0
                &&& inner.pending().offered().len() == 0
                &&& inner.pending().looks().len() == 0
            },
{
    let inner = choose|inner: ProxyTransport<TBase>| combined.outer_is_made_of(inner);
    assert(call_ensures(construct_outer, (inner,), combined.outer()));
}

/// A clone of a combined transport is made of a clone of the base transport and of the functions that
/// the first one was given, with a pending slot and an outer transport of its own.
pub proof fn law_clone<TBase, TOuter, C, U, M>(
    combined: CombinedTransport<TBase, TOuter, C, U, M>,
    copy: CombinedTransport<TBase, TOuter, C, U, M>,
) where
    TBase: Transport + Clone,
    C: Fn(ProxyTransport<TBase>) -> TOuter + Copy,
    U: Copy,
    M: Fn(Multiaddr) -> Multiaddr + Copy,

    requires
        call_ensures(
            <CombinedTransport<TBase, TOuter, C, U, M> as Clone>::clone,
            (&combined,),
            copy,
        ),
    ensures
        call_ensures(TBase::clone, (&combined.base(),), copy.base()),
        copy.construct_outer() == combined.construct_outer(),
        copy.try_upgrade() == combined.try_upgrade(),
        copy.map_base_addr_to_outer() == combined.map_base_addr_to_outer(),
        call_ensures(TBase::clone, (&copy.base(),), copy.proxy().base()),
        copy.proxy().pending().is_own(),
        copy.proxy().pending().shares() == 1,
        copy.proxy().pending().offered().len() == 0,
        copy.proxy().pending().looks().len() == 0,
        exists|inner: ProxyTransport<TBase>|
            {
                &&& #[trigger] call_ensures(combined.construct_outer(), (inner,), copy.outer())
                &&& call_ensures(TBase::clone, (&copy.proxy().base(),), inner.base())
                &&& inner.pending().place() == copy.proxy().pending().place()
                &&& !inner.pending().is_own()
                &&& inner.pending().shares() == 0
                &&& inner.pending().offered().len() == 0
                &&& inner.pending().looks().len() == 0
            },
{
    let inner = choose|inner: ProxyTransport<TBase>| copy.outer_is_made_of(inner);
    assert(call_ensures(combined.construct_outer(), (inner,), copy.outer()));
}

/// A clone of a proxy has a clone of the base transport, and waits at a place of its own.
pub proof fn law_proxy_clone<TBase: Transport + Clone>(
    proxy: ProxyTransport<TBase>,
    copy: ProxyTransport<TBase>,
)
    requires
        call_ensures(<ProxyTransport<TBase> as Clone>::clone, (&proxy,), copy),
    ensures
        call_ensures(TBase::clone, (&proxy.base(),), copy.base()),
        copy.pending().is_own(),
        copy.pending().shares() == 0,
        copy.pending().offered().len() == 0,
        copy.pending().looks().len() == 0,
{
}

/// To dial is to ask the outer transport for the address. A dial that it starts is the outcome, as of
/// the outer side. Otherwise the base transport is asked, for the address that was handed back or
/// for the same one, and its answer is the outcome, as of the base side.
pub proof fn law_dial<TBase, TOuter, C, U, M>(
    combined: CombinedTransport<TBase, TOuter, C, U, M>,
    addr: Multiaddr,
    dial: Result<
        EitherOutput<TBase::Dial, TOuter::Dial>,
        TransportError<CombinedError<TBase::Error, TOuter::Error>>,
    >,
) where
    TBase: Transport,
    TOuter: Transport,
    C: Fn(ProxyTransport<TBase>) -> TOuter,
    M: Fn(Multiaddr) -> Multiaddr,

    requires
        call_ensures(
            <CombinedTransport<TBase, TOuter, C, U, M> as Transport>::dial,
            (combined, addr),
            dial,
        ),
    ensures
        exists|answer: Result<TOuter::Dial, TransportError<TOuter::Error>>|
            #[trigger] call_ensures(TOuter::dial, (combined.outer(), addr), answer) && match answer {
                Ok(started) => dial matches Ok(EitherOutput::Second(told)) && told == started,
                Err(e) => exists|
                    next: Multiaddr,
                    base_answer: Result<TBase::Dial, TransportError<TBase::Error>>,
                |
                    {
                        &&& match e {
                            TransportError::MultiaddrNotSupported(rejected) => next == rejected,
                            TransportError::Other(_) => next == addr,
                        }
                        &&& #[trigger] call_ensures(
                            TBase::dial,
                            (combined.base(), next),
                            base_answer,
                        )
                        &&& match base_answer {
                            Ok(started) => dial matches Ok(EitherOutput::First(told)) && told
                                == started,
                            Err(TransportError::MultiaddrNotSupported(rejected)) => dial
                                matches Err(TransportError::MultiaddrNotSupported(told)) && told
                                == rejected,
                            Err(TransportError::Other(reason)) => dial matches Err(
                                TransportError::Other(CombinedError::Base(told)),
                            ) && told == reason,
                        }
                    },
            },
{
    let answer = choose|answer: Result<TOuter::Dial, TransportError<TOuter::Error>>| #[trigger]
        combined.outer_dials(addr, answer) && match answer {
            Ok(started) => dial matches Ok(EitherOutput::Second(told)) && told == started,
            Err(e) => exists|
                next: Multiaddr,
                base_answer: Result<TBase::Dial, TransportError<TBase::Error>>,
            |
                {
                    &&& match e {
                        TransportError::MultiaddrNotSupported(rejected) => next == rejected,
                        TransportError::Other(_) => next == addr,
                    }
                    &&& #[trigger] combined.base_dials(next, base_answer)
                    &&& match base_answer {
                        Ok(started) => dial matches Ok(EitherOutput::First(told)) && told
                            == started,
                        Err(TransportError::MultiaddrNotSupported(rejected)) => dial matches Err(
                            TransportError::MultiaddrNotSupported(told),
                        ) && told == rejected,
                        Err(TransportError::Other(reason)) => dial matches Err(
                            TransportError::Other(CombinedError::Base(told)),
                        ) && told == reason,
                    }
                },
        };
    assert(call_ensures(TOuter::dial, (combined.outer(), addr), answer));
    if let Err(e) = answer {
        let (next, base_answer) = choose|
            next: Multiaddr,
            base_answer: Result<TBase::Dial, TransportError<TBase::Error>>,
        |
            {
                &&& match e {
                    TransportError::MultiaddrNotSupported(rejected) => next == rejected,
                    TransportError::Other(_) => next == addr,
                }
                &&& #[trigger] combined.base_dials(next, base_answer)
                &&& match base_answer {
                    Ok(started) => dial matches Ok(EitherOutput::First(told)) && told == started,
                    Err(TransportError::MultiaddrNotSupported(rejected)) => dial matches Err(
                        TransportError::MultiaddrNotSupported(told),
                    ) && told == rejected,
                    Err(TransportError::Other(reason)) => dial matches Err(
                        TransportError::Other(CombinedError::Base(told)),
                    ) && told == reason,
                }
            };
        assert(call_ensures(TBase::dial, (combined.base(), next), base_answer));
    }
}

/// An address is translated as the outer transport does it, and as the base transport does it if the
/// outer one has no translation.
pub proof fn law_address_translation<TBase, TOuter, C, U, M>(
    combined: CombinedTransport<TBase, TOuter, C, U, M>,
    listen: Multiaddr,
    observed: Multiaddr,
    translated: Option<Multiaddr>,
) where
    TBase: Transport,
    TOuter: Transport,
    C: Fn(ProxyTransport<TBase>) -> TOuter,
    M: Fn(Multiaddr) -> Multiaddr,

    requires
        call_ensures(
            <CombinedTransport<TBase, TOuter, C, U, M> as Transport>::address_translation,
            (&combined, &listen, &observed),
            translated,
        ),
    ensures
        exists|answer: Option<Multiaddr>|
            {
                &&& #[trigger] call_ensures(
                    TOuter::address_translation,
                    (&combined.outer(), &listen, &observed),
                    answer,
                )
                &&& match answer {
                    Some(addr) => translated matches Some(told) && told == addr,
                    None => call_ensures(
                        TBase::address_translation,
                        (&combined.base(), &listen, &observed),
                        translated,
                    ),
                }
            },
{
    let answer = choose|answer: Option<Multiaddr>| #[trigger]
        combined.outer_translates(listen, observed, answer) && match answer {
            Some(addr) => translated matches Some(told) && told == addr,
            None => combined.base_translates(listen, observed, translated),
        };
    assert(call_ensures(
        TOuter::address_translation,
        (&combined.outer(), &listen, &observed),
        answer,
    ));
}

/// A proxy dials and translates as its base transport does.
pub proof fn law_proxy_dials_through_base<TBase: Transport>(
    proxy: ProxyTransport<TBase>,
    addr: Multiaddr,
    dial: Result<TBase::Dial, TransportError<TBase::Error>>,
    listen: Multiaddr,
    observed: Multiaddr,
    translated: Option<Multiaddr>,
)
    requires
        call_ensures(ProxyTransport::<TBase>::dial, (proxy, addr), dial),
        call_ensures(
            ProxyTransport::<TBase>::address_translation,
            (&proxy, &listen, &observed),
            translated,
        ),
    ensures
        call_ensures(TBase::dial, (proxy.base(), addr), dial),
        call_ensures(
            TBase::address_translation,
            (&proxy.base(), &listen, &observed),
            translated,
        ),
{
}

/// When a proxy listens, it hands out the receiver that its pick-up found, unread, or says that it
/// found none; nothing else decides.
pub proof fn law_proxy_listens<TBase: Transport>(
    proxy: ProxyTransport<TBase>,
    addr: Multiaddr,
    listener: Result<
        PickedUp<RelayedEvent<TBase::Output>>,
        NothingPending<RelayedEvent<TBase::Output>>,
    >,
)
    requires
        call_ensures(ProxyTransport::<TBase>::listen_on, (proxy, addr), listener),
    ensures
        exists|found: Found<RelayedEvent<TBase::Output>>|
            {
                &&& #[trigger] proxy.picks_up(found)
                &&& found.place() == proxy.pending().place()
                &&& match found.receiver() {
                    Some(receiver) => {
                        &&& listener matches Ok(picked)
                        &&& picked.receiver() == receiver
                        &&& picked.place() == proxy.pending().place()
                        &&& receiver.answers() == Seq::<
                            Polled<RelayedEvent<TBase::Output>>,
                        >::empty()
                    },
                    None => listener matches Err(nothing) && nothing.place()
                        == proxy.pending().place(),
                }
            },
{
}

/// What was found at a place is handed out, and if nothing was, that is what is said.
pub proof fn law_claim<T>(
    found: Found<T>,
    claimed: Result<PickedUp<T>, NothingPending<T>>,
)
    requires
        call_ensures(Found::<T>::claim, (found,), claimed),
    ensures
        match found.receiver() {
            Some(receiver) => {
                &&& claimed matches Ok(picked)
                &&& picked.receiver() == receiver
                &&& picked.place() == found.place()
            },
            None => claimed matches Err(nothing) && nothing.place() == found.place(),
        },
{
}

/// Listening asks the base transport for the address first. If it fails, that is the outcome, as of
/// the base side. Otherwise the outer transport is asked for the address that the base address maps
/// to; if it fails, that is the outcome, as of the outer side, and otherwise there is a listener on
/// both, with a fresh channel between them.
pub proof fn law_listen<TBase, TOuter, C, U, M>(
    combined: CombinedTransport<TBase, TOuter, C, U, M>,
    addr: Multiaddr,
    listener: Result<
        CombinedListener<TBase, TOuter, U>,
        TransportError<CombinedError<TBase::Error, TOuter::Error>>,
    >,
) where
    TBase: Transport,
    TOuter: Transport,
    C: Fn(ProxyTransport<TBase>) -> TOuter,
    M: Fn(Multiaddr) -> Multiaddr,

    requires
        call_ensures(
            <CombinedTransport<TBase, TOuter, C, U, M> as Transport>::listen_on,
            (combined, addr),
            listener,
        ),
    ensures
        exists|answer: Result<TBase::Listener, TransportError<TBase::Error>>|
            {
                &&& #[trigger] call_ensures(TBase::listen_on, (combined.base(), addr), answer)
                &&& match answer {
                    Err(TransportError::MultiaddrNotSupported(rejected)) => listener matches Err(
                        TransportError::MultiaddrNotSupported(told),
                    ) && told == rejected,
                    Err(TransportError::Other(e)) => listener matches Err(
                        TransportError::Other(CombinedError::Base(told)),
                    ) && told == e,
                    Ok(base) => exists|
                        outer_addr: Multiaddr,
                        outer_answer: Result<TOuter::Listener, TransportError<TOuter::Error>>,
                    |
                        {
                            &&& call_ensures(
                                combined.map_base_addr_to_outer(),
                                (addr,),
                                outer_addr,
                            )
                            &&& #[trigger] call_ensures(
                                TOuter::listen_on,
                                (combined.outer(), outer_addr),
                                outer_answer,
                            )
                            &&& match outer_answer {
                                Err(TransportError::MultiaddrNotSupported(rejected)) => listener
                                    matches Err(TransportError::MultiaddrNotSupported(told))
                                    && told == rejected,
                                Err(TransportError::Other(e)) => listener matches Err(
                                    TransportError::Other(CombinedError::Outer(told)),
                                ) && told == e,
                                Ok(outer) => {
                                    &&& listener matches Ok(l)
                                    &&& l.base == base
                                    &&& l.outer == outer
                                    &&& l.try_upgrade == combined.try_upgrade()
                                    &&& l.relay.sender().attempts().len() == 0
                                    &&& l.relay.sender().others() == 0
                                    &&& l.relay.sender().buffer() == 256
                                    &&& l.displaced is None
                                    &&& l.proxy.base() == combined.proxy().base()
                                    &&& l.proxy.pending().place()
                                        == combined.proxy().pending().place()
                                    &&& l.proxy.pending().shares()
                                        == combined.proxy().pending().shares()
                                    &&& l.proxy.pending().offered()
                                        == combined.proxy().pending().offered().push(
                                        (l.relay.sender().channel(), None),
                                    )
                                    &&& l.proxy.pending().looks()
                                        == combined.proxy().pending().looks().push(l.claimed)
                                },
                            }
                        },
                }
            },
{
    let answer = choose|answer: Result<TBase::Listener, TransportError<TBase::Error>>| #[trigger]
        combined.base_listens(addr, answer) && match answer {
            Err(e) => listener matches Err(reported) && reported == base_failure::<
                TBase::Error,
                TOuter::Error,
            >(e),
            Ok(base) => exists|
                outer_addr: Multiaddr,
                outer_answer: Result<TOuter::Listener, TransportError<TOuter::Error>>,
            | #[trigger]
                combined.outer_listens(addr, outer_addr, outer_answer) && match outer_answer {
                    Err(e) => listener matches Err(reported) && reported
                        == outer_failure::<TBase::Error, TOuter::Error>(e),
                    Ok(outer) => listener matches Ok(l) && combined.listener_is(l, base, outer),
                },
        };
    assert(call_ensures(TBase::listen_on, (combined.base(), addr), answer));
    if let Ok(base) = answer {
        let (outer_addr, outer_answer) = choose|
            outer_addr: Multiaddr,
            outer_answer: Result<TOuter::Listener, TransportError<TOuter::Error>>,
        | #[trigger]
            combined.outer_listens(addr, outer_addr, outer_answer) && match outer_answer {
                Err(e) => listener matches Err(reported) && reported
                    == outer_failure::<TBase::Error, TOuter::Error>(e),
                Ok(outer) => listener matches Ok(l) && combined.listener_is(l, base, outer),
            };
        assert(call_ensures(TOuter::listen_on, (combined.outer(), outer_addr), outer_answer));
    }
}

/// Listening goes in one order: the base transport starts to listen; only then is the receiver left
/// at the proxy; only then is the outer transport asked; and only then is there a look whether it
/// picked the receiver up. A step that fails is the last one.
pub proof fn law_listening_order<TBase, TOuter, C, U, M>(
    combined: CombinedTransport<TBase, TOuter, C, U, M>,
    addr: Multiaddr,
    listener: Result<
        CombinedListener<TBase, TOuter, U>,
        TransportError<CombinedError<TBase::Error, TOuter::Error>>,
    >,
) where
    TBase: Transport,
    TOuter: Transport,
    C: Fn(ProxyTransport<TBase>) -> TOuter,
    M: Fn(Multiaddr) -> Multiaddr,

    requires
        call_ensures(
            <CombinedTransport<TBase, TOuter, C, U, M> as Transport>::listen_on,
            (combined, addr),
            listener,
        ),
    ensures
        exists|
            started: Result<
                BaseListening<TBase, TOuter, U, M>,
                TransportError<CombinedError<TBase::Error, TOuter::Error>>,
            >,
        |
            {
                &&& #[trigger] call_ensures(
                    CombinedTransport::<TBase, TOuter, C, U, M>::listen_base,
                    (combined, addr),
                    started,
                )
                &&& match started {
                    Err(e) => listener matches Err(told) && told == e,
                    Ok(begun) => exists|
                        armed: ArmedTransport<TBase, TOuter, U>,
                        asked: Result<
                            BothListening<TBase, TOuter, U>,
                            TransportError<CombinedError<TBase::Error, TOuter::Error>>,
                        >,
                    |
                        {
                            &&& #[trigger] call_ensures(
                                BaseListening::<TBase, TOuter, U, M>::arm,
                                (begun,),
                                armed,
                            )
                            &&& #[trigger] call_ensures(
                                ArmedTransport::<TBase, TOuter, U>::ask_outer,
                                (armed,),
                                asked,
                            )
                            &&& match asked {
                                Err(e) => listener matches Err(told) && told == e,
                                Ok(both) => listener matches Ok(l) && call_ensures(
                                    BothListening::<TBase, TOuter, U>::look,
                                    (both,),
                                    l,
                                ),
                            }
                        },
                }
            },
{
    let step = choose|
        step: Result<
            ArmedTransport<TBase, TOuter, U>,
            TransportError<CombinedError<TBase::Error, TOuter::Error>>,
        >,
    | #[trigger]
        combined.arms(addr, step) && match step {
            Ok(armed) => armed.listens(listener),
            Err(e) => listener matches Err(reported) && reported == e,
        };
    let started = choose|
        started: Result<
            BaseListening<TBase, TOuter, U, M>,
            TransportError<CombinedError<TBase::Error, TOuter::Error>>,
        >,
    | #[trigger]
        combined.starts(addr, started) && match started {
            Ok(begun) => step matches Ok(a) && begun.arms(a),
            Err(e) => step matches Err(reported) && reported == e,
        };
    assert(call_ensures(
        CombinedTransport::<TBase, TOuter, C, U, M>::listen_base,
        (combined, addr),
        started,
    ));
    if let Ok(begun) = started {
        let armed = step->Ok_0;
        let asked = choose|
            asked: Result<
                BothListening<TBase, TOuter, U>,
                TransportError<CombinedError<TBase::Error, TOuter::Error>>,
            >,
        | #[trigger]
            armed.asks(asked) && match asked {
                Ok(both) => listener matches Ok(l) && both.shows(l),
                Err(e) => listener matches Err(reported) && reported == e,
            };
        assert(call_ensures(BaseListening::<TBase, TOuter, U, M>::arm, (begun,), armed));
        assert(call_ensures(ArmedTransport::<TBase, TOuter, U>::ask_outer, (armed,), asked));
    }
}

/// The step in which the base transport starts to listen: it is asked for the address, and everything
/// else is kept for later.
pub proof fn law_listen_base<TBase, TOuter, C, U, M>(
    combined: CombinedTransport<TBase, TOuter, C, U, M>,
    addr: Multiaddr,
    step: Result<
        BaseListening<TBase, TOuter, U, M>,
        TransportError<CombinedError<TBase::Error, TOuter::Error>>,
    >,
) where
    TBase: Transport,
    TOuter: Transport,
    C: Fn(ProxyTransport<TBase>) -> TOuter,
    M: Fn(Multiaddr) -> Multiaddr,

    requires
        call_ensures(
            CombinedTransport::<TBase, TOuter, C, U, M>::listen_base,
            (combined, addr),
            step,
        ),
    ensures
        exists|answer: Result<TBase::Listener, TransportError<TBase::Error>>|
            {
                &&& #[trigger] call_ensures(TBase::listen_on, (combined.base(), addr), answer)
                &&& match answer {
                    Err(TransportError::MultiaddrNotSupported(rejected)) => step matches Err(
                        TransportError::MultiaddrNotSupported(told),
                    ) && told == rejected,
                    Err(TransportError::Other(e)) => step matches Err(
                        TransportError::Other(CombinedError::Base(told)),
                    ) && told == e,
                    Ok(base) => {
                        &&& step matches Ok(started)
                        &&& started.base() == base
                        &&& started.outer() == combined.outer()
                        &&& started.addr() == addr
                        &&& started.proxy() == combined.proxy()
                        &&& started.try_upgrade() == combined.try_upgrade()
                        &&& started.map_base_addr_to_outer() == combined.map_base_addr_to_outer()
                    },
                }
            },
{
    let answer = choose|answer: Result<TBase::Listener, TransportError<TBase::Error>>| #[trigger]
        combined.base_listens(addr, answer) && match answer {
            Err(TransportError::MultiaddrNotSupported(rejected)) => step matches Err(
                TransportError::MultiaddrNotSupported(told),
            ) && told == rejected,
            Err(TransportError::Other(e)) => step matches Err(
                TransportError::Other(CombinedError::Base(told)),
            ) && told == e,
            Ok(base) => {
                &&& step matches Ok(started)
                &&& started.base() == base
                &&& started.outer() == combined.outer()
                &&& started.addr() == addr
                &&& started.proxy() == combined.proxy()
                &&& started.try_upgrade() == combined.try_upgrade()
                &&& started.map_base_addr_to_outer() == combined.map_base_addr_to_outer()
            },
        };
    assert(call_ensures(TBase::listen_on, (combined.base(), addr), answer));
}

/// The step in which the receiver is left at the proxy: one is left, of a fresh channel that the relay
/// sends to, in an empty slot. The outer transport and the base listener are kept as they are, and
/// the address for the outer transport is what the base address maps to.
pub proof fn law_arm<TBase, TOuter, U, M>(
    started: BaseListening<TBase, TOuter, U, M>,
    armed: ArmedTransport<TBase, TOuter, U>,
) where TBase: Transport, M: Fn(Multiaddr) -> Multiaddr
    requires
        call_ensures(BaseListening::<TBase, TOuter, U, M>::arm, (started,), armed),
    ensures
        armed.base() == started.base(),
        armed.outer() == started.outer(),
        call_ensures(started.map_base_addr_to_outer(), (started.addr(),), armed.outer_addr()),
        armed.try_upgrade() == started.try_upgrade(),
        armed.displaced() is None,
        armed.relay().sender().attempts().len() == 0,
        armed.relay().sender().others() == 0,
        armed.relay().sender().buffer() == 256,
        armed.proxy().base() == started.proxy().base(),
        armed.proxy().pending().place() == started.proxy().pending().place(),
        armed.proxy().pending().is_own() == started.proxy().pending().is_own(),
        armed.proxy().pending().shares() == started.proxy().pending().shares(),
        armed.proxy().pending().looks() == started.proxy().pending().looks(),
        armed.proxy().pending().offered() == started.proxy().pending().offered().push(
            (armed.relay().sender().channel(), None),
        ),
{
}

/// The step in which the outer transport is asked to listen on the mapped address. Everything else is
/// kept as it is.
pub proof fn law_ask_outer<TBase: Transport, TOuter: Transport, U>(
    armed: ArmedTransport<TBase, TOuter, U>,
    step: Result<
        BothListening<TBase, TOuter, U>,
        TransportError<CombinedError<TBase::Error, TOuter::Error>>,
    >,
)
    requires
        call_ensures(ArmedTransport::<TBase, TOuter, U>::ask_outer, (armed,), step),
    ensures
        exists|answer: Result<TOuter::Listener, TransportError<TOuter::Error>>|
            {
                &&& #[trigger] call_ensures(
                    TOuter::listen_on,
                    (armed.outer(), armed.outer_addr()),
                    answer,
                )
                &&& match answer {
                    Err(TransportError::MultiaddrNotSupported(rejected)) => step matches Err(
                        TransportError::MultiaddrNotSupported(told),
                    ) && told == rejected,
                    Err(TransportError::Other(e)) => step matches Err(
                        TransportError::Other(CombinedError::Outer(told)),
                    ) && told == e,
                    Ok(outer) => {
                        &&& step matches Ok(both)
                        &&& both.base() == armed.base()
                        &&& both.outer() == outer
                        &&& both.relay() == armed.relay()
                        &&& both.try_upgrade() == armed.try_upgrade()
                        &&& both.proxy() == armed.proxy()
                        &&& both.displaced() == armed.displaced()
                    },
                }
            },
{
    let answer = choose|answer: Result<TOuter::Listener, TransportError<TOuter::Error>>| #[trigger]
        armed.outer_listens(answer) && match answer {
            Err(TransportError::MultiaddrNotSupported(rejected)) => step matches Err(
                TransportError::MultiaddrNotSupported(told),
            ) && told == rejected,
            Err(TransportError::Other(e)) => step matches Err(
                TransportError::Other(CombinedError::Outer(told)),
            ) && told == e,
            Ok(outer) => {
                &&& step matches Ok(both)
                &&& both.base() == armed.base()
                &&& both.outer() == outer
                &&& both.relay() == armed.relay()
                &&& both.try_upgrade() == armed.try_upgrade()
                &&& both.proxy() == armed.proxy()
                &&& both.displaced() == armed.displaced()
            },
        };
    assert(call_ensures(TOuter::listen_on, (armed.outer(), armed.outer_addr()), answer));
}

/// The step that looks at the slot: there is one look, what it shows is what the listener says, and
/// everything else is kept as it is.
pub proof fn law_look<TBase: Transport, TOuter: Transport, U>(
    both: BothListening<TBase, TOuter, U>,
    listener: CombinedListener<TBase, TOuter, U>,
)
    requires
        call_ensures(BothListening::<TBase, TOuter, U>::look, (both,), listener),
    ensures
        listener.base == both.base(),
        listener.outer == both.outer(),
        listener.relay == both.relay(),
        listener.try_upgrade == both.try_upgrade(),
        listener.displaced == both.displaced(),
        listener.proxy.base() == both.proxy().base(),
        listener.proxy.pending().place() == both.proxy().pending().place(),
        listener.proxy.pending().is_own() == both.proxy().pending().is_own(),
        listener.proxy.pending().shares() == both.proxy().pending().shares(),
        listener.proxy.pending().offered() == both.proxy().pending().offered(),
        listener.proxy.pending().looks() == both.proxy().pending().looks().push(listener.claimed),
{
}

/// The two steps that go together: to arm is to let the base transport listen and then to leave the
/// receiver; to listen is to ask the outer transport and then to look.
pub proof fn law_steps_go_together<TBase, TOuter, C, U, M>(
    combined: CombinedTransport<TBase, TOuter, C, U, M>,
    addr: Multiaddr,
    armed: Result<
        ArmedTransport<TBase, TOuter, U>,
        TransportError<CombinedError<TBase::Error, TOuter::Error>>,
    >,
    ready: ArmedTransport<TBase, TOuter, U>,
    listener: Result<
        CombinedListener<TBase, TOuter, U>,
        TransportError<CombinedError<TBase::Error, TOuter::Error>>,
    >,
) where
    TBase: Transport,
    TOuter: Transport,
    C: Fn(ProxyTransport<TBase>) -> TOuter,
    M: Fn(Multiaddr) -> Multiaddr,

    requires
        call_ensures(
            CombinedTransport::<TBase, TOuter, C, U, M>::arm,
            (combined, addr),
            armed,
        ),
        call_ensures(ArmedTransport::<TBase, TOuter, U>::listen, (ready,), listener),
    ensures
        exists|
            started: Result<
                BaseListening<TBase, TOuter, U, M>,
                TransportError<CombinedError<TBase::Error, TOuter::Error>>,
            >,
        |
            {
                &&& #[trigger] call_ensures(
                    CombinedTransport::<TBase, TOuter, C, U, M>::listen_base,
                    (combined, addr),
                    started,
                )
                &&& match started {
                    Err(e) => armed matches Err(told) && told == e,
                    Ok(begun) => armed matches Ok(a) && call_ensures(
                        BaseListening::<TBase, TOuter, U, M>::arm,
                        (begun,),
                        a,
                    ),
                }
            },
        exists|
            asked: Result<
                BothListening<TBase, TOuter, U>,
                TransportError<CombinedError<TBase::Error, TOuter::Error>>,
            >,
        |
            {
                &&& #[trigger] call_ensures(
                    ArmedTransport::<TBase, TOuter, U>::ask_outer,
                    (ready,),
                    asked,
                )
                &&& match asked {
                    Err(e) => listener matches Err(told) && told == e,
                    Ok(both) => listener matches Ok(l) && call_ensures(
                        BothListening::<TBase, TOuter, U>::look,
                        (both,),
                        l,
                    ),
                }
            },
{
    let started = choose|
        started: Result<
            BaseListening<TBase, TOuter, U, M>,
            TransportError<CombinedError<TBase::Error, TOuter::Error>>,
        >,
    | #[trigger]
        combined.starts(addr, started) && match started {
            Ok(begun) => armed matches Ok(a) && begun.arms(a),
            Err(e) => armed matches Err(reported) && reported == e,
        };
    assert(call_ensures(
        CombinedTransport::<TBase, TOuter, C, U, M>::listen_base,
        (combined, addr),
        started,
    ));
    let asked = choose|
        asked: Result<
            BothListening<TBase, TOuter, U>,
            TransportError<CombinedError<TBase::Error, TOuter::Error>>,
        >,
    | #[trigger]
        ready.asks(asked) && match asked {
            Ok(both) => listener matches Ok(l) && both.shows(l),
            Err(e) => listener matches Err(reported) && reported == e,
        };
    assert(call_ensures(ArmedTransport::<TBase, TOuter, U>::ask_outer, (ready,), asked));
}

} // verus!
