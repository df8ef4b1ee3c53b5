use crate::channel::EventReceiver;
use crate::error::{base_failure, outer_failure, CombinedError, TransportError};
use crate::event::{EitherOutput, RelayedEvent};
use crate::listener::{BaseRelay, PendingUpgrade};
use crate::proxy::{ProxyTransport, PROXY_BUFFER};
use crate::transport::Transport;
use libp2p::Multiaddr;
use vstd::prelude::*;

verus! {

/// A transport made of two: a base transport, such as TCP, and an outer one on top of it, such as
/// WebSocket.
///
/// Dialing tries the outer transport first, and if that fails, the base transport. Incoming connections are accepted on either: a switch decides for each
/// connection of the base transport whether it is passed on to the outer one.
#[verifier::reject_recursive_types(TBase)]
#[verifier::reject_recursive_types(TOuter)]
pub struct CombinedTransport<TBase: Transport, TOuter, C, U, M> where
    C: Fn(ProxyTransport<TBase>) -> TOuter,
    M: Fn(Multiaddr) -> Multiaddr,
 {
    base: TBase,
    outer: TOuter,
    construct_outer: C,
    proxy: ProxyTransport<TBase>,
    try_upgrade: U,
    map_base_addr_to_outer: M,
}

/// A combined transport whose base transport listens. The proxy has not been given anything to pick
/// up yet.
#[verifier::reject_recursive_types(TBase)]
pub struct BaseListening<TBase: Transport, TOuter, U, M> where M: Fn(Multiaddr) -> Multiaddr {
    base: TBase::Listener,
    outer: TOuter,
    addr: Multiaddr,
    proxy: ProxyTransport<TBase>,
    try_upgrade: U,
    map_base_addr_to_outer: M,
}

/// A combined transport whose base transport listens, and whose proxy has been given something to
/// pick up. The outer transport is yet to be asked.
#[verifier::reject_recursive_types(TBase)]
pub struct ArmedTransport<TBase: Transport, TOuter, U> {
    base: TBase::Listener,
    outer: TOuter,
    outer_addr: Multiaddr,
    relay: BaseRelay<TBase::Output>,
    try_upgrade: U,
    proxy: ProxyTransport<TBase>,
    displaced: Option<EventReceiver<RelayedEvent<TBase::Output>>>,
}

/// A combined transport whose base and outer transports both listen. It is yet to be seen whether
/// the outer one picked up what it was given.
#[verifier::reject_recursive_types(TBase)]
#[verifier::reject_recursive_types(TOuter)]
pub struct BothListening<TBase: Transport, TOuter: Transport, U> {
    base: TBase::Listener,
    outer: TOuter::Listener,
    relay: BaseRelay<TBase::Output>,
    try_upgrade: U,
    proxy: ProxyTransport<TBase>,
    displaced: Option<EventReceiver<RelayedEvent<TBase::Output>>>,
}

/// A listener on both transports.
#[verifier::reject_recursive_types(TBase)]
#[verifier::reject_recursive_types(TOuter)]
pub struct CombinedListener<TBase: Transport, TOuter: Transport, U> {
    /// The listener of the base transport, whose items go to `relay`.
    pub base: TBase::Listener,
    /// The listener of the outer transport.
    pub outer: TOuter::Listener,
    /// Handles what the base listener yields.
    pub relay: BaseRelay<TBase::Output>,
    /// The switch.
    pub try_upgrade: U,
    /// The proxy that the receiver of the relayed events was left at.
    pub proxy: ProxyTransport<TBase>,
    /// The receiver that was in the pending slot before. There is none.
    pub displaced: Option<EventReceiver<RelayedEvent<TBase::Output>>>,
    /// Whether the outer transport picked up the receiver when it started to listen. It should.
    pub claimed: bool,
}

/// What to do after the outer transport was asked to dial.
pub enum DialStep<OD> {
    /// Dial this address with the base transport.
    TryBase(Multiaddr),
    /// The outer transport dials.
    Dialling(OD),
}

/// What follows from the answer of the outer transport on being asked to dial `addr`. Where it
/// failed, the base transport is next, with the address that was handed back, if one was.
pub open spec fn outer_dialled<OD, OE>(
    addr: Multiaddr,
    answer: Result<OD, TransportError<OE>>,
) -> DialStep<OD> {
    match answer {
        Ok(dial) => DialStep::Dialling(dial),
        Err(TransportError::MultiaddrNotSupported(rejected)) => DialStep::TryBase(rejected),
        Err(TransportError::Other(_)) => DialStep::TryBase(addr),
    }
}

/// What follows from the answer of the base transport to a dial.
pub open spec fn base_dialled<BD, OD, BE, OE>(answer: Result<BD, TransportError<BE>>) -> Result<
    EitherOutput<BD, OD>,
    TransportError<CombinedError<BE, OE>>,
> {
    match answer {
        Ok(dial) => Ok(EitherOutput::First(dial)),
        Err(e) => Err(base_failure(e)),
    }
}

/// Decides what to do after the outer transport was asked to dial `addr`.
pub fn on_outer_dialled<OD, OE>(addr: Multiaddr, answer: Result<OD, TransportError<OE>>) -> (step:
    DialStep<OD>)
    ensures
        step == outer_dialled(addr, answer),
{
    match answer {
        Ok(dial) => DialStep::Dialling(dial),
        Err(TransportError::MultiaddrNotSupported(rejected)) => DialStep::TryBase(rejected),
        Err(TransportError::Other(_)) => DialStep::TryBase(addr),
    }
}

/// Decides how a dial ends after the base transport was asked.
pub fn on_base_dialled<BD, OD, BE, OE>(answer: Result<BD, TransportError<BE>>) -> (end: Result<
    EitherOutput<BD, OD>,
    TransportError<CombinedError<BE, OE>>,
>)
    ensures
        end == base_dialled::<BD, OD, BE, OE>(answer),
{
    match answer {
        Ok(dial) => Ok(EitherOutput::First(dial)),
        Err(e) => Err(e.from_base()),
    }
}

impl<TBase: Transport, TOuter, C, U, M> CombinedTransport<TBase, TOuter, C, U, M> where
    C: Fn(ProxyTransport<TBase>) -> TOuter,
    M: Fn(Multiaddr) -> Multiaddr,
 {
    /// The base transport.
    pub closed spec fn base(self) -> TBase {
        self.base
    }

    /// The outer transport.
    pub closed spec fn outer(self) -> TOuter {
        self.outer
    }

    /// The proxy that the outer transport listens through.
    pub closed spec fn proxy(self) -> ProxyTransport<TBase> {
        self.proxy
    }

    /// How the outer transport is made of a proxy.
    pub closed spec fn construct_outer(self) -> C {
        self.construct_outer
    }

    /// The switch.
    pub closed spec fn try_upgrade(self) -> U {
        self.try_upgrade
    }

    /// The address that the outer transport listens on, given that of the base transport.
    pub closed spec fn map_base_addr_to_outer(self) -> M {
        self.map_base_addr_to_outer
    }

    /// The functions that the transport was given can be called on everything, and its proxy has a
    /// pending slot of its own that nothing was left in.
    #[verifier::type_invariant]
    spec fn can_listen(self) -> bool {
        &&& self.proxy.pending().is_own()
        &&& self.proxy.pending().offered().len() == 0
        &&& forall|proxy: ProxyTransport<TBase>| #[trigger]
            call_requires(self.construct_outer, (proxy,))
        &&& forall|addr: Multiaddr| #[trigger]
            call_requires(self.map_base_addr_to_outer, (addr,))
    }
}

impl<TBase: Transport + Clone, TOuter, C, U, M> CombinedTransport<TBase, TOuter, C, U, M> where
    C: Fn(ProxyTransport<TBase>) -> TOuter,
    M: Fn(Multiaddr) -> Multiaddr,
 {
    /// The transport was put together from these parts: its proxy has a clone of the base
    /// transport and a pending slot of its own, and the outer transport was made of another proxy
    /// that shares that slot. These two have the only handles on the slot, and nothing was left in
    /// it through either.
    pub open spec fn is_made_of(
        self,
        base: TBase,
        construct_outer: C,
        try_upgrade: U,
        map_base_addr_to_outer: M,
    ) -> bool {
        &&& self.base() == base
        &&& self.construct_outer() == construct_outer
        &&& self.try_upgrade() == try_upgrade
        &&& self.map_base_addr_to_outer() == map_base_addr_to_outer
        &&& call_ensures(TBase::clone, (&base,), self.proxy().base())
        &&& self.proxy().pending().is_own()
        &&& self.proxy().pending().offered().len() == 0
        &&& self.proxy().pending().looks().len() == 0
        &&& self.proxy().pending().shares() == 1
        &&& exists|inner: ProxyTransport<TBase>| self.outer_is_made_of(inner)
    }

    /// The outer transport was made of `inner`, a proxy that shares the pending slot of the proxy
    /// of this transport, and through whose handle nothing was done before.
    pub open spec fn outer_is_made_of(self, inner: ProxyTransport<TBase>) -> bool {
        &&& call_ensures(self.construct_outer(), (inner,), self.outer())
        &&& call_ensures(TBase::clone, (&self.proxy().base(),), inner.base())
        &&& inner.pending().place() == self.proxy().pending().place()
        &&& !inner.pending().is_own()
        &&& inner.pending().is_unused()
    }

    /// Combines a base transport with an outer one, given a function to make the outer transport
    /// of a proxy of the base transport, a switch to tell which incoming connections of the base
    /// transport are for the outer one, and a function to map listen addresses of the base
    /// transport to those of the outer one.
    pub fn new(
        base: TBase,
        construct_outer: C,
        try_upgrade: U,
        map_base_addr_to_outer: M,
    ) -> (combined: Self)
        requires
            forall|proxy: ProxyTransport<TBase>| #[trigger]
                call_requires(construct_outer, (proxy,)),
            forall|addr: Multiaddr| #[trigger] call_requires(map_base_addr_to_outer, (addr,)),
        ensures
            combined.is_made_of(base, construct_outer, try_upgrade, map_base_addr_to_outer),
    {
        let mut proxy = ProxyTransport::new(base.clone());
        let mut inner = proxy.clone();
        inner.join(&mut proxy);
        let ghost handed = inner;
        let outer = construct_outer(inner);
        let combined = CombinedTransport {
            base,
            outer,
            construct_outer,
            proxy,
            try_upgrade,
            map_base_addr_to_outer,
        };
        assert(combined.outer_is_made_of(handed));
        combined
    }
}

impl<TBase: Transport + Clone, TOuter, C, U: Copy, M> Clone for CombinedTransport<
    TBase,
    TOuter,
    C,
    U,
    M,
> where C: Fn(ProxyTransport<TBase>) -> TOuter + Copy, M: Fn(Multiaddr) -> Multiaddr + Copy {
    /// Combines a clone of the base transport with a new outer transport.
    fn clone(&self) -> (copy: Self)
        ensures
            exists|base: TBase|
                {
                    &&& #[trigger] call_ensures(TBase::clone, (&self.base(),), base)
                    &&& copy.is_made_of(
                        base,
                        self.construct_outer(),
                        self.try_upgrade(),
                        self.map_base_addr_to_outer(),
                    )
                },
    {
        proof {
            use_type_invariant(self);
        }
        let base = self.base.clone();
        assert(call_ensures(TBase::clone, (&self.base(),), base));
        Self::new(
            base,
            self.construct_outer,
            self.try_upgrade,
            self.map_base_addr_to_outer,
        )
    }
}

impl<TBase: Transport, TOuter: Transport, C, U, M> Transport for CombinedTransport<
    TBase,
    TOuter,
    C,
    U,
    M,
> where C: Fn(ProxyTransport<TBase>) -> TOuter, M: Fn(Multiaddr) -> Multiaddr {
    type Output = EitherOutput<TBase::Output, TOuter::Output>;

    type Error = CombinedError<TBase::Error, TOuter::Error>;

    type Listener = CombinedListener<TBase, TOuter, U>;

    type ListenerUpgrade = EitherOutput<
        PendingUpgrade<TBase::ListenerUpgrade, TBase::Output>,
        TOuter::ListenerUpgrade,
    >;

    type Dial = EitherOutput<TBase::Dial, TOuter::Dial>;

    /// Listens with the base transport, leaves the receiver of its events at the proxy, and only then
    /// listens with the outer transport, which picks the receiver up.
    fn listen_on(self, addr: Multiaddr) -> (listener: Result<
        Self::Listener,
        TransportError<Self::Error>,
    >)
        ensures
            exists|answer: Result<TBase::Listener, TransportError<TBase::Error>>|
                self.base_listens(addr, answer) && match answer {
                    Err(e) => listener matches Err(reported) && reported
                        == base_failure::<TBase::Error, TOuter::Error>(e),
                    Ok(base) => exists|
                        outer_addr: Multiaddr,
                        outer_answer: Result<TOuter::Listener, TransportError<TOuter::Error>>,
                    |
                        self.outer_listens(addr, outer_addr, outer_answer) && match outer_answer {
                            Err(e) => listener matches Err(reported) && reported
                                == outer_failure::<TBase::Error, TOuter::Error>(e),
                            Ok(outer) => listener matches Ok(l) && self.listener_is(l, base, outer),
                        },
                },
            exists|
                step: Result<
                    ArmedTransport<TBase, TOuter, U>,
                    TransportError<CombinedError<TBase::Error, TOuter::Error>>,
                >,
            |
                #[trigger] self.arms(addr, step) && match step {
                    Ok(armed) => armed.listens(listener),
                    Err(e) => listener matches Err(reported) && reported == e,
                },
    {
        let step = self.arm(addr);
        assert(self.arms(addr, step));
        match step {
            Ok(armed) => {
                let ghost before = armed;
                let listener = armed.listen();
                assert(before.listens(listener));
                proof {
                    let answer = choose|answer|
                        #[trigger] before.outer_listens(answer) && before.leads_to(answer, listener);
                    assert(self.outer_listens(addr, before.outer_addr(), answer));
                }
                listener
            },
            Err(e) => Err(e),
        }
    }

    /// Dials with the outer transport, and if that fails, with the base transport.
    fn dial(self, addr: Multiaddr) -> (dial: Result<Self::Dial, TransportError<Self::Error>>)
        ensures
            exists|answer: Result<TOuter::Dial, TransportError<TOuter::Error>>|
                self.outer_dials(addr, answer) && match outer_dialled(addr, answer) {
                    DialStep::Dialling(outer) => dial matches Ok(EitherOutput::Second(started))
                        && started == outer,
                    DialStep::TryBase(next) => exists|
                        base_answer: Result<TBase::Dial, TransportError<TBase::Error>>,
                    |
                        self.base_dials(next, base_answer) && dial == base_dialled::<
                            TBase::Dial,
                            TOuter::Dial,
                            TBase::Error,
                            TOuter::Error,
                        >(base_answer),
                },
    {
        let outer_answer = self.outer.dial(addr.clone());
        assert(self.outer_dials(addr, outer_answer));
        match on_outer_dialled(addr, outer_answer) {
            DialStep::Dialling(outer) => Ok(EitherOutput::Second(outer)),
            DialStep::TryBase(next) => {
                let base_answer = self.base.dial(next);
                assert(self.base_dials(next, base_answer));
                on_base_dialled(base_answer)
            },
        }
    }

    /// Translates an address as the outer transport does, and as the base transport does if the
    /// outer one has no translation.
    fn address_translation(&self, listen: &Multiaddr, observed: &Multiaddr) -> (translated: Option<
        Multiaddr,
    >)
        ensures
            exists|answer: Option<Multiaddr>|
                self.outer_translates(*listen, *observed, answer) && match answer {
                    Some(_) => translated == answer,
                    None => self.base_translates(*listen, *observed, translated),
                },
    {
        let outer_answer = self.outer.address_translation(listen, observed);
        assert(self.outer_translates(*listen, *observed, outer_answer));
        match outer_answer {
            Some(addr) => Some(addr),
            None => self.base.address_translation(listen, observed),
        }
    }
}

impl<TBase: Transport, TOuter: Transport, C, U, M> CombinedTransport<TBase, TOuter, C, U, M> where
    C: Fn(ProxyTransport<TBase>) -> TOuter,
    M: Fn(Multiaddr) -> Multiaddr,
 {
    /// Starts to listen with the base transport.
    pub fn listen_base(self, addr: Multiaddr) -> (step: Result<
        BaseListening<TBase, TOuter, U, M>,
        TransportError<CombinedError<TBase::Error, TOuter::Error>>,
    >)
        ensures
            exists|answer: Result<TBase::Listener, TransportError<TBase::Error>>|
                #[trigger] self.base_listens(addr, answer) && match answer {
                    Err(e) => step matches Err(reported) && reported == base_failure::<
                        TBase::Error,
                        TOuter::Error,
                    >(e),
                    Ok(base) => step matches Ok(started) && {
                        &&& started.base() == base
                        &&& started.outer() == self.outer()
                        &&& started.addr() == addr
                        &&& started.proxy() == self.proxy()
                        &&& started.try_upgrade() == self.try_upgrade()
                        &&& started.map_base_addr_to_outer() == self.map_base_addr_to_outer()
                    },
                },
    {
        proof {
            use_type_invariant(&self);
        }
        let answer = self.base.listen_on(addr.clone());
        assert(self.base_listens(addr, answer));
        match answer {
            Ok(base) => Ok(
                BaseListening {
                    base,
                    outer: self.outer,
                    addr,
                    proxy: self.proxy,
                    try_upgrade: self.try_upgrade,
                    map_base_addr_to_outer: self.map_base_addr_to_outer,
                },
            ),
            Err(e) => Err(e.from_base()),
        }
    }

    /// Starts to listen with the base transport, and then opens the channel to the outer transport
    /// and leaves its receiver at the proxy.
    pub fn arm(self, addr: Multiaddr) -> (armed: Result<
        ArmedTransport<TBase, TOuter, U>,
        TransportError<CombinedError<TBase::Error, TOuter::Error>>,
    >)
        ensures
            exists|answer: Result<TBase::Listener, TransportError<TBase::Error>>|
                self.base_listens(addr, answer) && match answer {
                    Err(e) => armed matches Err(reported) && reported
                        == base_failure::<TBase::Error, TOuter::Error>(e),
                    Ok(base) => armed matches Ok(a) && {
                        &&& a.base() == base
                        &&& a.outer() == self.outer()
                        &&& call_ensures(self.map_base_addr_to_outer(), (addr,), a.outer_addr())
                        &&& a.try_upgrade() == self.try_upgrade()
                        &&& a.relay().sender().is_fresh()
                        &&& a.relay().sender().buffer() == PROXY_BUFFER
                        &&& a.proxy().base() == self.proxy().base()
                        &&& a.proxy().pending().continues(self.proxy().pending())
                        &&& a.proxy().pending().offered() == self.proxy().pending().offered().push(
                            (a.relay().sender().channel(), a.displaced()),
                        )
                        &&& a.proxy().pending().looks() == self.proxy().pending().looks()
                        &&& a.displaced() is None
                    },
                },
            exists|
                step: Result<
                    BaseListening<TBase, TOuter, U, M>,
                    TransportError<CombinedError<TBase::Error, TOuter::Error>>,
                >,
            |
                #[trigger] self.starts(addr, step) && match step {
                    Ok(started) => armed matches Ok(a) && started.arms(a),
                    Err(e) => armed matches Err(reported) && reported == e,
                },
    {
        let step = self.listen_base(addr);
        assert(self.starts(addr, step));
        match step {
            Ok(started) => {
                let ghost before = started;
                let armed = started.arm();
                assert(before.arms(armed));
                Ok(armed)
            },
            Err(e) => Err(e),
        }
    }

    /// `step` comes of starting to listen with the base transport on `addr`.
    pub open spec fn starts(
        self,
        addr: Multiaddr,
        step: Result<
            BaseListening<TBase, TOuter, U, M>,
            TransportError<CombinedError<TBase::Error, TOuter::Error>>,
        >,
    ) -> bool {
        call_ensures(
            CombinedTransport::<TBase, TOuter, C, U, M>::listen_base,
            (self, addr),
            step,
        )
    }

    /// `step` comes of arming the transport on `addr`.
    pub open spec fn arms(
        self,
        addr: Multiaddr,
        step: Result<
            ArmedTransport<TBase, TOuter, U>,
            TransportError<CombinedError<TBase::Error, TOuter::Error>>,
        >,
    ) -> bool {
        call_ensures(CombinedTransport::<TBase, TOuter, C, U, M>::arm, (self, addr), step)
    }

    /// `answer` is a possible answer of the base transport on being asked to listen on `addr`.
    pub open spec fn base_listens(
        self,
        addr: Multiaddr,
        answer: Result<TBase::Listener, TransportError<TBase::Error>>,
    ) -> bool {
        call_ensures(TBase::listen_on, (self.base(), addr), answer)
    }

    /// The outer transport may be asked to listen on `outer_addr` where the base transport listens
    /// on `addr`, and `answer` is a possible answer.
    pub open spec fn outer_listens(
        self,
        addr: Multiaddr,
        outer_addr: Multiaddr,
        answer: Result<TOuter::Listener, TransportError<TOuter::Error>>,
    ) -> bool {
        &&& call_ensures(self.map_base_addr_to_outer(), (addr,), outer_addr)
        &&& call_ensures(TOuter::listen_on, (self.outer(), outer_addr), answer)
    }

    /// `answer` is a possible answer of the outer transport on being asked to dial `addr`.
    pub open spec fn outer_dials(
        self,
        addr: Multiaddr,
        answer: Result<TOuter::Dial, TransportError<TOuter::Error>>,
    ) -> bool {
        call_ensures(TOuter::dial, (self.outer(), addr), answer)
    }

    /// `answer` is a possible answer of the base transport on being asked to dial `addr`.
    pub open spec fn base_dials(
        self,
        addr: Multiaddr,
        answer: Result<TBase::Dial, TransportError<TBase::Error>>,
    ) -> bool {
        call_ensures(TBase::dial, (self.base(), addr), answer)
    }

    /// `answer` is a possible translation of the outer transport.
    pub open spec fn outer_translates(
        self,
        listen: Multiaddr,
        observed: Multiaddr,
        answer: Option<Multiaddr>,
    ) -> bool {
        call_ensures(TOuter::address_translation, (&self.outer(), &listen, &observed), answer)
    }

    /// `answer` is a possible translation of the base transport.
    pub open spec fn base_translates(
        self,
        listen: Multiaddr,
        observed: Multiaddr,
        answer: Option<Multiaddr>,
    ) -> bool {
        call_ensures(TBase::address_translation, (&self.base(), &listen, &observed), answer)
    }

    /// `listener` combines the two listeners: its relay sends through a new channel, whose receiver
    /// was left in the pending slot of the proxy, where nothing was before, and `claimed` is what a
    /// last look at that slot showed.
    pub open spec fn listener_is(
        self,
        listener: CombinedListener<TBase, TOuter, U>,
        base: TBase::Listener,
        outer: TOuter::Listener,
    ) -> bool {
        &&& listener.base == base
        &&& listener.outer == outer
        &&& listener.try_upgrade == self.try_upgrade()
        &&& listener.relay.sender().is_fresh()
        &&& listener.relay.sender().buffer() == PROXY_BUFFER
        &&& listener.proxy.base() == self.proxy().base()
        &&& listener.proxy.pending().continues(self.proxy().pending())
        &&& listener.proxy.pending().offered() == self.proxy().pending().offered().push(
            (listener.relay.sender().channel(), listener.displaced),
        )
        &&& listener.displaced is None
        &&& listener.proxy.pending().looks() == self.proxy().pending().looks().push(
            listener.claimed,
        )
    }
}

impl<TBase: Transport, TOuter, U, M> BaseListening<TBase, TOuter, U, M> where
    M: Fn(Multiaddr) -> Multiaddr,
 {
    /// The listener of the base transport.
    pub closed spec fn base(self) -> TBase::Listener {
        self.base
    }

    /// The outer transport.
    pub closed spec fn outer(self) -> TOuter {
        self.outer
    }

    /// The address that the base transport was asked to listen on.
    pub closed spec fn addr(self) -> Multiaddr {
        self.addr
    }

    /// The proxy that the outer transport listens through.
    pub closed spec fn proxy(self) -> ProxyTransport<TBase> {
        self.proxy
    }

    /// The switch.
    pub closed spec fn try_upgrade(self) -> U {
        self.try_upgrade
    }

    /// The address that the outer transport listens on, given that of the base transport.
    pub closed spec fn map_base_addr_to_outer(self) -> M {
        self.map_base_addr_to_outer
    }

    /// The map of addresses can be called on everything, and the proxy has a pending slot of its own
    /// that nothing was left in.
    #[verifier::type_invariant]
    spec fn can_go_on(self) -> bool {
        &&& self.proxy.pending().is_own()
        &&& self.proxy.pending().offered().len() == 0
        &&& forall|addr: Multiaddr| #[trigger] call_requires(self.map_base_addr_to_outer, (addr,))
    }

    /// `armed` comes of arming this transport.
    pub open spec fn arms(self, armed: ArmedTransport<TBase, TOuter, U>) -> bool {
        call_ensures(BaseListening::<TBase, TOuter, U, M>::arm, (self,), armed)
    }

    /// Opens the channel to the outer transport and leaves its receiver at the proxy.
    pub fn arm(self) -> (armed: ArmedTransport<TBase, TOuter, U>)
        ensures
            armed.base() == self.base(),
            armed.outer() == self.outer(),
            call_ensures(self.map_base_addr_to_outer(), (self.addr(),), armed.outer_addr()),
            armed.try_upgrade() == self.try_upgrade(),
            armed.relay().sender().is_fresh(),
            armed.relay().sender().buffer() == PROXY_BUFFER,
            armed.proxy().base() == self.proxy().base(),
            armed.proxy().pending().continues(self.proxy().pending()),
            armed.proxy().pending().offered() == self.proxy().pending().offered().push(
                (armed.relay().sender().channel(), armed.displaced()),
            ),
            armed.proxy().pending().looks() == self.proxy().pending().looks(),
            armed.displaced() is None,
    {
        proof {
            use_type_invariant(&self);
        }
        let mut proxy = self.proxy;
        let (sender, displaced) = proxy.arm();
        ArmedTransport {
            base: self.base,
            outer: self.outer,
            outer_addr: (self.map_base_addr_to_outer)(self.addr),
            relay: BaseRelay::new(sender),
            try_upgrade: self.try_upgrade,
            proxy,
            displaced,
        }
    }
}

impl<TBase: Transport, TOuter, U> ArmedTransport<TBase, TOuter, U> {
    /// The listener of the base transport.
    pub closed spec fn base(self) -> TBase::Listener {
        self.base
    }

    /// The outer transport.
    pub closed spec fn outer(self) -> TOuter {
        self.outer
    }

    /// The address that the outer transport is to listen on.
    pub closed spec fn outer_addr(self) -> Multiaddr {
        self.outer_addr
    }

    /// What will handle the items of the base listener.
    pub closed spec fn relay(self) -> BaseRelay<TBase::Output> {
        self.relay
    }

    /// The switch.
    pub closed spec fn try_upgrade(self) -> U {
        self.try_upgrade
    }

    /// The proxy that the receiver of the relayed events was left at.
    pub closed spec fn proxy(self) -> ProxyTransport<TBase> {
        self.proxy
    }

    /// The receiver that was in the pending slot before.
    pub closed spec fn displaced(self) -> Option<EventReceiver<RelayedEvent<TBase::Output>>> {
        self.displaced
    }

    /// The receiver of the channel that the relay sends to has been left at the proxy.
    #[verifier::type_invariant]
    spec fn receiver_is_left(self) -> bool {
        &&& self.proxy.pending().offered().len() > 0
        &&& self.proxy.pending().offered().last() == (
            self.relay.sender().channel(),
            self.displaced,
        )
    }
}

impl<TBase: Transport, TOuter: Transport, U> ArmedTransport<TBase, TOuter, U> {
    /// `answer` is a possible answer of the outer transport on being asked to listen.
    pub open spec fn outer_listens(
        self,
        answer: Result<TOuter::Listener, TransportError<TOuter::Error>>,
    ) -> bool {
        call_ensures(TOuter::listen_on, (self.outer(), self.outer_addr()), answer)
    }

    /// What follows from the answer of the outer transport.
    pub open spec fn leads_to(
        self,
        answer: Result<TOuter::Listener, TransportError<TOuter::Error>>,
        listener: Result<
            CombinedListener<TBase, TOuter, U>,
            TransportError<CombinedError<TBase::Error, TOuter::Error>>,
        >,
    ) -> bool {
        match answer {
            Err(e) => listener matches Err(reported) && reported == outer_failure::<
                TBase::Error,
                TOuter::Error,
            >(e),
            Ok(outer) => listener matches Ok(l) && {
                &&& l.base == self.base()
                &&& l.outer == outer
                &&& l.relay == self.relay()
                &&& l.try_upgrade == self.try_upgrade()
                &&& l.proxy.base() == self.proxy().base()
                &&& l.proxy.pending().continues(self.proxy().pending())
                &&& l.proxy.pending().offered() == self.proxy().pending().offered()
                &&& l.proxy.pending().looks() == self.proxy().pending().looks().push(l.claimed)
                &&& l.displaced == self.displaced()
            },
        }
    }

    /// Starts to listen with the outer transport.
    pub fn ask_outer(self) -> (step: Result<
        BothListening<TBase, TOuter, U>,
        TransportError<CombinedError<TBase::Error, TOuter::Error>>,
    >)
        ensures
            exists|answer: Result<TOuter::Listener, TransportError<TOuter::Error>>|
                #[trigger] self.outer_listens(answer) && match answer {
                    Err(e) => step matches Err(reported) && reported == outer_failure::<
                        TBase::Error,
                        TOuter::Error,
                    >(e),
                    Ok(outer) => step matches Ok(asked) && {
                        &&& asked.base() == self.base()
                        &&& asked.outer() == outer
                        &&& asked.relay() == self.relay()
                        &&& asked.try_upgrade() == self.try_upgrade()
                        &&& asked.proxy() == self.proxy()
                        &&& asked.displaced() == self.displaced()
                    },
                },
    {
        let answer = self.outer.listen_on(self.outer_addr);
        assert(self.outer_listens(answer));
        match answer {
            Ok(outer) => Ok(
                BothListening {
                    base: self.base,
                    outer,
                    relay: self.relay,
                    try_upgrade: self.try_upgrade,
                    proxy: self.proxy,
                    displaced: self.displaced,
                },
            ),
            Err(e) => Err(e.from_outer()),
        }
    }

    /// `step` comes of asking the outer transport to listen.
    pub open spec fn asks(
        self,
        step: Result<
            BothListening<TBase, TOuter, U>,
            TransportError<CombinedError<TBase::Error, TOuter::Error>>,
        >,
    ) -> bool {
        call_ensures(ArmedTransport::<TBase, TOuter, U>::ask_outer, (self,), step)
    }

    /// `listener` comes of listening with this transport.
    pub open spec fn listens(
        self,
        listener: Result<
            CombinedListener<TBase, TOuter, U>,
            TransportError<CombinedError<TBase::Error, TOuter::Error>>,
        >,
    ) -> bool {
        call_ensures(ArmedTransport::<TBase, TOuter, U>::listen, (self,), listener)
    }

    /// Starts to listen with the outer transport, and then looks whether it picked up what was left
    /// at the proxy, as it should.
    pub fn listen(self) -> (listener: Result<
        CombinedListener<TBase, TOuter, U>,
        TransportError<CombinedError<TBase::Error, TOuter::Error>>,
    >)
        ensures
            exists|answer: Result<TOuter::Listener, TransportError<TOuter::Error>>|
                #[trigger] self.outer_listens(answer) && self.leads_to(answer, listener),
            exists|
                step: Result<
                    BothListening<TBase, TOuter, U>,
                    TransportError<CombinedError<TBase::Error, TOuter::Error>>,
                >,
            |
                #[trigger] self.asks(step) && match step {
                    Ok(asked) => listener matches Ok(l) && asked.shows(l),
                    Err(e) => listener matches Err(reported) && reported == e,
                },
    {
        let step = self.ask_outer();
        assert(self.asks(step));
        match step {
            Ok(asked) => {
                let ghost before = asked;
                let listener = asked.look();
                assert(before.shows(listener));
                Ok(listener)
            },
            Err(e) => Err(e),
        }
    }
}

impl<TBase: Transport, TOuter: Transport, U> BothListening<TBase, TOuter, U> {
    /// The listener of the base transport.
    pub closed spec fn base(self) -> TBase::Listener {
        self.base
    }

    /// The listener of the outer transport.
    pub closed spec fn outer(self) -> TOuter::Listener {
        self.outer
    }

    /// What will handle the items of the base listener.
    pub closed spec fn relay(self) -> BaseRelay<TBase::Output> {
        self.relay
    }

    /// The switch.
    pub closed spec fn try_upgrade(self) -> U {
        self.try_upgrade
    }

    /// The proxy that the receiver of the relayed events was left at.
    pub closed spec fn proxy(self) -> ProxyTransport<TBase> {
        self.proxy
    }

    /// The receiver that was in the pending slot before.
    pub closed spec fn displaced(self) -> Option<EventReceiver<RelayedEvent<TBase::Output>>> {
        self.displaced
    }

    /// `listener` comes of a look at the pending slot.
    pub open spec fn shows(self, listener: CombinedListener<TBase, TOuter, U>) -> bool {
        call_ensures(BothListening::<TBase, TOuter, U>::look, (self,), listener)
    }

    /// Looks whether the outer transport picked up what was left at the proxy.
    pub fn look(self) -> (listener: CombinedListener<TBase, TOuter, U>)
        ensures
            listener.base == self.base(),
            listener.outer == self.outer(),
            listener.relay == self.relay(),
            listener.try_upgrade == self.try_upgrade(),
            listener.proxy.base() == self.proxy().base(),
            listener.proxy.pending().continues(self.proxy().pending()),
            listener.proxy.pending().offered() == self.proxy().pending().offered(),
            listener.proxy.pending().looks() == self.proxy().pending().looks().push(
                listener.claimed,
            ),
            listener.displaced == self.displaced(),
    {
        let mut proxy = self.proxy;
        let claimed = proxy.is_claimed();
        CombinedListener {
            base: self.base,
            outer: self.outer,
            relay: self.relay,
            try_upgrade: self.try_upgrade,
            proxy,
            displaced: self.displaced,
            claimed,
        }
    }
}

} // verus!
