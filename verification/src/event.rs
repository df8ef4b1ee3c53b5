use libp2p::Multiaddr;
use vstd::prelude::*;

verus! {

/// What a listener reports.
#[derive(Debug)]
pub enum ListenerEvent<TUpgr, TErr> {
    /// The listener listens on an additional address.
    NewAddress(Multiaddr),
    /// A connection came in.
    Upgrade {
        /// The connection, as far as it is set up.
        upgrade: TUpgr,
        /// The local address that the connection came in on.
        local_addr: Multiaddr,
        /// The address that the connection came from.
        remote_addr: Multiaddr,
    },
    /// The listener no longer listens on an address.
    AddressExpired(Multiaddr),
    /// Something went wrong; the listener goes on.
    Error(TErr),
}

/// What the combined transport passes on from the base transport to the outer one.
#[derive(Debug)]
pub enum RelayedEvent<TConn> {
    /// The base transport listens on an additional address.
    NewAddress(Multiaddr),
    /// The base transport no longer listens on an address.
    AddressExpired(Multiaddr),
    /// A connection came in that is for the outer transport.
    Upgrade {
        /// The connection, established in the base transport.
        connection: TConn,
        /// The local address that the connection came in on.
        local_addr: Multiaddr,
        /// The address that the connection came from.
        remote_addr: Multiaddr,
    },
}

/// A value of the base transport or of the outer one.
#[derive(Debug)]
pub enum EitherOutput<A, B> {
    /// A value of the base transport.
    First(A),
    /// A value of the outer transport.
    Second(B),
}

impl<TUpgr, TErr> ListenerEvent<TUpgr, TErr> {
    /// Applies `f` to the connection of an upgrade. Other events stay as they are.
    pub fn map<U>(self, f: impl FnOnce(TUpgr) -> U) -> (mapped: ListenerEvent<U, TErr>)
        requires
            self matches ListenerEvent::Upgrade { upgrade, .. } ==> call_requires(f, (upgrade,)),
        ensures
            match self {
                ListenerEvent::NewAddress(a) => mapped == ListenerEvent::<U, TErr>::NewAddress(a),
                ListenerEvent::Upgrade { upgrade, local_addr, remote_addr } => {
                    &&& mapped matches ListenerEvent::Upgrade {
                        upgrade: u,
                        local_addr: l,
                        remote_addr: r,
                    }
                    &&& call_ensures(f, (upgrade,), u)
                    &&& l == local_addr
                    &&& r == remote_addr
                },
                ListenerEvent::AddressExpired(a) => mapped
                    == ListenerEvent::<U, TErr>::AddressExpired(a),
                ListenerEvent::Error(e) => mapped == ListenerEvent::<U, TErr>::Error(e),
            },
    {
        match self {
            ListenerEvent::NewAddress(a) => ListenerEvent::NewAddress(a),
            ListenerEvent::Upgrade { upgrade, local_addr, remote_addr } => ListenerEvent::Upgrade {
                upgrade: f(upgrade),
                local_addr,
                remote_addr,
            },
            ListenerEvent::AddressExpired(a) => ListenerEvent::AddressExpired(a),
            ListenerEvent::Error(e) => ListenerEvent::Error(e),
        }
    }

    /// Applies `f` to a reported error. Other events stay as they are.
    pub fn map_err<E>(self, f: impl FnOnce(TErr) -> E) -> (mapped: ListenerEvent<TUpgr, E>)
        requires
            self matches ListenerEvent::Error(e) ==> call_requires(f, (e,)),
        ensures
            match self {
                ListenerEvent::NewAddress(a) => mapped == ListenerEvent::<TUpgr, E>::NewAddress(a),
                ListenerEvent::Upgrade { upgrade, local_addr, remote_addr } => mapped
                    == (ListenerEvent::<TUpgr, E>::Upgrade { upgrade, local_addr, remote_addr }),
                ListenerEvent::AddressExpired(a) => mapped
                    == ListenerEvent::<TUpgr, E>::AddressExpired(a),
                ListenerEvent::Error(e) => mapped matches ListenerEvent::Error(n) && call_ensures(
                    f,
                    (e,),
                    n,
                ),
            },
    {
        match self {
            ListenerEvent::NewAddress(a) => ListenerEvent::NewAddress(a),
            ListenerEvent::Upgrade { upgrade, local_addr, remote_addr } => ListenerEvent::Upgrade {
                upgrade,
                local_addr,
                remote_addr,
            },
            ListenerEvent::AddressExpired(a) => ListenerEvent::AddressExpired(a),
            ListenerEvent::Error(e) => ListenerEvent::Error(f(e)),
        }
    }
}

} // verus!
