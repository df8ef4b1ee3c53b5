use crate::error::TransportError;
use libp2p::Multiaddr;
use vstd::prelude::*;

verus! {

/// A way to establish connections, by listening or by dialing.
///
/// Nothing is promised of what a transport answers. A listener yields events, an upgrade or a dial
/// yields a connection or an error; how they do so is left to the implementation.
pub trait Transport: Sized {
    /// An established connection.
    type Output;

    /// An error that occurred while a connection was set up.
    type Error;

    /// A source of listener events.
    type Listener;

    /// An incoming connection that is being set up.
    type ListenerUpgrade;

    /// An outgoing connection that is being set up.
    type Dial;

    /// Starts to listen on an address.
    fn listen_on(self, addr: Multiaddr) -> Result<Self::Listener, TransportError<Self::Error>>;

    /// Starts to dial an address.
    fn dial(self, addr: Multiaddr) -> Result<Self::Dial, TransportError<Self::Error>>;

    /// Maps an address observed by a remote onto a local listen address.
    fn address_translation(&self, listen: &Multiaddr, observed: &Multiaddr) -> Option<Multiaddr>;
}

} // verus!
