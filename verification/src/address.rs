use libp2p::Multiaddr;
use vstd::prelude::*;

verus! {

/// `libp2p::Multiaddr`. Addresses are carried around and copied, never looked into.
#[verifier::external_type_specification]
#[verifier::external_body]
pub struct ExMultiaddr(Multiaddr);

/// `Multiaddr::clone` copies the reference-counted bytes of an address, so the copy is the same
/// address.
pub assume_specification [<Multiaddr as Clone>::clone] (addr: &Multiaddr) -> (copy: Multiaddr)
    ensures
        copy == *addr,
;

} // verus!
