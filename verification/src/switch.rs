use vstd::prelude::*;

verus! {

/// The first bytes of an HTTP request that opens a WebSocket connection: `GET`.
pub open spec fn http_get() -> Seq<u8> {
    seq![0x47u8, 0x45u8, 0x54u8]
}

/// A switch between raw TCP and WebSocket: given the first bytes of a connection, if they could be
/// peeked at, tells whether it is probably HTTP.
pub fn is_probably_http(peeked: Option<[u8; 3]>) -> (http: bool)
    ensures
        http <==> (peeked matches Some(bytes) && bytes@ == http_get()),
{
    match peeked {
        Some(bytes) => {
            let http = bytes[0] == 0x47 && bytes[1] == 0x45 && bytes[2] == 0x54;
            assert(http ==> bytes@ =~= http_get());
            http
        },
        None => false,
    }
}

} // verus!
