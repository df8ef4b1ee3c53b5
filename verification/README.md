# combined_transport

A transport that combines two others: a base transport (like TCP) and a higher-level transport on
top of it (like WebSocket). Dialing tries the outer transport first, and if that fails, the base
transport. Incoming connections can be accepted on either: a switch is asked about each incoming
connection of the base transport. For TCP, it can peek at the first bytes.

What the base transport reports is copied and routed to the outer transport via a proxy of the base
transport, with the exception of errors, which are reported once, and of connections, which have to
pass the switch.

* `src/` is the library, verified with Verus. It decides; it does not wait.
  * `combined.rs`: how the two transports are put together, listen, dial and translate addresses
  * `listener.rs`: what becomes of the events and connections of either transport
  * `proxy.rs`: the base transport as the outer one sees it
  * `channel.rs`, `slot.rs`, `address.rs`: the outside items that the library rests on
  * `laws.rs`: what holds of all of it together
* `app/` makes it a libp2p `Transport`, and holds a TCP-WebSocket example.
* `tests/` runs the library with transports made for the purpose.
