use combined_transport::channel::{Polled, SendFailure};
use combined_transport::combined::CombinedListener;
use combined_transport::error::TransportError;
use combined_transport::event::{EitherOutput, ListenerEvent, RelayedEvent};
use combined_transport::listener::{
    copy_event, on_base_connection, on_outer_connection, on_outer_item, BaseRelay, PendingUpgrade, UpgradeStep,
};
use combined_transport::proxy::{on_answer, on_relayed_event, PROXY_BUFFER};
use combined_transport::slot::PickedUp;
use combined_transport::transport::Transport;
use combined_transport::{CombinedError, CombinedTransport, ProxyTransport};
use futures::task::noop_waker;
use libp2p::Multiaddr;
use std::cell::RefCell;
use std::rc::Rc;
use std::task::Context;

fn addr(text: &str) -> Multiaddr {
    text.parse().unwrap()
}

type Calls = Rc<RefCell<Vec<String>>>;

/// A base transport: connections are strings, errors are numbers.
struct Base {
    listens: Result<u8, u8>,
    copies: u32,
    calls: Calls,
}

impl Clone for Base {
    fn clone(&self) -> Self {
        self.calls.borrow_mut().push("clone base".to_string());
        Base { listens: self.listens, copies: self.copies + 1, calls: self.calls.clone() }
    }
}

impl Transport for Base {
    type Output = String;
    type Error = u8;
    type Listener = u8;
    type ListenerUpgrade = &'static str;
    type Dial = u32;

    fn listen_on(self, addr: Multiaddr) -> Result<u8, TransportError<u8>> {
        self.calls.borrow_mut().push(format!("base {}", addr));
        self.listens.map_err(TransportError::Other)
    }

    fn dial(self, addr: Multiaddr) -> Result<u32, TransportError<u8>> {
        self.calls.borrow_mut().push(format!("dial {}", addr));
        Ok(self.copies)
    }

    fn address_translation(&self, listen: &Multiaddr, observed: &Multiaddr) -> Option<Multiaddr> {
        self.calls.borrow_mut().push(format!("translate {} {}", listen, observed));
        Some(observed.clone())
    }
}

/// An outer transport, which listens through its proxy unless it is told to fail or to be lazy.
struct Outer {
    proxy: ProxyTransport<Base>,
    plan: Plan,
    calls: Calls,
}

#[derive(Clone, Copy)]
enum Plan {
    Listen,
    Lazy,
    Fail,
}

type Events = PickedUp<RelayedEvent<String>>;

impl Transport for Outer {
    type Output = u64;
    type Error = u16;
    type Listener = Option<Events>;
    type ListenerUpgrade = u64;
    type Dial = u32;

    fn listen_on(self, addr: Multiaddr) -> Result<Option<Events>, TransportError<u16>> {
        self.calls.borrow_mut().push(format!("outer {}", addr));
        match self.plan {
            Plan::Listen => Ok(Some(self.proxy.listen_on(addr).ok().expect("a base listener"))),
            Plan::Lazy => Ok(None),
            Plan::Fail => Err(TransportError::Other(11)),
        }
    }

    fn dial(self, addr: Multiaddr) -> Result<u32, TransportError<u16>> {
        self.proxy.dial(addr).map_err(|_| TransportError::Other(1))
    }

    fn address_translation(&self, listen: &Multiaddr, observed: &Multiaddr) -> Option<Multiaddr> {
        self.proxy.address_translation(listen, observed)
    }
}

type Report = ListenerEvent<EitherOutput<PendingUpgrade<&'static str, String>, u64>, CombinedError<u8, u16>>;
type Item = Result<ListenerEvent<Result<String, u8>, u8>, u8>;

fn listen(
    listens: Result<u8, u8>,
    plan: Plan,
) -> (Calls, Result<CombinedListener<Base, Outer, char>, TransportError<CombinedError<u8, u16>>>) {
    let calls: Calls = Rc::default();
    let base = Base { listens, copies: 0, calls: calls.clone() };
    let for_outer = calls.clone();
    let construct = move |proxy: ProxyTransport<Base>| Outer { proxy, plan, calls: for_outer.clone() };
    let combined = CombinedTransport::new(base, construct, 'u', |a: Multiaddr| {
        addr(&format!("{}/ws", a))
    });
    calls.borrow_mut().clear();
    let listener = combined.listen_on(addr("/ip4/127.0.0.1/tcp/0"));
    (calls, listener)
}

fn listening() -> (BaseRelay<String>, Events) {
    match listen(Ok(1), Plan::Listen).1 {
        Ok(listener) => (listener.relay, listener.outer.expect("a proxied listener")),
        Err(e) => panic!("{:?}", e),
    }
}

fn poll(events: &mut Events) -> Polled<Item> {
    let waker = noop_waker();
    events.poll_item(&mut Context::from_waker(&waker))
}

fn report(relay: &mut BaseRelay<String>, event: ListenerEvent<&'static str, u8>) -> Result<Report, SendFailure> {
    relay.on_event(event)
}

fn incoming(relay: &mut BaseRelay<String>) -> PendingUpgrade<&'static str, String> {
    let event = ListenerEvent::Upgrade {
        upgrade: "incoming",
        local_addr: addr("/ip4/127.0.0.1/tcp/1"),
        remote_addr: addr("/ip4/8.8.8.8/tcp/2"),
    };
    match report(relay, event) {
        Ok(ListenerEvent::Upgrade { upgrade: EitherOutput::First(pending), local_addr, remote_addr }) => {
            assert_eq!(local_addr, addr("/ip4/127.0.0.1/tcp/1"));
            assert_eq!(remote_addr, addr("/ip4/8.8.8.8/tcp/2"));
            pending
        }
        _ => panic!("the connection was not reported"),
    }
}

type End = Result<EitherOutput<String, u64>, CombinedError<u8, u16>>;

fn settle(pending: PendingUpgrade<&'static str, String>, verdict: Result<String, String>) -> Result<End, SendFailure> {
    match pending.handover.accepted::<u64, u8, u16>(Ok("established".to_string())) {
        UpgradeStep::AskSwitch { connection, handover } => {
            assert_eq!(connection, "established");
            handover.switched(verdict).0
        }
        UpgradeStep::Done(_) => panic!("the switch was not asked"),
    }
}

#[test]
fn listening_starts_with_the_base_transport() {
    let (calls, listener) = listen(Ok(42), Plan::Listen);
    let listener = listener.unwrap_or_else(|e| panic!("{:?}", e));
    assert_eq!(
        *calls.borrow(),
        vec!["base /ip4/127.0.0.1/tcp/0", "outer /ip4/127.0.0.1/tcp/0/ws"]
    );
    assert_eq!(listener.base, 42);
    assert!(listener.outer.is_some());
    assert_eq!(listener.try_upgrade, 'u');
    assert!(listener.displaced.is_none());
    assert!(listener.claimed);
}

#[test]
fn the_outer_transport_is_asked_once_there_is_something_to_pick_up() {
    let calls: Calls = Rc::default();
    let base = Base { listens: Ok(3), copies: 0, calls: calls.clone() };
    let for_outer = calls.clone();
    let construct = move |proxy: ProxyTransport<Base>| Outer { proxy, plan: Plan::Listen, calls: for_outer.clone() };
    let combined = CombinedTransport::new(base, construct, 'u', |a: Multiaddr| addr(&format!("{}/ws", a)));
    calls.borrow_mut().clear();
    let armed = combined.arm(addr("/ip4/127.0.0.1/tcp/0"));
    assert_eq!(*calls.borrow(), vec!["base /ip4/127.0.0.1/tcp/0"]);
    let listener = armed.unwrap_or_else(|e| panic!("{:?}", e)).listen();
    assert_eq!(calls.borrow().len(), 2);
    assert_eq!(calls.borrow()[1], "outer /ip4/127.0.0.1/tcp/0/ws");
    assert!(listener.map_or(false, |l| l.base == 3 && l.claimed && l.outer.is_some()));
}

#[test]
fn listening_goes_step_by_step() {
    let calls: Calls = Rc::default();
    let base = Base { listens: Ok(3), copies: 0, calls: calls.clone() };
    let for_outer = calls.clone();
    let construct = move |proxy: ProxyTransport<Base>| Outer { proxy, plan: Plan::Listen, calls: for_outer.clone() };
    let mapped = calls.clone();
    let combined = CombinedTransport::new(base, construct, 'u', |a: Multiaddr| {
        mapped.borrow_mut().push("map".to_string());
        addr(&format!("{}/ws", a))
    });
    calls.borrow_mut().clear();
    let started = combined.listen_base(addr("/ip4/127.0.0.1/tcp/0")).unwrap_or_else(|e| panic!("{:?}", e));
    assert_eq!(*calls.borrow(), vec!["base /ip4/127.0.0.1/tcp/0"]);
    let armed = started.arm();
    assert_eq!(*calls.borrow(), vec!["base /ip4/127.0.0.1/tcp/0", "map"]);
    let both = armed.ask_outer().unwrap_or_else(|e| panic!("{:?}", e));
    assert_eq!(
        *calls.borrow(),
        vec!["base /ip4/127.0.0.1/tcp/0", "map", "outer /ip4/127.0.0.1/tcp/0/ws"]
    );
    let listener = both.look();
    assert!(listener.claimed && listener.displaced.is_none());
    assert_eq!(listener.base, 3);
    assert!(listener.outer.is_some());
}

#[test]
fn a_failed_step_is_the_last_one() {
    let calls: Calls = Rc::default();
    let base = Base { listens: Err(4), copies: 0, calls: calls.clone() };
    let construct = |proxy: ProxyTransport<Base>| Outer { proxy, plan: Plan::Listen, calls: Rc::default() };
    let combined = CombinedTransport::new(base, construct, 'u', |a: Multiaddr| a);
    assert!(matches!(
        combined.listen_base(addr("/ip4/127.0.0.1/tcp/0")),
        Err(TransportError::Other(CombinedError::Base(4)))
    ));
    let base = Base { listens: Ok(4), copies: 0, calls };
    let construct = |proxy: ProxyTransport<Base>| Outer { proxy, plan: Plan::Fail, calls: Rc::default() };
    let combined = CombinedTransport::new(base, construct, 'u', |a: Multiaddr| a);
    let armed = combined.arm(addr("/ip4/127.0.0.1/tcp/0")).unwrap_or_else(|e| panic!("{:?}", e));
    assert!(matches!(armed.ask_outer(), Err(TransportError::Other(CombinedError::Outer(11)))));
}

#[test]
fn an_unclaimed_receiver_is_noticed() {
    let (_, listener) = listen(Ok(42), Plan::Lazy);
    let listener = listener.unwrap_or_else(|e| panic!("{:?}", e));
    assert!(listener.outer.is_none());
    assert!(listener.displaced.is_none());
    assert!(!listener.claimed);
}

#[test]
fn a_base_transport_that_cannot_listen_ends_it() {
    let (calls, listener) = listen(Err(9), Plan::Listen);
    assert_eq!(*calls.borrow(), vec!["base /ip4/127.0.0.1/tcp/0"]);
    assert!(matches!(listener, Err(TransportError::Other(CombinedError::Base(9)))));
}

#[test]
fn an_outer_transport_that_cannot_listen_ends_it() {
    let (calls, listener) = listen(Ok(1), Plan::Fail);
    assert_eq!(calls.borrow().len(), 2);
    assert!(matches!(listener, Err(TransportError::Other(CombinedError::Outer(11)))));
}

#[test]
fn addresses_are_reported_and_routed_to_the_outer_transport() {
    let (mut relay, mut events) = listening();
    assert!(matches!(poll(&mut events), Polled::Pending));
    let a = addr("/ip4/10.0.0.1/tcp/4001");
    let b = addr("/ip4/10.0.0.2/tcp/4001");
    match report(&mut relay, ListenerEvent::NewAddress(a.clone())) {
        Ok(ListenerEvent::NewAddress(seen)) => assert_eq!(seen, a),
        _ => panic!("the new address was not reported"),
    }
    assert!(report(&mut relay, ListenerEvent::NewAddress(b.clone())).is_ok());
    match report(&mut relay, ListenerEvent::AddressExpired(a.clone())) {
        Ok(ListenerEvent::AddressExpired(seen)) => assert_eq!(seen, a),
        _ => panic!("the expired address was not reported"),
    }
    match poll(&mut events) {
        Polled::Item(Ok(ListenerEvent::NewAddress(seen))) => assert_eq!(seen, a),
        other => panic!("{:?}", other),
    }
    match poll(&mut events) {
        Polled::Item(Ok(ListenerEvent::NewAddress(seen))) => assert_eq!(seen, b),
        other => panic!("{:?}", other),
    }
    match poll(&mut events) {
        Polled::Item(Ok(ListenerEvent::AddressExpired(seen))) => assert_eq!(seen, a),
        other => panic!("{:?}", other),
    }
    assert!(matches!(poll(&mut events), Polled::Pending));
}

#[test]
fn errors_are_reported_once() {
    let (mut relay, mut events) = listening();
    let seen = report(&mut relay, ListenerEvent::Error(5));
    assert!(matches!(seen, Ok(ListenerEvent::Error(CombinedError::Base(5)))));
    assert!(matches!(poll(&mut events), Polled::Pending));
    let event: ListenerEvent<u8, u8> = ListenerEvent::Error(5);
    assert!(copy_event::<u8, u8, u8>(&event).is_none());
}

#[test]
fn a_fatal_error_of_the_base_listener_is_reported() {
    let (mut relay, mut events) = listening();
    let item: Result<ListenerEvent<&'static str, u8>, u8> = Err(6);
    let seen: Result<Result<Report, CombinedError<u8, u16>>, SendFailure> = relay.on_item(item);
    assert!(matches!(seen, Ok(Err(CombinedError::Base(6)))));
    let seen: Result<Result<Report, CombinedError<u8, u16>>, SendFailure> =
        relay.on_item(Ok(ListenerEvent::NewAddress(addr("/ip4/10.0.0.1/tcp/1"))));
    assert!(matches!(seen, Ok(Ok(ListenerEvent::NewAddress(_)))));
    assert!(matches!(poll(&mut events), Polled::Item(Ok(ListenerEvent::NewAddress(_)))));
    assert!(matches!(poll(&mut events), Polled::Pending));
}

#[test]
fn a_connection_that_the_switch_keeps_stays_with_the_base_transport() {
    let (mut relay, mut events) = listening();
    let pending = incoming(&mut relay);
    assert_eq!(pending.upgrade, "incoming");
    let end = settle(pending, Err("kept".to_string()));
    match end {
        Ok(Ok(EitherOutput::First(connection))) => assert_eq!(connection, "kept"),
        other => panic!("{:?}", other),
    }
    assert!(matches!(poll(&mut events), Polled::Pending));
}

#[test]
fn a_connection_that_the_switch_passes_on_reaches_the_outer_transport() {
    let (mut relay, mut events) = listening();
    let pending = incoming(&mut relay);
    assert!(matches!(poll(&mut events), Polled::Pending));
    let end = settle(pending, Ok("passed on".to_string()));
    assert!(matches!(end, Ok(Err(CombinedError::UpgradedToOuterTransport))));
    match poll(&mut events) {
        Polled::Item(Ok(ListenerEvent::Upgrade { upgrade, local_addr, remote_addr })) => {
            assert_eq!(upgrade, Ok("passed on".to_string()));
            assert_eq!(local_addr, addr("/ip4/127.0.0.1/tcp/1"));
            assert_eq!(remote_addr, addr("/ip4/8.8.8.8/tcp/2"));
        }
        other => panic!("{:?}", other),
    }
    assert!(matches!(poll(&mut events), Polled::Pending));
}

#[test]
fn events_arrive_in_the_order_of_sending() {
    let (mut relay, mut events) = listening();
    let a = addr("/ip4/10.0.0.1/tcp/1");
    let first = incoming(&mut relay);
    let second = incoming(&mut relay);
    assert!(report(&mut relay, ListenerEvent::NewAddress(a.clone())).is_ok());
    assert!(settle(second, Ok("second".to_string())).is_ok());
    assert!(report(&mut relay, ListenerEvent::AddressExpired(a)).is_ok());
    assert!(settle(first, Ok("first".to_string())).is_ok());
    assert!(matches!(poll(&mut events), Polled::Item(Ok(ListenerEvent::NewAddress(_)))));
    match poll(&mut events) {
        Polled::Item(Ok(ListenerEvent::Upgrade { upgrade, .. })) => assert_eq!(upgrade, Ok("second".to_string())),
        other => panic!("{:?}", other),
    }
    assert!(matches!(poll(&mut events), Polled::Item(Ok(ListenerEvent::AddressExpired(_)))));
    match poll(&mut events) {
        Polled::Item(Ok(ListenerEvent::Upgrade { upgrade, .. })) => assert_eq!(upgrade, Ok("first".to_string())),
        other => panic!("{:?}", other),
    }
    assert!(matches!(poll(&mut events), Polled::Pending));
}

#[test]
fn a_connection_that_fails_does_not_reach_the_switch() {
    let (mut relay, mut events) = listening();
    let pending = incoming(&mut relay);
    match pending.handover.accepted::<u64, u8, u16>(Err(8)) {
        UpgradeStep::Done(Err(CombinedError::Base(8))) => {}
        _ => panic!("the failure was not reported"),
    }
    assert!(matches!(poll(&mut events), Polled::Pending));
}

#[test]
fn the_channel_to_the_outer_transport_is_bounded() {
    let (mut relay, mut events) = listening();
    let a = addr("/ip4/10.0.0.1/tcp/1");
    for _ in 0..=PROXY_BUFFER {
        assert!(report(&mut relay, ListenerEvent::NewAddress(a.clone())).is_ok());
    }
    assert_eq!(PROXY_BUFFER, 256);
    let refused = report(&mut relay, ListenerEvent::NewAddress(a.clone()));
    assert!(matches!(refused, Err(SendFailure::Full)));
    // What is not copied is still reported, and a connection has a place of its own.
    assert!(report(&mut relay, ListenerEvent::Error(1)).is_ok());
    let pending = incoming(&mut relay);
    assert!(matches!(
        settle(pending, Ok("c".to_string())),
        Ok(Err(CombinedError::UpgradedToOuterTransport))
    ));
    // Reading makes room again.
    assert!(matches!(poll(&mut events), Polled::Item(Ok(ListenerEvent::NewAddress(_)))));
    assert!(report(&mut relay, ListenerEvent::NewAddress(a)).is_ok());
}

#[test]
fn a_lost_outer_transport_is_noticed() {
    let (mut relay, events) = listening();
    let pending = incoming(&mut relay);
    drop(events);
    let refused = report(&mut relay, ListenerEvent::NewAddress(addr("/ip4/10.0.0.1/tcp/1")));
    assert!(matches!(refused, Err(SendFailure::Disconnected)));
    assert!(matches!(settle(pending, Ok("c".to_string())), Err(SendFailure::Disconnected)));
    let pending = incoming(&mut relay);
    assert!(matches!(settle(pending, Err("c".to_string())), Ok(Ok(EitherOutput::First(_)))));
}

#[test]
fn the_proxied_listener_ends_with_the_last_sender() {
    let (mut relay, mut events) = listening();
    let pending = incoming(&mut relay);
    drop(relay);
    assert!(matches!(poll(&mut events), Polled::Pending));
    drop(pending);
    assert!(matches!(poll(&mut events), Polled::End));
    assert!(matches!(poll(&mut events), Polled::End));
}

#[test]
fn a_clone_has_a_slot_of_its_own() {
    let calls: Calls = Rc::default();
    let base = Base { listens: Ok(1), copies: 0, calls: calls.clone() };
    let construct = |proxy: ProxyTransport<Base>| Some(Outer { proxy, plan: Plan::Listen, calls: Rc::default() });
    let kept: RefCell<Vec<ProxyTransport<Base>>> = RefCell::new(Vec::new());
    let spy = |proxy: ProxyTransport<Base>| {
        kept.borrow_mut().push(proxy.clone());
        construct(proxy).expect("an outer transport")
    };
    let combined = CombinedTransport::new(base, &spy, 'u', |a: Multiaddr| a);
    let copy = combined.clone();
    let first = combined.listen_on(addr("/ip4/127.0.0.1/tcp/0"));
    assert!(first.map_or(false, |l| l.claimed));
    let second = copy.listen_on(addr("/ip4/127.0.0.1/tcp/0"));
    assert!(second.map_or(false, |l| l.claimed && l.displaced.is_none()));
    // A clone of the proxy does not wait at the same place.
    for proxy in kept.into_inner() {
        assert!(proxy.listen_on(addr("/ip4/127.0.0.1/tcp/0")).is_err());
    }
}

#[test]
fn a_proxy_dials_and_translates_through_the_base_transport() {
    let calls: Calls = Rc::default();
    let base = Base { listens: Ok(1), copies: 0, calls: calls.clone() };
    let construct = |proxy: ProxyTransport<Base>| Outer { proxy, plan: Plan::Listen, calls: Rc::default() };
    let combined = CombinedTransport::new(base, construct, 'u', |a: Multiaddr| a);
    assert_eq!(*calls.borrow(), vec!["clone base", "clone base"]);
    calls.borrow_mut().clear();
    let found = combined.address_translation(&addr("/ip4/1.1.1.1/tcp/1"), &addr("/ip4/2.2.2.2/tcp/2"));
    assert_eq!(found, Some(addr("/ip4/2.2.2.2/tcp/2")));
    assert!(matches!(combined.dial(addr("/ip4/3.3.3.3/tcp/3")), Ok(EitherOutput::Second(2))));
    assert_eq!(
        *calls.borrow(),
        vec!["translate /ip4/1.1.1.1/tcp/1 /ip4/2.2.2.2/tcp/2", "dial /ip4/3.3.3.3/tcp/3"]
    );
}

#[test]
fn a_proxy_that_nothing_was_left_for_does_not_listen() {
    let calls: Calls = Rc::default();
    let base = Base { listens: Ok(1), copies: 0, calls: calls.clone() };
    let proxies: RefCell<Vec<ProxyTransport<Base>>> = RefCell::new(Vec::new());
    let construct = |proxy: ProxyTransport<Base>| proxies.borrow_mut().push(proxy);
    let _combined = CombinedTransport::new(base, construct, 'u', |a: Multiaddr| a);
    let proxy = proxies.borrow_mut().pop().expect("a proxy");
    assert!(proxy.listen_on(addr("/ip4/127.0.0.1/tcp/0")).is_err());
}

#[test]
fn events_of_the_outer_transport_are_tagged() {
    type Tagged = Result<ListenerEvent<EitherOutput<u8, u64>, CombinedError<u8, u16>>, CombinedError<u8, u16>>;
    let a = addr("/ip4/10.0.0.1/tcp/1/ws");
    let tagged: Tagged = on_outer_item(Ok(ListenerEvent::NewAddress(a.clone())));
    assert!(matches!(tagged, Ok(ListenerEvent::NewAddress(seen)) if seen == a));
    let tagged: Tagged = on_outer_item(Ok(ListenerEvent::AddressExpired(a.clone())));
    assert!(matches!(tagged, Ok(ListenerEvent::AddressExpired(seen)) if seen == a));
    let tagged: Tagged = on_outer_item(Ok(ListenerEvent::Error(3)));
    assert!(matches!(tagged, Ok(ListenerEvent::Error(CombinedError::Outer(3)))));
    let tagged: Tagged = on_outer_item(Err(4));
    assert!(matches!(tagged, Err(CombinedError::Outer(4))));
    let upgrade = ListenerEvent::Upgrade { upgrade: 77, local_addr: a.clone(), remote_addr: addr("/ip4/1.1.1.1/tcp/2") };
    match on_outer_item::<u8, u64, u8, u16>(Ok(upgrade)) {
        Ok(ListenerEvent::Upgrade { upgrade: EitherOutput::Second(77), local_addr, remote_addr }) => {
            assert_eq!(local_addr, a);
            assert_eq!(remote_addr, addr("/ip4/1.1.1.1/tcp/2"));
        }
        other => panic!("{:?}", other),
    }
}

#[test]
fn both_sides_are_reported_in_the_order_they_are_heard() {
    type Yielded = EitherOutput<Result<ListenerEvent<&'static str, u8>, u8>, Result<ListenerEvent<u64, u16>, u16>>;
    let (mut relay, mut events) = listening();
    let a = addr("/ip4/10.0.0.1/tcp/1");
    let b = addr("/ip4/10.0.0.2/tcp/2/ws");
    let heard: Vec<Yielded> = vec![
        EitherOutput::Second(Ok(ListenerEvent::NewAddress(b.clone()))),
        EitherOutput::First(Ok(ListenerEvent::NewAddress(a.clone()))),
        EitherOutput::First(Err(1)),
        EitherOutput::Second(Err(2)),
        EitherOutput::Second(Ok(ListenerEvent::Error(3))),
        EitherOutput::First(Ok(ListenerEvent::Error(4))),
    ];
    let mut reports: Vec<Result<Report, CombinedError<u8, u16>>> = Vec::new();
    for item in heard {
        match relay.on_yield(item) {
            Ok(report) => reports.push(report),
            Err(why) => panic!("{:?}", why),
        }
    }
    assert_eq!(reports.len(), 6);
    assert!(matches!(&reports[0], Ok(ListenerEvent::NewAddress(seen)) if *seen == b));
    assert!(matches!(&reports[1], Ok(ListenerEvent::NewAddress(seen)) if *seen == a));
    assert!(matches!(&reports[2], Err(CombinedError::Base(1))));
    assert!(matches!(&reports[3], Err(CombinedError::Outer(2))));
    assert!(matches!(&reports[4], Ok(ListenerEvent::Error(CombinedError::Outer(3)))));
    assert!(matches!(&reports[5], Ok(ListenerEvent::Error(CombinedError::Base(4)))));
    // Only the address of the base side was passed on.
    match poll(&mut events) {
        Polled::Item(Ok(ListenerEvent::NewAddress(seen))) => assert_eq!(seen, a),
        other => panic!("{:?}", other),
    }
    assert!(matches!(poll(&mut events), Polled::Pending));
}

#[test]
fn a_proxy_listens_on_any_address() {
    for heard_at in ["/ip4/127.0.0.1/tcp/0", "/memory/7"] {
        let proxies: Rc<RefCell<Vec<ProxyTransport<Base>>>> = Rc::default();
        let base = Base { listens: Ok(1), copies: 0, calls: Rc::default() };
        let kept = proxies.clone();
        let construct = move |proxy: ProxyTransport<Base>| {
            kept.borrow_mut().push(proxy);
            Base { listens: Ok(2), copies: 0, calls: Rc::default() }
        };
        let combined = CombinedTransport::new(base, construct, 'u', |a: Multiaddr| a);
        let armed = combined.arm(addr("/ip4/127.0.0.1/tcp/0")).unwrap_or_else(|e| panic!("{:?}", e));
        let proxy = proxies.borrow_mut().pop().expect("a proxy");
        let mut events = proxy.listen_on(addr(heard_at)).ok().expect("a receiver");
        assert!(matches!(poll(&mut events), Polled::Pending));
        assert!(armed.listen().map_or(false, |l| l.claimed));
    }
}

#[test]
fn connections_are_tagged() {
    let end: Result<EitherOutput<u8, u16>, CombinedError<u32, u64>> = on_base_connection(Ok(1));
    assert!(matches!(end, Ok(EitherOutput::First(1))));
    let end: Result<EitherOutput<u8, u16>, CombinedError<u32, u64>> = on_base_connection(Err(2));
    assert!(matches!(end, Err(CombinedError::Base(2))));
    let end: Result<EitherOutput<u8, u16>, CombinedError<u32, u64>> = on_outer_connection(Ok(3));
    assert!(matches!(end, Ok(EitherOutput::Second(3))));
    let end: Result<EitherOutput<u8, u16>, CombinedError<u32, u64>> = on_outer_connection(Err(4));
    assert!(matches!(end, Err(CombinedError::Outer(4))));
}

#[test]
fn a_proxied_connection_is_established() {
    let event = RelayedEvent::Upgrade {
        connection: 5u8,
        local_addr: addr("/ip4/10.0.0.1/tcp/1"),
        remote_addr: addr("/ip4/10.0.0.2/tcp/2"),
    };
    match on_relayed_event::<u8, u8>(event) {
        Ok(ListenerEvent::Upgrade { upgrade: Ok(5), local_addr, remote_addr }) => {
            assert_eq!(local_addr, addr("/ip4/10.0.0.1/tcp/1"));
            assert_eq!(remote_addr, addr("/ip4/10.0.0.2/tcp/2"));
        }
        other => panic!("{:?}", other),
    }
    let expired: RelayedEvent<u8> = RelayedEvent::AddressExpired(addr("/ip4/10.0.0.1/tcp/1"));
    assert!(matches!(on_relayed_event::<u8, u8>(expired), Ok(ListenerEvent::AddressExpired(_))));
    let new: RelayedEvent<u8> = RelayedEvent::NewAddress(addr("/ip4/10.0.0.1/tcp/1"));
    assert!(matches!(on_answer::<u8, u8>(Polled::Item(new)), Polled::Item(Ok(ListenerEvent::NewAddress(_)))));
    assert!(matches!(on_answer::<u8, u8>(Polled::End), Polled::End));
    assert!(matches!(on_answer::<u8, u8>(Polled::Pending), Polled::Pending));
}
