use combined_transport::combined::{on_base_dialled, on_outer_dialled, DialStep};
use combined_transport::error::TransportError;
use combined_transport::event::EitherOutput;
use combined_transport::transport::Transport;
use combined_transport::{CombinedError, CombinedTransport, ProxyTransport};
use libp2p::Multiaddr;
use std::cell::RefCell;
use std::rc::Rc;

fn addr(text: &str) -> Multiaddr {
    text.parse().unwrap()
}

#[derive(Clone, Copy)]
enum Answer {
    Connect(u32),
    Reject,
    Fail(u32),
}

#[derive(Clone)]
struct Leg {
    name: &'static str,
    answer: Answer,
    translation: Option<&'static str>,
    calls: Rc<RefCell<Vec<String>>>,
}

impl Transport for Leg {
    type Output = u32;
    type Error = u32;
    type Listener = ();
    type ListenerUpgrade = u32;
    type Dial = u32;

    fn listen_on(self, addr: Multiaddr) -> Result<(), TransportError<u32>> {
        Err(TransportError::MultiaddrNotSupported(addr))
    }

    fn dial(self, addr: Multiaddr) -> Result<u32, TransportError<u32>> {
        self.calls.borrow_mut().push(format!("{} {}", self.name, addr));
        match self.answer {
            Answer::Connect(n) => Ok(n),
            Answer::Reject => Err(TransportError::MultiaddrNotSupported(addr)),
            Answer::Fail(n) => Err(TransportError::Other(n)),
        }
    }

    fn address_translation(&self, listen: &Multiaddr, observed: &Multiaddr) -> Option<Multiaddr> {
        self.calls
            .borrow_mut()
            .push(format!("{} {} {}", self.name, listen, observed));
        self.translation.map(addr)
    }
}

type Calls = Rc<RefCell<Vec<String>>>;

fn dial(outer: Answer, base: Answer) -> (Vec<String>, Result<EitherOutput<u32, u32>, TransportError<CombinedError<u32, u32>>>) {
    let calls: Calls = Rc::default();
    let outer = Leg { name: "outer", answer: outer, translation: None, calls: calls.clone() };
    let base = Leg { name: "base", answer: base, translation: None, calls: calls.clone() };
    let combined = CombinedTransport::new(base, move |_: ProxyTransport<Leg>| outer.clone(), (), |a| a);
    let end = combined.dial(addr("/ip4/1.2.3.4/tcp/80"));
    let seen = calls.borrow().clone();
    (seen, end)
}

#[test]
fn dial_prefers_the_outer_transport() {
    let (calls, end) = dial(Answer::Connect(7), Answer::Connect(8));
    assert_eq!(calls, vec!["outer /ip4/1.2.3.4/tcp/80"]);
    assert!(matches!(end, Ok(EitherOutput::Second(7))));
}

#[test]
fn dial_falls_back_to_the_base_transport() {
    let (calls, end) = dial(Answer::Reject, Answer::Connect(8));
    assert_eq!(calls, vec!["outer /ip4/1.2.3.4/tcp/80", "base /ip4/1.2.3.4/tcp/80"]);
    assert!(matches!(end, Ok(EitherOutput::First(8))));
}

#[test]
fn dial_falls_back_on_any_failure_of_the_outer_transport() {
    let (calls, end) = dial(Answer::Fail(3), Answer::Connect(8));
    assert_eq!(calls, vec!["outer /ip4/1.2.3.4/tcp/80", "base /ip4/1.2.3.4/tcp/80"]);
    assert!(matches!(end, Ok(EitherOutput::First(8))));
}

#[test]
fn dial_fails_as_the_base_transport_does() {
    let (calls, end) = dial(Answer::Fail(3), Answer::Fail(4));
    assert_eq!(calls.len(), 2);
    assert!(matches!(end, Err(TransportError::Other(CombinedError::Base(4)))));
    let (_, end) = dial(Answer::Fail(3), Answer::Reject);
    match end {
        Err(TransportError::MultiaddrNotSupported(a)) => assert_eq!(a, addr("/ip4/1.2.3.4/tcp/80")),
        other => panic!("{:?}", other),
    }
}

#[test]
fn dial_reports_an_error_of_the_base_transport() {
    let (_, end) = dial(Answer::Reject, Answer::Fail(4));
    assert!(matches!(end, Err(TransportError::Other(CombinedError::Base(4)))));
}

#[test]
fn dial_hands_back_an_address_that_both_reject() {
    let (calls, end) = dial(Answer::Reject, Answer::Reject);
    assert_eq!(calls.len(), 2);
    match end {
        Err(TransportError::MultiaddrNotSupported(a)) => assert_eq!(a, addr("/ip4/1.2.3.4/tcp/80")),
        other => panic!("{:?}", other),
    }
}

#[test]
fn dial_steps_follow_the_answers() {
    let step: DialStep<u8> = on_outer_dialled::<u8, u8>(addr("/dns4/b/tcp/2"), Ok(1));
    assert!(matches!(step, DialStep::Dialling(1)));
    let rejected = Err(TransportError::MultiaddrNotSupported(addr("/dns4/a/tcp/1")));
    match on_outer_dialled::<u8, u8>(addr("/dns4/b/tcp/2"), rejected) {
        DialStep::TryBase(a) => assert_eq!(a, addr("/dns4/a/tcp/1")),
        DialStep::Dialling(_) => panic!("the base transport was not tried"),
    }
    match on_outer_dialled::<u8, u8>(addr("/dns4/b/tcp/2"), Err(TransportError::Other(2))) {
        DialStep::TryBase(a) => assert_eq!(a, addr("/dns4/b/tcp/2")),
        DialStep::Dialling(_) => panic!("the base transport was not tried"),
    }
    let end: Result<EitherOutput<u8, u8>, TransportError<CombinedError<u8, u8>>> = on_base_dialled(Ok(5));
    assert!(matches!(end, Ok(EitherOutput::First(5))));
    let end: Result<EitherOutput<u8, u8>, TransportError<CombinedError<u8, u8>>> =
        on_base_dialled(Err(TransportError::Other(6)));
    assert!(matches!(end, Err(TransportError::Other(CombinedError::Base(6)))));
}

fn translate(outer: Option<&'static str>, base: Option<&'static str>) -> (Vec<String>, Option<Multiaddr>) {
    let calls: Calls = Rc::default();
    let outer = Leg { name: "outer", answer: Answer::Reject, translation: outer, calls: calls.clone() };
    let base = Leg { name: "base", answer: Answer::Reject, translation: base, calls: calls.clone() };
    let combined = CombinedTransport::new(base, move |_: ProxyTransport<Leg>| outer.clone(), (), |a| a);
    let found = combined.address_translation(&addr("/ip4/127.0.0.1/tcp/1"), &addr("/ip4/9.9.9.9/tcp/2"));
    let seen = calls.borrow().clone();
    (seen, found)
}

#[test]
fn translation_of_the_outer_transport_comes_first() {
    let (calls, found) = translate(Some("/ip4/1.1.1.1/tcp/3"), Some("/ip4/2.2.2.2/tcp/4"));
    assert_eq!(calls, vec!["outer /ip4/127.0.0.1/tcp/1 /ip4/9.9.9.9/tcp/2"]);
    assert_eq!(found, Some(addr("/ip4/1.1.1.1/tcp/3")));
}

#[test]
fn translation_falls_back_to_the_base_transport() {
    let (calls, found) = translate(None, Some("/ip4/2.2.2.2/tcp/4"));
    assert_eq!(
        calls,
        vec![
            "outer /ip4/127.0.0.1/tcp/1 /ip4/9.9.9.9/tcp/2",
            "base /ip4/127.0.0.1/tcp/1 /ip4/9.9.9.9/tcp/2",
        ]
    );
    assert_eq!(found, Some(addr("/ip4/2.2.2.2/tcp/4")));
    assert_eq!(translate(None, None).1, None);
}
