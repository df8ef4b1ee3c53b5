use combined_transport::error::TransportError;
use combined_transport::switch::is_probably_http;
use combined_transport::CombinedError;
use libp2p::Multiaddr;

fn shown(error: &CombinedError<u8, u16>) -> String {
    error.fmt(
        "!",
        |e, f| format!("base {}{}", e, f),
        |e, f| format!("outer {}{}", e, f),
        |text, f| format!("{}{}", text, f),
    )
}

#[test]
fn errors_are_shown_as_their_transport_shows_them() {
    assert_eq!(shown(&CombinedError::Base(1)), "base 1!");
    assert_eq!(shown(&CombinedError::Outer(2)), "outer 2!");
    assert_eq!(shown(&CombinedError::UpgradedToOuterTransport), "Upgraded to outer transport!");
}

#[test]
fn the_source_is_that_of_the_failed_transport() {
    let base: CombinedError<u8, u16> = CombinedError::Base(1);
    let outer: CombinedError<u8, u16> = CombinedError::Outer(2);
    let neither: CombinedError<u8, u16> = CombinedError::UpgradedToOuterTransport;
    assert_eq!(base.source(|b| Some(u32::from(*b)), |_| None), Some(1));
    assert_eq!(base.source(|_| None::<u32>, |o| Some(u32::from(*o))), None);
    assert_eq!(outer.source(|_| None, |o| Some(u32::from(*o))), Some(2));
    assert_eq!(neither.source(|_| Some(1), |_| Some(2)), None);
}

#[test]
fn combined_errors_can_be_copied() {
    let error: CombinedError<u8, u16> = CombinedError::Outer(2);
    let copy = error;
    assert_eq!(format!("{:?}", error), format!("{:?}", copy));
}

#[test]
fn failures_keep_their_origin() {
    let addr: Multiaddr = "/ip4/1.2.3.4/tcp/5".parse().unwrap();
    let base = TransportError::Other(1u8).from_base::<u8>();
    assert!(matches!(base, TransportError::Other(CombinedError::Base(1))));
    let outer = TransportError::Other(1u8).from_outer::<u8>();
    assert!(matches!(outer, TransportError::Other(CombinedError::Outer(1))));
    match TransportError::<u8>::MultiaddrNotSupported(addr.clone()).from_base::<u8>() {
        TransportError::MultiaddrNotSupported(a) => assert_eq!(a, addr),
        other => panic!("{:?}", other),
    }
    match TransportError::<u8>::MultiaddrNotSupported(addr.clone()).from_outer::<u8>() {
        TransportError::MultiaddrNotSupported(a) => assert_eq!(a, addr),
        other => panic!("{:?}", other),
    }
    assert!(matches!(TransportError::Other(1u8).map(|e| e + 1), TransportError::Other(2)));
}

#[test]
fn http_is_recognised_by_its_first_bytes() {
    assert!(is_probably_http(Some(*b"GET")));
    assert!(!is_probably_http(Some(*b"PUT")));
    assert!(!is_probably_http(Some(*b"GE\0")));
    assert!(!is_probably_http(Some(*b"get")));
    assert!(!is_probably_http(None));
}
