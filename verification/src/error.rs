use libp2p::Multiaddr;
use vstd::prelude::*;

verus! {

/// An error on dialing or on starting to listen.
#[derive(Debug)]
pub enum TransportError<TErr> {
    /// The transport does not support the address, which is handed back.
    MultiaddrNotSupported(Multiaddr),
    /// Any other error of the transport.
    Other(TErr),
}

/// An error of a combined transport.
#[derive(Debug, Copy, Clone)]
pub enum CombinedError<Base, Outer> {
    /// The connection came in on the base transport and was passed on to the outer one.
    UpgradedToOuterTransport,
    /// The base transport failed.
    Base(Base),
    /// The outer transport failed.
    Outer(Outer),
}

/// An error of the base transport, as the combined transport reports it.
pub open spec fn base_failure<Base, Outer>(error: TransportError<Base>) -> TransportError<
    CombinedError<Base, Outer>,
> {
    match error {
        TransportError::MultiaddrNotSupported(addr) => TransportError::MultiaddrNotSupported(addr),
        TransportError::Other(e) => TransportError::Other(CombinedError::Base(e)),
    }
}

/// An error of the outer transport, as the combined transport reports it.
pub open spec fn outer_failure<Base, Outer>(error: TransportError<Outer>) -> TransportError<
    CombinedError<Base, Outer>,
> {
    match error {
        TransportError::MultiaddrNotSupported(addr) => TransportError::MultiaddrNotSupported(addr),
        TransportError::Other(e) => TransportError::Other(CombinedError::Outer(e)),
    }
}

impl<TErr> TransportError<TErr> {
    /// Applies `f` to the error in `Other`. A rejected address stays as it is.
    pub fn map<TNewErr>(self, f: impl FnOnce(TErr) -> TNewErr) -> (mapped: TransportError<TNewErr>)
        requires
            self matches TransportError::Other(e) ==> call_requires(f, (e,)),
        ensures
            match self {
                TransportError::MultiaddrNotSupported(addr) => mapped
                    == TransportError::<TNewErr>::MultiaddrNotSupported(addr),
                TransportError::Other(e) => mapped matches TransportError::Other(n) && call_ensures(
                    f,
                    (e,),
                    n,
                ),
            },
    {
        match self {
            TransportError::MultiaddrNotSupported(addr) => TransportError::MultiaddrNotSupported(addr),
            TransportError::Other(e) => TransportError::Other(f(e)),
        }
    }

    /// Reports an error of the base transport.
    pub fn from_base<Outer>(self) -> (mapped: TransportError<CombinedError<TErr, Outer>>)
        ensures
            mapped == base_failure::<TErr, Outer>(self),
    {
        let tag = |e: TErr| -> (tagged: CombinedError<TErr, Outer>)
            ensures
                tagged matches CombinedError::Base(inner) && inner == e
        {
            CombinedError::Base(e)
        };
        self.map(tag)
    }

    /// Reports an error of the outer transport.
    pub fn from_outer<Base>(self) -> (mapped: TransportError<CombinedError<Base, TErr>>)
        ensures
            mapped == outer_failure::<Base, TErr>(self),
    {
        let tag = |e: TErr| -> (tagged: CombinedError<Base, TErr>)
            ensures
                tagged matches CombinedError::Outer(inner) && inner == e
        {
            CombinedError::Outer(e)
        };
        self.map(tag)
    }
}

impl<Base, Outer> CombinedError<Base, Outer> {
    /// Shows the error on a formatter `f`: an error of one of the two transports is shown as that
    /// transport shows it, through `base` or `outer`, and a connection that was passed on by a
    /// fixed text, through `text`.
    pub fn fmt<F, R>(
        &self,
        f: F,
        base: impl FnOnce(&Base, F) -> R,
        outer: impl FnOnce(&Outer, F) -> R,
        text: impl FnOnce(&'static str, F) -> R,
    ) -> (shown: R)
        requires
            match *self {
                CombinedError::Base(e) => call_requires(base, (&e, f)),
                CombinedError::Outer(e) => call_requires(outer, (&e, f)),
                CombinedError::UpgradedToOuterTransport => call_requires(
                    text,
                    ("Upgraded to outer transport", f),
                ),
            },
        ensures
            match *self {
                CombinedError::Base(e) => call_ensures(base, (&e, f), shown),
                CombinedError::Outer(e) => call_ensures(outer, (&e, f), shown),
                CombinedError::UpgradedToOuterTransport => call_ensures(
                    text,
                    ("Upgraded to outer transport", f),
                    shown,
                ),
            },
    {
        match self {
            CombinedError::Base(e) => base(e, f),
            CombinedError::Outer(e) => outer(e, f),
            CombinedError::UpgradedToOuterTransport => text("Upgraded to outer transport", f),
        }
    }

    /// The cause of the error: the cause that the failed transport gives for its own error, found
    /// through `base` or `outer`. A connection that was passed on has no cause.
    pub fn source<'a, S>(
        &'a self,
        base: impl FnOnce(&'a Base) -> Option<S>,
        outer: impl FnOnce(&'a Outer) -> Option<S>,
    ) -> (cause: Option<S>)
        requires
            match *self {
                CombinedError::Base(e) => call_requires(base, (&e,)),
                CombinedError::Outer(e) => call_requires(outer, (&e,)),
                CombinedError::UpgradedToOuterTransport => true,
            },
        ensures
            match *self {
                CombinedError::Base(e) => call_ensures(base, (&e,), cause),
                CombinedError::Outer(e) => call_ensures(outer, (&e,), cause),
                CombinedError::UpgradedToOuterTransport => cause is None,
            },
    {
        match self {
            CombinedError::Base(e) => base(e),
            CombinedError::Outer(e) => outer(e),
            CombinedError::UpgradedToOuterTransport => None,
        }
    }
}

} // verus!
