//! Why a transport refused to start listening or dialing.

use multiaddr::Multiaddr;
use vstd::prelude::*;

verus! {

/// Why `listen_on` or `dial` failed before any network work began.
#[derive(Debug)]
pub enum TransportError<TErr> {
    /// The transport cannot route this address. The variant carries the
    /// address and no error of the transport.
    MultiaddrNotSupported(Multiaddr),
    /// Any other failure, with the transport's own error as its cause.
    Other(TErr),
}

/// `mapped` is `err` with the error it carries sent through `map`: an
/// unsupported address stays as it is, and `Other(e)` becomes `Other(e2)` for
/// an `e2` that `map` returns for `e`.
pub open spec fn error_mapped<E1, E2, F: FnOnce(E1) -> E2>(
    err: TransportError<E1>,
    mapped: TransportError<E2>,
    map: F,
) -> bool {
    match err {
        TransportError::MultiaddrNotSupported(addr) => mapped
            == TransportError::<E2>::MultiaddrNotSupported(addr),
        TransportError::Other(e) => mapped is Other && call_ensures(map, (e,), mapped->Other_0),
    }
}

/// `mapped` is `res` with its error sent through `map`: `Ok(v)` stays `Ok(v)`,
/// and `Err(e)` becomes `Err(e2)` for an `e2` that `map` returns for `e`.
pub open spec fn result_mapped<T, E1, E2, F: FnOnce(E1) -> E2>(
    res: Result<T, E1>,
    mapped: Result<T, E2>,
    map: F,
) -> bool {
    match res {
        Ok(v) => mapped == Ok::<T, E2>(v),
        Err(e) => mapped is Err && call_ensures(map, (e,), mapped->Err_0),
    }
}

impl<TErr> TransportError<TErr> {
    /// The transport's own error, where there is one.
    pub open spec fn cause(self) -> Option<TErr> {
        match self {
            TransportError::MultiaddrNotSupported(_) => None,
            TransportError::Other(e) => Some(e),
        }
    }

    /// Sends the error that `self` carries through `map`.
    pub fn map<TNewErr, F: FnOnce(TErr) -> TNewErr>(self, map: F) -> (mapped: TransportError<
        TNewErr,
    >)
        requires
            self.cause() matches Some(e) ==> call_requires(map, (e,)),
        ensures
            error_mapped(self, mapped, map),
    {
        match self {
            TransportError::MultiaddrNotSupported(addr) => TransportError::MultiaddrNotSupported(
                addr,
            ),
            TransportError::Other(err) => TransportError::Other(map(err)),
        }
    }
}

} // verus!
