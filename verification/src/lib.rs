//! A uniform interface to network transports, and a combinator that rewrites a
//! transport's error type.
//!
//! A [`Transport`] listens for inbound connections and dials outbound ones.
//! Nothing here blocks: `listen_on` and `dial` only register an intent, and
//! what follows is reported by `poll`, one [`TransportEvent`] at a time, or by
//! the [`Dial`] that `dial` returned.

use crate::dial::Outcome;
use multiaddr::Multiaddr;
use std::task::Context;
use std::task::Poll;
use vstd::future::FutureAdditionalSpecFns;
use vstd::prelude::*;

pub mod declared;
pub mod dial;
pub mod error;
pub mod event;
pub mod laws;
pub mod listener;
pub mod map_err;

pub use dial::Dial;
pub use error::TransportError;
pub use event::TransportEvent;
pub use listener::ListenerId;
pub use map_err::MapErr;

verus! {

/// What every transport can do, whatever it runs over.
///
/// Each operation has a relation beside it that says which results the
/// operation may give, from which state and ending in which. A transport
/// states its own behaviour by defining these relations; one that defines
/// none promises nothing, which is what each default says. A combinator
/// states its behaviour over the relations of the transport it wraps.
pub trait Transport: Sized {
    /// What a connection yields once it is established.
    type Output;

    /// The transport's own error.
    type Error;

    /// `listen_on(addr)` in state `self` may return `res` and end in `post`.
    open spec fn listens(
        &self,
        addr: Multiaddr,
        post: &Self,
        res: Result<ListenerId, TransportError<Self::Error>>,
    ) -> bool {
        true
    }

    /// `remove_listener(id)` in state `self` may return `res` and end in
    /// `post`.
    open spec fn removes(&self, id: ListenerId, post: &Self, res: bool) -> bool {
        true
    }

    /// `dial(addr)` in state `self` may end in `post` and either fail at once
    /// with the error in `res`, or start an attempt of which `res` holds the
    /// outcome.
    open spec fn dials(
        &self,
        addr: Multiaddr,
        post: &Self,
        res: Result<Outcome<Self::Output, Self::Error>, TransportError<Self::Error>>,
    ) -> bool {
        true
    }

    /// As `dials`, for `dial_as_listener(addr)`.
    open spec fn dials_as_listener(
        &self,
        addr: Multiaddr,
        post: &Self,
        res: Result<Outcome<Self::Output, Self::Error>, TransportError<Self::Error>>,
    ) -> bool {
        true
    }

    /// `address_translation(server, observed)` in state `self` may return
    /// `res`.
    open spec fn translates(
        &self,
        server: Multiaddr,
        observed: Multiaddr,
        res: Option<Multiaddr>,
    ) -> bool {
        true
    }

    /// `poll` in state `self` may return `res` and end in `post`.
    open spec fn polls(
        &self,
        post: &Self,
        res: Poll<TransportEvent<Self::Output, Self::Error>>,
    ) -> bool {
        true
    }

    /// Starts listening on `addr` and returns the token of the new
    /// registration. Fails with `MultiaddrNotSupported` if the transport
    /// cannot bind such an address, with `Other` if binding failed. What
    /// becomes of the listener afterwards is reported by `poll`.
    fn listen_on(&mut self, addr: Multiaddr) -> (res: Result<
        ListenerId,
        TransportError<Self::Error>,
    >)
        ensures
            old(self).listens(addr, final(self), res),
    ;

    /// Stops the listener `id`. Returns whether `id` was an active listener,
    /// so a second call for the same `id` is expected to return `false`. The
    /// contract leaves that to the transport's own relation.
    fn remove_listener(&mut self, id: ListenerId) -> (res: bool)
        ensures
            old(self).removes(id, final(self), res),
    ;

    /// Checks that `addr` can be dialed and starts the attempt. A failure of
    /// the check is returned at once; a failure of the attempt is the `Err`
    /// that the returned `Dial` comes to.
    fn dial(&mut self, addr: Multiaddr) -> (res: Result<
        Dial<Self::Output, Self::Error>,
        TransportError<Self::Error>,
    >)
        ensures
            old(self).dials(
                addr,
                final(self),
                match res {
                    Ok(d) => Ok((Outcome { awaited: d.awaited(), result: d@ })),
                    Err(e) => Err(e),
                },
            ),
    ;

    /// As `dial`, and tells the transport that the remote takes this side for
    /// the listener.
    fn dial_as_listener(&mut self, addr: Multiaddr) -> (res: Result<
        Dial<Self::Output, Self::Error>,
        TransportError<Self::Error>,
    >)
        ensures
            old(self).dials_as_listener(
                addr,
                final(self),
                match res {
                    Ok(d) => Ok((Outcome { awaited: d.awaited(), result: d@ })),
                    Err(e) => Err(e),
                },
            ),
    ;

    /// Given the address `server` that this side listens on and the address
    /// `observed` under which a remote saw this side, the address under which
    /// this side can be reached from outside, if the transport has a rule for
    /// it.
    fn address_translation(&self, server: &Multiaddr, observed: &Multiaddr) -> (res: Option<
        Multiaddr,
    >)
        ensures
            self.translates(*server, *observed, res),
    ;

    /// Makes progress on the listeners and returns one event if one is ready.
    fn poll(&mut self, cx: &mut Context<'_>) -> (res: Poll<
        TransportEvent<Self::Output, Self::Error>,
    >)
        ensures
            old(self).polls(final(self), res),
    ;
}

} // verus!
