//! A transport whose errors are those of another transport, rewritten.

use crate::dial::outcome_mapped;
use crate::dial::Dial;
use crate::dial::Outcome;
use crate::error::error_mapped;
use crate::error::TransportError;
use crate::event::event_error_mapped;
use crate::event::TransportEvent;
use crate::listener::ListenerId;
use crate::Transport;
use multiaddr::Multiaddr;
use std::marker::PhantomData;
use std::task::Context;
use std::task::Poll;
use vstd::future::FutureAdditionalSpecFns;
use vstd::prelude::*;

verus! {

/// A function from `E` to `TErr` that may be called on every `E`.
#[derive(Debug)]
#[verifier::reject_recursive_types(E)]
#[verifier::reject_recursive_types(TErr)]
struct Total<E, F: FnOnce(E) -> TErr + Copy, TErr> {
    map: F,
    marker: PhantomData<(E, TErr)>,
}

impl<E, F: FnOnce(E) -> TErr + Copy, TErr> Total<E, F, TErr> {
    #[verifier::type_invariant]
    spec fn accepts_all(self) -> bool {
        forall|e: E| call_requires(self.map, (e,))
    }

    fn new(map: F) -> (total: Self)
        requires
            forall|e: E| call_requires(map, (e,)),
        ensures
            total.map == map,
    {
        Total { map, marker: PhantomData }
    }

    /// The function, with the fact that it may be called on every `E`.
    fn get(&self) -> (map: F)
        ensures
            map == self.map,
            forall|e: E| call_requires(map, (e,)),
    {
        proof {
            use_type_invariant(self);
        }
        self.map
    }
}

impl<E, F: FnOnce(E) -> TErr + Copy, TErr> Clone for Total<E, F, TErr> {
    fn clone(&self) -> (copy: Self)
        ensures
            copy == *self,
    {
        *self
    }
}

impl<E, F: FnOnce(E) -> TErr + Copy, TErr> Copy for Total<E, F, TErr> {

}

/// The transport `T` with each of its errors sent through the function `F`,
/// which gives a `TErr`.
///
/// Addresses, listener tokens and connection outputs pass unchanged, in both
/// directions. The function is copied for each use, so it can be applied any
/// number of times.
#[derive(Debug)]
#[verifier::reject_recursive_types(TErr)]
pub struct MapErr<T: Transport, F: FnOnce(T::Error) -> TErr + Copy, TErr> {
    transport: T,
    map: Total<T::Error, F, TErr>,
}

impl<T: Transport, F: FnOnce(T::Error) -> TErr + Copy, TErr> MapErr<T, F, TErr> {
    /// The wrapped transport.
    pub closed spec fn inner(self) -> T {
        self.transport
    }

    /// The function that rewrites the errors.
    pub closed spec fn mapping(self) -> F {
        self.map.map
    }

    /// Wraps `transport` so that its errors go through `map`, which has to
    /// accept every error of `transport`.
    pub fn new(transport: T, map: F) -> (wrapped: MapErr<T, F, TErr>)
        requires
            forall|e: T::Error| call_requires(map, (e,)),
        ensures
            wrapped.inner() == transport,
            wrapped.mapping() == map,
    {
        MapErr { transport, map: Total::new(map) }
    }
}

impl<T: Transport + Clone, F: FnOnce(T::Error) -> TErr + Copy, TErr> Clone for MapErr<T, F, TErr> {
    /// A wrapper round a clone of the transport, with the same function.
    fn clone(&self) -> (copy: Self)
        ensures
            cloned(self.inner(), copy.inner()),
            copy.mapping() == self.mapping(),
    {
        MapErr { transport: self.transport.clone(), map: self.map }
    }
}

impl<T: Transport + Copy, F: FnOnce(T::Error) -> TErr + Copy, TErr> Copy for MapErr<T, F, TErr> {

}

/// `res` is what `listen_on` of the wrapped transport gave, `inner`, with its
/// error sent through `map`.
pub open spec fn listen_mapped<E1, E2, F: FnOnce(E1) -> E2>(
    inner: Result<ListenerId, TransportError<E1>>,
    res: Result<ListenerId, TransportError<E2>>,
    map: F,
) -> bool {
    match inner {
        Ok(id) => res == Ok::<ListenerId, TransportError<E2>>(id),
        Err(err) => res is Err && error_mapped(err, res->Err_0, map),
    }
}

/// `res` is what `dial` of the wrapped transport gave, `inner`, with its
/// errors sent through `map`: the one returned at once, and the one that the
/// attempt comes to.
pub open spec fn dial_mapped<TOut, E1, E2, F: FnOnce(E1) -> E2>(
    inner: Result<Outcome<TOut, E1>, TransportError<E1>>,
    res: Result<Outcome<TOut, E2>, TransportError<E2>>,
    map: F,
) -> bool {
    match inner {
        Ok(attempt) => res is Ok && outcome_mapped(attempt, res->Ok_0, map),
        Err(err) => res is Err && error_mapped(err, res->Err_0, map),
    }
}

/// `res` is what `poll` of the wrapped transport gave, `inner`, with the error
/// in its event sent through `map`.
pub open spec fn poll_mapped<TOut, E1, E2, F: FnOnce(E1) -> E2>(
    inner: Poll<TransportEvent<TOut, E1>>,
    res: Poll<TransportEvent<TOut, E2>>,
    map: F,
) -> bool {
    match inner {
        Poll::Ready(ev) => res matches Poll::Ready(mapped) && event_error_mapped(ev, mapped, map),
        Poll::Pending => res matches Poll::Pending,
    }
}

/// Sends the error of `listen_on`'s result through `map`, which has to accept
/// the error if there is one.
pub fn map_listen_result<E1, E2, F: FnOnce(E1) -> E2>(
    inner: Result<ListenerId, TransportError<E1>>,
    map: F,
) -> (res: Result<ListenerId, TransportError<E2>>)
    requires
        inner matches Err(TransportError::Other(e)) ==> call_requires(map, (e,)),
    ensures
        listen_mapped(inner, res, map),
{
    match inner {
        Ok(id) => Ok(id),
        Err(err) => Err(err.map(map)),
    }
}

/// Sends the errors of `dial`'s result through `map`: the one returned at
/// once now, the one that the attempt comes to when it does. `map` has to
/// accept the error returned at once; where an attempt was started, whose
/// error is not known yet, it has to accept every error.
pub fn map_dial_result<TOut, E1, E2, F>(
    inner: Result<Dial<TOut, E1>, TransportError<E1>>,
    map: F,
) -> (res: Result<Dial<TOut, E2>, TransportError<E2>>) where
    F: FnOnce(E1) -> E2 + Send + 'static,
    TOut: 'static,
    E1: 'static,

    requires
        inner is Ok ==> forall|e: E1| call_requires(map, (e,)),
        inner matches Err(TransportError::Other(e)) ==> call_requires(map, (e,)),
    ensures
        dial_mapped(
            match inner {
                Ok(d) => Ok((Outcome { awaited: d.awaited(), result: d@ })),
                Err(e) => Err(e),
            },
            match res {
                Ok(d) => Ok((Outcome { awaited: d.awaited(), result: d@ })),
                Err(e) => Err(e),
            },
            map,
        ),
{
    match inner {
        Ok(future) => Ok(future.map_err(map)),
        Err(err) => Err(err.map(map)),
    }
}

/// Sends the error in the event of `poll`'s result through `map`, which has
/// to accept the error if there is one.
pub fn map_poll_result<TOut, E1, E2, F: FnOnce(E1) -> E2>(
    inner: Poll<TransportEvent<TOut, E1>>,
    map: F,
) -> (res: Poll<TransportEvent<TOut, E2>>)
    requires
        inner matches Poll::Ready(ev) ==> (ev.error() matches Some(e) ==> call_requires(
            map,
            (e,),
        )),
    ensures
        poll_mapped(inner, res, map),
{
    match inner {
        Poll::Ready(ev) => Poll::Ready(ev.map_err(map)),
        Poll::Pending => Poll::Pending,
    }
}

impl<T, F, TErr> Transport for MapErr<T, F, TErr> where
    T: Transport,
    T::Output: 'static,
    T::Error: 'static,
    F: FnOnce(T::Error) -> TErr + Copy + Send + 'static,
 {
    type Output = T::Output;

    type Error = TErr;

    open spec fn listens(
        &self,
        addr: Multiaddr,
        post: &Self,
        res: Result<ListenerId, TransportError<TErr>>,
    ) -> bool {
        &&& post.mapping() == self.mapping()
        &&& exists|inner: Result<ListenerId, TransportError<T::Error>>|
            {
                &&& #[trigger] self.inner().listens(addr, &post.inner(), inner)
                &&& listen_mapped(inner, res, self.mapping())
            }
    }

    open spec fn removes(&self, id: ListenerId, post: &Self, res: bool) -> bool {
        &&& post.mapping() == self.mapping()
        &&& self.inner().removes(id, &post.inner(), res)
    }

    open spec fn dials(
        &self,
        addr: Multiaddr,
        post: &Self,
        res: Result<Outcome<T::Output, TErr>, TransportError<TErr>>,
    ) -> bool {
        &&& post.mapping() == self.mapping()
        &&& exists|inner: Result<Outcome<T::Output, T::Error>, TransportError<T::Error>>|
            {
                &&& #[trigger] self.inner().dials(addr, &post.inner(), inner)
                &&& dial_mapped(inner, res, self.mapping())
            }
    }

    open spec fn dials_as_listener(
        &self,
        addr: Multiaddr,
        post: &Self,
        res: Result<Outcome<T::Output, TErr>, TransportError<TErr>>,
    ) -> bool {
        &&& post.mapping() == self.mapping()
        &&& exists|inner: Result<Outcome<T::Output, T::Error>, TransportError<T::Error>>|
            {
                &&& #[trigger] self.inner().dials_as_listener(addr, &post.inner(), inner)
                &&& dial_mapped(inner, res, self.mapping())
            }
    }

    open spec fn translates(
        &self,
        server: Multiaddr,
        observed: Multiaddr,
        res: Option<Multiaddr>,
    ) -> bool {
        self.inner().translates(server, observed, res)
    }

    open spec fn polls(&self, post: &Self, res: Poll<TransportEvent<T::Output, TErr>>) -> bool {
        &&& post.mapping() == self.mapping()
        &&& exists|inner: Poll<TransportEvent<T::Output, T::Error>>|
            {
                &&& #[trigger] self.inner().polls(&post.inner(), inner)
                &&& poll_mapped(inner, res, self.mapping())
            }
    }

    /// Hands `addr` to `listen_on` of the wrapped transport. A token comes
    /// back as it is, an error goes through the function.
    fn listen_on(&mut self, addr: Multiaddr) -> (res: Result<ListenerId, TransportError<TErr>>)
        ensures
            final(self).mapping() == old(self).mapping(),
            exists|inner: Result<ListenerId, TransportError<T::Error>>|
                {
                    &&& #[trigger] old(self).inner().listens(addr, &final(self).inner(), inner)
                    &&& listen_mapped(inner, res, old(self).mapping())
                },
    {
        let map = self.map.get();
        let inner = self.transport.listen_on(addr);
        proof {
            assert(old(self).inner().listens(addr, &self.inner(), inner));
        }
        map_listen_result(inner, map)
    }

    /// Hands `id` to `remove_listener` of the wrapped transport and returns
    /// its answer.
    fn remove_listener(&mut self, id: ListenerId) -> (res: bool)
        ensures
            final(self).mapping() == old(self).mapping(),
            old(self).inner().removes(id, &final(self).inner(), res),
    {
        self.transport.remove_listener(id)
    }

    /// Hands `addr` to `dial` of the wrapped transport. An error that comes
    /// back at once goes through the function now. An attempt that comes
    /// back is wrapped: its output will pass as it is, its error will go
    /// through the function, and dropping the wrapped attempt drops it.
    fn dial(&mut self, addr: Multiaddr) -> (res: Result<
        Dial<T::Output, TErr>,
        TransportError<TErr>,
    >)
        ensures
            final(self).mapping() == old(self).mapping(),
            exists|inner: Result<Outcome<T::Output, T::Error>, TransportError<T::Error>>|
                {
                    &&& #[trigger] old(self).inner().dials(addr, &final(self).inner(), inner)
                    &&& dial_mapped(
                        inner,
                        match res {
                            Ok(d) => Ok((Outcome { awaited: d.awaited(), result: d@ })),
                            Err(e) => Err(e),
                        },
                        old(self).mapping(),
                    )
                },
    {
        let map = self.map.get();
        let inner = self.transport.dial(addr);
        proof {
            assert(old(self).inner().dials(
                addr,
                &self.inner(),
                match inner {
                    Ok(d) => Ok((Outcome { awaited: d.awaited(), result: d@ })),
                    Err(e) => Err(e),
                },
            ));
        }
        map_dial_result(inner, map)
    }

    /// Hands `addr` to `dial_as_listener` of the wrapped transport, so the
    /// role is kept, and treats what comes back as `dial` does.
    fn dial_as_listener(&mut self, addr: Multiaddr) -> (res: Result<
        Dial<T::Output, TErr>,
        TransportError<TErr>,
    >)
        ensures
            final(self).mapping() == old(self).mapping(),
            exists|inner: Result<Outcome<T::Output, T::Error>, TransportError<T::Error>>|
                {
                    &&& #[trigger] old(self).inner().dials_as_listener(addr, &final(self).inner(), inner)
                    &&& dial_mapped(
                        inner,
                        match res {
                            Ok(d) => Ok((Outcome { awaited: d.awaited(), result: d@ })),
                            Err(e) => Err(e),
                        },
                        old(self).mapping(),
                    )
                },
    {
        let map = self.map.get();
        let inner = self.transport.dial_as_listener(addr);
        proof {
            assert(old(self).inner().dials_as_listener(
                addr,
                &self.inner(),
                match inner {
                    Ok(d) => Ok((Outcome { awaited: d.awaited(), result: d@ })),
                    Err(e) => Err(e),
                },
            ));
        }
        map_dial_result(inner, map)
    }

    /// Returns what `address_translation` of the wrapped transport returns
    /// for the same addresses.
    fn address_translation(&self, server: &Multiaddr, observed: &Multiaddr) -> (res: Option<
        Multiaddr,
    >)
        ensures
            self.inner().translates(*server, *observed, res),
    {
        self.transport.address_translation(server, observed)
    }

    /// Polls the wrapped transport once, with `cx` as it is. An event that
    /// is ready comes back with its error sent through the function and
    /// everything else in place; `Pending` stays `Pending`.
    fn poll(&mut self, cx: &mut Context<'_>) -> (res: Poll<TransportEvent<T::Output, TErr>>)
        ensures
            final(self).mapping() == old(self).mapping(),
            exists|inner: Poll<TransportEvent<T::Output, T::Error>>|
                {
                    &&& #[trigger] old(self).inner().polls(&final(self).inner(), inner)
                    &&& poll_mapped(inner, res, old(self).mapping())
                },
    {
        let map = self.map.get();
        let inner = self.transport.poll(cx);
        proof {
            assert(old(self).inner().polls(&self.inner(), inner));
        }
        map_poll_result(inner, map)
    }
}

} // verus!
