//! What holds of every transport wrapped in a `MapErr`, stated over the
//! relations of the wrapped transport.

use crate::dial::outcome_mapped;
use crate::dial::Outcome;
use crate::error::error_mapped;
use crate::error::TransportError;
use crate::event::lemma_error_mapped_event;
use crate::event::TransportEvent;
use crate::listener::ListenerId;
use crate::map_err::dial_mapped;
use crate::map_err::listen_mapped;
use crate::map_err::poll_mapped;
use crate::map_err::MapErr;
use crate::Transport;
use multiaddr::Multiaddr;
use std::task::Poll;
use vstd::prelude::*;

verus! {

/// If the wrapped transport rejects `addr` in `listen_on` as not supported,
/// whatever else happens, then so does the wrapper, with the same address in
/// the error. The function is not applied: this error carries no cause.
pub proof fn lemma_listen_on_keeps_unsupported<T, F, TErr>(
    wrapped: MapErr<T, F, TErr>,
    addr: Multiaddr,
    post: MapErr<T, F, TErr>,
    res: Result<ListenerId, TransportError<TErr>>,
    rejected: Multiaddr,
) where
    T: Transport,
    T::Output: 'static,
    T::Error: 'static,
    F: FnOnce(T::Error) -> TErr + Copy + Send + 'static,

    requires
        wrapped.listens(addr, &post, res),
        forall|end: T, inner: Result<ListenerId, TransportError<T::Error>>| #[trigger]
            wrapped.inner().listens(addr, &end, inner) ==> inner == Err::<
                ListenerId,
                TransportError<T::Error>,
            >(TransportError::MultiaddrNotSupported(rejected)),
    ensures
        res == Err::<ListenerId, TransportError<TErr>>(
            TransportError::MultiaddrNotSupported(rejected),
        ),
{
}

/// If the wrapped transport rejects `addr` in `dial` as not supported,
/// whatever else happens, then so does the wrapper, with the same address in
/// the error.
pub proof fn lemma_dial_keeps_unsupported<T, F, TErr>(
    wrapped: MapErr<T, F, TErr>,
    addr: Multiaddr,
    post: MapErr<T, F, TErr>,
    res: Result<Outcome<T::Output, TErr>, TransportError<TErr>>,
    rejected: Multiaddr,
) where
    T: Transport,
    T::Output: 'static,
    T::Error: 'static,
    F: FnOnce(T::Error) -> TErr + Copy + Send + 'static,

    requires
        wrapped.dials(addr, &post, res),
        forall|end: T, inner: Result<Outcome<T::Output, T::Error>, TransportError<T::Error>>|
         #[trigger]
            wrapped.inner().dials(addr, &end, inner) ==> inner == Err::<
                Outcome<T::Output, T::Error>,
                TransportError<T::Error>,
            >(TransportError::MultiaddrNotSupported(rejected)),
    ensures
        res == Err::<Outcome<T::Output, TErr>, TransportError<TErr>>(
            TransportError::MultiaddrNotSupported(rejected),
        ),
{
}

/// `listen_on` of the wrapper fails exactly when that of the wrapped
/// transport does. The error is then the wrapped transport's error sent
/// through the function; a token comes through as it is.
pub proof fn lemma_listen_on_maps_only_errors<T, F, TErr>(
    wrapped: MapErr<T, F, TErr>,
    addr: Multiaddr,
    post: MapErr<T, F, TErr>,
    res: Result<ListenerId, TransportError<TErr>>,
) where
    T: Transport,
    T::Output: 'static,
    T::Error: 'static,
    F: FnOnce(T::Error) -> TErr + Copy + Send + 'static,

    requires
        wrapped.listens(addr, &post, res),
    ensures
        post.mapping() == wrapped.mapping(),
        res matches Ok(id) ==> wrapped.inner().listens(
            addr,
            &post.inner(),
            Ok::<ListenerId, TransportError<T::Error>>(id),
        ),
        res matches Err(err) ==> exists|cause: TransportError<T::Error>|
            {
                &&& #[trigger] wrapped.inner().listens(
                    addr,
                    &post.inner(),
                    Err::<ListenerId, TransportError<T::Error>>(cause),
                )
                &&& error_mapped(cause, err, wrapped.mapping())
            },
{
    let inner = choose|inner: Result<ListenerId, TransportError<T::Error>>|
        {
            &&& #[trigger] wrapped.inner().listens(addr, &post.inner(), inner)
            &&& listen_mapped(inner, res, wrapped.mapping())
        };
    match inner {
        Ok(id) => {},
        Err(cause) => {
            assert(wrapped.inner().listens(
                addr,
                &post.inner(),
                Err::<ListenerId, TransportError<T::Error>>(cause),
            ));
        },
    }
}

/// `dial` of the wrapper fails at once exactly when that of the wrapped
/// transport does, and then with that error sent through the function. Where
/// it starts an attempt, that is an attempt of the wrapped transport: once it
/// has run to its end, an output is that attempt's output as it is, and an
/// error is that attempt's error sent through the function.
pub proof fn lemma_dial_maps_only_errors<T, F, TErr>(
    wrapped: MapErr<T, F, TErr>,
    addr: Multiaddr,
    post: MapErr<T, F, TErr>,
    res: Result<Outcome<T::Output, TErr>, TransportError<TErr>>,
) where
    T: Transport,
    T::Output: 'static,
    T::Error: 'static,
    F: FnOnce(T::Error) -> TErr + Copy + Send + 'static,

    requires
        wrapped.dials(addr, &post, res),
    ensures
        post.mapping() == wrapped.mapping(),
        res matches Err(err) ==> exists|cause: TransportError<T::Error>|
            {
                &&& #[trigger] wrapped.inner().dials(
                    addr,
                    &post.inner(),
                    Err::<Outcome<T::Output, T::Error>, TransportError<T::Error>>(cause),
                )
                &&& error_mapped(cause, err, wrapped.mapping())
            },
        res matches Ok(attempt) ==> exists|begun: Outcome<T::Output, T::Error>|
            {
                &&& #[trigger] wrapped.inner().dials(
                    addr,
                    &post.inner(),
                    Ok::<Outcome<T::Output, T::Error>, TransportError<T::Error>>(begun),
                )
                &&& outcome_mapped(begun, attempt, wrapped.mapping())
            },
{
    let inner = choose|inner: Result<Outcome<T::Output, T::Error>, TransportError<T::Error>>|
        {
            &&& #[trigger] wrapped.inner().dials(addr, &post.inner(), inner)
            &&& dial_mapped(inner, res, wrapped.mapping())
        };
    match inner {
        Ok(begun) => {
            assert(wrapped.inner().dials(
                addr,
                &post.inner(),
                Ok::<Outcome<T::Output, T::Error>, TransportError<T::Error>>(begun),
            ));
        },
        Err(cause) => {
            assert(wrapped.inner().dials(
                addr,
                &post.inner(),
                Err::<Outcome<T::Output, T::Error>, TransportError<T::Error>>(cause),
            ));
        },
    }
}

/// As `lemma_dial_maps_only_errors`, for `dial_as_listener`: the wrapper
/// hands the call on to `dial_as_listener` of the wrapped transport.
pub proof fn lemma_dial_as_listener_maps_only_errors<T, F, TErr>(
    wrapped: MapErr<T, F, TErr>,
    addr: Multiaddr,
    post: MapErr<T, F, TErr>,
    res: Result<Outcome<T::Output, TErr>, TransportError<TErr>>,
) where
    T: Transport,
    T::Output: 'static,
    T::Error: 'static,
    F: FnOnce(T::Error) -> TErr + Copy + Send + 'static,

    requires
        wrapped.dials_as_listener(addr, &post, res),
    ensures
        post.mapping() == wrapped.mapping(),
        res matches Err(err) ==> exists|cause: TransportError<T::Error>|
            {
                &&& #[trigger] wrapped.inner().dials_as_listener(
                    addr,
                    &post.inner(),
                    Err::<Outcome<T::Output, T::Error>, TransportError<T::Error>>(cause),
                )
                &&& error_mapped(cause, err, wrapped.mapping())
            },
        res matches Ok(attempt) ==> exists|begun: Outcome<T::Output, T::Error>|
            {
                &&& #[trigger] wrapped.inner().dials_as_listener(
                    addr,
                    &post.inner(),
                    Ok::<Outcome<T::Output, T::Error>, TransportError<T::Error>>(begun),
                )
                &&& outcome_mapped(begun, attempt, wrapped.mapping())
            },
{
    let inner = choose|inner: Result<Outcome<T::Output, T::Error>, TransportError<T::Error>>|
        {
            &&& #[trigger] wrapped.inner().dials_as_listener(addr, &post.inner(), inner)
            &&& dial_mapped(inner, res, wrapped.mapping())
        };
    match inner {
        Ok(begun) => {
            assert(wrapped.inner().dials_as_listener(
                addr,
                &post.inner(),
                Ok::<Outcome<T::Output, T::Error>, TransportError<T::Error>>(begun),
            ));
        },
        Err(cause) => {
            assert(wrapped.inner().dials_as_listener(
                addr,
                &post.inner(),
                Err::<Outcome<T::Output, T::Error>, TransportError<T::Error>>(cause),
            ));
        },
    }
}

/// An attempt that the wrapper started and that ran to its end with an
/// output was an attempt of the wrapped transport that ran to its end with
/// that output.
pub proof fn lemma_dial_keeps_output<T, F, TErr>(
    wrapped: MapErr<T, F, TErr>,
    addr: Multiaddr,
    post: MapErr<T, F, TErr>,
    out: T::Output,
) where
    T: Transport,
    T::Output: 'static,
    T::Error: 'static,
    F: FnOnce(T::Error) -> TErr + Copy + Send + 'static,

    requires
        wrapped.dials(
            addr,
            &post,
            Ok::<Outcome<T::Output, TErr>, TransportError<TErr>>(
                (Outcome { awaited: true, result: Ok::<T::Output, TErr>(out) }),
            ),
        ),
    ensures
        wrapped.inner().dials(
            addr,
            &post.inner(),
            Ok::<Outcome<T::Output, T::Error>, TransportError<T::Error>>(
                (Outcome { awaited: true, result: Ok::<T::Output, T::Error>(out) }),
            ),
        ),
{
    let res = Ok::<Outcome<T::Output, TErr>, TransportError<TErr>>(
        (Outcome { awaited: true, result: Ok::<T::Output, TErr>(out) }),
    );
    let inner = choose|inner: Result<Outcome<T::Output, T::Error>, TransportError<T::Error>>|
        {
            &&& #[trigger] wrapped.inner().dials(addr, &post.inner(), inner)
            &&& dial_mapped(inner, res, wrapped.mapping())
        };
    assert(inner is Ok);
    let begun = inner->Ok_0;
    assert(begun.awaited);
    assert(begun.result is Ok);
    assert(begun.result->Ok_0 == out);
    assert(begun == (Outcome { awaited: true, result: Ok::<T::Output, T::Error>(out) }));
}

/// `poll` of the wrapper is ready exactly when that of the wrapped transport
/// is, with that transport's event: the same variant, about the same
/// listener, naming the same addresses, with the same output. An error in the
/// event is the wrapped transport's error sent through the function.
pub proof fn lemma_poll_maps_only_errors<T, F, TErr>(
    wrapped: MapErr<T, F, TErr>,
    post: MapErr<T, F, TErr>,
    res: Poll<TransportEvent<T::Output, TErr>>,
) where
    T: Transport,
    T::Output: 'static,
    T::Error: 'static,
    F: FnOnce(T::Error) -> TErr + Copy + Send + 'static,

    requires
        wrapped.polls(&post, res),
    ensures
        post.mapping() == wrapped.mapping(),
        res matches Poll::Pending ==> wrapped.inner().polls(
            &post.inner(),
            Poll::<TransportEvent<T::Output, T::Error>>::Pending,
        ),
        res matches Poll::Ready(ev) ==> exists|seen: TransportEvent<T::Output, T::Error>|
            {
                &&& #[trigger] wrapped.inner().polls(&post.inner(), Poll::Ready(seen))
                &&& ev.listener() == seen.listener()
                &&& ev.addresses() == seen.addresses()
                &&& ev.output() == seen.output()
                &&& ev.error() is Some <==> seen.error() is Some
                &&& seen.error() matches Some(e) ==> call_ensures(
                    wrapped.mapping(),
                    (e,),
                    ev.error()->0,
                )
                &&& ev is NewAddress <==> seen is NewAddress
                &&& ev is AddressExpired <==> seen is AddressExpired
                &&& ev is Incoming <==> seen is Incoming
                &&& ev is ListenerClosed <==> seen is ListenerClosed
                &&& ev is ListenerError <==> seen is ListenerError
            },
{
    let inner = choose|inner: Poll<TransportEvent<T::Output, T::Error>>|
        {
            &&& #[trigger] wrapped.inner().polls(&post.inner(), inner)
            &&& poll_mapped(inner, res, wrapped.mapping())
        };
    match inner {
        Poll::Ready(seen) => {
            let ev = choose|ev: TransportEvent<T::Output, TErr>| res == Poll::Ready(ev);
            lemma_error_mapped_event(seen, ev, wrapped.mapping());
            assert(wrapped.inner().polls(&post.inner(), Poll::Ready(seen)));
        },
        Poll::Pending => {},
    }
}

/// `remove_listener` of the wrapper returns what that of the wrapped
/// transport returns, and leaves the function as it was.
pub proof fn lemma_remove_listener_passes_through<T, F, TErr>(
    wrapped: MapErr<T, F, TErr>,
    id: ListenerId,
    post: MapErr<T, F, TErr>,
    res: bool,
) where
    T: Transport,
    T::Output: 'static,
    T::Error: 'static,
    F: FnOnce(T::Error) -> TErr + Copy + Send + 'static,

    ensures
        wrapped.removes(id, &post, res) <==> post.mapping() == wrapped.mapping()
            && wrapped.inner().removes(id, &post.inner(), res),
{
}

/// If the wrapped transport never removes a listener twice, neither does the
/// wrapper: where a first `remove_listener(id)` returned `true`, a second one
/// right after it returns `false`.
pub proof fn lemma_remove_listener_twice<T, F, TErr>(
    wrapped: MapErr<T, F, TErr>,
    id: ListenerId,
    between: MapErr<T, F, TErr>,
    post: MapErr<T, F, TErr>,
    second: bool,
) where
    T: Transport,
    T::Output: 'static,
    T::Error: 'static,
    F: FnOnce(T::Error) -> TErr + Copy + Send + 'static,

    requires
        forall|first: T, mid: T, last: T, again: bool|
            #![trigger first.removes(id, &mid, true), mid.removes(id, &last, again)]
            first.removes(id, &mid, true) && mid.removes(id, &last, again) ==> !again,
        wrapped.removes(id, &between, true),
        between.removes(id, &post, second),
    ensures
        !second,
{
}

/// `address_translation` of the wrapper gives what that of the wrapped
/// transport gives, and nothing else.
pub proof fn lemma_address_translation_passes_through<T, F, TErr>(
    wrapped: MapErr<T, F, TErr>,
    server: Multiaddr,
    observed: Multiaddr,
    res: Option<Multiaddr>,
) where
    T: Transport,
    T::Output: 'static,
    T::Error: 'static,
    F: FnOnce(T::Error) -> TErr + Copy + Send + 'static,

    ensures
        wrapped.translates(server, observed, res) <==> wrapped.inner().translates(
            server,
            observed,
            res,
        ),
{
}

/// The transport's rule for address translation has one answer for each pair
/// of addresses: `address_translation` is a function of the transport's state
/// and the two addresses.
pub open spec fn translates_one_way<T: Transport>(transport: T) -> bool {
    forall|server: Multiaddr, observed: Multiaddr, a: Option<Multiaddr>, b: Option<Multiaddr>|
        #![trigger transport.translates(server, observed, a), transport.translates(server, observed, b)]
        transport.translates(server, observed, a) && transport.translates(server, observed, b)
            ==> a == b
}

/// Wrapping keeps address translation a function: if the wrapped transport's
/// rule has one answer for each pair of addresses, so has the wrapper's.
pub proof fn lemma_address_translation_stays_a_function<T, F, TErr>(wrapped: MapErr<T, F, TErr>)
    where
    T: Transport,
    T::Output: 'static,
    T::Error: 'static,
    F: FnOnce(T::Error) -> TErr + Copy + Send + 'static,

    requires
        translates_one_way(wrapped.inner()),
    ensures
        translates_one_way(wrapped),
{
    assert forall|server: Multiaddr, observed: Multiaddr, a: Option<Multiaddr>, b: Option<Multiaddr>|
        wrapped.translates(server, observed, a) && wrapped.translates(
            server,
            observed,
            b,
        ) implies a == b by {
        assert(wrapped.inner().translates(server, observed, a));
        assert(wrapped.inner().translates(server, observed, b));
    }
}

/// If the wrapped transport's rule has one answer for each pair of
/// addresses, two calls of the wrapper's `address_translation` with the same
/// addresses give the same answer. The call takes the wrapper by shared
/// reference, so it leaves the wrapper as it was.
pub proof fn lemma_address_translation_repeats<T, F, TErr>(
    wrapped: MapErr<T, F, TErr>,
    server: Multiaddr,
    observed: Multiaddr,
    first: Option<Multiaddr>,
    second: Option<Multiaddr>,
) where
    T: Transport,
    T::Output: 'static,
    T::Error: 'static,
    F: FnOnce(T::Error) -> TErr + Copy + Send + 'static,

    requires
        translates_one_way(wrapped.inner()),
        wrapped.translates(server, observed, first),
        wrapped.translates(server, observed, second),
    ensures
        first == second,
{
    assert(wrapped.inner().translates(server, observed, first));
    assert(wrapped.inner().translates(server, observed, second));
}

} // verus!
