//! A connection attempt that is still under way.

use crate::error::result_mapped;
use futures::future::BoxFuture;
use futures::FutureExt;
use futures::TryFutureExt;
use std::future::Future;
use std::pin::Pin;
use std::task::Context;
use std::task::Poll;
use vstd::future::FutureAdditionalSpecFns;
use vstd::prelude::*;

verus! {

/// A connection attempt under way: a boxed future that comes to `Ok` with the
/// connection's output or to `Err` with the transport's error.
///
/// A `Dial` is itself a future, to be awaited or dropped. Dropping it drops the
/// future it holds, which gives the attempt up. The future it holds is fused:
/// once the attempt has given its result, polling the `Dial` again does no
/// harm and returns `Pending`. In contracts, `d.awaited()` says that the
/// attempt ran to its end and `d@` is the result it then gave.
///
/// The verifier does not look inside: the boxed future is a trait object with
/// a `Send` bound, which it cannot take in a field.
#[verifier::external_body]
#[verifier::reject_recursive_types(TOut)]
#[verifier::reject_recursive_types(TErr)]
pub struct Dial<TOut, TErr> {
    future: BoxFuture<'static, Result<TOut, TErr>>,
}

/// What a contract knows of a connection attempt `d`: whether it ran to its
/// end (`d.awaited()`) and the result it then gave (`d@`).
pub struct Outcome<TOut, TErr> {
    pub awaited: bool,
    pub result: Result<TOut, TErr>,
}

/// `mapped` is the attempt `inner` with its error sent through `map`: if
/// `mapped` ran to its end then so did `inner`, an `Ok` of `inner` is the
/// result of `mapped` unchanged, and an `Err(e)` of `inner` is `Err` of what
/// `map` returns for `e`.
pub open spec fn outcome_mapped<TOut, E1, E2, F: FnOnce(E1) -> E2>(
    inner: Outcome<TOut, E1>,
    mapped: Outcome<TOut, E2>,
    map: F,
) -> bool {
    mapped.awaited ==> inner.awaited && result_mapped(inner.result, mapped.result, map)
}

impl<TOut, TErr> Future for Dial<TOut, TErr> {
    type Output = Result<TOut, TErr>;

    /// Polls the boxed future, by `Future::poll`. Nothing is claimed of the
    /// result. The boxed future is a `futures::future::Fuse`, which returns
    /// `Pending` when it is polled after it has returned `Ready`.
    #[verifier::external_body]
    fn poll(self: Pin<&mut Self>, cx: &mut Context<'_>) -> (res: Poll<Result<TOut, TErr>>) {
        self.get_mut().future.as_mut().poll(cx)
    }
}

impl<TOut, TErr> Dial<TOut, TErr> {
    /// Fuses and boxes `future`, by `futures::FutureExt::fuse` and
    /// `futures::FutureExt::boxed`. The claim: the box comes to its end only
    /// when `future` does, and with the same result. After that `future` is
    /// dropped and never polled again.
    #[verifier::external_body]
    pub fn new<Fut>(future: Fut) -> (dial: Dial<TOut, TErr>) where
        Fut: Future<Output = Result<TOut, TErr>> + Send + 'static,

        ensures
            dial.awaited() ==> future.awaited() && dial@ == future@,
    {
        Dial { future: future.fuse().boxed() }
    }

    /// Wraps the attempt so that its error goes through `map`, by
    /// `futures::TryFutureExt::map_err`, `futures::FutureExt::fuse` and
    /// `futures::FutureExt::boxed`.
    ///
    /// The claim: the wrapped attempt comes to its end only when `self` does;
    /// an `Ok` of `self` is then its result unchanged, and an `Err(e)` of
    /// `self` becomes `Err` of what `map` returns for `e`. Nothing runs before
    /// the wrapped attempt is polled, and dropping it drops `self`.
    #[verifier::external_body]
    pub(crate) fn map_err<E, F>(self, map: F) -> (dial: Dial<TOut, E>) where
        F: FnOnce(TErr) -> E + Send + 'static,
        TOut: 'static,
        TErr: 'static,

        requires
            forall|e: TErr| call_requires(map, (e,)),
        ensures
            dial.awaited() ==> self.awaited() && result_mapped(self@, dial@, map),
    {
        Dial { future: self.future.map_err(map).fuse().boxed() }
    }
}

} // verus!
