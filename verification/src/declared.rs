//! Types from outside this crate that run through its signatures.
//!
//! Each is declared so that the verifier accepts it in a signature or a field.
//! An address, a pin and a task context are opaque: nothing here looks inside
//! one. `Poll` is declared with its two variants, `Ready` and `Pending`.

use vstd::prelude::*;

verus! {

/// `multiaddr::Multiaddr`, a network address. Opaque: two addresses are told
/// apart in contracts by `==` alone.
#[verifier::external_type_specification]
#[verifier::external_body]
pub struct ExMultiaddr(multiaddr::Multiaddr);

/// `std::task::Context`, handed through to the transport that is polled.
#[verifier::external_type_specification]
#[verifier::external_body]
pub struct ExContext<'a>(std::task::Context<'a>);

/// `std::pin::Pin`, which only the `Future` impl of a pending dial names.
#[verifier::external_type_specification]
#[verifier::external_body]
#[verifier::reject_recursive_types(Ptr)]
pub struct ExPin<Ptr>(std::pin::Pin<Ptr>);

/// `std::task::Poll`: `Ready` with a value, or `Pending`.
#[verifier::external_type_specification]
#[verifier::reject_recursive_types(T)]
pub struct ExPoll<T>(std::task::Poll<T>);

} // verus!
