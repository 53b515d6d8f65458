//! What a transport reports when it is polled.

use crate::error::result_mapped;
use crate::listener::ListenerId;
use multiaddr::Multiaddr;
use vstd::prelude::*;

verus! {

/// One occurrence on a transport, as `poll` reports it.
#[derive(Debug)]
pub enum TransportEvent<TOut, TErr> {
    /// A listener is now reachable on `listen_addr`.
    NewAddress { listener_id: ListenerId, listen_addr: Multiaddr },
    /// A listener is no longer reachable on `listen_addr`.
    AddressExpired { listener_id: ListenerId, listen_addr: Multiaddr },
    /// A connection came in on a listener: `output` is what it yielded, or the
    /// error with which it failed.
    Incoming {
        listener_id: ListenerId,
        output: Result<TOut, TErr>,
        local_addr: Multiaddr,
        send_back_addr: Multiaddr,
    },
    /// A listener closed, of itself or with the error in `reason`.
    ListenerClosed { listener_id: ListenerId, reason: Result<(), TErr> },
    /// A listener met an error and goes on listening.
    ListenerError { listener_id: ListenerId, error: TErr },
}

/// `mapped` is `ev` with the error it carries sent through `map`. The variant,
/// the listener, the addresses and a connection's output are those of `ev`.
pub open spec fn event_error_mapped<TOut, E1, E2, F: FnOnce(E1) -> E2>(
    ev: TransportEvent<TOut, E1>,
    mapped: TransportEvent<TOut, E2>,
    map: F,
) -> bool {
    match ev {
        TransportEvent::NewAddress { listener_id, listen_addr } => mapped == (TransportEvent::<
            TOut,
            E2,
        >::NewAddress { listener_id, listen_addr }),
        TransportEvent::AddressExpired { listener_id, listen_addr } => mapped == (TransportEvent::<
            TOut,
            E2,
        >::AddressExpired { listener_id, listen_addr }),
        TransportEvent::Incoming { listener_id, output, local_addr, send_back_addr } => {
            &&& mapped is Incoming
            &&& mapped->Incoming_listener_id == listener_id
            &&& mapped->local_addr == local_addr
            &&& mapped->send_back_addr == send_back_addr
            &&& result_mapped(output, mapped->output, map)
        },
        TransportEvent::ListenerClosed { listener_id, reason } => {
            &&& mapped is ListenerClosed
            &&& mapped->ListenerClosed_listener_id == listener_id
            &&& result_mapped(reason, mapped->reason, map)
        },
        TransportEvent::ListenerError { listener_id, error } => {
            &&& mapped is ListenerError
            &&& mapped->ListenerError_listener_id == listener_id
            &&& call_ensures(map, (error,), mapped->error)
        },
    }
}

/// `mapped` is `ev` with the output of an incoming connection sent through
/// `map`. Everything else, the errors too, is that of `ev`.
pub open spec fn event_output_mapped<O1, O2, TErr, F: FnOnce(O1) -> O2>(
    ev: TransportEvent<O1, TErr>,
    mapped: TransportEvent<O2, TErr>,
    map: F,
) -> bool {
    match ev {
        TransportEvent::NewAddress { listener_id, listen_addr } => mapped == (TransportEvent::<
            O2,
            TErr,
        >::NewAddress { listener_id, listen_addr }),
        TransportEvent::AddressExpired { listener_id, listen_addr } => mapped == (TransportEvent::<
            O2,
            TErr,
        >::AddressExpired { listener_id, listen_addr }),
        TransportEvent::Incoming { listener_id, output, local_addr, send_back_addr } => {
            &&& mapped is Incoming
            &&& mapped->Incoming_listener_id == listener_id
            &&& mapped->local_addr == local_addr
            &&& mapped->send_back_addr == send_back_addr
            &&& match output {
                Ok(out) => mapped->output is Ok && call_ensures(map, (out,), mapped->output->Ok_0),
                Err(e) => mapped->output == Err::<O2, TErr>(e),
            }
        },
        TransportEvent::ListenerClosed { listener_id, reason } => mapped == (TransportEvent::<
            O2,
            TErr,
        >::ListenerClosed { listener_id, reason }),
        TransportEvent::ListenerError { listener_id, error } => mapped == (TransportEvent::<
            O2,
            TErr,
        >::ListenerError { listener_id, error }),
    }
}

/// An event whose error was sent through `map` is about the same listener,
/// names the same addresses and holds the same output as before. It carries an
/// error exactly if it carried one before, and that error is what `map`
/// returns for the one before.
pub proof fn lemma_error_mapped_event<TOut, E1, E2, F: FnOnce(E1) -> E2>(
    ev: TransportEvent<TOut, E1>,
    mapped: TransportEvent<TOut, E2>,
    map: F,
)
    requires
        event_error_mapped(ev, mapped, map),
    ensures
        mapped.listener() == ev.listener(),
        mapped.addresses() == ev.addresses(),
        mapped.output() == ev.output(),
        mapped.error() is Some <==> ev.error() is Some,
        ev.error() matches Some(e) ==> call_ensures(map, (e,), mapped.error()->0),
        ev is NewAddress <==> mapped is NewAddress,
        ev is AddressExpired <==> mapped is AddressExpired,
        ev is Incoming <==> mapped is Incoming,
        ev is ListenerClosed <==> mapped is ListenerClosed,
        ev is ListenerError <==> mapped is ListenerError,
{
}

impl<TOut, TErr> TransportEvent<TOut, TErr> {
    /// The listener that the event is about.
    pub open spec fn listener(self) -> ListenerId {
        match self {
            TransportEvent::NewAddress { listener_id, .. } => listener_id,
            TransportEvent::AddressExpired { listener_id, .. } => listener_id,
            TransportEvent::Incoming { listener_id, .. } => listener_id,
            TransportEvent::ListenerClosed { listener_id, .. } => listener_id,
            TransportEvent::ListenerError { listener_id, .. } => listener_id,
        }
    }

    /// The error that the event carries, in whichever place: that of a failed
    /// incoming connection, that with which a listener closed, or that of a
    /// listener that goes on.
    pub open spec fn error(self) -> Option<TErr> {
        match self {
            TransportEvent::Incoming { output: Err(e), .. } => Some(e),
            TransportEvent::ListenerClosed { reason: Err(e), .. } => Some(e),
            TransportEvent::ListenerError { error, .. } => Some(error),
            _ => None,
        }
    }

    /// The addresses that the event names, in the order of its fields.
    pub open spec fn addresses(self) -> Seq<Multiaddr> {
        match self {
            TransportEvent::NewAddress { listen_addr, .. } => seq![listen_addr],
            TransportEvent::AddressExpired { listen_addr, .. } => seq![listen_addr],
            TransportEvent::Incoming { local_addr, send_back_addr, .. } => seq![
                local_addr,
                send_back_addr,
            ],
            _ => Seq::empty(),
        }
    }

    /// The output of an incoming connection that succeeded.
    pub open spec fn output(self) -> Option<TOut> {
        match self {
            TransportEvent::Incoming { output: Ok(out), .. } => Some(out),
            _ => None,
        }
    }

    /// Sends the output of an incoming connection through `map`.
    pub fn map_out<U, F: FnOnce(TOut) -> U>(self, map: F) -> (mapped: TransportEvent<U, TErr>)
        requires
            self.output() matches Some(out) ==> call_requires(map, (out,)),
        ensures
            event_output_mapped(self, mapped, map),
    {
        match self {
            TransportEvent::NewAddress { listener_id, listen_addr } => TransportEvent::NewAddress {
                listener_id,
                listen_addr,
            },
            TransportEvent::AddressExpired {
                listener_id,
                listen_addr,
            } => TransportEvent::AddressExpired { listener_id, listen_addr },
            TransportEvent::Incoming {
                listener_id,
                output,
                local_addr,
                send_back_addr,
            } => TransportEvent::Incoming {
                listener_id,
                output: output.map(map),
                local_addr,
                send_back_addr,
            },
            TransportEvent::ListenerClosed {
                listener_id,
                reason,
            } => TransportEvent::ListenerClosed { listener_id, reason },
            TransportEvent::ListenerError { listener_id, error } => TransportEvent::ListenerError {
                listener_id,
                error,
            },
        }
    }

    /// Sends the error that the event carries through `map`, in whichever
    /// place it stands.
    pub fn map_err<E, F: FnOnce(TErr) -> E>(self, map: F) -> (mapped: TransportEvent<TOut, E>)
        requires
            self.error() matches Some(e) ==> call_requires(map, (e,)),
        ensures
            event_error_mapped(self, mapped, map),
    {
        match self {
            TransportEvent::NewAddress { listener_id, listen_addr } => TransportEvent::NewAddress {
                listener_id,
                listen_addr,
            },
            TransportEvent::AddressExpired {
                listener_id,
                listen_addr,
            } => TransportEvent::AddressExpired { listener_id, listen_addr },
            TransportEvent::Incoming {
                listener_id,
                output,
                local_addr,
                send_back_addr,
            } => TransportEvent::Incoming {
                listener_id,
                output: output.map_err(map),
                local_addr,
                send_back_addr,
            },
            TransportEvent::ListenerClosed {
                listener_id,
                reason,
            } => TransportEvent::ListenerClosed { listener_id, reason: reason.map_err(map) },
            TransportEvent::ListenerError { listener_id, error } => TransportEvent::ListenerError {
                listener_id,
                error: map(error),
            },
        }
    }
}

} // verus!
