use futures::executor::block_on;
use futures::task::noop_waker;
use multiaddr::Multiaddr;
use std::sync::atomic::AtomicUsize;
use std::sync::atomic::Ordering;
use std::future::Future;
use std::pin::Pin;
use std::sync::Arc;
use std::task::Context;
use std::task::Poll;
use transport::map_err::map_dial_result;
use transport::map_err::map_listen_result;
use transport::map_err::map_poll_result;
use transport::Dial;
use transport::ListenerId;
use transport::TransportError;
use transport::TransportEvent;

fn addr(text: &str) -> Multiaddr {
    text.parse().unwrap()
}

fn double(e: u32) -> u64 {
    u64::from(e) * 2
}

fn counter() -> &'static AtomicUsize {
    Box::leak(Box::new(AtomicUsize::new(0)))
}

struct DropFlag(Arc<AtomicUsize>);

impl Drop for DropFlag {
    fn drop(&mut self) {
        self.0.fetch_add(1, Ordering::SeqCst);
    }
}

#[test]
fn listener_id_keeps_its_number() {
    assert_eq!(ListenerId::new(0).raw(), 0);
    assert_eq!(ListenerId::new(42).raw(), 42);
    assert_eq!(ListenerId::new(u64::MAX).raw(), u64::MAX);
}

#[test]
fn listener_ids_are_equal_by_number() {
    assert_eq!(ListenerId::new(7), ListenerId::new(7));
    assert_ne!(ListenerId::new(7), ListenerId::new(8));
    let id = ListenerId::new(3);
    let copy = id;
    assert_eq!(id, copy);
}

#[test]
fn error_map_rewrites_other() {
    let err: TransportError<u32> = TransportError::Other(21);
    match err.map(double) {
        TransportError::Other(e) => assert_eq!(e, 42u64),
        other => panic!("unexpected {other:?}"),
    }
}

#[test]
fn error_map_keeps_unsupported_address() {
    let calls = counter();
    let a = addr("/ip4/0.0.0.0/tcp/0");
    let err: TransportError<u32> = TransportError::MultiaddrNotSupported(a.clone());
    let mapped = err.map(move |e: u32| {
        calls.fetch_add(1, Ordering::SeqCst);
        e.to_string()
    });
    match mapped {
        TransportError::MultiaddrNotSupported(kept) => assert_eq!(kept, a),
        other => panic!("unexpected {other:?}"),
    }
    assert_eq!(calls.load(Ordering::SeqCst), 0);
}

#[test]
fn event_map_err_rewrites_failed_incoming() {
    let ev: TransportEvent<&str, u32> = TransportEvent::Incoming {
        listener_id: ListenerId::new(5),
        output: Err(4),
        local_addr: addr("/ip4/127.0.0.1/tcp/1000"),
        send_back_addr: addr("/ip4/10.0.0.1/tcp/2000"),
    };
    match ev.map_err(double) {
        TransportEvent::Incoming { listener_id, output, local_addr, send_back_addr } => {
            assert_eq!(listener_id, ListenerId::new(5));
            assert_eq!(output, Err(8u64));
            assert_eq!(local_addr, addr("/ip4/127.0.0.1/tcp/1000"));
            assert_eq!(send_back_addr, addr("/ip4/10.0.0.1/tcp/2000"));
        }
        other => panic!("unexpected {other:?}"),
    }
}

#[test]
fn event_map_err_keeps_successful_incoming() {
    let calls = counter();
    let ev: TransportEvent<&str, u32> = TransportEvent::Incoming {
        listener_id: ListenerId::new(5),
        output: Ok("connection"),
        local_addr: addr("/ip4/127.0.0.1/tcp/1000"),
        send_back_addr: addr("/ip4/10.0.0.1/tcp/2000"),
    };
    let mapped = ev.map_err(move |e: u32| {
        calls.fetch_add(1, Ordering::SeqCst);
        double(e)
    });
    match mapped {
        TransportEvent::Incoming { listener_id, output, local_addr, send_back_addr } => {
            assert_eq!(listener_id, ListenerId::new(5));
            assert_eq!(output, Ok("connection"));
            assert_eq!(local_addr, addr("/ip4/127.0.0.1/tcp/1000"));
            assert_eq!(send_back_addr, addr("/ip4/10.0.0.1/tcp/2000"));
        }
        other => panic!("unexpected {other:?}"),
    }
    assert_eq!(calls.load(Ordering::SeqCst), 0);
}

#[test]
fn event_map_err_keeps_address_events() {
    let new: TransportEvent<(), u32> = TransportEvent::NewAddress {
        listener_id: ListenerId::new(1),
        listen_addr: addr("/ip4/127.0.0.1/tcp/1"),
    };
    match new.map_err(double) {
        TransportEvent::NewAddress { listener_id, listen_addr } => {
            assert_eq!(listener_id, ListenerId::new(1));
            assert_eq!(listen_addr, addr("/ip4/127.0.0.1/tcp/1"));
        }
        other => panic!("unexpected {other:?}"),
    }
    let expired: TransportEvent<(), u32> = TransportEvent::AddressExpired {
        listener_id: ListenerId::new(2),
        listen_addr: addr("/ip4/127.0.0.1/tcp/2"),
    };
    match expired.map_err(double) {
        TransportEvent::AddressExpired { listener_id, listen_addr } => {
            assert_eq!(listener_id, ListenerId::new(2));
            assert_eq!(listen_addr, addr("/ip4/127.0.0.1/tcp/2"));
        }
        other => panic!("unexpected {other:?}"),
    }
}

#[test]
fn event_map_err_rewrites_listener_errors() {
    let closed: TransportEvent<(), u32> =
        TransportEvent::ListenerClosed { listener_id: ListenerId::new(3), reason: Err(10) };
    match closed.map_err(double) {
        TransportEvent::ListenerClosed { listener_id, reason } => {
            assert_eq!(listener_id, ListenerId::new(3));
            assert_eq!(reason, Err(20u64));
        }
        other => panic!("unexpected {other:?}"),
    }
    let clean: TransportEvent<(), u32> =
        TransportEvent::ListenerClosed { listener_id: ListenerId::new(3), reason: Ok(()) };
    match clean.map_err(double) {
        TransportEvent::ListenerClosed { listener_id, reason } => {
            assert_eq!(listener_id, ListenerId::new(3));
            assert_eq!(reason, Ok(()));
        }
        other => panic!("unexpected {other:?}"),
    }
    let error: TransportEvent<(), u32> =
        TransportEvent::ListenerError { listener_id: ListenerId::new(4), error: 11 };
    match error.map_err(double) {
        TransportEvent::ListenerError { listener_id, error } => {
            assert_eq!(listener_id, ListenerId::new(4));
            assert_eq!(error, 22u64);
        }
        other => panic!("unexpected {other:?}"),
    }
}

#[test]
fn event_map_out_rewrites_only_the_output() {
    let ev: TransportEvent<u32, &str> = TransportEvent::Incoming {
        listener_id: ListenerId::new(5),
        output: Ok(4),
        local_addr: addr("/ip4/127.0.0.1/tcp/1000"),
        send_back_addr: addr("/ip4/10.0.0.1/tcp/2000"),
    };
    match ev.map_out(double) {
        TransportEvent::Incoming { listener_id, output, local_addr, send_back_addr } => {
            assert_eq!(listener_id, ListenerId::new(5));
            assert_eq!(output, Ok(8u64));
            assert_eq!(local_addr, addr("/ip4/127.0.0.1/tcp/1000"));
            assert_eq!(send_back_addr, addr("/ip4/10.0.0.1/tcp/2000"));
        }
        other => panic!("unexpected {other:?}"),
    }
    let failed: TransportEvent<u32, &str> = TransportEvent::Incoming {
        listener_id: ListenerId::new(5),
        output: Err("refused"),
        local_addr: addr("/ip4/127.0.0.1/tcp/1000"),
        send_back_addr: addr("/ip4/10.0.0.1/tcp/2000"),
    };
    match failed.map_out(double) {
        TransportEvent::Incoming { output, .. } => assert_eq!(output, Err("refused")),
        other => panic!("unexpected {other:?}"),
    }
    let error: TransportEvent<u32, &str> =
        TransportEvent::ListenerError { listener_id: ListenerId::new(4), error: "broken" };
    match error.map_out(double) {
        TransportEvent::ListenerError { listener_id, error } => {
            assert_eq!(listener_id, ListenerId::new(4));
            assert_eq!(error, "broken");
        }
        other => panic!("unexpected {other:?}"),
    }
}

#[test]
fn listen_result_keeps_token_and_rewrites_error() {
    let ok: Result<ListenerId, TransportError<u32>> = Ok(ListenerId::new(9));
    match map_listen_result(ok, double) {
        Ok(id) => assert_eq!(id, ListenerId::new(9)),
        Err(e) => panic!("unexpected {e:?}"),
    }
    let failed: Result<ListenerId, TransportError<u32>> = Err(TransportError::Other(50));
    match map_listen_result(failed, double) {
        Err(TransportError::Other(e)) => assert_eq!(e, 100u64),
        other => panic!("unexpected {other:?}"),
    }
}

#[test]
fn poll_result_keeps_pending() {
    let pending: Poll<TransportEvent<(), u32>> = Poll::Pending;
    assert!(matches!(map_poll_result(pending, double), Poll::Pending));
}

#[test]
fn poll_result_rewrites_ready_event() {
    let ready: Poll<TransportEvent<(), u32>> =
        Poll::Ready(TransportEvent::ListenerError { listener_id: ListenerId::new(1), error: 3 });
    match map_poll_result(ready, double) {
        Poll::Ready(TransportEvent::ListenerError { listener_id, error }) => {
            assert_eq!(listener_id, ListenerId::new(1));
            assert_eq!(error, 6u64);
        }
        other => panic!("unexpected {other:?}"),
    }
}

#[test]
fn dial_gives_the_result_of_its_future() {
    let ok: Dial<u8, u32> = Dial::new(async { Ok(7) });
    assert_eq!(block_on(ok), Ok(7));
    let failed: Dial<u8, u32> = Dial::new(async { Err(13) });
    assert_eq!(block_on(failed), Err(13));
}

fn started(dial: Dial<u8, u32>) -> Result<Dial<u8, u32>, TransportError<u32>> {
    Ok(dial)
}

#[test]
fn mapped_dial_rewrites_the_error_it_comes_to() {
    let failed = started(Dial::new(async { Err(13) }));
    let mapped = map_dial_result(failed, double).ok().unwrap();
    assert_eq!(block_on(mapped), Err(26u64));
}

#[test]
fn mapped_dial_keeps_the_output() {
    let calls = counter();
    let ok = started(Dial::new(async { Ok(7) }));
    let mapped = map_dial_result(ok, move |e: u32| {
        calls.fetch_add(1, Ordering::SeqCst);
        double(e)
    });
    assert_eq!(block_on(mapped.ok().unwrap()), Ok(7));
    assert_eq!(calls.load(Ordering::SeqCst), 0);
}

#[test]
fn mapped_dial_runs_nothing_before_it_is_polled() {
    let calls = counter();
    let failed = started(Dial::new(async { Err(1) }));
    let mapped = map_dial_result(failed, move |e: u32| {
        calls.fetch_add(1, Ordering::SeqCst);
        double(e)
    });
    assert_eq!(calls.load(Ordering::SeqCst), 0);
    assert_eq!(block_on(mapped.ok().unwrap()), Err(2u64));
    assert_eq!(calls.load(Ordering::SeqCst), 1);
}

#[test]
fn dropping_a_mapped_dial_drops_the_future_it_wraps() {
    let drops = Arc::new(AtomicUsize::new(0));
    let flag = DropFlag(drops.clone());
    let inner: Dial<u8, u32> = Dial::new(async move {
        futures::future::pending::<()>().await;
        drop(flag);
        Ok(1)
    });
    let mapped = map_dial_result(started(inner), double).ok().unwrap();
    assert_eq!(drops.load(Ordering::SeqCst), 0);
    drop(mapped);
    assert_eq!(drops.load(Ordering::SeqCst), 1);
}

#[test]
fn dial_result_rewrites_both_kinds_of_error() {
    let at_once: Result<Dial<u8, u32>, TransportError<u32>> = Err(TransportError::Other(5));
    match map_dial_result(at_once, double) {
        Err(TransportError::Other(e)) => assert_eq!(e, 10u64),
        Err(other) => panic!("unexpected {other:?}"),
        Ok(_) => panic!("unexpected attempt"),
    }
    let later: Result<Dial<u8, u32>, TransportError<u32>> = Ok(Dial::new(async { Err(6) }));
    match map_dial_result(later, double) {
        Ok(dial) => assert_eq!(block_on(dial), Err(12u64)),
        Err(other) => panic!("unexpected {other:?}"),
    }
    let fine: Result<Dial<u8, u32>, TransportError<u32>> = Ok(Dial::new(async { Ok(9) }));
    match map_dial_result(fine, double) {
        Ok(dial) => assert_eq!(block_on(dial), Ok(9)),
        Err(other) => panic!("unexpected {other:?}"),
    }
    let a = addr("/ip4/0.0.0.0/tcp/0");
    let unsupported: Result<Dial<u8, u32>, TransportError<u32>> =
        Err(TransportError::MultiaddrNotSupported(a.clone()));
    match map_dial_result(unsupported, double) {
        Err(TransportError::MultiaddrNotSupported(kept)) => assert_eq!(kept, a),
        Err(other) => panic!("unexpected {other:?}"),
        Ok(_) => panic!("unexpected attempt"),
    }
}

#[test]
fn finished_dial_can_be_polled_again() {
    let waker = noop_waker();
    let mut cx = Context::from_waker(&waker);
    let mut dial: Dial<u8, u32> = Dial::new(async { Ok(7) });
    assert_eq!(Pin::new(&mut dial).poll(&mut cx), Poll::Ready(Ok(7)));
    assert_eq!(Pin::new(&mut dial).poll(&mut cx), Poll::Pending);
    assert_eq!(Pin::new(&mut dial).poll(&mut cx), Poll::Pending);
}

#[test]
fn finished_mapped_dial_can_be_polled_again() {
    let calls = counter();
    let waker = noop_waker();
    let mut cx = Context::from_waker(&waker);
    let failed = started(Dial::new(async { Err(4) }));
    let mut mapped = map_dial_result(failed, move |e: u32| {
        calls.fetch_add(1, Ordering::SeqCst);
        double(e)
    })
    .ok()
    .unwrap();
    assert_eq!(Pin::new(&mut mapped).poll(&mut cx), Poll::Ready(Err(8u64)));
    assert_eq!(Pin::new(&mut mapped).poll(&mut cx), Poll::Pending);
    assert_eq!(Pin::new(&mut mapped).poll(&mut cx), Poll::Pending);
    assert_eq!(calls.load(Ordering::SeqCst), 1);
}

#[test]
fn twice_mapped_dial_can_be_polled_again() {
    let waker = noop_waker();
    let mut cx = Context::from_waker(&waker);
    let once = map_dial_result(started(Dial::new(async { Err(4) })), double);
    let mut twice = map_dial_result(once, |e: u64| e + 1).ok().unwrap();
    assert_eq!(Pin::new(&mut twice).poll(&mut cx), Poll::Ready(Err(9u64)));
    assert_eq!(Pin::new(&mut twice).poll(&mut cx), Poll::Pending);
}

#[test]
fn pending_dial_stays_pending_until_it_is_done() {
    let waker = noop_waker();
    let mut cx = Context::from_waker(&waker);
    let mut dial: Dial<u8, u32> = Dial::new(futures::future::pending());
    assert_eq!(Pin::new(&mut dial).poll(&mut cx), Poll::Pending);
    assert_eq!(Pin::new(&mut dial).poll(&mut cx), Poll::Pending);
}
