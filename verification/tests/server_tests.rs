use ecast::input_handler::InputHandler;
use ecast::server::{ShutdownSignal, TcpCaster};
use ecast::topic::RecvOutcome;

#[test]
fn shutdown_signal_fires_once_and_stays_fired() {
    let mut signal = ShutdownSignal::new();
    assert!(!signal.is_fired());
    signal.fire();
    assert!(signal.is_fired());
    // a second fire is a no-op
    signal.fire();
    assert!(signal.is_fired());
}

#[test]
fn stop_reaps_every_outstanding_connection() {
    let mut server = TcpCaster::new();
    let first = server.on_accept().unwrap();
    let second = server.on_accept().unwrap();
    assert_ne!(first, second);
    assert_eq!(server.active_connections(), 2);
    // one connection finishes on its own and is reaped
    server.on_conn_exit(first);
    assert_eq!(server.active_connections(), 1);
    // stopping mid-forward cancels and reaps the rest before returning
    server.disconnect();
    assert_eq!(server.active_connections(), 0);
    assert!(server.on_accept().is_none());
}

#[test]
fn repeated_start_stop_cycles_leak_nothing() {
    for _ in 0..3 {
        let mut server = TcpCaster::new();
        let id = server.on_accept().unwrap();
        assert_eq!(server.active_connections(), 1);
        server.disconnect();
        assert_eq!(server.active_connections(), 0);
        server.on_conn_exit(id);
        assert_eq!(server.active_connections(), 0);
    }
}

#[test]
fn accept_errors_do_not_change_the_registry() {
    let mut server = TcpCaster::new();
    let kept = server.on_accept().unwrap();
    // a transient accept failure is skipped: nothing was registered, and
    // the server keeps listening
    assert_eq!(server.active_connections(), 1);
    let next = server.on_accept().unwrap();
    assert_ne!(kept, next);
    server.disconnect();
}

#[test]
fn handler_without_stream_hands_out_no_cursor() {
    let handler = InputHandler::new();
    assert!(handler.subscribe().is_none());
    assert!(!handler.stop_was_requested());
}

#[test]
fn handler_lifecycle_from_connect_to_stop() {
    let mut handler = InputHandler::new_connect();
    let mut cursor = handler.subscribe().unwrap();
    handler.on_line(b"hello\n".to_vec());
    let got = cursor.recv(handler.topic_ref());
    assert!(matches!(got, RecvOutcome::Line(l) if l == b"hello\n".to_vec()));
    handler.request_stop();
    assert!(handler.stop_was_requested());
    handler.stop();
    // torn down: no further cursors, and existing cursors terminate
    assert!(handler.subscribe().is_none());
    let got = cursor.recv(handler.topic_ref());
    assert!(matches!(got, RecvOutcome::Closed));
}

#[test]
fn stream_end_is_propagated_to_subscribers() {
    let mut handler = InputHandler::new_connect();
    let mut cursor = handler.subscribe().unwrap();
    handler.on_line(b"only\n".to_vec());
    handler.on_stream_end();
    // subscribing is still possible after natural stream end
    let mut late = handler.subscribe().unwrap();
    let got = cursor.recv(handler.topic_ref());
    assert!(matches!(got, RecvOutcome::Line(l) if l == b"only\n".to_vec()));
    let got = cursor.recv(handler.topic_ref());
    assert!(matches!(got, RecvOutcome::Closed));
    let got = late.recv(handler.topic_ref());
    assert!(matches!(got, RecvOutcome::Closed));
}
