use duplex::endpoint::Endpoint;
use duplex::event::{ClientAddr, Direction, Event, RejectReason, RelayError};
use duplex::relay::{relay_streams, RelaySession};
use duplex::slot::{BackendConn, BackendSlot};
use duplex::supervisor::{completion_event, AcceptAction, Supervisor};

fn addr(port: u16) -> ClientAddr {
    ClientAddr { a: 127, b: 0, c: 0, d: 1, port }
}

#[test]
fn shared_slot_exactly_one_winner() {
    let conn = BackendConn { id: 42 };
    let mut slot = BackendSlot::ready(conn);
    assert!(slot.is_ready());
    assert_eq!(slot.acquire(), Some(conn));
    assert!(!slot.is_ready());
    assert_eq!(slot.acquire(), None);
    // After the winning session would have completed: still no reuse.
    assert_eq!(slot.acquire(), None);
}

#[test]
fn shared_mode_second_client_rejected() {
    let conn = BackendConn { id: 1 };
    let mut sup = Supervisor::single_shared(conn);

    // First client wins the shared connection and relays end-to-end.
    let first = sup.on_accepted();
    assert_eq!(first, AcceptAction::Spawn { conn });
    let r = relay_streams(&vec![b"PING".to_vec()], &vec![b"PONG".to_vec()]);
    assert_eq!(r.outcome.bytes_up, 4);
    assert_eq!(r.outcome.bytes_down, 4);

    // Second client is turned away at once, zero bytes relayed.
    let second = sup.on_accepted();
    assert_eq!(second, AcceptAction::Reject { reason: RejectReason::SlotUnavailable });

    // Even after the first session is over, the slot is never Ready again.
    let third = sup.on_accepted();
    assert_eq!(third, AcceptAction::Reject { reason: RejectReason::SlotUnavailable });
}

#[test]
fn dial_mode_fresh_connection_per_client() {
    let mut sup = Supervisor::dial_per_client();

    assert_eq!(sup.on_accepted(), AcceptAction::RequestDial);
    let first = sup.on_dial_result(true);
    assert_eq!(first, AcceptAction::Spawn { conn: BackendConn { id: 0 } });

    assert_eq!(sup.on_accepted(), AcceptAction::RequestDial);
    let second = sup.on_dial_result(true);
    assert_eq!(second, AcceptAction::Spawn { conn: BackendConn { id: 1 } });

    // Independent backend connections: the two sessions share nothing.
    assert_ne!(first, second);
}

#[test]
fn dial_failure_rejects_without_relay() {
    let mut sup = Supervisor::dial_per_client();
    assert_eq!(sup.on_accepted(), AcceptAction::RequestDial);
    let a = sup.on_dial_result(false);
    assert_eq!(a, AcceptAction::Reject { reason: RejectReason::DialFailed });
    // The accept loop goes on unchanged: the next client still gets a dial.
    assert_eq!(sup.on_accepted(), AcceptAction::RequestDial);
    assert_eq!(
        sup.on_dial_result(true),
        AcceptAction::Spawn { conn: BackendConn { id: 0 } }
    );
}

#[test]
fn accepting_continues_after_session_closes() {
    let mut sup = Supervisor::dial_per_client();
    assert_eq!(sup.on_accepted(), AcceptAction::RequestDial);
    sup.on_dial_result(true);

    let mut s = RelaySession::new();
    s.on_data(Direction::Up, &b"PING".to_vec());
    s.on_data(Direction::Down, &b"PONG".to_vec());
    s.on_eof(Direction::Up);
    let e = completion_event(addr(9000), &s.outcome());
    assert!(matches!(
        e,
        Event::Closed { bytes_up: 4, bytes_down: 4, client: ClientAddr { port: 9000, .. } }
    ));

    // Both sides closed; the supervisor accepts the next client.
    assert_eq!(sup.on_accepted(), AcceptAction::RequestDial);
    assert_eq!(
        sup.on_dial_result(true),
        AcceptAction::Spawn { conn: BackendConn { id: 1 } }
    );
}

#[test]
fn completion_event_carries_failure() {
    let mut s = RelaySession::new();
    s.on_data(Direction::Down, &b"abc".to_vec());
    s.on_write_error(Direction::Down);
    let e = completion_event(addr(5555), &s.outcome());
    assert!(matches!(
        e,
        Event::Error { error: RelayError::Write { dir: Direction::Down }, .. }
    ));
}

#[test]
fn default_endpoints() {
    let l = Endpoint::default_listen();
    assert_eq!(l.host.as_str(), "localhost");
    assert_eq!(l.port, 8080);
    let b = Endpoint::default_backend();
    assert_eq!(b.host.as_str(), "localhost");
    assert_eq!(b.port, 8081);
}
