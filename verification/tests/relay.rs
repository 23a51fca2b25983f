use duplex::event::{Direction, RelayError, Side};
use duplex::relay::{relay_streams, RelaySession};

#[test]
fn full_duplex_exact_delivery() {
    let client_tx = vec![b"he".to_vec(), b"llo".to_vec()];
    let backend_tx = vec![b"wor".to_vec(), b"ld".to_vec(), b"!".to_vec()];
    let r = relay_streams(&client_tx, &backend_tx);
    assert_eq!(r.to_backend, b"hello".to_vec());
    assert_eq!(r.to_client, b"world!".to_vec());
    assert_eq!(r.outcome.bytes_up, 5);
    assert_eq!(r.outcome.bytes_down, 6);
    assert!(r.outcome.error.is_none());
}

#[test]
fn ping_pong_counts() {
    let r = relay_streams(&vec![b"PING".to_vec()], &vec![b"PONG".to_vec()]);
    assert_eq!(r.to_backend, b"PING".to_vec());
    assert_eq!(r.to_client, b"PONG".to_vec());
    assert_eq!(r.outcome.bytes_up, 4);
    assert_eq!(r.outcome.bytes_down, 4);
    assert!(r.outcome.error.is_none());
}

#[test]
fn empty_streams_close_cleanly() {
    let r = relay_streams(&vec![], &vec![]);
    assert_eq!(r.to_backend, Vec::<u8>::new());
    assert_eq!(r.to_client, Vec::<u8>::new());
    assert_eq!(r.outcome.bytes_up, 0);
    assert_eq!(r.outcome.bytes_down, 0);
    assert!(r.outcome.error.is_none());
}

#[test]
fn half_close_one_way_still_delivers() {
    // The client half-closes without sending; everything the backend sent
    // still reaches the client before teardown, and the run terminates.
    let r = relay_streams(&vec![], &vec![b"late".to_vec(), b" data".to_vec()]);
    assert_eq!(r.to_backend, Vec::<u8>::new());
    assert_eq!(r.to_client, b"late data".to_vec());
    assert_eq!(r.outcome.bytes_up, 0);
    assert_eq!(r.outcome.bytes_down, 9);
    assert!(r.outcome.error.is_none());
}

#[test]
fn session_eof_keeps_bytes_in_flight() {
    let mut s = RelaySession::new();
    s.on_data(Direction::Up, &b"abc".to_vec());
    s.on_data(Direction::Down, &b"xy".to_vec());
    assert!(!s.is_finished());
    s.on_eof(Direction::Up);
    assert!(s.is_finished());
    let o = s.outcome();
    assert_eq!(o.bytes_up, 3);
    assert_eq!(o.bytes_down, 2);
    assert!(o.error.is_none());
}

#[test]
fn read_error_classified_with_side_and_counts() {
    let mut s = RelaySession::new();
    s.on_data(Direction::Up, &b"partial".to_vec());
    s.on_read_error(Direction::Down);
    let o = s.outcome();
    assert_eq!(o.bytes_up, 7);
    assert_eq!(o.bytes_down, 0);
    let err = o.error.unwrap();
    assert!(matches!(err, RelayError::Read { dir: Direction::Down }));
    assert_eq!(err.side(), Side::Backend);
}

#[test]
fn write_error_classified_at_destination() {
    let mut s = RelaySession::new();
    s.on_write_error(Direction::Up);
    let o = s.outcome();
    let err = o.error.unwrap();
    assert!(matches!(err, RelayError::Write { dir: Direction::Up }));
    assert_eq!(err.side(), Side::Backend);
}

#[test]
fn shutdown_error_kept_only_as_first_failure() {
    let mut s = RelaySession::new();
    s.on_eof(Direction::Down);
    s.on_shutdown_error(Side::Client);
    let o = s.outcome();
    assert!(matches!(o.error, Some(RelayError::Shutdown { side: Side::Client })));

    let mut t = RelaySession::new();
    t.on_read_error(Direction::Up);
    t.on_shutdown_error(Side::Backend);
    let ot = t.outcome();
    assert!(matches!(ot.error, Some(RelayError::Read { dir: Direction::Up })));
}
