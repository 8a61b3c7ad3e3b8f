use tcp_relay::copier::{Copier, CopyAction, ReadOutcome, WriteFollowUp};
use tcp_relay::listener::{on_accept_result, AcceptDecision};
use tcp_relay::pair::{pair_up, Dir, Pair};

fn fresh_pair() -> Pair {
    match pair_up(true) {
        Ok(p) => p,
        Err(_) => panic!("pairing with a reachable target must succeed"),
    }
}

#[test]
fn forward_bytes_in_order() {
    let mut c = Copier::new();
    let a = c.on_read(ReadOutcome::Bytes(b"hello".to_vec()));
    match a {
        CopyAction::Forward(v) => assert_eq!(v, b"hello".to_vec()),
        CopyAction::Teardown => panic!("a nonempty chunk must be forwarded"),
    }
    assert_eq!(c.on_written(true), WriteFollowUp::ReadAgain);
    let a = c.on_read(ReadOutcome::Bytes(b", world".to_vec()));
    match a {
        CopyAction::Forward(v) => assert_eq!(v, b", world".to_vec()),
        CopyAction::Teardown => panic!("a nonempty chunk must be forwarded"),
    }
    assert_eq!(c.on_written(true), WriteFollowUp::ReadAgain);
    assert!(!c.is_done());
}

#[test]
fn end_of_stream_terminates() {
    let mut c = Copier::new();
    let a = c.on_read(ReadOutcome::End);
    assert!(matches!(a, CopyAction::Teardown));
    assert!(c.is_done());
}

#[test]
fn zero_byte_read_means_end_of_stream() {
    let mut c = Copier::new();
    let a = c.on_read(ReadOutcome::Bytes(Vec::new()));
    assert!(matches!(a, CopyAction::Teardown));
    assert!(c.is_done());
}

#[test]
fn read_error_demands_teardown() {
    let mut c = Copier::new();
    let a = c.on_read(ReadOutcome::Failed);
    assert!(matches!(a, CopyAction::Teardown));
    assert!(c.is_done());
}

#[test]
fn write_error_demands_teardown() {
    let mut c = Copier::new();
    let a = c.on_read(ReadOutcome::Bytes(b"x".to_vec()));
    assert!(matches!(a, CopyAction::Forward(_)));
    assert_eq!(c.on_written(false), WriteFollowUp::Teardown);
    assert!(c.is_done());
}

#[test]
fn ping_round_trip_and_close() {
    // A client sends b"ping" through the relay to an echo target; the echo
    // comes back through the other direction; then the client closes, and the
    // teardown must shut the target connection down too.
    let mut p = fresh_pair();

    let a = p.on_read(Dir::ClientToTarget, ReadOutcome::Bytes(b"ping".to_vec()));
    let to_target = match a {
        CopyAction::Forward(v) => v,
        CopyAction::Teardown => panic!("the ping must be forwarded to the target"),
    };
    assert_eq!(to_target, b"ping".to_vec());
    assert_eq!(p.on_written(Dir::ClientToTarget, true), WriteFollowUp::ReadAgain);

    // the echo target sends the same bytes back
    let a = p.on_read(Dir::TargetToClient, ReadOutcome::Bytes(to_target));
    let to_client = match a {
        CopyAction::Forward(v) => v,
        CopyAction::Teardown => panic!("the echo must be forwarded to the client"),
    };
    assert_eq!(to_client, b"ping".to_vec());
    assert_eq!(p.on_written(Dir::TargetToClient, true), WriteFollowUp::ReadAgain);

    // the client closes: the client->target copier sees end of stream
    let a = p.on_read(Dir::ClientToTarget, ReadOutcome::End);
    assert!(matches!(a, CopyAction::Teardown));
    p.teardown();
    assert!(p.client_is_shut());
    assert!(p.target_is_shut());

    // the sibling copier observes the shutdown as end of stream and stops
    let a = p.on_read(Dir::TargetToClient, ReadOutcome::End);
    assert!(matches!(a, CopyAction::Teardown));
    assert!(p.c2t.is_done());
    assert!(p.t2c.is_done());
}

#[test]
fn teardown_is_idempotent() {
    let mut p = fresh_pair();
    p.teardown();
    assert!(p.client_is_shut());
    assert!(p.target_is_shut());
    // the sibling copier races and tears the same pair down again: no panic,
    // nothing changes
    p.teardown();
    assert!(p.client_is_shut());
    assert!(p.target_is_shut());
}

#[test]
fn connect_failure_closes_client_only() {
    // A target that is not listening: pairing fails, the client must be shut
    // down, and the listener must keep accepting.
    let r = pair_up(false);
    assert!(r.is_err());
    assert_eq!(on_accept_result(true), AcceptDecision::HandleConnection);

    // an existing pair is unaffected by the failed attempt
    let mut other = fresh_pair();
    let a = other.on_read(Dir::ClientToTarget, ReadOutcome::Bytes(b"still alive".to_vec()));
    match a {
        CopyAction::Forward(v) => assert_eq!(v, b"still alive".to_vec()),
        CopyAction::Teardown => panic!("the other pair must keep relaying"),
    }
}

#[test]
fn accept_error_keeps_listening() {
    assert_eq!(on_accept_result(false), AcceptDecision::KeepListening);
    // the next accept is handled as usual
    assert_eq!(on_accept_result(true), AcceptDecision::HandleConnection);
}

#[test]
fn directions_are_independent() {
    // Heavy one-way traffic: the idle direction's copier never moves.
    let mut p = fresh_pair();
    for i in 0..100u8 {
        let chunk = vec![i; 64];
        let a = p.on_read(Dir::ClientToTarget, ReadOutcome::Bytes(chunk.clone()));
        match a {
            CopyAction::Forward(v) => assert_eq!(v, chunk),
            CopyAction::Teardown => panic!("traffic must keep flowing"),
        }
        assert_eq!(p.on_written(Dir::ClientToTarget, true), WriteFollowUp::ReadAgain);
        assert!(!p.t2c.is_done());
        assert!(!p.client_is_shut());
        assert!(!p.target_is_shut());
    }
    // the idle direction still relays normally afterwards
    let a = p.on_read(Dir::TargetToClient, ReadOutcome::Bytes(b"late reply".to_vec()));
    match a {
        CopyAction::Forward(v) => assert_eq!(v, b"late reply".to_vec()),
        CopyAction::Teardown => panic!("the idle direction must still relay"),
    }
}

#[test]
fn concurrent_pairs_no_cross_talk() {
    // Two simultaneous pairs with tagged payloads: each pair forwards only
    // its own bytes, and one pair's teardown leaves the other relaying.
    let mut p1 = fresh_pair();
    let mut p2 = fresh_pair();

    let a1 = p1.on_read(Dir::ClientToTarget, ReadOutcome::Bytes(b"pair-one".to_vec()));
    let a2 = p2.on_read(Dir::ClientToTarget, ReadOutcome::Bytes(b"pair-two".to_vec()));
    match a1 {
        CopyAction::Forward(v) => assert_eq!(v, b"pair-one".to_vec()),
        CopyAction::Teardown => panic!("pair one must forward its payload"),
    }
    match a2 {
        CopyAction::Forward(v) => assert_eq!(v, b"pair-two".to_vec()),
        CopyAction::Teardown => panic!("pair two must forward its payload"),
    }
    assert_eq!(p1.on_written(Dir::ClientToTarget, true), WriteFollowUp::ReadAgain);
    assert_eq!(p2.on_written(Dir::ClientToTarget, true), WriteFollowUp::ReadAgain);

    p1.teardown();
    assert!(p1.client_is_shut());
    assert!(!p2.client_is_shut());
    assert!(!p2.target_is_shut());
    let a = p2.on_read(Dir::TargetToClient, ReadOutcome::Bytes(b"two-reply".to_vec()));
    match a {
        CopyAction::Forward(v) => assert_eq!(v, b"two-reply".to_vec()),
        CopyAction::Teardown => panic!("pair two must be unaffected"),
    }
}
