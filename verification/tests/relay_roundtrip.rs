//! The mailbox relay over its real lock-free queues.

use battlebots::relay::Relay;
use battlebots::rpc::{BotState, Message, Response};

#[test]
fn round_trip_preserves_count_and_order() {
    // Send N outbound records, let a stub process answer each with a
    // fixed response list, and read all N answers back in order.
    let n: u64 = 5;
    let mut relay = Relay::new();

    for i in 0..n {
        relay.send_msg((BotState::default(), Message::Step { elapsed: i }));
    }

    // The stub process: one answer list per outbound record, echoing the
    // record's number back as a thrust value.
    loop {
        match relay.recv_msg() {
            Some((_state, Message::Step { elapsed })) => {
                relay.send_resps(vec![Response::SetThrust(elapsed as i64)]);
            }
            Some(_) => panic!("unexpected message kind"),
            None => break,
        }
    }

    for i in 0..n {
        let resps = relay.try_recv_resps().expect("answer arrived");
        assert_eq!(resps, vec![Response::SetThrust(i as i64)]);
    }
    assert!(relay.try_recv_resps().is_none());
}

#[test]
fn try_recv_is_non_blocking_on_an_empty_relay() {
    let mut relay = Relay::new();
    assert!(relay.try_recv_resps().is_none());
    assert!(relay.recv_msg().is_none());
}

#[test]
fn default_relay_is_empty() {
    let mut relay = Relay::default();
    assert!(relay.recv_msg().is_none());
}
