use std::time::Duration;

use planetwars_broker::adapter::{RemoteBotSpec, RequestPlan, CONNECTION_WAIT_SECS};
use planetwars_broker::bridge::handle_bot_message;
use planetwars_broker::correlator::{Correlator, RequestError};
use planetwars_broker::messages::{
    action_request, ClientMessage, PlayerAction, PlayerApiClientMessage, RequestMessage,
    ServerMessage,
};
use planetwars_broker::router::{PlayerRouter, Rendezvous};

fn request(request_id: u32, content: &str, timeout_secs: u64) -> RequestMessage {
    RequestMessage {
        request_id,
        content: content.as_bytes().to_vec(),
        timeout: Duration::from_secs(timeout_secs),
    }
}

fn answer(action_request_id: i32, content: &str) -> PlayerApiClientMessage {
    PlayerApiClientMessage {
        client_message: Some(ClientMessage::Action(PlayerAction {
            action_request_id,
            content: content.as_bytes().to_vec(),
        })),
    }
}

#[test]
fn first_resolution_wins_and_second_is_noop() {
    let mut bus: Correlator<&str> = Correlator::new();
    assert!(bus.register_request(1, 5, "waiter").is_ok());
    let first = bus.resolve_request(1, 5, Ok(b"move".to_vec())).expect("pending");
    assert_eq!(first.waiter, "waiter");
    assert_eq!(first.outcome, Ok(b"move".to_vec()));
    assert!(bus.time_out_request(1, 5).is_none());
    assert!(bus.resolve_request(1, 5, Ok(b"other".to_vec())).is_none());
    assert!(!bus.is_pending(1, 5));
}

#[test]
fn timeout_first_then_late_answer_is_noop() {
    let mut bus: Correlator<u32> = Correlator::new();
    assert!(bus.register_request(2, 9, 77).is_ok());
    let first = bus.time_out_request(2, 9).expect("pending");
    assert_eq!(first.waiter, 77);
    assert_eq!(first.outcome, Err(RequestError::Timeout));
    assert!(handle_bot_message(&mut bus, 2, answer(9, "late")).is_none());
}

#[test]
fn duplicate_registration_is_refused() {
    let mut bus: Correlator<&str> = Correlator::new();
    assert!(bus.register_request(1, 1, "first").is_ok());
    assert_eq!(bus.register_request(1, 1, "second"), Err("second"));
    let d = bus.time_out_request(1, 1).expect("pending");
    assert_eq!(d.waiter, "first");
}

#[test]
fn requests_of_other_players_are_isolated() {
    let mut bus: Correlator<u32> = Correlator::new();
    assert!(bus.register_request(1, 3, 13).is_ok());
    assert!(bus.register_request(2, 3, 23).is_ok());
    let d = handle_bot_message(&mut bus, 2, answer(3, "b")).expect("pending");
    assert_eq!(d.waiter, 23);
    assert!(bus.is_pending(1, 3));
    assert!(!bus.is_pending(2, 3));
}

#[test]
fn message_without_action_is_ignored() {
    let mut bus: Correlator<u32> = Correlator::new();
    assert!(bus.register_request(4, 1, 41).is_ok());
    let none = PlayerApiClientMessage { client_message: None };
    assert!(handle_bot_message(&mut bus, 4, none).is_none());
    assert!(bus.is_pending(4, 1));
}

#[test]
fn action_request_carries_id_and_content() {
    let m = action_request(7, b"go".to_vec());
    match m.server_message {
        Some(ServerMessage::ActionRequest(req)) => {
            assert_eq!(req.action_request_id, 7);
            assert_eq!(req.content, b"go".to_vec());
        }
        None => panic!("no request"),
    }
    // ids above i32::MAX wrap on the wire and come back whole
    let big = action_request(0x8000_0001, Vec::new());
    let wire_id = match big.server_message {
        Some(ServerMessage::ActionRequest(req)) => req.action_request_id,
        None => panic!("no request"),
    };
    assert_eq!(wire_id, i32::MIN + 1);
    let mut bus: Correlator<u8> = Correlator::new();
    assert!(bus.register_request(1, 0x8000_0001, 9).is_ok());
    let d = handle_bot_message(&mut bus, 1, answer(wire_id, "ok")).expect("pending");
    assert_eq!(d.waiter, 9);
}

#[test]
fn unconnected_adapter_times_out_every_request() {
    assert_eq!(CONNECTION_WAIT_SECS, 10);
    let mut router: PlayerRouter<&str, &str> = PlayerRouter::new();
    let spec = RemoteBotSpec { player_key: "T1".to_string() };
    router.reserve(spec.player_key.clone());
    assert!(matches!(spec.connect(&mut router, "outbound"), Ok(Rendezvous::Waiting)));
    // the connection wait elapses without the bot
    let handle = spec.connection_timed_out(&mut router, 1);
    assert!(!handle.is_connected());
    assert!(!router.contains_key(&"T1".to_string()));

    let mut bus: Correlator<&str> = Correlator::new();
    for id in 1..4 {
        match handle.send_request(&mut bus, request(id, "x", 5), "waiter") {
            RequestPlan::Resolved(d) => {
                assert_eq!(d.waiter, "waiter");
                assert_eq!(d.outcome, Err(RequestError::Timeout));
            }
            RequestPlan::Deliver { .. } => panic!("a disconnected adapter must not deliver"),
        }
        assert!(!bus.is_pending(1, id));
    }
}

#[test]
fn connected_adapter_gets_answer_and_timer_is_noop() {
    let mut router: PlayerRouter<&str, &str> = PlayerRouter::new();
    let spec = RemoteBotSpec { player_key: "T2".to_string() };
    router.reserve(spec.player_key.clone());
    assert!(matches!(spec.connect(&mut router, "outbound"), Ok(Rendezvous::Waiting)));
    match router.connect_client(&"T2".to_string(), "inbound") {
        Ok(Rendezvous::Joined { client, server }) => {
            assert_eq!(client, "inbound");
            assert_eq!(server, "outbound");
        }
        _ => panic!("the bot did not join"),
    }
    let handle = spec.connected(3);
    assert!(handle.is_connected());
    assert_eq!(handle.player_id(), 3);

    let mut bus: Correlator<&str> = Correlator::new();
    let timeout = match handle.send_request(&mut bus, request(7, "go", 2), "turn") {
        RequestPlan::Deliver { message, timeout } => {
            match message.server_message {
                Some(ServerMessage::ActionRequest(req)) => {
                    assert_eq!(req.action_request_id, 7);
                    assert_eq!(req.content, b"go".to_vec());
                }
                None => panic!("no request"),
            }
            timeout
        }
        RequestPlan::Resolved(_) => panic!("a connected adapter must deliver"),
    };
    assert_eq!(timeout.player_id, 3);
    assert_eq!(timeout.request_id, 7);
    assert_eq!(timeout.duration, Duration::from_secs(2));
    assert!(bus.is_pending(3, 7));

    let d = handle_bot_message(&mut bus, 3, answer(7, "move A1")).expect("pending");
    assert_eq!(d.waiter, "turn");
    assert_eq!(d.outcome, Ok(b"move A1".to_vec()));
    assert!(bus.time_out_request(timeout.player_id, timeout.request_id).is_none());
}

#[test]
fn failed_delivery_times_out_at_once() {
    let spec = RemoteBotSpec { player_key: "T4".to_string() };
    let handle = spec.connected(5);
    let mut bus: Correlator<u8> = Correlator::new();
    assert!(matches!(
        handle.send_request(&mut bus, request(1, "go", 2), 1),
        RequestPlan::Deliver { .. }
    ));
    let d = handle.delivery_failed(&mut bus, 1).expect("pending");
    assert_eq!(d.outcome, Err(RequestError::Timeout));
    assert!(!bus.is_pending(5, 1));
    assert!(handle.delivery_failed(&mut bus, 1).is_none());
}

#[test]
fn reserved_remote_player_has_fresh_key() {
    let mut router: PlayerRouter<u8, u8> = PlayerRouter::new();
    router.reserve("taken".to_string());
    let a = RemoteBotSpec::reserve(&mut router).expect("a free key");
    let b = RemoteBotSpec::reserve(&mut router).expect("a free key");
    assert_eq!(a.player_key.len(), 32);
    assert!(a.player_key.chars().all(|c| c.is_ascii_alphanumeric()));
    assert_ne!(a.player_key, b.player_key);
    assert_ne!(a.player_key, "taken");
    assert!(router.contains_key(&a.player_key));
    assert!(router.contains_key(&b.player_key));
    assert!(router.contains_key(&"taken".to_string()));
    // the fresh key is reserved: the bot may arrive before the server side
    assert!(matches!(router.connect_client(&a.player_key, 1), Ok(Rendezvous::Waiting)));
}
