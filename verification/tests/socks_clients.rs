use secret_tunnel::counters::TrafficCounters;
use secret_tunnel::relay::{
    client_step, count_action, ClientAction, ClientEvent, Relay, RelayAction, Side,
};
use secret_tunnel::socks::{
    read_socks5_request, socks5_reply, SocksEnding, SocksNext, SocksRequest, SocksState,
};

const GREETING: [u8; 3] = [5, 1, 0];

fn with_greeting(rest: &[u8]) -> Vec<u8> {
    let mut input = GREETING.to_vec();
    input.extend_from_slice(rest);
    input
}

fn connects(input: &[u8]) -> (String, u16, usize) {
    let dialogue = read_socks5_request(input);
    assert_eq!(dialogue.replies, vec![5, 0]);
    match dialogue.ending {
        SocksEnding::Connect { request, read } => (request.host, request.port, read),
        other => panic!("{other:?}"),
    }
}

fn refused(input: &[u8]) -> (Vec<u8>, String) {
    let dialogue = read_socks5_request(input);
    match dialogue.ending {
        SocksEnding::Refused { reason, .. } => (dialogue.replies, reason),
        other => panic!("{other:?}"),
    }
}

#[test]
fn a_reply_holds_its_status() {
    assert_eq!(socks5_reply(0), vec![5, 0, 0, 1, 0, 0, 0, 0, 0, 0]);
    assert_eq!(socks5_reply(7), vec![5, 7, 0, 1, 0, 0, 0, 0, 0, 0]);
}

#[test]
fn a_request_for_an_ipv4_address_is_read() {
    let input = with_greeting(&[5, 1, 0, 1, 192, 0, 2, 1, 0x1f, 0x90]);
    assert_eq!(connects(&input), ("192.0.2.1".to_string(), 8080, 13));
}

#[test]
fn a_request_for_a_name_is_read_and_nothing_after_it() {
    let mut input = with_greeting(&[5, 1, 9, 3, 12]);
    input.extend_from_slice("münich.test".as_bytes());
    input.extend_from_slice(&[1, 0xbb, 7, 7]);
    let (host, port, read) = connects(&input);
    assert_eq!((host.as_str(), port), ("münich.test", 443));
    assert_eq!(read, input.len() - 2);
}

#[test]
fn a_request_for_an_empty_name_is_read() {
    let input = with_greeting(&[5, 1, 0, 3, 0, 0, 80]);
    assert_eq!(connects(&input), (String::new(), 80, 10));
}

#[test]
fn a_request_for_an_ipv6_address_is_read() {
    let mut input = with_greeting(&[5, 1, 0, 4]);
    input.extend_from_slice(&[0x20, 1, 0xd, 0xb8, 0, 0, 0, 0, 0, 0, 0, 0, 0, 0, 0, 1]);
    input.extend_from_slice(&[0xff, 0xff]);
    let (host, port, _) = connects(&input);
    assert_eq!((host.as_str(), port), ("2001:db8::1", 65535));
}

#[test]
fn other_methods_may_be_offered_too() {
    let dialogue = read_socks5_request(&[5, 3, 2, 1, 0, 5, 1, 0, 1, 10, 0, 0, 1, 0, 22]);
    assert!(matches!(dialogue.ending, SocksEnding::Connect { .. }));
    assert_eq!(dialogue.replies, vec![5, 0]);
}

#[test]
fn another_version_is_not_answered() {
    assert_eq!(refused(&[4, 1]), (vec![], "Unsupported SOCKS version".to_string()));
}

#[test]
fn authentication_is_refused() {
    let reason = "SOCKS client did not offer no-auth method".to_string();
    assert_eq!(refused(&[5, 1, 2]), (vec![5, 0xff], reason.clone()));
    assert_eq!(refused(&[5, 0]), (vec![5, 0xff], reason));
}

#[test]
fn refused_requests_are_answered() {
    let (replies, reason) = refused(&with_greeting(&[4, 1, 0, 1]));
    assert_eq!(replies, vec![5, 0]);
    assert_eq!(reason, "Unsupported SOCKS request version");
    let (replies, reason) = refused(&with_greeting(&[5, 2, 0, 9]));
    assert_eq!(replies, vec![5, 0, 5, 7, 0, 1, 0, 0, 0, 0, 0, 0]);
    assert_eq!(reason, "Only SOCKS CONNECT is supported");
    let (replies, reason) = refused(&with_greeting(&[5, 1, 0, 2]));
    assert_eq!(replies, vec![5, 0, 5, 8, 0, 1, 0, 0, 0, 0, 0, 0]);
    assert_eq!(reason, "Unsupported SOCKS address type");
}

#[test]
fn a_name_that_is_not_utf8_is_refused() {
    let (replies, reason) = refused(&with_greeting(&[5, 1, 0, 3, 2, 0xff, 0x41, 0, 80]));
    assert_eq!(replies, vec![5, 0]);
    assert_eq!(reason, String::from_utf8(vec![0xff, 0x41]).unwrap_err().to_string());
}

#[test]
fn a_client_that_falls_silent_gets_nowhere() {
    for length in 0..13 {
        let input = with_greeting(&[5, 1, 0, 1, 192, 0, 2, 1, 0x1f, 0x90]);
        let dialogue = read_socks5_request(&input[..length]);
        assert!(matches!(dialogue.ending, SocksEnding::Starved), "{length}");
    }
}

#[test]
fn the_steps_ask_for_the_right_number_of_bytes() {
    let step = SocksState::Greeting.advance(&[5, 2]);
    assert!(step.reply.is_empty());
    let SocksNext::Read(state) = step.next else { panic!() };
    assert_eq!(state.wanted(), 2);
    let step = state.advance(&[0, 2]);
    assert_eq!(step.reply, vec![5, 0]);
    let SocksNext::Read(state) = step.next else { panic!() };
    assert_eq!(state.wanted(), 4);
    let SocksNext::Read(state) = state.advance(&[5, 1, 0, 3]).next else { panic!() };
    assert_eq!(state.wanted(), 1);
    let SocksNext::Read(state) = state.advance(&[1]).next else { panic!() };
    assert_eq!(state.wanted(), 1);
    let SocksNext::Read(state) = state.advance(b"h").next else { panic!() };
    assert_eq!(state.wanted(), 2);
    let SocksNext::Connect(request) = state.advance(&[0, 1]).next else { panic!() };
    assert_eq!((request.host.as_str(), request.port), ("h", 1));
    assert_eq!(SocksState::Ipv4.wanted(), 4);
    assert_eq!(SocksState::Ipv6.wanted(), 16);
}

#[test]
fn a_client_is_served_step_by_step() {
    let request = SocksRequest { host: "h".to_string(), port: 443 };
    match client_step(ClientEvent::Requested(request)) {
        ClientAction::Open { host, port } => assert_eq!((host.as_str(), port), ("h", 443)),
        other => panic!("{other:?}"),
    }
    match client_step(ClientEvent::Opened) {
        ClientAction::AnswerAndRelay(bytes) => assert_eq!(bytes, socks5_reply(0)),
        other => panic!("{other:?}"),
    }
    match client_step(ClientEvent::Unreadable("why".to_string())) {
        ClientAction::ShutDown(reason) => assert_eq!(reason, "why"),
        other => panic!("{other:?}"),
    }
    match client_step(ClientEvent::OpenFailed("no".to_string())) {
        ClientAction::Fail(reason) => assert_eq!(reason, "no"),
        other => panic!("{other:?}"),
    }
}

#[test]
fn a_relay_runs_until_both_ends_have_closed() {
    let mut relay = Relay::new();
    assert!(relay.running() && relay.reads(Side::Client) && relay.reads(Side::Remote));
    assert_eq!(
        relay.on_read(Side::Client, 5),
        RelayAction::Forward { to: Side::Remote, bytes: 5 }
    );
    assert_eq!(relay.on_read(Side::Client, 0), RelayAction::ShutDown(Side::Remote));
    assert!(relay.running() && !relay.reads(Side::Client) && relay.reads(Side::Remote));
    assert_eq!(
        relay.on_read(Side::Remote, 9),
        RelayAction::Forward { to: Side::Client, bytes: 9 }
    );
    assert_eq!(relay.on_read(Side::Remote, 0), RelayAction::ShutDown(Side::Client));
    assert!(!relay.running());
}

#[test]
fn counters_add_up() {
    let mut counters = TrafficCounters::default();
    assert_eq!(counters.totals(), (0, 0));
    let mut relay = Relay::new();
    for (side, bytes) in [
        (Side::Client, 100),
        (Side::Remote, 7),
        (Side::Client, 0),
        (Side::Remote, 3),
        (Side::Remote, 0),
    ] {
        let action = relay.on_read(side, bytes);
        count_action(&mut counters, action);
    }
    assert_eq!(counters.totals(), (10, 100));
}

#[test]
fn a_full_counter_starts_again() {
    let mut counters = TrafficCounters::default();
    counters.add_rx(u64::MAX);
    counters.add_rx(3);
    counters.add_tx(u64::MAX);
    counters.add_tx(1);
    assert_eq!(counters.totals(), (2, 0));
}

#[test]
fn nothing_is_read_after_a_refusal() {
    for (input, expected) in [
        (vec![4, 1, 9, 9], 2),
        (vec![5, 1, 2, 9], 3),
        (with_greeting(&[5, 2, 0, 1, 9]), 7),
        (with_greeting(&[5, 1, 0, 3, 1, 0xff, 9]), 9),
    ] {
        match read_socks5_request(&input).ending {
            SocksEnding::Refused { read, .. } => assert_eq!(read, expected),
            other => panic!("{other:?}"),
        }
    }
}

#[test]
fn counting_goes_on_from_where_it_stood() {
    let mut counters = TrafficCounters::default();
    counters.add_rx(1000);
    counters.add_tx(u64::MAX);
    count_action(&mut counters, RelayAction::Forward { to: Side::Client, bytes: 5 });
    count_action(&mut counters, RelayAction::Forward { to: Side::Remote, bytes: 5 });
    count_action(&mut counters, RelayAction::ShutDown(Side::Remote));
    assert_eq!(counters.totals(), (1005, 4));
}

#[test]
fn each_end_is_told_once_and_gets_every_byte_before() {
    let mut relay = Relay::new();
    let mut told = Vec::new();
    let mut sent = (0, 0);
    let wishes = [
        (Side::Client, 4),
        (Side::Remote, 0),
        (Side::Remote, 8),
        (Side::Remote, 0),
        (Side::Client, 6),
        (Side::Client, 0),
        (Side::Client, 0),
    ];
    for (side, bytes) in wishes {
        if !relay.reads(side) {
            continue;
        }
        match relay.on_read(side, bytes) {
            RelayAction::ShutDown(end) => {
                assert!(!told.contains(&end));
                told.push(end);
            }
            RelayAction::Forward { to, bytes } => {
                assert!(!told.contains(&to));
                match to {
                    Side::Client => sent.0 += bytes,
                    Side::Remote => sent.1 += bytes,
                }
            }
        }
    }
    assert_eq!(told, vec![Side::Client, Side::Remote]);
    assert_eq!(sent, (0, 10));
    assert!(!relay.running());
}
