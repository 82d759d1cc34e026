use secret_tunnel::embedded::{
    connect_step, friendly_auth_error, friendly_connect_error, friendly_key_error, listener_step,
    login_text, session_options, word_auth_rejection, word_bind_error, word_connect_error,
    word_key_error, ConnectNext, ConnectStage, EmbeddedProxy, EmbeddedServer, ListenerAction,
    ListenerEvent, StageOutcome,
};
use secret_tunnel::host_key::{
    host_key_looked_up, host_key_recorded, start_host_key_check, HostKeyAction, KnownHost,
};

fn server() -> EmbeddedServer {
    EmbeddedServer {
        name: "Work".to_string(),
        host: "ssh.example".to_string(),
        port: 2222,
        user: "me".to_string(),
        key_path: "/home/me/key".to_string(),
        strict_host_key_checking: "yes".to_string(),
    }
}

#[test]
fn a_key_failure_is_put_in_words() {
    let encrypted = "Embedded SSH cannot open encrypted private key '/k' yet. Use System OpenSSH or a dedicated key without passphrase for embedded mode.";
    assert_eq!(friendly_key_error("/k", "The key is ENCRYPTED"), encrypted);
    assert_eq!(friendly_key_error("/k", "Bad PassPhrase"), encrypted);
    assert_eq!(friendly_key_error("/k", "No Such File or directory"), "SSH key file not found: /k");
    assert_eq!(friendly_key_error("/k", "key Not Found"), "SSH key file not found: /k");
    assert_eq!(
        friendly_key_error("/k", "Bad Bytes"),
        "Cannot load SSH key for embedded engine '/k': Bad Bytes"
    );
    assert_eq!(word_key_error("/k", "X", "not found"), "SSH key file not found: /k");
}

#[test]
fn letters_beyond_ascii_are_made_small_too() {
    assert_eq!(friendly_key_error("/k", "ÉTÉ \u{212a}ENCRYPTED"), friendly_key_error("/k", "encrypted"));
    assert_eq!(
        friendly_connect_error(&server(), "\u{212a}EY REJECTED"),
        friendly_connect_error(&server(), "key rejected")
    );
}

#[test]
fn a_connect_failure_is_put_in_words() {
    let rejected = "Embedded SSH rejected the server host key for ssh.example:2222. Check ~/.ssh/known_hosts or use StrictHostKeyChecking=accept-new for the first connection.";
    assert_eq!(friendly_connect_error(&server(), "Key was Rejected"), rejected);
    assert_eq!(friendly_connect_error(&server(), "UnknownKey"), rejected);
    let timed_out = "Embedded SSH timed out connecting to ssh.example:2222. Check host, port, firewall, and network reachability.";
    assert_eq!(friendly_connect_error(&server(), "Timed Out"), timed_out);
    assert_eq!(friendly_connect_error(&server(), "inactivity TIMEOUT"), timed_out);
    assert_eq!(
        friendly_connect_error(&server(), "Connection refused (os error 111)"),
        "Embedded SSH connection refused by ssh.example:2222. Check the SSH port and server firewall."
    );
    assert_eq!(
        friendly_connect_error(&server(), "No Key here"),
        "Embedded SSH connect failed for 'Work' at ssh.example:2222: No Key here"
    );
    assert_eq!(
        word_connect_error(&server(), "RAW", "raw"),
        "Embedded SSH connect failed for 'Work' at ssh.example:2222: RAW"
    );
}

#[test]
fn other_failures_are_put_in_words() {
    assert_eq!(
        friendly_auth_error(&server(), "broken"),
        "Embedded SSH public key authentication failed for me@ssh.example: broken. Check username, key path, authorized_keys, and key permissions."
    );
    assert_eq!(
        word_auth_rejection(&server()),
        "Embedded SSH public key authentication failed for me@ssh.example. Check username, key path, authorized_keys, and key permissions."
    );
    let proxy = EmbeddedProxy { host: "127.0.0.1".to_string(), port: 1080 };
    assert_eq!(
        word_bind_error(&proxy, "in use"),
        "Cannot bind embedded SOCKS listener on 127.0.0.1:1080: in use"
    );
    assert_eq!(login_text("me", "host"), "me@host");
}

#[test]
fn a_connection_goes_through_its_stages() {
    let mut stage = ConnectStage::LoadKey;
    for expected in [ConnectStage::Connect, ConnectStage::AgreeHash, ConnectStage::Authenticate] {
        match connect_step(&server(), stage, StageOutcome::Done { accepted: true }) {
            ConnectNext::Stage(next) => {
                assert_eq!(next, expected);
                stage = next;
            }
            other => panic!("{other:?}"),
        }
    }
    assert!(matches!(
        connect_step(&server(), stage, StageOutcome::Done { accepted: true }),
        ConnectNext::Ready
    ));
}

#[test]
fn a_session_is_ready_only_if_the_key_was_accepted() {
    match connect_step(&server(), ConnectStage::Authenticate, StageOutcome::Done { accepted: false }) {
        ConnectNext::GiveUp(reason) => assert_eq!(reason, word_auth_rejection(&server())),
        other => panic!("{other:?}"),
    }
}

#[test]
fn a_failed_stage_ends_the_connection() {
    let failure = |stage| match connect_step(&server(), stage, StageOutcome::Failed("Timeout".to_string())) {
        ConnectNext::GiveUp(reason) => reason,
        other => panic!("{other:?}"),
    };
    assert_eq!(failure(ConnectStage::LoadKey), friendly_key_error("/home/me/key", "Timeout"));
    assert_eq!(failure(ConnectStage::Connect), friendly_connect_error(&server(), "Timeout"));
    assert_eq!(failure(ConnectStage::AgreeHash), "Timeout");
    assert_eq!(failure(ConnectStage::Authenticate), friendly_auth_error(&server(), "Timeout"));
}

#[test]
fn sessions_are_kept_alive() {
    let options = session_options();
    assert!(options.nodelay);
    assert_eq!(options.inactivity_timeout, 30);
    assert_eq!(options.keepalive_interval, 15);
    assert_eq!(options.keepalive_max, 3);
}

#[test]
fn the_listener_answers_every_event() {
    assert!(matches!(listener_step(ListenerEvent::StopRequested), ListenerAction::Disconnect));
    assert!(matches!(listener_step(ListenerEvent::Accepted), ListenerAction::Serve));
    assert!(matches!(listener_step(ListenerEvent::Idle), ListenerAction::Wait));
    match listener_step(ListenerEvent::AcceptFailed("e".to_string())) {
        ListenerAction::Fail(reason) => assert_eq!(reason, "e"),
        other => panic!("{other:?}"),
    }
}

fn trusted(mode: &str, known: KnownHost, recordable: bool) -> (bool, bool) {
    let mut recorded = false;
    let mut action = start_host_key_check(mode);
    loop {
        action = match action {
            HostKeyAction::Accept => return (true, recorded),
            HostKeyAction::Reject => return (false, recorded),
            HostKeyAction::LookUp => host_key_looked_up(mode, known),
            HostKeyAction::Record => {
                recorded = true;
                host_key_recorded(recordable)
            }
        };
    }
}

#[test]
fn yes_requires_a_known_key() {
    for recordable in [false, true] {
        for mode in ["yes", "", "anything"] {
            assert_eq!(trusted(mode, KnownHost::Match, recordable), (true, false));
            assert_eq!(trusted(mode, KnownHost::Unknown, recordable), (false, false));
            assert_eq!(trusted(mode, KnownHost::Conflict, recordable), (false, false));
        }
    }
}

#[test]
fn accept_new_records_the_first_key() {
    assert_eq!(trusted("accept-new", KnownHost::Match, true), (true, false));
    assert_eq!(trusted("accept-new", KnownHost::Unknown, true), (true, true));
    assert_eq!(trusted("accept-new", KnownHost::Unknown, false), (false, true));
    assert_eq!(trusted("accept-new", KnownHost::Conflict, true), (false, false));
}

#[test]
fn no_accepts_any_key() {
    for known in [KnownHost::Match, KnownHost::Unknown, KnownHost::Conflict] {
        assert_eq!(trusted("no", known, false), (true, false));
    }
}
