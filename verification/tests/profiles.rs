use secret_tunnel::profile::{
    default_connect_timeout, default_reconnect_delay_seconds, default_server_alive_count_max,
    default_server_alive_interval, default_ssh_engine, default_strict_host_key_checking,
    default_true, validate_proxy, validate_server, validate_settings, AppSettings, ProxyProfile,
    ServerProfile,
};

fn server() -> ServerProfile {
    ServerProfile {
        id: "a".to_string(),
        name: "A".to_string(),
        host: "a.example".to_string(),
        port: 22,
        user: "me".to_string(),
        key_path: "~/.ssh/key".to_string(),
        compression: false,
        strict_host_key_checking: "yes".to_string(),
        connect_timeout: 8,
        server_alive_interval: 15,
        server_alive_count_max: 3,
    }
}

fn proxy() -> ProxyProfile {
    ProxyProfile {
        id: "p".to_string(),
        name: "P".to_string(),
        host: "127.0.0.1".to_string(),
        port: 1080,
    }
}

fn server_error(change: fn(&mut ServerProfile)) -> String {
    let mut changed = server();
    change(&mut changed);
    validate_server(&changed).unwrap_err()
}

fn proxy_error(change: fn(&mut ProxyProfile)) -> String {
    let mut changed = proxy();
    change(&mut changed);
    validate_proxy(&changed).unwrap_err()
}

#[test]
fn defaults_have_their_values() {
    assert!(default_true());
    assert_eq!(default_ssh_engine(), "system");
    assert_eq!(default_strict_host_key_checking(), "yes");
    assert_eq!(default_connect_timeout(), 8);
    assert_eq!(default_server_alive_interval(), 15);
    assert_eq!(default_server_alive_count_max(), 3);
    assert_eq!(default_reconnect_delay_seconds(), 3);
}

#[test]
fn default_settings_are_valid() {
    let settings = AppSettings::default();
    assert_eq!(settings.ipinfo_token, "");
    assert_eq!(settings.ssh_engine, "system");
    assert!(settings.hide_sensitive && settings.verify_proxy_on_start);
    assert!(!settings.auto_reconnect && !settings.start_tunnel_on_launch);
    assert!(!settings.clear_logs_on_start);
    assert_eq!(settings.reconnect_delay_seconds, 3);
    assert_eq!(validate_settings(&settings), Ok(()));
}

#[test]
fn a_complete_server_is_valid() {
    assert_eq!(validate_server(&server()), Ok(()));
    for mode in ["yes", "accept-new", "no"] {
        let mut other = server();
        other.strict_host_key_checking = mode.to_string();
        other.connect_timeout = 120;
        other.server_alive_interval = 300;
        other.server_alive_count_max = 20;
        other.port = 65535;
        assert_eq!(validate_server(&other), Ok(()));
    }
}

#[test]
fn a_faulty_server_is_told_its_fault() {
    let names = "Server id and name are required";
    assert_eq!(server_error(|s| s.id = " ".to_string()), names);
    assert_eq!(server_error(|s| s.name = String::new()), names);
    let place = "Server host and SSH user are required";
    assert_eq!(server_error(|s| s.host = "\t".to_string()), place);
    assert_eq!(server_error(|s| s.user = String::new()), place);
    assert_eq!(server_error(|s| s.port = 0), "SSH port must be in range 1..65535");
    assert_eq!(server_error(|s| s.key_path = " ".to_string()), "SSH key path is required");
    let timeout = "Connect timeout must be in range 1..120 seconds";
    assert_eq!(server_error(|s| s.connect_timeout = 0), timeout);
    assert_eq!(server_error(|s| s.connect_timeout = 121), timeout);
    let interval = "ServerAliveInterval must be in range 1..300 seconds";
    assert_eq!(server_error(|s| s.server_alive_interval = 0), interval);
    assert_eq!(server_error(|s| s.server_alive_interval = 301), interval);
    let count = "ServerAliveCountMax must be in range 1..20";
    assert_eq!(server_error(|s| s.server_alive_count_max = 0), count);
    assert_eq!(server_error(|s| s.server_alive_count_max = 21), count);
    assert_eq!(
        server_error(|s| s.strict_host_key_checking = "ask".to_string()),
        "StrictHostKeyChecking must be yes, accept-new, or no"
    );
}

#[test]
fn the_first_fault_is_told() {
    let error = server_error(|s| {
        s.port = 0;
        s.key_path = String::new();
        s.connect_timeout = 0;
    });
    assert_eq!(error, "SSH port must be in range 1..65535");
}

#[test]
fn a_proxy_is_checked() {
    assert_eq!(validate_proxy(&proxy()), Ok(()));
    let names = "Proxy id and name are required";
    assert_eq!(proxy_error(|p| p.id = String::new()), names);
    assert_eq!(proxy_error(|p| p.name = " ".to_string()), names);
    assert_eq!(proxy_error(|p| p.host = " ".to_string()), "Proxy host is required");
    assert_eq!(proxy_error(|p| p.port = 0), "Proxy port must be in range 1..65535");
}

#[test]
fn settings_are_checked() {
    let mut settings = AppSettings::default();
    settings.ssh_engine = "embedded".to_string();
    settings.reconnect_delay_seconds = 120;
    assert_eq!(validate_settings(&settings), Ok(()));
    settings.reconnect_delay_seconds = 121;
    let delay = "Reconnect delay must be in range 1..120 seconds";
    assert_eq!(validate_settings(&settings), Err(delay.to_string()));
    settings.reconnect_delay_seconds = 0;
    assert_eq!(validate_settings(&settings), Err(delay.to_string()));
    settings.ssh_engine = "other".to_string();
    assert_eq!(
        validate_settings(&settings),
        Err("SSH engine must be system or embedded".to_string())
    );
}
