use secret_tunnel::config::{default_config, selected_proxy, selected_server};
use secret_tunnel::config_file::{
    config_path, config_source, expand_home, legacy_config, legacy_config_path, parse_config,
    ConfigDocument, ConfigSource, FilePath, LegacyFields,
};

fn legacy(raw: &str) -> (Option<serde_json::Value>, LegacyFields) {
    match parse_config(raw).unwrap() {
        ConfigDocument::Legacy { servers, fields } => (servers, fields),
        other => panic!("{other:?}"),
    }
}

#[test]
fn a_document_with_proxies_is_taken_whole() {
    let raw = r#"{"proxies": [], "servers": [], "selected_server_id": "a"}"#;
    match parse_config(raw).unwrap() {
        ConfigDocument::Current(value) => {
            assert_eq!(value, raw.parse::<serde_json::Value>().unwrap());
        }
        other => panic!("{other:?}"),
    }
    assert!(matches!(
        parse_config(r#"{"proxies": null}"#).unwrap(),
        ConfigDocument::Current(_)
    ));
}

#[test]
fn an_older_document_is_read_field_by_field() {
    let (servers, fields) = legacy(
        r#"{"servers": [{"id": "a"}], "selected_server_id": "a", "proxy": {"host": "::1", "port": 1090}}"#,
    );
    assert_eq!(servers.unwrap()[0]["id"], "a");
    assert_eq!(fields.selected_server_id.as_deref(), Some("a"));
    assert_eq!(fields.host.as_deref(), Some("::1"));
    assert_eq!(fields.port, Some(1090));
}

#[test]
fn what_an_older_document_lacks_is_missing() {
    for raw in ["{}", "[]", "7", r#"{"proxy": 3, "selected_server_id": 4}"#] {
        let (servers, fields) = legacy(raw);
        assert!(servers.is_none());
        assert!(fields.selected_server_id.is_none());
        assert!(fields.host.is_none() && fields.port.is_none());
    }
    let (_, fields) = legacy(r#"{"proxy": {"host": 1, "port": "1080"}}"#);
    assert!(fields.host.is_none() && fields.port.is_none());
    let (_, fields) = legacy(r#"{"proxy": {"port": -1}}"#);
    assert!(fields.port.is_none());
    let (_, fields) = legacy(r#"{"proxy": {"port": 1080.0}}"#);
    assert!(fields.port.is_none());
}

#[test]
fn a_file_that_is_no_json_is_refused_in_the_words_of_the_reader() {
    let expected = serde_json::from_str::<serde_json::Value>("{").unwrap_err().to_string();
    assert_eq!(parse_config("{").unwrap_err(), expected);
}

#[test]
fn an_older_configuration_gets_defaults() {
    let fields = LegacyFields { selected_server_id: None, host: None, port: None };
    let config = legacy_config(fields, None);
    assert_eq!(config.selected_server_id, "fr");
    assert_eq!(config.selected_proxy_id, "local-1080");
    let proxy = selected_proxy(&config).unwrap();
    assert_eq!(proxy.id, "local-1080");
    assert_eq!(proxy.name, "Local 1080");
    assert_eq!(proxy.host, "127.0.0.1");
    assert_eq!(proxy.port, 1080);
    assert!(config.servers.is_empty());
    assert!(config.settings.hide_sensitive);
}

#[test]
fn an_older_port_counts_by_its_low_bits() {
    let fields = LegacyFields {
        selected_server_id: Some("x".to_string()),
        host: Some("0.0.0.0".to_string()),
        port: Some(70000),
    };
    let config = legacy_config(fields, None);
    assert_eq!(config.selected_server_id, "x");
    assert_eq!(config.selected_proxy_id, "local-4464");
    assert_eq!(config.proxies[0].port, 4464);
    assert_eq!(config.proxies[0].name, "Local 4464");
    assert_eq!(config.proxies[0].host, "0.0.0.0");
}

#[test]
fn the_current_file_comes_first() {
    assert_eq!(config_source(true, true), ConfigSource::Current);
    assert_eq!(config_source(true, false), ConfigSource::Current);
    assert_eq!(config_source(false, true), ConfigSource::Legacy);
    assert_eq!(config_source(false, false), ConfigSource::Fresh);
}

fn joined(path: FilePath) -> std::path::PathBuf {
    let mut joined = std::path::PathBuf::from(path.base);
    joined.extend(path.names);
    joined
}

#[test]
fn the_configuration_is_kept_under_the_home_directory() {
    let path = config_path(Some("/home/me")).unwrap();
    assert_eq!(path.base, "/home/me");
    assert_eq!(path.names, vec![".config", "secret-tunnel", "config.json"]);
    let path = legacy_config_path(Some("")).unwrap();
    assert_eq!(path.base, "");
    assert_eq!(path.names, vec![".config", "fr-tunnel-desktop", "config.json"]);
    assert_eq!(config_path(None).unwrap_err(), "HOME is not set");
    assert_eq!(legacy_config_path(None).unwrap_err(), "HOME is not set");
}

#[test]
fn paths_are_put_together_in_the_way_of_the_system() {
    for home in ["/home/me", "/home/me/", "/", "", "relative", "//", "C:", "C:\\me"] {
        let expected = std::path::Path::new(home)
            .join(".config")
            .join("secret-tunnel")
            .join("config.json");
        assert_eq!(joined(config_path(Some(home)).unwrap()), expected);
    }
}

#[test]
fn with_slashes_the_path_reads_as_usual() {
    for (home, expected) in [
        ("/home/me", "/home/me/.config/secret-tunnel/config.json"),
        ("/home/me/", "/home/me/.config/secret-tunnel/config.json"),
        ("/", "/.config/secret-tunnel/config.json"),
        ("", ".config/secret-tunnel/config.json"),
    ] {
        if std::path::MAIN_SEPARATOR == '/' {
            let path = joined(config_path(Some(home)).unwrap());
            assert_eq!(path.to_str().unwrap(), expected);
        }
    }
}

#[test]
fn the_home_directory_is_put_in_front_of_a_path() {
    assert_eq!(expand_home("~/.ssh/key", Some("/home/me")), "/home/me/.ssh/key");
    assert_eq!(expand_home("~/", Some("/home/me")), "/home/me/");
    assert_eq!(expand_home("~/.ssh/key", None), "~/.ssh/key");
    assert_eq!(expand_home("~", Some("/home/me")), "~");
    assert_eq!(expand_home("/a/~/b", Some("/home/me")), "/a/~/b");
    assert_eq!(expand_home("~other/key", Some("/home/me")), "~other/key");
}

#[test]
fn the_servers_of_an_older_file_come_back() {
    let raw = r#"{"selected_server_id":"a","servers":[{"id":"a","name":"A","host":"h","port":22,"user":"u","key_path":"k"}],"proxy":{"host":"0.0.0.0","port":9050}}"#;
    let (servers, fields) = legacy(raw);
    let whole = raw.parse::<serde_json::Value>().unwrap();
    assert_eq!(servers.as_ref(), whole.get("servers"));
    let mut listed = default_config().servers;
    listed[0].id = "a".to_string();
    let config = legacy_config(fields, Some(listed));
    assert_eq!(config.servers.len(), 1);
    assert_eq!(selected_server(&config).unwrap().id, "a");
    assert_eq!(config.selected_server_id, "a");
    assert_eq!(config.selected_proxy_id, "local-9050");
    let proxy = selected_proxy(&config).unwrap();
    assert_eq!((proxy.id.as_str(), proxy.name.as_str()), ("local-9050", "Local 9050"));
    assert_eq!((proxy.host.as_str(), proxy.port), ("0.0.0.0", 9050));
}

#[test]
fn every_kind_of_value_in_a_list_comes_back() {
    let raw = r#"{"servers": [null, true, false, 0, -1, 1.5, "x", [], [1, [2]], {"a": {}}]}"#;
    let whole = raw.parse::<serde_json::Value>().unwrap();
    let (servers, _) = legacy(raw);
    assert_eq!(servers.as_ref(), whole.get("servers"));
}
