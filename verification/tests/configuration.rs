use secret_tunnel::config::{
    default_config, delete_proxy, delete_server, save_proxy, save_server, save_settings,
    select_proxy, select_server, selected_proxy, selected_server, AppConfig,
};
use secret_tunnel::profile::{
    validate_proxy, validate_server, AppSettings, ProxyProfile, ServerProfile,
};
use secret_tunnel::selection::{find, pick, put, remove};

fn server(id: &str, host: &str) -> ServerProfile {
    ServerProfile {
        id: id.to_string(),
        name: "Named".to_string(),
        host: host.to_string(),
        port: 22,
        user: "me".to_string(),
        key_path: "~/.ssh/key".to_string(),
        compression: true,
        strict_host_key_checking: "accept-new".to_string(),
        connect_timeout: 8,
        server_alive_interval: 15,
        server_alive_count_max: 3,
    }
}

fn proxy(id: &str, port: u16) -> ProxyProfile {
    ProxyProfile {
        id: id.to_string(),
        name: "Named".to_string(),
        host: "127.0.0.1".to_string(),
        port,
    }
}

fn empty() -> AppConfig {
    AppConfig {
        selected_server_id: String::new(),
        selected_proxy_id: String::new(),
        servers: Vec::new(),
        proxies: Vec::new(),
        settings: AppSettings::default(),
    }
}

fn server_list(config: &AppConfig) -> Vec<String> {
    config.servers.iter().map(|s| format!("{}={}", s.id, s.host)).collect()
}

fn proxy_list(config: &AppConfig) -> Vec<String> {
    config.proxies.iter().map(|p| format!("{}={}", p.id, p.port)).collect()
}

#[test]
fn the_default_configuration_is_ready_to_edit() {
    let config = default_config();
    let used = selected_server(&config).unwrap();
    assert_eq!(used.id, "example");
    assert_eq!(used.name, "Example server");
    assert_eq!(used.host, "example.com");
    assert_eq!(used.port, 22);
    assert_eq!(used.user, "user");
    assert_eq!(used.key_path, "~/.ssh/id_ed25519");
    assert!(!used.compression);
    assert_eq!(used.strict_host_key_checking, "yes");
    assert_eq!(validate_server(&used), Ok(()));
    let listens = selected_proxy(&config).unwrap();
    assert_eq!(listens.id, "local-1080");
    assert_eq!(listens.name, "Local 1080");
    assert_eq!(listens.host, "127.0.0.1");
    assert_eq!(listens.port, 1080);
    assert_eq!(validate_proxy(&listens), Ok(()));
    assert_eq!(config.servers.len(), 1);
    assert_eq!(config.proxies.len(), 1);
}

#[test]
fn the_first_profile_stands_in_for_a_missing_selection() {
    let mut config = default_config();
    config.selected_server_id = "gone".to_string();
    config.selected_proxy_id = "gone".to_string();
    assert_eq!(selected_server(&config).unwrap().id, "example");
    assert_eq!(selected_proxy(&config).unwrap().id, "local-1080");
}

#[test]
fn without_profiles_there_is_nothing_to_use() {
    assert_eq!(
        selected_server(&empty()).unwrap_err(),
        "Add at least one server profile"
    );
    assert_eq!(
        selected_proxy(&empty()).unwrap_err(),
        "Add at least one local proxy profile"
    );
}

#[test]
fn a_new_server_comes_last() {
    let config = save_server(default_config(), server("b", "b.example")).unwrap();
    assert_eq!(server_list(&config), vec!["example=example.com", "b=b.example"]);
    assert_eq!(config.selected_server_id, "example");
    assert_eq!(proxy_list(&config), vec!["local-1080=1080"]);
    assert_eq!(find(&config.servers, "b"), Some(1));
    assert_eq!(find(&config.servers, "c"), None);
}

#[test]
fn a_saved_server_replaces_the_one_with_its_id() {
    let config = save_server(default_config(), server("b", "old.example")).unwrap();
    let config = save_server(config, server("c", "c.example")).unwrap();
    let config = save_server(config, server("b", "new.example")).unwrap();
    let expected = vec!["example=example.com", "b=new.example", "c=c.example"];
    assert_eq!(server_list(&config), expected);
    let config = save_server(config, server("b", "new.example")).unwrap();
    assert_eq!(server_list(&config), expected);
}

#[test]
fn the_first_saved_profile_is_selected() {
    let config = save_server(empty(), server("b", "b.example")).unwrap();
    assert_eq!(config.selected_server_id, "b");
    let config = save_proxy(config, proxy("p", 1081)).unwrap();
    assert_eq!(config.selected_proxy_id, "p");
}

#[test]
fn a_faulty_profile_is_not_saved() {
    let mut faulty = server("b", "b.example");
    faulty.port = 0;
    assert_eq!(
        save_server(default_config(), faulty).unwrap_err(),
        "SSH port must be in range 1..65535"
    );
    assert_eq!(
        save_proxy(default_config(), proxy("p", 0)).unwrap_err(),
        "Proxy port must be in range 1..65535"
    );
}

#[test]
fn a_deleted_server_is_gone_and_the_first_other_is_selected() {
    let config = save_server(default_config(), server("b", "b.example")).unwrap();
    let config = delete_server(config, "example");
    assert_eq!(server_list(&config), vec!["b=b.example"]);
    assert_eq!(config.selected_server_id, "b");
    let config = delete_server(config, "b");
    assert!(config.servers.is_empty());
    assert_eq!(config.selected_server_id, "");
}

#[test]
fn deleting_another_server_keeps_the_selection() {
    let config = save_server(default_config(), server("b", "b.example")).unwrap();
    let config = delete_server(config, "b");
    assert_eq!(server_list(&config), vec!["example=example.com"]);
    assert_eq!(config.selected_server_id, "example");
    let config = delete_server(config, "b");
    assert_eq!(server_list(&config), vec!["example=example.com"]);
}

#[test]
fn every_profile_with_the_id_is_deleted() {
    let mut config = empty();
    config.servers = vec![server("a", "1"), server("b", "2"), server("a", "3")];
    config.proxies = vec![proxy("a", 1), proxy("b", 2), proxy("a", 3)];
    let config = delete_proxy(delete_server(config, "a"), "a");
    assert_eq!(server_list(&config), vec!["b=2"]);
    assert_eq!(proxy_list(&config), vec!["b=2"]);
}

#[test]
fn a_selected_server_is_used() {
    let config = save_server(default_config(), server("b", "b.example")).unwrap();
    let config = select_server(config, "b".to_string()).unwrap();
    assert_eq!(selected_server(&config).unwrap().host, "b.example");
    assert_eq!(
        select_server(config, "c".to_string()).unwrap_err(),
        "Server profile not found"
    );
}

#[test]
fn proxies_are_saved_selected_and_deleted() {
    let config = save_proxy(default_config(), proxy("p", 1081)).unwrap();
    assert_eq!(proxy_list(&config), vec!["local-1080=1080", "p=1081"]);
    let config = save_proxy(config, proxy("p", 1082)).unwrap();
    assert_eq!(proxy_list(&config), vec!["local-1080=1080", "p=1082"]);
    assert_eq!(find(&config.proxies, "p"), Some(1));
    let config = select_proxy(config, "p".to_string()).unwrap();
    assert_eq!(selected_proxy(&config).unwrap().port, 1082);
    assert_eq!(server_list(&config), vec!["example=example.com"]);
    let config = delete_proxy(config, "p");
    assert_eq!(config.selected_proxy_id, "local-1080");
    let config = delete_proxy(config, "local-1080");
    assert_eq!(config.selected_proxy_id, "");
    assert_eq!(
        select_proxy(config, "p".to_string()).unwrap_err(),
        "Proxy profile not found"
    );
}

#[test]
fn settings_are_replaced_if_valid() {
    let mut settings = AppSettings::default();
    settings.auto_reconnect = true;
    let config = save_settings(default_config(), settings).unwrap();
    assert!(config.settings.auto_reconnect);
    assert_eq!(server_list(&config), vec!["example=example.com"]);
    let mut settings = AppSettings::default();
    settings.ssh_engine = "none".to_string();
    assert_eq!(
        save_settings(config, settings).unwrap_err(),
        "SSH engine must be system or embedded"
    );
}

#[test]
fn lists_of_profiles_are_edited_alike() {
    let mut list = vec![proxy("a", 1)];
    put(&mut list, proxy("b", 2));
    put(&mut list, proxy("a", 3));
    let ports: Vec<u16> = list.iter().map(|p| p.port).collect();
    assert_eq!(ports, vec![3, 2]);
    assert_eq!(pick(&list, "b").unwrap().port, 2);
    assert_eq!(pick(&list, "c").unwrap().port, 3);
    let left = remove(&remove(&list, "a"), "a");
    assert_eq!(left.len(), 1);
    assert_eq!(find(&left, "a"), None);
    assert!(pick(&remove(&left, "b"), "b").is_none());
}

#[test]
fn deleting_what_was_just_added_gives_the_list_back() {
    let before = default_config();
    let config = save_server(default_config(), server("b", "b.example")).unwrap();
    let config = delete_server(config, "b");
    assert_eq!(server_list(&config), server_list(&before));
    assert_eq!(config.selected_server_id, before.selected_server_id);
    let again = delete_server(config, "b");
    assert_eq!(server_list(&again), server_list(&before));
}
