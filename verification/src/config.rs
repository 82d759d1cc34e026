//! The configuration: the profiles, which of them are selected, and the edits
//! that the user can make.
use crate::profile::{
    default_connect_timeout, default_server_alive_count_max, default_server_alive_interval,
    default_strict_host_key_checking, is_default_settings, proxy_fault, server_fault,
    settings_fault, valid_proxy, valid_server, valid_settings, validate_proxy, validate_server,
    validate_settings, AppSettings, ProxyProfile, ServerProfile,
};
use crate::selection::{
    consistent, deleted, find, law_deleted_is_gone, law_deleting_stays_consistent,
    law_saved_is_found, law_saving_stays_consistent, law_selecting_stays_consistent, lookup, pick, put, remove, saved, selecting, used, Choice,
    Identified,
};
use crate::text::{is_blank, is_white, lemma_position_is, same_text};
use vstd::prelude::*;

verus! {

/// Everything that is kept between two runs of the application.
#[derive(Debug)]
pub struct AppConfig {
    pub selected_server_id: String,
    pub selected_proxy_id: String,
    pub servers: Vec<ServerProfile>,
    pub proxies: Vec<ProxyProfile>,
    pub settings: AppSettings,
}

impl Identified for ServerProfile {
    open spec fn key(self) -> Seq<char> {
        self.id@
    }

    fn id_text(&self) -> (r: &str) {
        self.id.as_str()
    }

    fn copied(&self) -> (r: Self) {
        self.clone()
    }
}

/// The servers of a configuration, and which of them is selected.
pub open spec fn server_choice(config: AppConfig) -> Choice<ServerProfile> {
    Choice { items: config.servers@, selected: config.selected_server_id@ }
}

/// The server that a tunnel goes through: the selected one, else the first.
pub open spec fn chosen_server(config: AppConfig) -> Option<ServerProfile> {
    used(server_choice(config))
}

/// Picks the server for a tunnel.
pub fn selected_server(config: &AppConfig) -> (r: Result<ServerProfile, String>)
    ensures
        match r {
            Ok(server) => chosen_server(*config) == Some(server),
            Err(message) => chosen_server(*config) is None && message@
                == "Add at least one server profile"@,
        },
{
    match pick(&config.servers, config.selected_server_id.as_str()) {
        Some(server) => Ok(server),
        None => Err("Add at least one server profile".to_owned()),
    }
}

impl Identified for ProxyProfile {
    open spec fn key(self) -> Seq<char> {
        self.id@
    }

    fn id_text(&self) -> (r: &str) {
        self.id.as_str()
    }

    fn copied(&self) -> (r: Self) {
        self.clone()
    }
}

/// The proxies of a configuration, and which of them is selected.
pub open spec fn proxy_choice(config: AppConfig) -> Choice<ProxyProfile> {
    Choice { items: config.proxies@, selected: config.selected_proxy_id@ }
}

/// The proxy that a tunnel listens on: the selected one, else the first.
pub open spec fn chosen_proxy(config: AppConfig) -> Option<ProxyProfile> {
    used(proxy_choice(config))
}

/// Picks the proxy for a tunnel.
pub fn selected_proxy(config: &AppConfig) -> (r: Result<ProxyProfile, String>)
    ensures
        match r {
            Ok(proxy) => chosen_proxy(*config) == Some(proxy),
            Err(message) => chosen_proxy(*config) is None && message@
                == "Add at least one local proxy profile"@,
        },
{
    match pick(&config.proxies, config.selected_proxy_id.as_str()) {
        Some(proxy) => Ok(proxy),
        None => Err("Add at least one local proxy profile".to_owned()),
    }
}

/// The configuration of a fresh installation.
pub open spec fn is_default_config(c: AppConfig) -> bool {
    &&& c.selected_server_id@ == "example"@
    &&& c.selected_proxy_id@ == "local-1080"@
    &&& c.servers@.len() == 1
    &&& {
        let s = c.servers@[0];
        &&& s.id@ == "example"@
        &&& s.name@ == "Example server"@
        &&& s.host@ == "example.com"@
        &&& s.port == 22
        &&& s.user@ == "user"@
        &&& s.key_path@ == "~/.ssh/id_ed25519"@
        &&& !s.compression
        &&& s.strict_host_key_checking@ == "yes"@
        &&& s.connect_timeout == 8
        &&& s.server_alive_interval == 15
        &&& s.server_alive_count_max == 3
    }
    &&& c.proxies@.len() == 1
    &&& {
        let p = c.proxies@[0];
        &&& p.id@ == "local-1080"@
        &&& p.name@ == "Local 1080"@
        &&& p.host@ == "127.0.0.1"@
        &&& p.port == 1080
    }
    &&& is_default_settings(c.settings)
}

/// The configuration that is written where there is none yet.
pub fn default_config() -> (r: AppConfig)
    ensures
        is_default_config(r),
{
    AppConfig {
        selected_server_id: "example".to_owned(),
        selected_proxy_id: "local-1080".to_owned(),
        servers: vec![
            ServerProfile {
                id: "example".to_owned(),
                name: "Example server".to_owned(),
                host: "example.com".to_owned(),
                port: 22,
                user: "user".to_owned(),
                key_path: "~/.ssh/id_ed25519".to_owned(),
                compression: false,
                strict_host_key_checking: default_strict_host_key_checking(),
                connect_timeout: default_connect_timeout(),
                server_alive_interval: default_server_alive_interval(),
                server_alive_count_max: default_server_alive_count_max(),
            },
        ],
        proxies: vec![
            ProxyProfile {
                id: "local-1080".to_owned(),
                name: "Local 1080".to_owned(),
                host: "127.0.0.1".to_owned(),
                port: 1080,
            },
        ],
        settings: AppSettings::default(),
    }
}

/// Nothing but the servers and their selection differs.
pub open spec fn only_servers_differ(before: AppConfig, after: AppConfig) -> bool {
    &&& after.proxies == before.proxies
    &&& after.selected_proxy_id == before.selected_proxy_id
    &&& after.settings == before.settings
}

/// What saving a server does.
pub open spec fn server_saved(before: AppConfig, server: ServerProfile, after: AppConfig) -> bool {
    &&& only_servers_differ(before, after)
    &&& server_choice(after) == saved(server_choice(before), server)
}

/// What deleting servers by id does.
pub open spec fn server_deleted(before: AppConfig, id: Seq<char>, after: AppConfig) -> bool {
    &&& only_servers_differ(before, after)
    &&& server_choice(after) == deleted(server_choice(before), id)
}

/// What selecting a server does.
pub open spec fn server_selected(before: AppConfig, id: Seq<char>, after: AppConfig) -> bool {
    &&& only_servers_differ(before, after)
    &&& server_choice(after) == selecting(server_choice(before), id)
}

/// Adds a server profile, or replaces the one with its id.
pub fn save_server(config: AppConfig, server: ServerProfile) -> (r: Result<AppConfig, String>)
    ensures
        match r {
            Ok(after) => valid_server(server) && server_saved(config, server, after),
            Err(message) => server_fault(server) == Some(message@),
        },
        r is Ok <==> valid_server(server),
{
    match validate_server(&server) {
        Ok(()) => {},
        Err(message) => {
            return Err(message);
        },
    }
    let mut config = config;
    let id = server.id.clone();
    put(&mut config.servers, server);
    if config.selected_server_id.as_str().is_empty() {
        config.selected_server_id = id;
    }
    Ok(config)
}

/// Removes every server profile with this id.
pub fn delete_server(config: AppConfig, id: &str) -> (after: AppConfig)
    ensures
        server_deleted(config, id@, after),
{
    let mut config = config;
    config.servers = remove(&config.servers, id);
    if same_text(config.selected_server_id.as_str(), id) {
        config.selected_server_id = if config.servers.len() > 0 {
            config.servers[0].id.clone()
        } else {
            String::new()
        };
    }
    config
}

/// Selects a server profile.
pub fn select_server(config: AppConfig, id: String) -> (r: Result<AppConfig, String>)
    ensures
        match r {
            Ok(after) => server_selected(config, id@, after),
            Err(message) => message@ == "Server profile not found"@,
        },
        r is Ok <==> lookup(config.servers@, id@) is Some,
{
    if find(&config.servers, id.as_str()).is_none() {
        return Err("Server profile not found".to_owned());
    }
    let mut config = config;
    config.selected_server_id = id;
    Ok(config)
}

/// Nothing but the proxies and their selection differs.
pub open spec fn only_proxies_differ(before: AppConfig, after: AppConfig) -> bool {
    &&& after.servers == before.servers
    &&& after.selected_server_id == before.selected_server_id
    &&& after.settings == before.settings
}

/// What saving a proxy does.
pub open spec fn proxy_saved(before: AppConfig, proxy: ProxyProfile, after: AppConfig) -> bool {
    &&& only_proxies_differ(before, after)
    &&& proxy_choice(after) == saved(proxy_choice(before), proxy)
}

/// What deleting proxies by id does.
pub open spec fn proxy_deleted(before: AppConfig, id: Seq<char>, after: AppConfig) -> bool {
    &&& only_proxies_differ(before, after)
    &&& proxy_choice(after) == deleted(proxy_choice(before), id)
}

/// What selecting a proxy does.
pub open spec fn proxy_selected(before: AppConfig, id: Seq<char>, after: AppConfig) -> bool {
    &&& only_proxies_differ(before, after)
    &&& proxy_choice(after) == selecting(proxy_choice(before), id)
}

/// Adds a proxy profile, or replaces the one with its id.
pub fn save_proxy(config: AppConfig, proxy: ProxyProfile) -> (r: Result<AppConfig, String>)
    ensures
        match r {
            Ok(after) => valid_proxy(proxy) && proxy_saved(config, proxy, after),
            Err(message) => proxy_fault(proxy) == Some(message@),
        },
        r is Ok <==> valid_proxy(proxy),
{
    match validate_proxy(&proxy) {
        Ok(()) => {},
        Err(message) => {
            return Err(message);
        },
    }
    let mut config = config;
    let id = proxy.id.clone();
    put(&mut config.proxies, proxy);
    if config.selected_proxy_id.as_str().is_empty() {
        config.selected_proxy_id = id;
    }
    Ok(config)
}

/// Removes every proxy profile with this id.
pub fn delete_proxy(config: AppConfig, id: &str) -> (after: AppConfig)
    ensures
        proxy_deleted(config, id@, after),
{
    let mut config = config;
    config.proxies = remove(&config.proxies, id);
    if same_text(config.selected_proxy_id.as_str(), id) {
        config.selected_proxy_id = if config.proxies.len() > 0 {
            config.proxies[0].id.clone()
        } else {
            String::new()
        };
    }
    config
}

/// Selects a proxy profile.
pub fn select_proxy(config: AppConfig, id: String) -> (r: Result<AppConfig, String>)
    ensures
        match r {
            Ok(after) => proxy_selected(config, id@, after),
            Err(message) => message@ == "Proxy profile not found"@,
        },
        r is Ok <==> lookup(config.proxies@, id@) is Some,
{
    if find(&config.proxies, id.as_str()).is_none() {
        return Err("Proxy profile not found".to_owned());
    }
    let mut config = config;
    config.selected_proxy_id = id;
    Ok(config)
}

/// Replaces the settings.
pub fn save_settings(config: AppConfig, settings: AppSettings) -> (r: Result<AppConfig, String>)
    ensures
        match r {
            Ok(after) => valid_settings(settings) && after == (AppConfig { settings, ..config }),
            Err(message) => settings_fault(settings) == Some(message@),
        },
        r is Ok <==> valid_settings(settings),
{
    match validate_settings(&settings) {
        Ok(()) => {},
        Err(message) => {
            return Err(message);
        },
    }
    let mut config = config;
    config.settings = settings;
    Ok(config)
}

/// No edit of the servers leaves a consistent configuration with a selection that
/// stands for nothing, and none touches the selection on the other side.
pub proof fn law_server_edits_stay_consistent(
    before: AppConfig,
    server: ServerProfile,
    id: Seq<char>,
    after: AppConfig,
)
    requires
        consistent(server_choice(before)),
        (server_saved(before, server, after) && valid_server(server)) || server_deleted(
            before,
            id,
            after,
        ) || (server_selected(before, id, after) && lookup(before.servers@, id) is Some),
    ensures
        consistent(server_choice(after)),
        proxy_choice(after) == proxy_choice(before),
{
    let choice = server_choice(before);
    if server_saved(before, server, after) && valid_server(server) {
        assert(server.id@.len() > 0) by {
            if server.id@.len() == 0 {
                assert(is_blank(server.id@));
            }
        }
        law_saving_stays_consistent(choice, server);
    } else if server_deleted(before, id, after) {
        law_deleting_stays_consistent(choice, id);
    } else {
        law_selecting_stays_consistent(choice, id);
    }
}

/// Saving a server puts it where its id finds it, deleting leaves nothing under
/// the id, and selecting changes the selection alone. Every other id finds what
/// it found, and nothing else of the configuration changes.
pub proof fn law_server_edits_do_what_they_say(
    before: AppConfig,
    server: ServerProfile,
    id: Seq<char>,
    after: AppConfig,
    other: Seq<char>,
)
    ensures
        server_saved(before, server, after) ==> {
            &&& lookup(after.servers@, server.id@) == Some(server)
            &&& other != server.id@ ==> lookup(after.servers@, other) == lookup(before.servers@, other)
            &&& before.selected_server_id@.len() > 0 ==> after.selected_server_id@
                == before.selected_server_id@
        },
        server_deleted(before, id, after) ==> {
            &&& lookup(after.servers@, id) is None
            &&& other != id ==> lookup(after.servers@, other) == lookup(before.servers@, other)
            &&& before.selected_server_id@ != id ==> after.selected_server_id@
                == before.selected_server_id@
        },
        server_selected(before, id, after) ==> after.servers@ == before.servers@
            && after.selected_server_id@ == id,
        server_saved(before, server, after) || server_deleted(before, id, after) || server_selected(
            before,
            id,
            after,
        ) ==> after.proxies == before.proxies && after.selected_proxy_id == before.selected_proxy_id
            && after.settings == before.settings,
{
    law_saved_is_found(before.servers@, server);
    law_deleted_is_gone(before.servers@, id);
}

/// A fresh installation is consistent: its one server is valid, selected and used.
pub proof fn law_default_server_is_used(config: AppConfig)
    requires
        is_default_config(config),
    ensures
        consistent(server_choice(config)),
        valid_server(config.servers@[0]),
        chosen_server(config) == Some(config.servers@[0]),
{
    let only = config.servers@[0];
    reveal_strlit("example");
    reveal_strlit("Example server");
    reveal_strlit("example.com");
    reveal_strlit("user");
    reveal_strlit("~/.ssh/id_ed25519");
    assert(!is_white(only.id@[0]));
    assert(!is_white(only.name@[0]));
    assert(!is_white(only.host@[0]));
    assert(!is_white(only.user@[0]));
    assert(!is_white(only.key_path@[0]));
    lemma_position_is(crate::selection::keys(config.servers@), config.selected_server_id@, 0);
}

/// No edit of the proxies leaves a consistent configuration with a selection that
/// stands for nothing, and none touches the selection on the other side.
pub proof fn law_proxy_edits_stay_consistent(
    before: AppConfig,
    proxy: ProxyProfile,
    id: Seq<char>,
    after: AppConfig,
)
    requires
        consistent(proxy_choice(before)),
        (proxy_saved(before, proxy, after) && valid_proxy(proxy)) || proxy_deleted(
            before,
            id,
            after,
        ) || (proxy_selected(before, id, after) && lookup(before.proxies@, id) is Some),
    ensures
        consistent(proxy_choice(after)),
        server_choice(after) == server_choice(before),
{
    let choice = proxy_choice(before);
    if proxy_saved(before, proxy, after) && valid_proxy(proxy) {
        assert(proxy.id@.len() > 0) by {
            if proxy.id@.len() == 0 {
                assert(is_blank(proxy.id@));
            }
        }
        law_saving_stays_consistent(choice, proxy);
    } else if proxy_deleted(before, id, after) {
        law_deleting_stays_consistent(choice, id);
    } else {
        law_selecting_stays_consistent(choice, id);
    }
}

/// Saving a proxy puts it where its id finds it, deleting leaves nothing under
/// the id, and selecting changes the selection alone. Every other id finds what
/// it found, and nothing else of the configuration changes.
pub proof fn law_proxy_edits_do_what_they_say(
    before: AppConfig,
    proxy: ProxyProfile,
    id: Seq<char>,
    after: AppConfig,
    other: Seq<char>,
)
    ensures
        proxy_saved(before, proxy, after) ==> {
            &&& lookup(after.proxies@, proxy.id@) == Some(proxy)
            &&& other != proxy.id@ ==> lookup(after.proxies@, other) == lookup(before.proxies@, other)
            &&& before.selected_proxy_id@.len() > 0 ==> after.selected_proxy_id@
                == before.selected_proxy_id@
        },
        proxy_deleted(before, id, after) ==> {
            &&& lookup(after.proxies@, id) is None
            &&& other != id ==> lookup(after.proxies@, other) == lookup(before.proxies@, other)
            &&& before.selected_proxy_id@ != id ==> after.selected_proxy_id@
                == before.selected_proxy_id@
        },
        proxy_selected(before, id, after) ==> after.proxies@ == before.proxies@
            && after.selected_proxy_id@ == id,
        proxy_saved(before, proxy, after) || proxy_deleted(before, id, after) || proxy_selected(
            before,
            id,
            after,
        ) ==> after.servers == before.servers && after.selected_server_id == before.selected_server_id
            && after.settings == before.settings,
{
    law_saved_is_found(before.proxies@, proxy);
    law_deleted_is_gone(before.proxies@, id);
}

/// A fresh installation is consistent: its one proxy is valid, selected and used.
pub proof fn law_default_proxy_is_used(config: AppConfig)
    requires
        is_default_config(config),
    ensures
        consistent(proxy_choice(config)),
        valid_proxy(config.proxies@[0]),
        chosen_proxy(config) == Some(config.proxies@[0]),
{
    let only = config.proxies@[0];
    reveal_strlit("local-1080");
    reveal_strlit("Local 1080");
    reveal_strlit("127.0.0.1");
    assert(!is_white(only.id@[0]));
    assert(!is_white(only.name@[0]));
    assert(!is_white(only.host@[0]));
    lemma_position_is(crate::selection::keys(config.proxies@), config.selected_proxy_id@, 0);
}

} // verus!
