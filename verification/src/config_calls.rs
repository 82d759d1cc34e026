//! What editing, reading and checking a configuration comes to, call after
//! call.
use crate::address::{ipv4_text, ipv6_text};
use crate::address_laws::{is_dotted, law_ipv4_reads_back};
use crate::config::{
    chosen_proxy, chosen_server, delete_proxy, delete_server, law_proxy_edits_do_what_they_say,
    law_server_edits_do_what_they_say, proxy_choice, save_proxy, save_server, save_settings,
    select_proxy, select_server, selected_proxy, selected_server, server_choice, AppConfig,
};
use crate::config_file::{
    config_path, config_source, expand_home, legacy_config, legacy_config_path, parse_config,
    ConfigDocument, ConfigSource, FilePath, LegacyFields,
};
use crate::json::{json_from_text, json_of, member, Json};
use crate::profile::{
    validate_proxy, validate_server, validate_settings, AppSettings, ProxyProfile, ServerProfile,
};
use crate::profile_laws::{
    first_failing, law_first_fault_is_told, proxy_checks, server_checks, settings_checks,
};
use crate::selection::{law_selected_is_used, lookup, with_item, without_key};
use crate::text::{decimal, texts};
use vstd::prelude::*;

verus! {

/// A profile and settings are accepted exactly if no check fails, and are else
/// refused in the words of the first that does.
pub proof fn law_validation_tells_the_first_fault(
    server: &ServerProfile,
    proxy: &ProxyProfile,
    settings: &AppSettings,
    of_server: Result<(), String>,
    of_proxy: Result<(), String>,
    of_settings: Result<(), String>,
)
    requires
        call_ensures(validate_server, (server,), of_server),
        call_ensures(validate_proxy, (proxy,), of_proxy),
        call_ensures(validate_settings, (settings,), of_settings),
    ensures
        match of_server {
            Ok(_) => first_failing(server_checks(*server)) is None,
            Err(message) => first_failing(server_checks(*server)) == Some(message@),
        },
        match of_proxy {
            Ok(_) => first_failing(proxy_checks(*proxy)) is None,
            Err(message) => first_failing(proxy_checks(*proxy)) == Some(message@),
        },
        match of_settings {
            Ok(_) => first_failing(settings_checks(*settings)) is None,
            Err(message) => first_failing(settings_checks(*settings)) == Some(message@),
        },
{
    law_first_fault_is_told(*server, *proxy, *settings);
}

/// A server that passes its checks is saved, and any other is refused in the
/// same words. A saved server is found, stands where the one with its id stood
/// or last, and nothing but the servers and an empty selection changes.
pub proof fn law_saved_server_is_there(
    before: AppConfig,
    server: ServerProfile,
    saved: Result<AppConfig, String>,
    other: Seq<char>,
)
    requires
        call_ensures(save_server, (before, server), saved),
    ensures
        match saved {
            Ok(after) => {
                &&& first_failing(server_checks(server)) is None
                &&& after.servers@ == with_item(before.servers@, server)
                &&& lookup(after.servers@, server.id@) == Some(server)
                &&& other != server.id@ ==> lookup(after.servers@, other) == lookup(
                    before.servers@,
                    other,
                )
                &&& before.selected_server_id@.len() > 0 ==> after.selected_server_id@
                    == before.selected_server_id@
                &&& before.selected_server_id@.len() == 0 ==> after.selected_server_id@
                    == server.id@
                &&& after.proxies == before.proxies
                &&& after.selected_proxy_id == before.selected_proxy_id
                &&& after.settings == before.settings
            },
            Err(message) => first_failing(server_checks(server)) == Some(message@),
        },
{
    law_first_fault_is_told(server, arbitrary(), before.settings);
    if let Ok(after) = saved {
        law_server_edits_do_what_they_say(before, server, other, after, other);
        assert(server_choice(after).items == after.servers@);
        assert(server_choice(after).selected == after.selected_server_id@);
    }
}

/// A proxy is saved as a server is.
pub proof fn law_saved_proxy_is_there(
    before: AppConfig,
    proxy: ProxyProfile,
    saved: Result<AppConfig, String>,
    other: Seq<char>,
)
    requires
        call_ensures(save_proxy, (before, proxy), saved),
    ensures
        match saved {
            Ok(after) => {
                &&& first_failing(proxy_checks(proxy)) is None
                &&& after.proxies@ == with_item(before.proxies@, proxy)
                &&& lookup(after.proxies@, proxy.id@) == Some(proxy)
                &&& other != proxy.id@ ==> lookup(after.proxies@, other) == lookup(
                    before.proxies@,
                    other,
                )
                &&& before.selected_proxy_id@.len() > 0 ==> after.selected_proxy_id@
                    == before.selected_proxy_id@
                &&& before.selected_proxy_id@.len() == 0 ==> after.selected_proxy_id@ == proxy.id@
                &&& after.servers == before.servers
                &&& after.selected_server_id == before.selected_server_id
                &&& after.settings == before.settings
            },
            Err(message) => first_failing(proxy_checks(proxy)) == Some(message@),
        },
{
    law_first_fault_is_told(arbitrary(), proxy, before.settings);
    if let Ok(after) = saved {
        law_proxy_edits_do_what_they_say(before, proxy, other, after, other);
        assert(proxy_choice(after).items == after.proxies@);
        assert(proxy_choice(after).selected == after.selected_proxy_id@);
    }
}

/// A deleted profile is gone and no other is; where the selected one goes, the
/// first of the others is selected.
pub proof fn law_deleted_profiles_are_gone(
    before: AppConfig,
    id: &str,
    after: AppConfig,
    afterwards: AppConfig,
    other: Seq<char>,
)
    requires
        call_ensures(delete_server, (before, id), after),
        call_ensures(delete_proxy, (before, id), afterwards),
    ensures
        after.servers@ == without_key(before.servers@, id@),
        lookup(after.servers@, id@) is None,
        other != id@ ==> lookup(after.servers@, other) == lookup(before.servers@, other),
        before.selected_server_id@ != id@ ==> after.selected_server_id@
            == before.selected_server_id@,
        before.selected_server_id@ == id@ && after.servers@.len() > 0 ==> after.selected_server_id@
            == after.servers@[0].id@,
        before.selected_server_id@ == id@ && after.servers@.len() == 0
            ==> after.selected_server_id@.len() == 0,
        after.proxies == before.proxies && after.settings == before.settings,
        after.selected_proxy_id == before.selected_proxy_id,
        afterwards.proxies@ == without_key(before.proxies@, id@),
        lookup(afterwards.proxies@, id@) is None,
        other != id@ ==> lookup(afterwards.proxies@, other) == lookup(before.proxies@, other),
        before.selected_proxy_id@ != id@ ==> afterwards.selected_proxy_id@
            == before.selected_proxy_id@,
        before.selected_proxy_id@ == id@ && afterwards.proxies@.len() > 0
            ==> afterwards.selected_proxy_id@ == afterwards.proxies@[0].id@,
        before.selected_proxy_id@ == id@ && afterwards.proxies@.len() == 0
            ==> afterwards.selected_proxy_id@.len() == 0,
        afterwards.servers == before.servers && afterwards.settings == before.settings,
        afterwards.selected_server_id == before.selected_server_id,
{
    law_server_edits_do_what_they_say(before, arbitrary(), id@, after, other);
    law_proxy_edits_do_what_they_say(before, arbitrary(), id@, afterwards, other);
    assert(server_choice(after).items == after.servers@);
    assert(server_choice(after).selected == after.selected_server_id@);
    assert(proxy_choice(afterwards).items == afterwards.proxies@);
    assert(proxy_choice(afterwards).selected == afterwards.selected_proxy_id@);
}

/// A profile can be selected exactly if it is there, and is then the one that a
/// tunnel uses.
pub proof fn law_selected_profiles_are_used(
    before: AppConfig,
    id: String,
    selected: Result<AppConfig, String>,
    picked: Result<ServerProfile, String>,
    selected_too: Result<AppConfig, String>,
    picked_too: Result<ProxyProfile, String>,
)
    requires
        call_ensures(select_server, (before, id), selected),
        selected matches Ok(after) ==> call_ensures(selected_server, (&after,), picked),
        call_ensures(select_proxy, (before, id), selected_too),
        selected_too matches Ok(after) ==> call_ensures(selected_proxy, (&after,), picked_too),
    ensures
        match selected {
            Ok(after) => {
                &&& picked matches Ok(server) && lookup(before.servers@, id@) == Some(server)
                    && server.id@ == id@
                &&& after.servers@ == before.servers@
                &&& after.proxies == before.proxies && after.settings == before.settings
            },
            Err(message) => lookup(before.servers@, id@) is None && message@
                == "Server profile not found"@,
        },
        match selected_too {
            Ok(after) => {
                &&& picked_too matches Ok(proxy) && lookup(before.proxies@, id@) == Some(proxy)
                    && proxy.id@ == id@
                &&& after.proxies@ == before.proxies@
                &&& after.servers == before.servers && after.settings == before.settings
            },
            Err(message) => lookup(before.proxies@, id@) is None && message@
                == "Proxy profile not found"@,
        },
{
    if let Ok(after) = selected {
        law_selected_is_used(server_choice(before), id@);
        assert(server_choice(after).items == after.servers@);
        assert(chosen_server(after) is Some);
    }
    if let Ok(after) = selected_too {
        law_selected_is_used(proxy_choice(before), id@);
        assert(proxy_choice(after).items == after.proxies@);
        assert(chosen_proxy(after) is Some);
    }
}

/// A tunnel uses the profile whose id is selected, else the first of the list;
/// without any the user is asked to add one.
pub proof fn law_first_profile_stands_in(
    config: &AppConfig,
    server: Result<ServerProfile, String>,
    proxy: Result<ProxyProfile, String>,
)
    requires
        call_ensures(selected_server, (config,), server),
        call_ensures(selected_proxy, (config,), proxy),
    ensures
        match (server, lookup(config.servers@, config.selected_server_id@)) {
            (Ok(used), Some(found)) => used == found,
            (Ok(used), None) => config.servers@.len() > 0 && used == config.servers@[0],
            (Err(message), found) => found is None && config.servers@.len() == 0 && message@
                == "Add at least one server profile"@,
        },
        match (proxy, lookup(config.proxies@, config.selected_proxy_id@)) {
            (Ok(used), Some(found)) => used == found,
            (Ok(used), None) => config.proxies@.len() > 0 && used == config.proxies@[0],
            (Err(message), found) => found is None && config.proxies@.len() == 0 && message@
                == "Add at least one local proxy profile"@,
        },
{
    crate::selection::law_some_item_is_used(server_choice(*config));
    crate::selection::law_some_item_is_used(proxy_choice(*config));
}

/// Settings that pass their checks replace those that were, and change nothing
/// else; any others are refused.
pub proof fn law_saved_settings_are_there(
    before: AppConfig,
    settings: AppSettings,
    saved: Result<AppConfig, String>,
)
    requires
        call_ensures(save_settings, (before, settings), saved),
    ensures
        match saved {
            Ok(after) => {
                &&& first_failing(settings_checks(settings)) is None
                &&& after.settings == settings
                &&& after.servers == before.servers && after.proxies == before.proxies
                &&& after.selected_server_id == before.selected_server_id
                &&& after.selected_proxy_id == before.selected_proxy_id
            },
            Err(message) => first_failing(settings_checks(settings)) == Some(message@),
        },
{
    law_first_fault_is_told(arbitrary(), arbitrary(), settings);
}

/// A file that is no document is refused in the words of the reader. One with
/// `proxies` comes back whole; of any other the servers come back as they were
/// listed, and the selected server and the proxy as they were written.
pub proof fn law_files_are_read(raw: &str, read: Result<ConfigDocument, String>, json: Json)
    requires
        call_ensures(parse_config, (raw,), read),
    ensures
        json_from_text(raw@) == Ok::<Json, Seq<char>>(json) ==> match read {
            Ok(ConfigDocument::Current(value)) => member(json, "proxies"@) is Some && json_of(value)
                == json,
            Ok(ConfigDocument::Legacy { servers, fields }) => {
                &&& member(json, "proxies"@) is None
                &&& match (servers, member(json, "servers"@)) {
                    (Some(value), Some(list)) => json_of(value) == list,
                    (None, None) => true,
                    _ => false,
                }
                &&& match (fields.selected_server_id, member(json, "selected_server_id"@)) {
                    (Some(id), Some(Json::Text(text))) => id@ == text,
                    (Some(_), _) => false,
                    (None, Some(Json::Text(_))) => false,
                    (None, _) => true,
                }
                &&& member(json, "proxy"@) is None ==> fields.host is None && fields.port is None
                &&& member(json, "proxy"@) matches Some(proxy) ==> {
                    &&& match (fields.host, member(proxy, "host"@)) {
                        (Some(host), Some(Json::Text(text))) => host@ == text,
                        (Some(_), _) => false,
                        (None, Some(Json::Text(_))) => false,
                        (None, _) => true,
                    }
                    &&& match (fields.port, member(proxy, "port"@)) {
                        (Some(port), Some(Json::Unsigned(n))) => port == n,
                        (Some(_), _) => false,
                        (None, Some(Json::Unsigned(_))) => false,
                        (None, _) => true,
                    }
                }
            },
            Err(_) => false,
        },
        json_from_text(raw@) matches Err(fault) ==> (read matches Err(message) && message@
            == fault),
{
    if let Ok(_) = read {
        crate::config_file_laws::law_documents_are_read_part_by_part(
            json,
            match member(json, "proxy"@) {
                Some(proxy) => proxy,
                None => Json::Null,
            },
        );
    }
}

/// An older configuration comes back with its servers, none where it lists none,
/// and with the proxy that it names.
pub proof fn law_older_configuration_comes_back(
    fields: LegacyFields,
    servers: Option<Vec<ServerProfile>>,
    config: AppConfig,
)
    requires
        call_ensures(legacy_config, (fields, servers), config),
    ensures
        servers matches Some(list) ==> config.servers@ == list@,
        servers is None ==> config.servers@.len() == 0,
        fields.selected_server_id matches Some(id) ==> config.selected_server_id@ == id@,
        config.proxies@.len() == 1,
        config.selected_proxy_id@ == config.proxies@[0].id@,
        config.proxies@[0].id@ == "local-"@ + decimal(config.proxies@[0].port as nat),
        config.proxies@[0].name@ == "Local "@ + decimal(config.proxies@[0].port as nat),
        fields.host matches Some(host) ==> config.proxies@[0].host@ == host@,
        fields.port matches Some(n) ==> n <= 65535 ==> config.proxies@[0].port == n,
        fields.port is None ==> config.proxies@[0].port == 1080,
{
}

/// The current file is read where it is there, else that of an earlier release,
/// else none. Both are under the home directory, which has to be known.
pub proof fn law_files_are_looked_for_in_order(
    current: bool,
    legacy: bool,
    source: ConfigSource,
    home: &str,
    path: Result<FilePath, String>,
    legacy_path: Result<FilePath, String>,
    no_path: Result<FilePath, String>,
)
    requires
        call_ensures(config_source, (current, legacy), source),
        call_ensures(config_path, (Some(home),), path),
        call_ensures(legacy_config_path, (Some(home),), legacy_path),
        call_ensures(config_path, (None,), no_path),
    ensures
        source == ConfigSource::Current <==> current,
        source == ConfigSource::Legacy <==> !current && legacy,
        source == ConfigSource::Fresh <==> !current && !legacy,
        path matches Ok(file) && file.base@ == home@ && texts(file.names@) == seq![
            ".config"@,
            "secret-tunnel"@,
            "config.json"@,
        ],
        legacy_path matches Ok(file) && file.base@ == home@ && texts(file.names@) == seq![
            ".config"@,
            "fr-tunnel-desktop"@,
            "config.json"@,
        ],
        no_path matches Err(message) && message@ == "HOME is not set"@,
{
    if let Ok(file) = path {
        assert(file@.base == file.base@);
        assert(file@.names == texts(file.names@));
    }
    if let Ok(file) = legacy_path {
        assert(file@.base == file.base@);
        assert(file@.names == texts(file.names@));
    }
}

/// A path comes back with the home directory in place of its tilde, or as it
/// was.
pub proof fn law_paths_are_expanded(path: &str, home: &str, with_home: String, without: String)
    requires
        call_ensures(expand_home, (path, Some(home)), with_home),
        call_ensures(expand_home, (path, None), without),
    ensures
        without@ == path@,
        path@.len() >= 2 && path@[0] == '~' && path@[1] == '/' ==> with_home@ == home@ + seq!['/']
            + path@.skip(2),
        !(path@.len() >= 2 && path@[0] == '~' && path@[1] == '/') ==> with_home@ == path@,
{
    reveal_strlit("/");
    assert("/"@ =~= seq!['/']);
}

/// The text of an IPv4 address reads back as the octets that it was written
/// from.
pub proof fn law_written_ipv4_reads_back(octets: &[u8], at: usize, text: String)
    requires
        at + 4 <= octets@.len(),
        call_ensures(ipv4_text, (octets, at), text),
    ensures
        is_dotted(text@, octets@.subrange(at as int, at + 4)),
{
    let four = octets@.subrange(at as int, at + 4);
    let tail = octets@.skip(at as int);
    assert(four[0] == tail[0] && four[1] == tail[1] && four[2] == tail[2] && four[3] == tail[3]);
    law_ipv4_reads_back(four, four);
}

/// The text of an IPv6 address is the one that stands for its groups.
pub proof fn law_written_ipv6_is_the_address(octets: &[u8], text: String)
    requires
        octets@.len() == 16,
        call_ensures(ipv6_text, (octets,), text),
    ensures
        text@ == crate::address::ipv6(octets@),
{
}

} // verus!
