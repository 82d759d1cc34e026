//! What is read of a configuration file of either form, and where it is kept.
use crate::config::{proxy_choice, server_choice, AppConfig};
use crate::config_file::{
    config_file_in, document_of, expanded, is_legacy_config, DocumentModel,
    LegacyFields,
};
use crate::json::{as_text, as_unsigned, member, text_member, Json};
use crate::profile::{is_default_settings, ProxyProfile, ServerProfile};
use crate::selection::Identified;
use crate::text::decimal;
use crate::text_laws::{lemma_decimal_reads, reads_as};
use vstd::prelude::*;

verus! {

/// An object with these members.
pub open spec fn object(members: Map<Seq<char>, Json>) -> Json {
    Json::Object(members)
}

/// What is put into a document under a key is found there and nowhere else, and
/// only an object has members. A text is read as itself, and so is an unsigned
/// number; neither is read as the other.
pub proof fn law_members_are_found(
    members: Map<Seq<char>, Json>,
    key: Seq<char>,
    other: Seq<char>,
    value: Json,
    text: Seq<char>,
    n: u64,
    below: i64,
)
    ensures
        member(object(members.insert(key, value)), key) == Some(value),
        other != key ==> member(object(members.insert(key, value)), other) == member(
            object(members),
            other,
        ),
        member(object(members.remove(key)), key) is None,
        member(Json::Text(text), key) is None,
        member(Json::List(seq![value]), key) is None,
        member(Json::Null, key) is None,
        as_text(Json::Text(text)) == Some(text),
        as_text(Json::Unsigned(n)) is None,
        as_text(Json::Null) is None,
        as_unsigned(Json::Unsigned(n)) == Some(n),
        as_unsigned(Json::Text(text)) is None,
        as_unsigned(Json::Negative(below)) is None,
        as_unsigned(Json::Fraction) is None,
        text_member(object(members.insert(key, Json::Text(text))), key) == Some(text),
        text_member(object(members.insert(key, Json::Unsigned(n))), key) is None,
        text_member(object(members.remove(key)), key) is None,
{
}

/// A document with `proxies` is taken whole. Of any other each part is read from
/// its place and from there alone: the servers, the selected server, and the
/// host and the port of the one proxy; what is missing or of another kind is
/// missing.
pub proof fn law_documents_are_read_part_by_part(json: Json, proxy: Json)
    ensures
        member(json, "proxies"@) is Some ==> document_of(json) == DocumentModel::Current(json),
        member(json, "proxies"@) is None ==> {
            &&& document_of(json) matches DocumentModel::Legacy {
                servers,
                selected_server_id,
                host,
                port,
            } && {
                &&& servers == member(json, "servers"@)
                &&& selected_server_id == text_member(json, "selected_server_id"@)
                &&& member(json, "proxy"@) is None ==> host is None && port is None
                &&& member(json, "proxy"@) == Some(proxy) ==> host == text_member(
                    proxy,
                    "host"@,
                ) && port == match member(proxy, "port"@) {
                    Some(Json::Unsigned(n)) => Some(n),
                    _ => None,
                }
            }
        },
{
}

/// An older configuration keeps what it says: its servers, the selected one, the
/// host of its proxy and the port, if that is one. The proxy is named after its
/// port and selected, and everything else is as in a fresh installation.
pub proof fn law_older_configuration_keeps_what_it_says(
    config: AppConfig,
    fields: LegacyFields,
    servers: Seq<ServerProfile>,
)
    requires
        is_legacy_config(config, fields, servers),
    ensures
        config.servers@ == servers,
        fields.selected_server_id matches Some(id) ==> config.selected_server_id@ == id@,
        fields.selected_server_id is None ==> config.selected_server_id@ == "fr"@,
        config.proxies@.len() == 1,
        fields.host matches Some(host) ==> config.proxies@[0].host@ == host@,
        fields.host is None ==> config.proxies@[0].host@ == "127.0.0.1"@,
        fields.port matches Some(n) ==> n <= 65535 ==> config.proxies@[0].port == n,
        fields.port matches Some(n) ==> (n - config.proxies@[0].port) % 65536 == 0,
        fields.port is None ==> config.proxies@[0].port == 1080,
        ({
            let number = decimal(config.proxies@[0].port as nat);
            &&& reads_as(number, config.proxies@[0].port as nat)
            &&& config.proxies@[0].id@ == "local-"@ + number
            &&& config.proxies@[0].name@ == "Local "@ + number
            &&& config.selected_proxy_id@ == config.proxies@[0].id@
        }),
        is_default_settings(config.settings),
{
    lemma_decimal_reads(config.proxies@[0].port as u64);
}

/// A home directory takes the place of the tilde in front of a path, with the
/// slash and everything behind it kept. Any other path is left as it is, and so
/// is every path where the home directory is not known.
pub proof fn law_home_takes_the_place_of_the_tilde(
    path: Seq<char>,
    rest: Seq<char>,
    home: Seq<char>,
)
    ensures
        expanded(seq!['~', '/'] + rest, Some(home)) == home + seq!['/'] + rest,
        expanded(path, None) == path,
        (path.len() < 2 || path[0] != '~' || path[1] != '/') ==> expanded(path, Some(home))
            == path,
{
    let tilde = seq!['~', '/'] + rest;
    reveal_strlit("/");
    assert("/"@ =~= seq!['/']);
    assert(tilde.skip(2) =~= rest);
}

/// The way to the configuration begins at the home directory and goes through
/// `.config` and a directory of the application to a file of always the same
/// name. The current file and that of an earlier release are not the same.
pub proof fn law_way_to_the_configuration(home: Seq<char>, application: Seq<char>)
    ensures
        config_file_in(home, application).base == home,
        config_file_in(home, application).names == seq![".config"@, application, "config.json"@],
        config_file_in(home, "secret-tunnel"@) != config_file_in(home, "fr-tunnel-desktop"@),
{
    reveal_strlit("secret-tunnel");
    reveal_strlit("fr-tunnel-desktop");
    let current = config_file_in(home, "secret-tunnel"@);
    let legacy = config_file_in(home, "fr-tunnel-desktop"@);
    assert(current.names[1].len() != legacy.names[1].len());
}

/// Profiles are found by their ids, and what is chosen from is the list of the
/// configuration with its selection.
pub proof fn law_profiles_are_found_by_id(
    server: ServerProfile,
    proxy: ProxyProfile,
    config: AppConfig,
)
    ensures
        server.key() == server.id@,
        proxy.key() == proxy.id@,
        server_choice(config).items == config.servers@,
        server_choice(config).selected == config.selected_server_id@,
        proxy_choice(config).items == config.proxies@,
        proxy_choice(config).selected == config.selected_proxy_id@,
{
}

} // verus!
