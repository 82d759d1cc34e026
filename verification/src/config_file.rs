//! Where the configuration is kept, and how a file of either form is read.
use crate::config::AppConfig;
use crate::json::{
    as_text, as_unsigned, copy_value, get_member, get_text_member, get_unsigned, json_from_text,
    json_of, member, parse_text, text_member, Json,
};
use crate::profile::{is_default_settings, AppSettings, ProxyProfile, ServerProfile};
use crate::text::{chars_of, decimal, maybe_text, push_decimal, text_of, texts};
use vstd::prelude::*;
use vstd::string::StringExecFns;

verus! {

/// What a configuration of the older form says, with what it leaves out.
#[derive(Debug)]
pub struct LegacyFields {
    pub selected_server_id: Option<String>,
    pub host: Option<String>,
    pub port: Option<u64>,
}

/// A configuration file that was read as JSON.
#[derive(Debug)]
pub enum ConfigDocument {
    /// The whole document is a configuration.
    Current(serde_json::Value),
    /// The document is of the older form, with one proxy. Its servers, if it
    /// has any, are the list in `servers`.
    Legacy { servers: Option<serde_json::Value>, fields: LegacyFields },
}

/// A configuration file with its texts and documents.
pub enum DocumentModel {
    Current(Json),
    Legacy {
        servers: Option<Json>,
        selected_server_id: Option<Seq<char>>,
        host: Option<Seq<char>>,
        port: Option<u64>,
    },
}

impl View for ConfigDocument {
    type V = DocumentModel;

    open spec fn view(&self) -> DocumentModel {
        match *self {
            ConfigDocument::Current(value) => DocumentModel::Current(json_of(value)),
            ConfigDocument::Legacy { servers, fields } => DocumentModel::Legacy {
                servers: match servers {
                    Some(value) => Some(json_of(value)),
                    None => None,
                },
                selected_server_id: maybe_text(fields.selected_server_id),
                host: maybe_text(fields.host),
                port: fields.port,
            },
        }
    }
}

/// A member of a member.
pub open spec fn inner_member(json: Json, outer: Seq<char>, inner: Seq<char>) -> Option<Json> {
    match member(json, outer) {
        Some(found) => member(found, inner),
        None => None,
    }
}

/// How a document is to be read: it is of the current form when it has
/// `proxies`.
pub open spec fn document_of(json: Json) -> DocumentModel {
    if member(json, "proxies"@) is Some {
        DocumentModel::Current(json)
    } else {
        DocumentModel::Legacy {
            servers: member(json, "servers"@),
            selected_server_id: text_member(json, "selected_server_id"@),
            host: match inner_member(json, "proxy"@, "host"@) {
                Some(host) => as_text(host),
                None => None,
            },
            port: match inner_member(json, "proxy"@, "port"@) {
                Some(port) => as_unsigned(port),
                None => None,
            },
        }
    }
}

/// Tells the two forms of a configuration apart and reads the older one.
pub fn classify_config(value: serde_json::Value) -> (r: ConfigDocument)
    ensures
        r@ == document_of(json_of(value)),
{
    if get_member(&value, "proxies").is_some() {
        return ConfigDocument::Current(value);
    }
    let servers = match get_member(&value, "servers") {
        Some(found) => Some(copy_value(found)),
        None => None,
    };
    let selected_server_id = get_text_member(&value, "selected_server_id");
    let (host, port) = match get_member(&value, "proxy") {
        Some(proxy) => (
            get_text_member(proxy, "host"),
            match get_member(proxy, "port") {
                Some(found) => get_unsigned(found),
                None => None,
            },
        ),
        None => (None, None),
    };
    ConfigDocument::Legacy { servers, fields: LegacyFields { selected_server_id, host, port } }
}

/// The servers that a document lists come back item by item: with the whole
/// document where it is of the current form, else as the list that they are.
pub proof fn law_listed_servers_come_back(json: Json, items: Seq<Json>)
    requires
        member(json, "servers"@) == Some(Json::List(items)),
    ensures
        match document_of(json) {
            DocumentModel::Current(whole) => whole == json,
            DocumentModel::Legacy { servers, selected_server_id: _, host: _, port: _ } => servers
                == Some(Json::List(items)),
        },
{
}

/// Reads a configuration file.
pub fn parse_config(raw: &str) -> (r: Result<ConfigDocument, String>)
    ensures
        match r {
            Ok(document) => json_from_text(raw@) is Ok && document@ == document_of(
                json_from_text(raw@)->Ok_0,
            ),
            Err(message) => json_from_text(raw@) == Err::<Json, Seq<char>>(message@),
        },
{
    match parse_text(raw) {
        Ok(value) => Ok(classify_config(value)),
        Err(message) => Err(message),
    }
}

/// The port of an older configuration: 1080 unless it says another, of which
/// the low 16 bits count.
pub open spec fn legacy_port(port: Option<u64>) -> u16 {
    match port {
        Some(n) => (n % 65536) as u16,
        None => 1080,
    }
}

/// A text that may be missing, with what stands in for it.
pub open spec fn text_or(text: Option<String>, missing: Seq<char>) -> Seq<char> {
    match text {
        Some(text) => text@,
        None => missing,
    }
}

/// The configuration that an older one becomes.
pub open spec fn is_legacy_config(
    config: AppConfig,
    fields: LegacyFields,
    servers: Seq<ServerProfile>,
) -> bool {
    let port = legacy_port(fields.port);
    &&& config.selected_server_id@ == text_or(fields.selected_server_id, "fr"@)
    &&& config.selected_proxy_id@ == "local-"@ + decimal(port as nat)
    &&& config.servers@ == servers
    &&& config.proxies@.len() == 1
    &&& config.proxies@[0].id@ == "local-"@ + decimal(port as nat)
    &&& config.proxies@[0].name@ == "Local "@ + decimal(port as nat)
    &&& config.proxies@[0].host@ == text_or(fields.host, "127.0.0.1"@)
    &&& config.proxies@[0].port == port
    &&& is_default_settings(config.settings)
}

fn numbered(prefix: &str, n: u16) -> (r: String)
    ensures
        r@ == prefix@ + decimal(n as nat),
{
    let mut out = prefix.to_owned();
    push_decimal(&mut out, n as u64);
    out
}

/// The servers of a configuration that may have no list of them.
pub open spec fn listed(servers: Option<Vec<ServerProfile>>) -> Seq<ServerProfile> {
    match servers {
        Some(list) => list@,
        None => Seq::empty(),
    }
}

/// Turns an older configuration into one of the current form. One without a
/// list of servers has none.
pub fn legacy_config(fields: LegacyFields, servers: Option<Vec<ServerProfile>>) -> (r: AppConfig)
    ensures
        is_legacy_config(r, fields, listed(servers)),
{
    let servers: Vec<ServerProfile> = match servers {
        Some(list) => list,
        None => Vec::new(),
    };
    let port: u16 = match fields.port {
        Some(n) => (n % 65536) as u16,
        None => 1080,
    };
    AppConfig {
        selected_server_id: match fields.selected_server_id {
            Some(id) => id,
            None => "fr".to_owned(),
        },
        selected_proxy_id: numbered("local-", port),
        servers,
        proxies: vec![
            ProxyProfile {
                id: numbered("local-", port),
                name: numbered("Local ", port),
                host: match fields.host {
                    Some(host) => host,
                    None => "127.0.0.1".to_owned(),
                },
                port,
            },
        ],
        settings: AppSettings::default(),
    }
}

/// An older configuration that names neither a host nor a port comes to the
/// proxy of a fresh installation.
pub proof fn law_legacy_proxy_defaults(
    config: AppConfig,
    fields: LegacyFields,
    servers: Seq<ServerProfile>,
)
    requires
        is_legacy_config(config, fields, servers),
        fields.host is None,
        fields.port is None,
    ensures
        config.proxies@[0].id@ == "local-1080"@,
        config.proxies@[0].name@ == "Local 1080"@,
        config.proxies@[0].host@ == "127.0.0.1"@,
        config.proxies@[0].port == 1080,
{
    reveal_strlit("local-");
    reveal_strlit("local-1080");
    reveal_strlit("Local ");
    reveal_strlit("Local 1080");
    reveal_with_fuel(crate::text::digits, 5);
    assert(decimal(1080) == seq!['1', '0', '8', '0']);
    assert("local-"@ + decimal(1080) == "local-1080"@);
    assert("Local "@ + decimal(1080) == "Local 1080"@);
}

/// The proxy of an older configuration is the one that is selected.
pub proof fn law_legacy_proxy_is_used(
    config: AppConfig,
    fields: LegacyFields,
    servers: Seq<ServerProfile>,
)
    requires
        is_legacy_config(config, fields, servers),
    ensures
        crate::config::chosen_proxy(config) == Some(config.proxies@[0]),
{
    crate::text::lemma_position_is(
        crate::selection::keys(config.proxies@),
        config.selected_proxy_id@,
        0,
    );
}

/// Which file a configuration is taken from.
#[derive(Clone, Copy, Debug, PartialEq, Eq, Structural)]
pub enum ConfigSource {
    /// The current file.
    Current,
    /// The file of an earlier release; what it holds is then saved.
    Legacy,
    /// No file; the configuration of a fresh installation is saved.
    Fresh,
}

/// Decides which file a configuration is taken from, by which files exist.
pub fn config_source(current_exists: bool, legacy_exists: bool) -> (r: ConfigSource)
    ensures
        r == if current_exists {
            ConfigSource::Current
        } else if legacy_exists {
            ConfigSource::Legacy
        } else {
            ConfigSource::Fresh
        },
{
    if current_exists {
        ConfigSource::Current
    } else if legacy_exists {
        ConfigSource::Legacy
    } else {
        ConfigSource::Fresh
    }
}

/// A file by the way that leads to it: a directory, and the names that follow
/// it one inside another. How they are put together is the system's affair.
#[derive(Debug)]
pub struct FilePath {
    pub base: String,
    pub names: Vec<String>,
}

/// A path with its texts.
#[verifier::ext_equal]
pub struct PathModel {
    pub base: Seq<char>,
    pub names: Seq<Seq<char>>,
}

impl View for FilePath {
    type V = PathModel;

    open spec fn view(&self) -> PathModel {
        PathModel { base: self.base@, names: texts(self.names@) }
    }
}

/// The configuration file of an application in a home directory.
pub open spec fn config_file_in(home: Seq<char>, application: Seq<char>) -> PathModel {
    PathModel { base: home, names: seq![".config"@, application, "config.json"@] }
}

fn config_file(home: Option<&str>, application: &str) -> (r: Result<FilePath, String>)
    ensures
        match home {
            Some(home) => r is Ok && r->Ok_0@ == config_file_in(home@, application@),
            None => r is Err && r->Err_0@ == "HOME is not set"@,
        },
{
    match home {
        Some(home) => {
            let names: Vec<String> = vec![
                ".config".to_owned(),
                application.to_owned(),
                "config.json".to_owned(),
            ];
            assert(texts(names@) =~= seq![".config"@, application@, "config.json"@]);
            Ok(FilePath { base: home.to_owned(), names })
        },
        None => Err("HOME is not set".to_owned()),
    }
}

/// Where the configuration is kept, given the home directory.
pub fn config_path(home: Option<&str>) -> (r: Result<FilePath, String>)
    ensures
        match home {
            Some(home) => r is Ok && r->Ok_0@ == config_file_in(home@, "secret-tunnel"@),
            None => r is Err && r->Err_0@ == "HOME is not set"@,
        },
{
    config_file(home, "secret-tunnel")
}

/// Where an earlier release kept the configuration, given the home directory.
pub fn legacy_config_path(home: Option<&str>) -> (r: Result<FilePath, String>)
    ensures
        match home {
            Some(home) => r is Ok && r->Ok_0@ == config_file_in(home@, "fr-tunnel-desktop"@),
            None => r is Err && r->Err_0@ == "HOME is not set"@,
        },
{
    config_file(home, "fr-tunnel-desktop")
}

/// A path with a slash at its end, unless it is empty or has one.
pub open spec fn inside(path: Seq<char>) -> Seq<char> {
    if path.len() == 0 || path.last() == '/' {
        path
    } else {
        path + "/"@
    }
}

/// How a path is written on a system that separates names by slashes.
pub open spec fn with_slashes(path: PathModel) -> Seq<char>
    decreases path.names.len(),
{
    if path.names.len() == 0 {
        path.base
    } else {
        inside(
            with_slashes(PathModel { base: path.base, names: path.names.drop_last() }),
        ) + path.names.last()
    }
}

/// Where names are separated by slashes, the configuration is kept under the
/// home directory as `.config/secret-tunnel/config.json`, and was kept by an
/// earlier release as `.config/fr-tunnel-desktop/config.json`.
pub proof fn law_config_is_under_home(home: Seq<char>)
    ensures
        with_slashes(config_file_in(home, "secret-tunnel"@)) == inside(home)
            + ".config/secret-tunnel/config.json"@,
        with_slashes(config_file_in(home, "fr-tunnel-desktop"@)) == inside(home)
            + ".config/fr-tunnel-desktop/config.json"@,
{
    reveal_strlit("secret-tunnel");
    reveal_strlit("fr-tunnel-desktop");
    lemma_config_file_text(home, "secret-tunnel"@);
    lemma_config_file_text(home, "fr-tunnel-desktop"@);
    reveal_strlit("/");
    reveal_strlit(".config");
    reveal_strlit("config.json");
    reveal_strlit(".config/secret-tunnel/config.json");
    reveal_strlit(".config/fr-tunnel-desktop/config.json");
    assert(with_slashes(config_file_in(home, "secret-tunnel"@)) =~= inside(home)
        + ".config/secret-tunnel/config.json"@);
    assert(with_slashes(config_file_in(home, "fr-tunnel-desktop"@)) =~= inside(home)
        + ".config/fr-tunnel-desktop/config.json"@);
}

proof fn lemma_config_file_text(home: Seq<char>, application: Seq<char>)
    requires
        application.len() > 0,
        application.last() != '/',
    ensures
        with_slashes(config_file_in(home, application)) == inside(home) + ".config"@ + "/"@
            + application + "/"@ + "config.json"@,
{
    reveal_strlit(".config");
    let none = PathModel { base: home, names: Seq::empty() };
    let one = PathModel { base: home, names: seq![".config"@] };
    let two = PathModel { base: home, names: seq![".config"@, application] };
    let three = config_file_in(home, application);
    assert(three.names.drop_last() =~= two.names);
    assert(two.names.drop_last() =~= one.names);
    assert(one.names.drop_last() =~= none.names);
    assert(with_slashes(none) == home);
    assert(with_slashes(one) == inside(home) + ".config"@);
    assert(with_slashes(one).last() == 'g');
    assert(with_slashes(two) == inside(home) + ".config"@ + "/"@ + application);
    assert(with_slashes(two).last() == application.last());
}

/// A path with `~/` in front replaced by the home directory.
pub open spec fn expanded(path: Seq<char>, home: Option<Seq<char>>) -> Seq<char> {
    if home is Some && path.len() >= 2 && path[0] == '~' && path[1] == '/' {
        home->0 + "/"@ + path.skip(2)
    } else {
        path
    }
}

/// Replaces `~/` in front of a path by the home directory, if that is known.
pub fn expand_home(path: &str, home: Option<&str>) -> (r: String)
    ensures
        r@ == expanded(
            path@,
            match home {
                Some(home) => Some(home@),
                None => None,
            },
        ),
{
    let chars = chars_of(path);
    if chars.len() >= 2 && chars[0] == '~' && chars[1] == '/' {
        match home {
            Some(home) => {
                let stripped = text_of(&chars, 2, chars.len());
                assert(stripped@ == path@.skip(2));
                let mut out = home.to_owned();
                out.append("/");
                out.append(stripped.as_str());
                return out;
            },
            None => {},
        }
    }
    path.to_owned()
}

} // verus!
