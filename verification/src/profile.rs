//! Server and proxy profiles, application settings, and what makes them valid.
use crate::text::{blank, is_blank, outcome, same_text};
use vstd::prelude::*;

verus! {

/// An SSH server that a tunnel can go through.
#[derive(Debug)]
pub struct ServerProfile {
    pub id: String,
    pub name: String,
    pub host: String,
    pub port: u16,
    pub user: String,
    pub key_path: String,
    pub compression: bool,
    pub strict_host_key_checking: String,
    pub connect_timeout: u16,
    pub server_alive_interval: u16,
    pub server_alive_count_max: u16,
}

impl Clone for ServerProfile {
    fn clone(&self) -> (r: Self)
        ensures
            r == *self,
    {
        ServerProfile {
            id: self.id.clone(),
            name: self.name.clone(),
            host: self.host.clone(),
            port: self.port,
            user: self.user.clone(),
            key_path: self.key_path.clone(),
            compression: self.compression,
            strict_host_key_checking: self.strict_host_key_checking.clone(),
            connect_timeout: self.connect_timeout,
            server_alive_interval: self.server_alive_interval,
            server_alive_count_max: self.server_alive_count_max,
        }
    }
}

/// A local address on which the SOCKS proxy listens.
#[derive(Debug)]
pub struct ProxyProfile {
    pub id: String,
    pub name: String,
    pub host: String,
    pub port: u16,
}

impl Clone for ProxyProfile {
    fn clone(&self) -> (r: Self)
        ensures
            r == *self,
    {
        ProxyProfile {
            id: self.id.clone(),
            name: self.name.clone(),
            host: self.host.clone(),
            port: self.port,
        }
    }
}

/// What the user chose for the application as a whole.
#[derive(Debug)]
pub struct AppSettings {
    pub ipinfo_token: String,
    pub ssh_engine: String,
    pub hide_sensitive: bool,
    pub verify_proxy_on_start: bool,
    pub auto_reconnect: bool,
    pub reconnect_delay_seconds: u16,
    pub start_tunnel_on_launch: bool,
    pub clear_logs_on_start: bool,
}

/// The settings of a fresh installation.
pub open spec fn is_default_settings(s: AppSettings) -> bool {
    &&& s.ipinfo_token@ == Seq::<char>::empty()
    &&& s.ssh_engine@ == "system"@
    &&& s.hide_sensitive
    &&& s.verify_proxy_on_start
    &&& !s.auto_reconnect
    &&& s.reconnect_delay_seconds == 3
    &&& !s.start_tunnel_on_launch
    &&& !s.clear_logs_on_start
}

impl Default for AppSettings {
    fn default() -> (r: Self)
        ensures
            is_default_settings(r),
    {
        AppSettings {
            ipinfo_token: String::new(),
            ssh_engine: default_ssh_engine(),
            hide_sensitive: default_true(),
            verify_proxy_on_start: default_true(),
            auto_reconnect: false,
            reconnect_delay_seconds: default_reconnect_delay_seconds(),
            start_tunnel_on_launch: false,
            clear_logs_on_start: false,
        }
    }
}

/// The value of a switch that is on unless it is turned off.
pub fn default_true() -> (r: bool)
    ensures
        r,
{
    true
}

/// The engine that carries a tunnel unless another is chosen.
pub fn default_ssh_engine() -> (r: String)
    ensures
        r@ == "system"@,
{
    "system".to_owned()
}

/// How host keys are checked unless the profile says otherwise.
pub fn default_strict_host_key_checking() -> (r: String)
    ensures
        r@ == "yes"@,
{
    "yes".to_owned()
}

/// Seconds to wait for a connection.
pub fn default_connect_timeout() -> (r: u16)
    ensures
        r == 8,
{
    8
}

/// Seconds between keep-alive messages.
pub fn default_server_alive_interval() -> (r: u16)
    ensures
        r == 15,
{
    15
}

/// Keep-alive messages that may go unanswered.
pub fn default_server_alive_count_max() -> (r: u16)
    ensures
        r == 3,
{
    3
}

/// Seconds before a lost tunnel is started again.
pub fn default_reconnect_delay_seconds() -> (r: u16)
    ensures
        r == 3,
{
    3
}

/// The ways of checking host keys that a profile may ask for.
pub open spec fn is_host_key_mode(mode: Seq<char>) -> bool {
    mode == "yes"@ || mode == "accept-new"@ || mode == "no"@
}

/// The engines that can carry a tunnel.
pub open spec fn is_engine(engine: Seq<char>) -> bool {
    engine == "system"@ || engine == "embedded"@
}

/// A server profile that can be saved and used.
pub open spec fn valid_server(s: ServerProfile) -> bool {
    &&& !is_blank(s.id@) && !is_blank(s.name@)
    &&& !is_blank(s.host@) && !is_blank(s.user@)
    &&& !is_blank(s.key_path@)
    &&& 1 <= s.port <= 65535
    &&& 1 <= s.connect_timeout <= 120
    &&& 1 <= s.server_alive_interval <= 300
    &&& 1 <= s.server_alive_count_max <= 20
    &&& is_host_key_mode(s.strict_host_key_checking@)
}

/// The first thing wrong with a server profile, in the words shown to the user.
pub open spec fn server_fault(s: ServerProfile) -> Option<Seq<char>> {
    if is_blank(s.id@) || is_blank(s.name@) {
        Some("Server id and name are required"@)
    } else if is_blank(s.host@) || is_blank(s.user@) {
        Some("Server host and SSH user are required"@)
    } else if s.port == 0 {
        Some("SSH port must be in range 1..65535"@)
    } else if is_blank(s.key_path@) {
        Some("SSH key path is required"@)
    } else if !(1 <= s.connect_timeout <= 120) {
        Some("Connect timeout must be in range 1..120 seconds"@)
    } else if !(1 <= s.server_alive_interval <= 300) {
        Some("ServerAliveInterval must be in range 1..300 seconds"@)
    } else if !(1 <= s.server_alive_count_max <= 20) {
        Some("ServerAliveCountMax must be in range 1..20"@)
    } else if !is_host_key_mode(s.strict_host_key_checking@) {
        Some("StrictHostKeyChecking must be yes, accept-new, or no"@)
    } else {
        None
    }
}

/// A check's result from the fault it found.
pub open spec fn verdict(fault: Option<Seq<char>>) -> Result<(), Seq<char>> {
    match fault {
        Some(message) => Err(message),
        None => Ok(()),
    }
}

/// Checks a server profile.
pub fn validate_server(server: &ServerProfile) -> (r: Result<(), String>)
    ensures
        outcome(r) == verdict(server_fault(*server)),
        r is Ok <==> valid_server(*server),
{
    if blank(server.id.as_str()) || blank(server.name.as_str()) {
        return Err("Server id and name are required".to_owned());
    }
    if blank(server.host.as_str()) || blank(server.user.as_str()) {
        return Err("Server host and SSH user are required".to_owned());
    }
    if server.port == 0 {
        return Err("SSH port must be in range 1..65535".to_owned());
    }
    if blank(server.key_path.as_str()) {
        return Err("SSH key path is required".to_owned());
    }
    if server.connect_timeout == 0 || server.connect_timeout > 120 {
        return Err("Connect timeout must be in range 1..120 seconds".to_owned());
    }
    if server.server_alive_interval == 0 || server.server_alive_interval > 300 {
        return Err("ServerAliveInterval must be in range 1..300 seconds".to_owned());
    }
    if server.server_alive_count_max == 0 || server.server_alive_count_max > 20 {
        return Err("ServerAliveCountMax must be in range 1..20".to_owned());
    }
    let mode = server.strict_host_key_checking.as_str();
    if !same_text(mode, "yes") && !same_text(mode, "accept-new") && !same_text(mode, "no") {
        return Err("StrictHostKeyChecking must be yes, accept-new, or no".to_owned());
    }
    Ok(())
}

/// A proxy profile that can be saved and used.
pub open spec fn valid_proxy(p: ProxyProfile) -> bool {
    &&& !is_blank(p.id@) && !is_blank(p.name@) && !is_blank(p.host@)
    &&& 1 <= p.port <= 65535
}

/// The first thing wrong with a proxy profile, in the words shown to the user.
pub open spec fn proxy_fault(p: ProxyProfile) -> Option<Seq<char>> {
    if is_blank(p.id@) || is_blank(p.name@) {
        Some("Proxy id and name are required"@)
    } else if is_blank(p.host@) {
        Some("Proxy host is required"@)
    } else if p.port == 0 {
        Some("Proxy port must be in range 1..65535"@)
    } else {
        None
    }
}

/// Checks a proxy profile.
pub fn validate_proxy(proxy: &ProxyProfile) -> (r: Result<(), String>)
    ensures
        outcome(r) == verdict(proxy_fault(*proxy)),
        r is Ok <==> valid_proxy(*proxy),
{
    if blank(proxy.id.as_str()) || blank(proxy.name.as_str()) {
        return Err("Proxy id and name are required".to_owned());
    }
    if blank(proxy.host.as_str()) {
        return Err("Proxy host is required".to_owned());
    }
    if proxy.port == 0 {
        return Err("Proxy port must be in range 1..65535".to_owned());
    }
    Ok(())
}

/// Settings that can be saved and used.
pub open spec fn valid_settings(s: AppSettings) -> bool {
    &&& is_engine(s.ssh_engine@)
    &&& 1 <= s.reconnect_delay_seconds <= 120
}

/// The first thing wrong with the settings, in the words shown to the user.
pub open spec fn settings_fault(s: AppSettings) -> Option<Seq<char>> {
    if !is_engine(s.ssh_engine@) {
        Some("SSH engine must be system or embedded"@)
    } else if !(1 <= s.reconnect_delay_seconds <= 120) {
        Some("Reconnect delay must be in range 1..120 seconds"@)
    } else {
        None
    }
}

/// Checks the settings.
pub fn validate_settings(settings: &AppSettings) -> (r: Result<(), String>)
    ensures
        outcome(r) == verdict(settings_fault(*settings)),
        r is Ok <==> valid_settings(*settings),
{
    let engine = settings.ssh_engine.as_str();
    if !same_text(engine, "system") && !same_text(engine, "embedded") {
        return Err("SSH engine must be system or embedded".to_owned());
    }
    if settings.reconnect_delay_seconds == 0 || settings.reconnect_delay_seconds > 120 {
        return Err("Reconnect delay must be in range 1..120 seconds".to_owned());
    }
    Ok(())
}

} // verus!
