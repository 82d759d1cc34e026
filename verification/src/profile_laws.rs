//! What makes a profile valid, field by field, and which fault is told.
use crate::profile::{
    proxy_fault, server_fault, settings_fault, valid_proxy, valid_server, valid_settings, verdict,
    AppSettings, ProxyProfile, ServerProfile,
};
use crate::text::{is_blank, is_white};
use vstd::prelude::*;

verus! {

/// Text with a character in it that is not white space.
pub open spec fn says_something(s: Seq<char>) -> bool {
    exists|i: int| 0 <= i < s.len() && !is_white(#[trigger] s[i])
}

proof fn lemma_says_something(s: Seq<char>)
    ensures
        says_something(s) <==> !is_blank(s),
{
}

/// Each field of a valid server can be changed on its own: to any text that says
/// something, to any port but zero, to any limit in its range, to each of the
/// three ways of checking host keys, and to compression or none. Any other
/// change makes the server invalid.
pub proof fn law_server_fields_are_judged_apart(s: ServerProfile)
    requires
        valid_server(s),
    ensures
        forall|id: String| #[trigger]
            valid_server(ServerProfile { id, ..s }) <==> says_something(id@),
        forall|name: String| #[trigger]
            valid_server(ServerProfile { name, ..s }) <==> says_something(name@),
        forall|host: String| #[trigger]
            valid_server(ServerProfile { host, ..s }) <==> says_something(host@),
        forall|user: String| #[trigger]
            valid_server(ServerProfile { user, ..s }) <==> says_something(user@),
        forall|key_path: String| #[trigger]
            valid_server(ServerProfile { key_path, ..s }) <==> says_something(key_path@),
        forall|port: u16| #[trigger] valid_server(ServerProfile { port, ..s }) <==> port != 0,
        forall|connect_timeout: u16| #[trigger]
            valid_server(ServerProfile { connect_timeout, ..s }) <==> 0 < connect_timeout <= 120,
        forall|server_alive_interval: u16| #[trigger]
            valid_server(ServerProfile { server_alive_interval, ..s }) <==> 0
                < server_alive_interval <= 300,
        forall|server_alive_count_max: u16| #[trigger]
            valid_server(ServerProfile { server_alive_count_max, ..s }) <==> 0
                < server_alive_count_max <= 20,
        forall|strict_host_key_checking: String| #[trigger]
            valid_server(ServerProfile { strict_host_key_checking, ..s }) <==> (
            strict_host_key_checking@ == "yes"@ || strict_host_key_checking@ == "accept-new"@
                || strict_host_key_checking@ == "no"@),
        forall|compression: bool| #[trigger] valid_server(ServerProfile { compression, ..s }),
{
}

/// What a server is checked for, in this order, with the words for each.
pub open spec fn server_checks(s: ServerProfile) -> Seq<(bool, Seq<char>)> {
    seq![
        (
            says_something(s.id@) && says_something(s.name@),
            "Server id and name are required"@,
        ),
        (
            says_something(s.host@) && says_something(s.user@),
            "Server host and SSH user are required"@,
        ),
        (s.port > 0, "SSH port must be in range 1..65535"@),
        (says_something(s.key_path@), "SSH key path is required"@),
        (
            0 < s.connect_timeout <= 120,
            "Connect timeout must be in range 1..120 seconds"@,
        ),
        (
            0 < s.server_alive_interval <= 300,
            "ServerAliveInterval must be in range 1..300 seconds"@,
        ),
        (
            0 < s.server_alive_count_max <= 20,
            "ServerAliveCountMax must be in range 1..20"@,
        ),
        (
            s.strict_host_key_checking@ == "yes"@ || s.strict_host_key_checking@ == "accept-new"@
                || s.strict_host_key_checking@ == "no"@,
            "StrictHostKeyChecking must be yes, accept-new, or no"@,
        ),
    ]
}

/// What a proxy is checked for, in this order, with the words for each.
pub open spec fn proxy_checks(p: ProxyProfile) -> Seq<(bool, Seq<char>)> {
    seq![
        (says_something(p.id@) && says_something(p.name@), "Proxy id and name are required"@),
        (says_something(p.host@), "Proxy host is required"@),
        (p.port > 0, "Proxy port must be in range 1..65535"@),
    ]
}

/// What settings are checked for, in this order, with the words for each.
pub open spec fn settings_checks(s: AppSettings) -> Seq<(bool, Seq<char>)> {
    seq![
        (
            s.ssh_engine@ == "system"@ || s.ssh_engine@ == "embedded"@,
            "SSH engine must be system or embedded"@,
        ),
        (
            0 < s.reconnect_delay_seconds <= 120,
            "Reconnect delay must be in range 1..120 seconds"@,
        ),
    ]
}

/// The words of the first check that fails; none where all hold.
pub open spec fn first_failing(checks: Seq<(bool, Seq<char>)>) -> Option<Seq<char>>
    decreases checks.len(),
{
    if checks.len() == 0 {
        None
    } else if !checks[0].0 {
        Some(checks[0].1)
    } else {
        first_failing(checks.skip(1))
    }
}

/// The fault that is told is the first that there is, and a profile without one
/// is valid.
pub proof fn law_first_fault_is_told(s: ServerProfile, p: ProxyProfile, a: AppSettings)
    ensures
        server_fault(s) == first_failing(server_checks(s)),
        proxy_fault(p) == first_failing(proxy_checks(p)),
        settings_fault(a) == first_failing(settings_checks(a)),
        valid_server(s) <==> first_failing(server_checks(s)) is None,
        valid_proxy(p) <==> first_failing(proxy_checks(p)) is None,
        valid_settings(a) <==> first_failing(settings_checks(a)) is None,
        verdict(server_fault(s)) is Ok <==> server_fault(s) is None,
        verdict(server_fault(s)) matches Err(message) ==> server_fault(s) == Some(message),
{
    lemma_says_something(s.id@);
    lemma_says_something(s.name@);
    lemma_says_something(s.host@);
    lemma_says_something(s.user@);
    lemma_says_something(s.key_path@);
    lemma_says_something(p.id@);
    lemma_says_something(p.name@);
    lemma_says_something(p.host@);
    reveal_with_fuel(first_failing, 9);
}

/// Each field of a valid proxy, and of valid settings, can be changed on its own
/// as that of a server can.
pub proof fn law_other_fields_are_judged_apart(p: ProxyProfile, a: AppSettings)
    requires
        valid_proxy(p),
        valid_settings(a),
    ensures
        forall|id: String| #[trigger]
            valid_proxy(ProxyProfile { id, ..p }) <==> says_something(id@),
        forall|name: String| #[trigger]
            valid_proxy(ProxyProfile { name, ..p }) <==> says_something(name@),
        forall|host: String| #[trigger]
            valid_proxy(ProxyProfile { host, ..p }) <==> says_something(host@),
        forall|port: u16| #[trigger] valid_proxy(ProxyProfile { port, ..p }) <==> port != 0,
        forall|ssh_engine: String| #[trigger]
            valid_settings(AppSettings { ssh_engine, ..a }) <==> (ssh_engine@ == "system"@
                || ssh_engine@ == "embedded"@),
        forall|reconnect_delay_seconds: u16| #[trigger]
            valid_settings(AppSettings { reconnect_delay_seconds, ..a }) <==> 0
                < reconnect_delay_seconds <= 120,
        forall|hide_sensitive: bool, verify_proxy_on_start: bool, auto_reconnect: bool| #[trigger]
            valid_settings(
                AppSettings { hide_sensitive, verify_proxy_on_start, auto_reconnect, ..a },
            ),
        forall|start_tunnel_on_launch: bool, clear_logs_on_start: bool, ipinfo_token: String|
            #[trigger] valid_settings(
                AppSettings { start_tunnel_on_launch, clear_logs_on_start, ipinfo_token, ..a },
            ),
{
}

} // verus!
