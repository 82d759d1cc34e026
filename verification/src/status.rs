//! The state of the tunnel as it is shown to the user.
use crate::config::{
    chosen_proxy, chosen_server, selected_proxy, selected_server, AppConfig,
};
use crate::ip_info::{country_code_to_flag, flag, IpInfo};
use crate::profile::{
    default_connect_timeout, default_server_alive_count_max, default_server_alive_interval,
    default_strict_host_key_checking, ProxyProfile, ServerProfile,
};
use crate::runtime::{
    engine_name, engine_pid, last_totals, totals_from_traffic, TrafficPoint, TunnelRuntime,
};
use crate::text::{same_text, trimmed};
use crate::unicode::in_capitals;
use vstd::prelude::*;

verus! {

/// The state of the tunnel as it is shown to the user.
#[derive(Debug)]
pub struct TunnelStatus {
    pub state: String,
    pub state_emoji: String,
    pub app_version: String,
    pub ssh_engine: String,
    pub server_id: String,
    pub server_name: String,
    pub proxy_id: String,
    pub proxy_name: String,
    pub proxy_host: String,
    pub proxy_port: u16,
    pub pid: Option<u32>,
    pub started_at: Option<u64>,
    pub ip: String,
    pub country_code: String,
    pub country_name: String,
    pub country_flag: String,
    pub rx_total: u64,
    pub tx_total: u64,
    pub last_error: String,
}

/// The sign of a state: green when it runs, yellow when it is unknown, else
/// red.
pub open spec fn emoji(state: Seq<char>) -> Seq<char> {
    if state == "running"@ {
        "🟢"@
    } else if state == "unknown"@ {
        "🟡"@
    } else {
        "🔴"@
    }
}

/// Picks the sign of a state.
pub fn status_emoji(state: &str) -> (r: String)
    ensures
        r@ == emoji(state@),
{
    if same_text(state, "running") {
        "🟢".to_owned()
    } else if same_text(state, "unknown") {
        "🟡".to_owned()
    } else {
        "🔴".to_owned()
    }
}

/// What stands in for a server where there is none.
pub open spec fn is_no_server(s: ServerProfile) -> bool {
    &&& s.id@.len() == 0
    &&& s.name@ == "No server"@
    &&& s.host@.len() == 0
    &&& s.port == 22
    &&& s.user@.len() == 0
    &&& s.key_path@.len() == 0
    &&& !s.compression
    &&& s.strict_host_key_checking@ == "yes"@
    &&& s.connect_timeout == 8
    &&& s.server_alive_interval == 15
    &&& s.server_alive_count_max == 3
}

/// What stands in for a proxy where there is none.
pub open spec fn is_no_proxy(p: ProxyProfile) -> bool {
    p.id@.len() == 0 && p.name@ == "No proxy"@ && p.host@.len() == 0 && p.port == 0
}

/// The server that is shown: that of the tunnel, else the one that would be
/// used.
pub open spec fn server_in_view(
    runtime: Option<&TunnelRuntime>,
    config: AppConfig,
) -> Option<ServerProfile> {
    match runtime {
        Some(runtime) => Some(runtime.server),
        None => chosen_server(config),
    }
}

/// The proxy that is shown: that of the tunnel, else the one that would be
/// used.
pub open spec fn proxy_in_view(
    runtime: Option<&TunnelRuntime>,
    config: AppConfig,
) -> Option<ProxyProfile> {
    match runtime {
        Some(runtime) => Some(runtime.proxy),
        None => chosen_proxy(config),
    }
}

/// Picks the server that is shown.
pub fn shown_server(runtime: Option<&TunnelRuntime>, config: &AppConfig) -> (r: ServerProfile)
    ensures
        match server_in_view(runtime, *config) {
            Some(server) => r == server,
            None => is_no_server(r),
        },
{
    match runtime {
        Some(runtime) => runtime.server.clone(),
        None => match selected_server(config) {
            Ok(server) => server,
            Err(_) => ServerProfile {
                id: String::new(),
                name: "No server".to_owned(),
                host: String::new(),
                port: 22,
                user: String::new(),
                key_path: String::new(),
                compression: false,
                strict_host_key_checking: default_strict_host_key_checking(),
                connect_timeout: default_connect_timeout(),
                server_alive_interval: default_server_alive_interval(),
                server_alive_count_max: default_server_alive_count_max(),
            },
        },
    }
}

/// Picks the proxy that is shown.
pub fn shown_proxy(runtime: Option<&TunnelRuntime>, config: &AppConfig) -> (r: ProxyProfile)
    ensures
        match proxy_in_view(runtime, *config) {
            Some(proxy) => r == proxy,
            None => is_no_proxy(r),
        },
{
    match runtime {
        Some(runtime) => runtime.proxy.clone(),
        None => match selected_proxy(config) {
            Ok(proxy) => proxy,
            Err(_) => ProxyProfile {
                id: String::new(),
                name: "No proxy".to_owned(),
                host: String::new(),
                port: 0,
            },
        },
    }
}

/// What of a status comes from the server that is shown.
pub open spec fn names_server(status: TunnelStatus, server: Option<ServerProfile>) -> bool {
    match server {
        Some(server) => status.server_id@ == server.id@ && status.server_name@ == server.name@,
        None => status.server_id@.len() == 0 && status.server_name@ == "No server"@,
    }
}

/// What of a status comes from the proxy that is shown.
pub open spec fn names_proxy(status: TunnelStatus, proxy: Option<ProxyProfile>) -> bool {
    match proxy {
        Some(proxy) => {
            &&& status.proxy_id@ == proxy.id@
            &&& status.proxy_name@ == proxy.name@
            &&& status.proxy_host@ == proxy.host@
            &&& status.proxy_port == proxy.port
        },
        None => {
            &&& status.proxy_id@.len() == 0
            &&& status.proxy_name@ == "No proxy"@
            &&& status.proxy_host@.len() == 0
            &&& status.proxy_port == 0
        },
    }
}

/// What of a status comes from the tunnel, or from the settings without one.
pub open spec fn tells_of_tunnel(
    status: TunnelStatus,
    runtime: Option<&TunnelRuntime>,
    config: AppConfig,
) -> bool {
    match runtime {
        Some(runtime) => {
            &&& status.ssh_engine@ == engine_name(runtime.engine)
            &&& status.pid == engine_pid(runtime.engine)
            &&& status.started_at == Some(runtime.started_at)
            &&& status.last_error@ == runtime.last_error@
        },
        None => {
            &&& status.ssh_engine@ == config.settings.ssh_engine@
            &&& status.pid is None
            &&& status.started_at is None
            &&& status.last_error@.len() == 0
        },
    }
}

/// What of a status comes from what is known of the public address.
pub open spec fn tells_of_address(status: TunnelStatus, info: IpInfo) -> bool {
    &&& status.ip@ == info.ip@
    &&& status.country_code@ == info.country_code@
    &&& status.country_name@ == info.country_name@
    &&& status.country_flag@ == flag(in_capitals(trimmed(info.country_code@)))
}

/// Puts together the state of the tunnel as it is shown to the user.
pub fn build_status(
    state_name: &str,
    runtime: Option<&TunnelRuntime>,
    config: &AppConfig,
    history: &Vec<TrafficPoint>,
    info: IpInfo,
    app_version: &str,
) -> (r: TunnelStatus)
    ensures
        r.state@ == state_name@,
        r.state_emoji@ == emoji(state_name@),
        r.app_version@ == app_version@,
        tells_of_tunnel(r, runtime, *config),
        tells_of_address(r, info),
        (r.rx_total, r.tx_total) == last_totals(history@),
        names_server(r, server_in_view(runtime, *config)),
        names_proxy(r, proxy_in_view(runtime, *config)),
{
    let server = shown_server(runtime, config);
    let proxy = shown_proxy(runtime, config);
    let (rx_total, tx_total) = totals_from_traffic(history);
    let country_flag = country_code_to_flag(info.country_code.as_str());
    let (ssh_engine, pid, started_at, last_error) = match runtime {
        Some(runtime) => (
            runtime.ssh_engine(),
            runtime.pid(),
            Some(runtime.started_at),
            runtime.last_error.clone(),
        ),
        None => (config.settings.ssh_engine.clone(), None, None, String::new()),
    };
    TunnelStatus {
        state: state_name.to_owned(),
        state_emoji: status_emoji(state_name),
        app_version: app_version.to_owned(),
        ssh_engine,
        server_id: server.id.clone(),
        server_name: server.name.clone(),
        proxy_id: proxy.id.clone(),
        proxy_name: proxy.name.clone(),
        proxy_host: proxy.host.clone(),
        proxy_port: proxy.port,
        pid,
        started_at,
        ip: info.ip,
        country_code: info.country_code,
        country_name: info.country_name,
        country_flag,
        rx_total,
        tx_total,
        last_error,
    }
}

} // verus!
