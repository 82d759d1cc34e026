//! What the user is shown and what is logged, against what it is shown of.
use crate::config::{chosen_proxy, chosen_server, AppConfig};
use crate::control::{reconnect_delay, state_word, test_notice, unreachable_notice, StatusStep};
use crate::ip_info::{flag, is_fresh, says, CachedIp, IpInfo};
use crate::json::{member, Json};
use crate::launch_laws::{lemma_ends, names_place};
use crate::log::{child_line, newest, stamped};
use crate::profile::{AppSettings, ProxyProfile, ServerProfile};
use crate::runtime::{Engine, TunnelRuntime};
use crate::status::{
    emoji, names_proxy, names_server, proxy_in_view, server_in_view, tells_of_address,
    tells_of_tunnel, TunnelStatus,
};
use crate::text::{decimal, endpoint, is_blank, trimmed};
use crate::text_laws::{
    ends_with, law_endpoint_reads_back, lemma_decimal_reads, lemma_endpoint_is_place, reads_as,
    starts_with,
};
use crate::unicode::in_capitals;
use vstd::prelude::*;

verus! {

/// A line of the log is the time in brackets, a space and the message, so that
/// both can be read back and no two messages of one moment are logged alike.
pub proof fn law_log_lines_read_back(now: u64, message: Seq<char>, other: Seq<char>)
    ensures
        stamped(now, message) == seq!['['] + decimal(now as nat) + seq![']', ' '] + message,
        reads_as(decimal(now as nat), now as nat),
        ends_with(stamped(now, message), message),
        stamped(now, message) == stamped(now, other) ==> message == other,
{
    reveal_strlit("[");
    reveal_strlit("] ");
    lemma_decimal_reads(now);
    let front = seq!['['] + decimal(now as nat) + seq![']', ' '];
    assert(stamped(now, message) =~= front + message);
    assert(stamped(now, other) =~= front + other);
    lemma_ends(front, message);
    assert(message =~= (front + message).skip(front.len() as int));
    assert(other =~= (front + other).skip(front.len() as int));
}

/// Of what a child process writes every line that says something is logged,
/// whole and behind its label.
pub proof fn law_child_lines_are_kept(label: Seq<char>, line: Seq<char>)
    ensures
        child_line(label, line) is None <==> is_blank(line),
        child_line(label, line) matches Some(logged) ==> starts_with(logged, label) && ends_with(
            logged,
            line,
        ) && logged.len() == label.len() + 2 + line.len(),
{
    reveal_strlit(": ");
    lemma_ends(label, ": "@ + line);
    lemma_ends(label + ": "@, line);
    assert(label + (": "@ + line) =~= label + ": "@ + line);
}

/// A list that is filled item by item holds the last of them, in their order, as
/// many as the limit allows.
pub proof fn law_newest_are_the_last<T>(items: Seq<T>, limit: nat)
    ensures
        newest(items, limit).len() == if items.len() < limit {
            items.len()
        } else {
            limit
        },
        forall|i: int|
            0 <= i < newest(items, limit).len() ==> #[trigger] newest(items, limit)[i]
                == items[items.len() - newest(items, limit).len() + i],
{
}

/// An answer tells the address, the code of the country and its name, each as
/// the document has it under its key, and nothing where it has no text there.
pub proof fn law_answers_are_read_by_key(json: Json, info: IpInfo, ip: Seq<char>)
    requires
        says(json, info),
    ensures
        member(json, "ip"@) == Some(Json::Text(ip)) ==> info.ip@ == ip,
        member(json, "country_code"@) == Some(Json::Text(ip)) ==> info.country_code@ == ip,
        member(json, "country"@) == Some(Json::Text(ip)) ==> info.country_name@ == ip,
        member(json, "ip"@) is None ==> info.ip@.len() == 0,
        member(json, "country_code"@) is None ==> info.country_code@.len() == 0,
        member(json, "country"@) is None ==> info.country_name@.len() == 0,
        member(json, "ip"@) == Some(Json::Null) ==> info.ip@.len() == 0,
        member(json, "country_code"@) == Some(Json::Null) ==> info.country_code@.len() == 0,
        member(json, "country"@) == Some(Json::Null) ==> info.country_name@.len() == 0,
{
}

/// What was found out behind a proxy is good for a minute, also where the clock
/// was set back, and for proxies with the same host and port alone.
pub proof fn law_found_address_is_good_for_its_proxy(
    kept: CachedIp,
    proxy: ProxyProfile,
    other: ProxyProfile,
    now: u64,
)
    requires
        kept.key@ == endpoint(proxy.host@, proxy.port),
    ensures
        is_fresh(kept, other, now) <==> other.host@ == proxy.host@ && other.port == proxy.port && (
        now <= kept.ts || now - kept.ts <= 60),
{
    law_endpoint_reads_back(other.host@, other.port, proxy.host@, proxy.port);
}

/// A flag is drawn letter by letter, each as the sign that stands as far behind
/// the sign of A as the letter behind A. So no two codes have the same flag, and
/// only two capital letters have any.
pub proof fn law_flags_go_by_the_letters(code: Seq<char>, other: Seq<char>)
    ensures
        flag(code).len() == 0 || flag(code).len() == 2,
        flag(code).len() == 2 <==> code.len() == 2 && 'A' <= code[0] <= 'Z' && 'A' <= code[1]
            <= 'Z',
        flag(code).len() == 2 ==> flag(code)[0] as u32 - 0x1f1e6 == code[0] as u32 - 'A' as u32
            && flag(code)[1] as u32 - 0x1f1e6 == code[1] as u32 - 'A' as u32,
        flag(code).len() == 2 && flag(code) == flag(other) ==> code == other,
{
    if flag(code).len() == 2 && flag(code) == flag(other) {
        assert(code[0] == other[0] && code[1] == other[1]) by {
            assert(flag(code)[0] as u32 == flag(other)[0] as u32);
            assert(flag(code)[1] as u32 == flag(other)[1] as u32);
        }
        assert(code =~= other);
    }
}

/// A status shows the tunnel that there is, with its own server, proxy, engine,
/// process, start and last error; without one it shows the profiles that would
/// be used and the engine of the settings, or that there are none. What it tells
/// of the address is what is known of it.
pub proof fn law_status_shows_the_tunnel(
    status: TunnelStatus,
    runtime: Option<&TunnelRuntime>,
    config: AppConfig,
    info: IpInfo,
)
    requires
        tells_of_tunnel(status, runtime, config),
        tells_of_address(status, info),
        names_server(status, server_in_view(runtime, config)),
        names_proxy(status, proxy_in_view(runtime, config)),
    ensures
        runtime matches Some(tunnel) ==> {
            &&& status.server_id@ == tunnel.server.id@
            &&& status.server_name@ == tunnel.server.name@
            &&& status.proxy_id@ == tunnel.proxy.id@
            &&& status.proxy_name@ == tunnel.proxy.name@
            &&& status.proxy_host@ == tunnel.proxy.host@
            &&& status.proxy_port == tunnel.proxy.port
            &&& status.started_at == Some(tunnel.started_at)
            &&& status.last_error@ == tunnel.last_error@
            &&& tunnel.engine matches Engine::System { pid } ==> status.pid == Some(pid)
                && status.ssh_engine@ == "system"@
            &&& tunnel.engine == Engine::Embedded ==> status.pid is None && status.ssh_engine@
                == "embedded"@
        },
        runtime is None ==> {
            &&& status.pid is None && status.started_at is None && status.last_error@.len() == 0
            &&& status.ssh_engine@ == config.settings.ssh_engine@
            &&& chosen_server(config) matches Some(server) ==> status.server_id@ == server.id@
                && status.server_name@ == server.name@
            &&& chosen_server(config) is None ==> status.server_id@.len() == 0
                && status.server_name@ == "No server"@
            &&& chosen_proxy(config) matches Some(proxy) ==> status.proxy_id@ == proxy.id@
                && status.proxy_name@ == proxy.name@ && status.proxy_host@ == proxy.host@
                && status.proxy_port == proxy.port
            &&& chosen_proxy(config) is None ==> status.proxy_id@.len() == 0 && status.proxy_name@
                == "No proxy"@ && status.proxy_host@.len() == 0 && status.proxy_port == 0
        },
        status.ip@ == info.ip@,
        status.country_code@ == info.country_code@,
        status.country_name@ == info.country_name@,
        status.country_flag@ == flag(in_capitals(trimmed(info.country_code@))),
{
}

/// The three signs differ, and each state but two has the third.
pub proof fn law_states_have_their_signs(state: Seq<char>, step: StatusStep)
    ensures
        emoji("running"@) == "🟢"@,
        emoji("unknown"@) == "🟡"@,
        state != "running"@ && state != "unknown"@ ==> emoji(state) == "🔴"@,
        step is Running <==> state_word(step) == Some("running"@),
        step is Stopped || step is Ended <==> state_word(step) == Some("stopped"@),
        step is Fail <==> state_word(step) is None,
{
    reveal_strlit("running");
    reveal_strlit("unknown");
    reveal_strlit("stopped");
    assert("running"@[0] == 'r' && "unknown"@[0] == 'u' && "stopped"@[0] == 's');
}

/// What is logged of a test names the server and its port; a server that does
/// not answer is named by its host. A lost tunnel is started again after as many
/// seconds as the settings say, and never without a pause.
pub proof fn law_tests_name_the_server(server: ServerProfile, settings: AppSettings)
    ensures
        exists|before: Seq<char>, place: Seq<char>, after: Seq<char>|
            #[trigger] names_place(
                test_notice(server),
                before,
                place,
                after,
                server.name@,
                server.port,
            ) && before == "Testing TCP reachability for '"@ && after == "'..."@,
        exists|before: Seq<char>, place: Seq<char>, after: Seq<char>|
            #[trigger] names_place(
                unreachable_notice(server),
                before,
                place,
                after,
                server.host@,
                server.port,
            ) && before == "Cannot connect to "@ && after.len() == 0,
        settings.reconnect_delay_seconds > 0 ==> reconnect_delay(settings)
            == settings.reconnect_delay_seconds,
        settings.reconnect_delay_seconds == 0 ==> reconnect_delay(settings) == 1,
{
    lemma_endpoint_is_place(server.name@, server.port);
    lemma_endpoint_is_place(server.host@, server.port);
    assert(names_place(
        test_notice(server),
        "Testing TCP reachability for '"@,
        endpoint(server.name@, server.port),
        "'..."@,
        server.name@,
        server.port,
    ));
    let nothing = Seq::<char>::empty();
    let place = endpoint(server.host@, server.port);
    assert(unreachable_notice(server) =~= "Cannot connect to "@ + place + nothing);
    assert(names_place(
        unreachable_notice(server),
        "Cannot connect to "@,
        place,
        nothing,
        server.host@,
        server.port,
    ));
}

} // verus!
