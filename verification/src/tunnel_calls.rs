//! What starting, watching and stopping a tunnel comes to, call after call.
use crate::clock::{epoch_seconds, latency_ms};
use crate::command::{
    curl_verify_arguments, ipinfo_arguments, nettop_arguments, ssh_test_arguments,
    ssh_tunnel_arguments, verify_proxy, word_failure, CommandReport,
};
use crate::command_laws::{
    after_flag, has_number, has_option, is_login, law_curl_goes_through_the_proxy,
    law_decoding_gives_back, law_failures_are_quoted, law_nettop_is_told_the_process,
    law_test_arguments_tell_the_profile, law_tunnel_arguments_tell_the_profile,
};
use crate::config::AppConfig;
use crate::control::{
    note_reconnect, plan_reconnect, reset_config, starts_on_launch, state_name, stop_tunnel,
    test_finished, test_reached, test_server, tunnel_status, word_launch, Reconnect,
    ReconnectNext, Reset, StatusStep, StopStep, TestNext, TestResult, TestStep,
};
use crate::ip_info::{
    fetch_ipinfo, known_ip, look_up_ip, note_ip, CachedIp, IpInfo, IpLookup,
};
use crate::json::{json_from_bytes, member, Json};
use crate::launch::{start_step, StartAction, StartEvent, StartStep};
use crate::launch_laws::lemma_ends;
use crate::log::{log_line, word_child_line};
use crate::nettop::{nettop_totals, sample_process_traffic};
use crate::profile::{AppSettings, ProxyProfile, ServerProfile};
use crate::profile_laws::{
    first_failing, law_first_fault_is_told, proxy_checks, server_checks, settings_checks,
};
use crate::runtime::{
    law_rates_are_covered, update_traffic, Engine, TrafficPoint, TrafficSample, TunnelRuntime,
};
use crate::startup::{
    check_existing, check_port, start_tunnel, watch_verified, EngineChoice, ExistingNext, StartPlan,
    WatchStep,
};
use crate::status::{build_status, TunnelStatus};
use crate::text::{is_blank, is_white, texts, trimmed};
use crate::text_laws::{
    ends_with, is_place, law_endpoint_reads_back, law_trimming_gives_back,
    law_trimming_takes_white_ends, reads_as, starts_with,
};
use vstd::prelude::*;
use vstd::utf8::encode_utf8;

verus! {

/// Each reading of the traffic is remembered. From the second on it adds a point
/// to the history, with the totals as they were read and with the whole
/// quotients of their growth by the seconds that have passed; the history keeps
/// its newest 120 points in their order. A failure changes no history and is
/// logged unless it is the last one over again. Nothing else of the tunnel
/// changes.
pub proof fn law_traffic_is_kept(
    runtime: &mut TunnelRuntime,
    history: &mut Vec<TrafficPoint>,
    now: u64,
    totals: Result<Option<(u64, u64)>, String>,
    latency: Option<u64>,
    log: Option<String>,
)
    requires
        call_ensures(update_traffic, (runtime, history, now, totals, latency), log),
    ensures
        final(runtime).engine == old(runtime).engine,
        final(runtime).server == old(runtime).server,
        final(runtime).proxy == old(runtime).proxy,
        final(runtime).started_at == old(runtime).started_at,
        match totals {
            Ok(Some((rx, tx))) => {
                &&& final(runtime).last_traffic == Some(
                    TrafficSample { ts: now, rx_total: rx, tx_total: tx },
                )
                &&& final(runtime).last_error == old(runtime).last_error
                &&& log is None
                &&& old(runtime).last_traffic is None ==> final(history)@ == old(history)@
                &&& old(runtime).last_traffic matches Some(previous) ==> {
                    let seconds = if now > previous.ts {
                        now - previous.ts
                    } else {
                        1
                    };
                    let point = final(history)@.last();
                    let kept = final(history)@.len() - 1;
                    &&& final(history)@.len() == if old(history)@.len() < 120 {
                        old(history)@.len() + 1
                    } else {
                        120
                    }
                    &&& forall|i: int|
                        0 <= i < kept ==> #[trigger] final(history)@[i] == old(
                            history,
                        )@[old(history)@.len() - kept + i]
                    &&& point.ts == now && point.rx_total == rx && point.tx_total == tx
                    &&& point.latency_ms == latency
                    &&& rx >= previous.rx_total ==> point.rx_bps * seconds <= rx - previous.rx_total
                        < (point.rx_bps + 1) * seconds
                    &&& tx >= previous.tx_total ==> point.tx_bps * seconds <= tx - previous.tx_total
                        < (point.tx_bps + 1) * seconds
                    &&& rx <= previous.rx_total ==> point.rx_bps == 0
                    &&& tx <= previous.tx_total ==> point.tx_bps == 0
                }
            },
            Ok(None) => *final(runtime) == *old(runtime) && final(history)@ == old(history)@ && log
                is None,
            Err(error) => {
                &&& final(history)@ == old(history)@
                &&& final(runtime).last_traffic == old(runtime).last_traffic
                &&& final(runtime).last_error@ == error@
                &&& log is Some <==> error@ != old(runtime).last_error@
                &&& log matches Some(line) ==> starts_with(line@, "Traffic sampler: "@)
                    && ends_with(line@, error@)
            },
        },
{
    match totals {
        Ok(Some((rx, tx))) => {
            if let Some(previous) = old(runtime).last_traffic {
                law_rates_are_covered(previous, now, (rx, tx), latency);
            }
        },
        Err(error) => {
            lemma_ends("Traffic sampler: "@, error@);
        },
        _ => {},
    }
}

/// What `nettop` prints is read where it ends well, and else why it failed is
/// told; without a report there is nothing to tell.
pub proof fn law_samples_are_read(
    report: &CommandReport,
    text: Seq<char>,
    sampled: Result<Option<(u64, u64)>, String>,
    nothing: Result<Option<(u64, u64)>, String>,
    said: String,
)
    requires
        call_ensures(sample_process_traffic, (Some(report),), sampled),
        call_ensures(sample_process_traffic, (None,), nothing),
        call_ensures(word_failure, ("nettop exited with ", report), said),
    ensures
        nothing matches Ok(None),
        report.success && report.stdout@ == encode_utf8(text) ==> (sampled matches Ok(found)
            && found == nettop_totals(text)),
        sampled is Ok <==> report.success,
        sampled matches Err(message) ==> message@ == said@,
{
    law_decoding_gives_back(text);
}

/// A program that failed is quoted, without the white space around what it
/// wrote; where it wrote nothing else its exit status is told.
pub proof fn law_failed_programs_are_quoted(
    ended: &str,
    report: &CommandReport,
    before: Seq<char>,
    wrote: Seq<char>,
    after: Seq<char>,
    said: String,
)
    requires
        call_ensures(word_failure, (ended, report), said),
        is_blank(before) && is_blank(after),
        wrote.len() > 0 ==> !is_white(wrote[0]) && !is_white(wrote.last()),
        report.stderr@ == encode_utf8(before + wrote + after),
    ensures
        wrote.len() > 0 ==> said@ == wrote,
        wrote.len() == 0 ==> said@ == ended@ + report.status@,
{
    let whole = before + wrote + after;
    law_decoding_gives_back(whole);
    if wrote.len() > 0 {
        law_trimming_gives_back(before, wrote, after);
    } else {
        assert forall|i: int| 0 <= i < whole.len() implies is_white(#[trigger] whole[i]) by {
            if i < before.len() {
                assert(whole[i] == before[i]);
            } else {
                assert(whole[i] == after[i - before.len()]);
            }
        }
        law_failures_are_quoted(ended@, report.status@, whole);
    }
}

/// The public address behind a proxy is what `curl` wrote, without the white
/// space around it. Where `curl` failed or wrote nothing there is none.
pub proof fn law_public_address_is_read(
    report: &CommandReport,
    before: Seq<char>,
    ip: Seq<char>,
    after: Seq<char>,
    verified: Result<String, String>,
    said: String,
)
    requires
        call_ensures(verify_proxy, (report,), verified),
        call_ensures(word_failure, ("curl exited with ", report), said),
        is_blank(before) && is_blank(after),
        ip.len() > 0 && !is_white(ip[0]) && !is_white(ip.last()),
    ensures
        report.success && report.stdout@ == encode_utf8(before + ip + after) ==> (
        verified matches Ok(address) && address@ == ip),
        report.success && report.stdout@ == encode_utf8(before) ==> (verified matches Err(message)
            && message@ == "Proxy verification returned empty response"@),
        !report.success ==> (verified matches Err(message) && message@ == said@),
{
    law_decoding_gives_back(before + ip + after);
    law_decoding_gives_back(before);
    law_trimming_gives_back(before, ip, after);
    law_trimming_takes_white_ends(before);
}

/// What an answer says of the address is read by its keys, and an answer that
/// cannot be read or did not come is a failure.
pub proof fn law_answers_are_read(
    report: &CommandReport,
    fetched: Result<IpInfo, String>,
    json: Json,
    text: Seq<char>,
    said: String,
)
    requires
        call_ensures(fetch_ipinfo, (report,), fetched),
        call_ensures(word_failure, ("curl exited with ", report), said),
    ensures
        !report.success ==> (fetched matches Err(message) && message@ == said@),
        report.success && json_from_bytes(report.stdout@) == Ok::<Json, Seq<char>>(json) ==> {
            &&& fetched matches Ok(info) && {
                &&& member(json, "ip"@) == Some(Json::Text(text)) ==> info.ip@ == text
                &&& member(json, "country_code"@) == Some(Json::Text(text)) ==> info.country_code@
                    == text
                &&& member(json, "country"@) == Some(Json::Text(text)) ==> info.country_name@
                    == text
                &&& member(json, "ip"@) is None ==> info.ip@.len() == 0
                &&& member(json, "country_code"@) is None ==> info.country_code@.len() == 0
                &&& member(json, "country"@) is None ==> info.country_name@.len() == 0
            }
        },
        report.success && json_from_bytes(report.stdout@) == Err::<Json, Seq<char>>(text) ==> (
        fetched matches Err(message) && message@ == text),
{
}

/// What was found out behind a proxy is used again while the tunnel runs, for a
/// minute and for a proxy at the same address, and is else asked for again. A
/// failure to find out changes nothing that is kept. While no tunnel runs
/// nothing is known and nothing is asked.
pub proof fn law_found_address_is_used_again(
    cache: &mut Option<CachedIp>,
    answer: Result<Option<IpInfo>, String>,
    proxy: &ProxyProfile,
    at: u64,
    noted: (IpInfo, Option<String>),
    state_name: &str,
    other: &ProxyProfile,
    now: u64,
    looked: IpLookup,
    known: Option<IpInfo>,
)
    requires
        call_ensures(note_ip, (answer, proxy, at, cache), noted),
        call_ensures(look_up_ip, (state_name, other, &*final(cache), now), looked),
        call_ensures(known_ip, (looked,), known),
    ensures
        match answer {
            Ok(Some(info)) => {
                let same = other.host@ == proxy.host@ && other.port == proxy.port;
                let fresh = now <= at || now - at <= 60;
                &&& noted.0 == info && noted.1 is None
                &&& state_name@ == "running"@ && same && fresh ==> known == Some(info)
                &&& state_name@ == "running"@ && !(same && fresh) ==> known is None
            },
            Ok(None) => *final(cache) == *old(cache) && noted.1 is None,
            Err(error) => *final(cache) == *old(cache) && (noted.1 matches Some(line) && line@
                == "IPinfo: "@ + error@),
        },
        state_name@ != "running"@ ==> (known matches Some(info) && info.ip@.len() == 0
            && info.country_code@.len() == 0 && info.country_name@.len() == 0),
        *final(cache) is None && state_name@ == "running"@ ==> known is None,
        !(answer matches Ok(Some(_))) ==> noted.0.ip@.len() == 0 && noted.0.country_code@.len()
            == 0 && noted.0.country_name@.len() == 0,
{
    law_endpoint_reads_back(other.host@, other.port, proxy.host@, proxy.port);
}

/// A tunnel that was stopped is gone: its state is then stopped, and another can
/// be started. The same holds of one that was seen to have ended, whose end is
/// its last error. One that runs stays, and no other is started beside it.
pub proof fn law_tunnel_comes_and_goes(
    slot: &mut Option<TunnelRuntime>,
    seen: Result<Option<String>, String>,
    step: StatusStep,
    name: Option<String>,
    again: &mut Option<TunnelRuntime>,
    stopped: StopStep,
)
    requires
        call_ensures(tunnel_status, (slot, seen), step),
        call_ensures(state_name, (&step,), name),
        *old(again) == *final(slot),
        call_ensures(stop_tunnel, (again,), stopped),
    ensures
        *final(again) is None,
        stopped.ended is Some <==> *old(again) is Some,
        stopped.message@ == if *old(again) is Some {
            "Tunnel stopped"@
        } else {
            "Tunnel is already stopped"@
        },
        match *old(slot) {
            None => step is Stopped && *final(slot) is None && (name matches Some(word) && word@
                == "stopped"@),
            Some(tunnel) => match seen {
                Ok(None) => step is Running && *final(slot) == Some(tunnel) && (
                name matches Some(word) && word@ == "running"@),
                Ok(Some(end)) => {
                    &&& *final(slot) is None
                    &&& name matches Some(word) && word@ == "stopped"@
                    &&& step matches StatusStep::Ended { runtime, log } && {
                        &&& log@ == end@
                        &&& runtime.last_error@ == end@
                        &&& runtime.server == tunnel.server && runtime.proxy == tunnel.proxy
                        &&& runtime.engine == tunnel.engine
                        &&& runtime.started_at == tunnel.started_at
                    }
                },
                Err(error) => step == StatusStep::Fail(error) && *final(slot) == Some(tunnel)
                    && name is None,
            },
        },
{
}

/// A start goes on where no tunnel is there, or one that has ended, which is
/// then forgotten. It does not where one runs or cannot be looked at.
pub proof fn law_start_makes_way(
    slot: &mut Option<TunnelRuntime>,
    seen: Result<Option<String>, String>,
    next: ExistingNext,
)
    requires
        call_ensures(check_existing, (slot, seen), next),
    ensures
        next is Proceed <==> *old(slot) is None || (seen matches Ok(Some(_))),
        next is Proceed ==> *final(slot) is None,
        next !is Proceed ==> *final(slot) == *old(slot),
        next matches ExistingNext::Done(message) ==> seen == Ok::<Option<String>, String>(None)
            && message@ == "Tunnel is already running"@,
        next matches ExistingNext::Fail(message) ==> seen == Err::<Option<String>, String>(message),
{
}

/// A tunnel that was just started tells what it was started with; only one that
/// a process carries is seen to end, with the exit status of that process, and
/// only its traffic is sampled.
pub proof fn law_started_tunnel_is_what_was_started(
    engine: Engine,
    server: ServerProfile,
    proxy: ProxyProfile,
    now: u64,
    tunnel: TunnelRuntime,
    child: Result<Option<String>, String>,
    seen: Result<Option<String>, String>,
    sampled: Result<Option<(u64, u64)>, String>,
    counted: (u64, u64),
    totals: Result<Option<(u64, u64)>, String>,
    pid: Option<u32>,
    name: String,
)
    requires
        call_ensures(TunnelRuntime::started, (engine, server, proxy, now), tunnel),
        call_ensures(TunnelRuntime::try_wait, (&tunnel, child), seen),
        call_ensures(TunnelRuntime::traffic_totals, (&tunnel, sampled, counted), totals),
        call_ensures(TunnelRuntime::pid, (&tunnel,), pid),
        call_ensures(TunnelRuntime::ssh_engine, (&tunnel,), name),
    ensures
        tunnel.server == server && tunnel.proxy == proxy && tunnel.engine == engine,
        tunnel.started_at == now && tunnel.last_traffic is None,
        match engine {
            Engine::System { pid: carrier } => {
                &&& pid == Some(carrier) && name@ == "system"@ && totals == sampled
                &&& tunnel.last_error@.len() == 0
                &&& child matches Ok(Some(status)) ==> (seen matches Ok(Some(end)) && end@
                    == "ssh exited with "@ + status@)
                &&& !(child matches Ok(Some(_))) ==> seen == child
            },
            Engine::Embedded => {
                &&& pid is None && name@ == "embedded"@
                &&& totals == Ok::<Option<(u64, u64)>, String>(Some(counted))
                &&& seen == Ok::<Option<String>, String>(None)
            },
        },
{
}

/// A lost tunnel is started again if the settings say so, after as many seconds
/// as they say and one at least. The outcome is logged; a failure is shown as
/// the last error of what had ended, and changes nothing else that is shown.
pub proof fn law_lost_tunnel_is_started_again(
    settings: &AppSettings,
    plan: Option<Reconnect>,
    outcome: Result<String, String>,
    status: TunnelStatus,
    noted: (String, ReconnectNext),
)
    requires
        call_ensures(plan_reconnect, (settings,), plan),
        call_ensures(note_reconnect, (outcome, status), noted),
    ensures
        plan is Some <==> settings.auto_reconnect,
        plan matches Some(plan) ==> plan.delay >= 1 && plan.delay
            >= settings.reconnect_delay_seconds && (settings.reconnect_delay_seconds > 0
            ==> plan.delay == settings.reconnect_delay_seconds) && plan.delay <= 65535,
        noted.1 is LookAgain <==> outcome is Ok,
        outcome matches Ok(message) ==> noted.0@ == "Auto reconnect: "@ + message@,
        outcome matches Err(error) ==> noted.0@ == "Auto reconnect failed: "@ + error@,
        noted.1 matches ReconnectNext::Show(shown) ==> shown.last_error@ == noted.0@
            && shown.state == status.state && shown.server_id == status.server_id
            && shown.server_name == status.server_name && shown.proxy_host == status.proxy_host
            && shown.proxy_port == status.proxy_port && shown.pid == status.pid && shown.started_at
            == status.started_at && shown.rx_total == status.rx_total && shown.tx_total
            == status.tx_total,
{
}

/// A server is tested only with a valid profile. One that does not answer is
/// told so by its host and port; one that answers is tried with the key of the
/// profile at its own port, and the test ends as `ssh` does.
pub proof fn law_tests_go_by_the_profile(
    server: &ServerProfile,
    begun: Result<String, String>,
    home: Option<&str>,
    reached: TestStep,
    unreached: TestStep,
    report: &CommandReport,
    said: String,
    end: TestResult,
)
    requires
        call_ensures(test_server, (server,), begun),
        call_ensures(test_reached, (server, true, home), reached),
        call_ensures(test_reached, (server, false, home), unreached),
        call_ensures(test_finished, (report,), end),
        call_ensures(word_failure, ("SSH test exited with ", report), said),
    ensures
        begun is Ok <==> first_failing(server_checks(*server)) is None,
        begun matches Err(message) ==> first_failing(server_checks(*server)) == Some(message@),
        reached.next matches TestNext::RunSsh(arguments) && {
            let args = texts(arguments@);
            &&& after_flag(args, seq!['-', 'p']) matches Some(port) && reads_as(
                port,
                server.port as nat,
            )
            &&& after_flag(args, seq!['-', 'i']) is Some
            &&& is_login(args[14], server.user@, server.host@)
            &&& has_number(args, "ConnectTimeout="@, server.connect_timeout)
            &&& has_option(args, "StrictHostKeyChecking="@, server.strict_host_key_checking@)
        },
        unreached.next matches TestNext::Fail(message) && starts_with(
            message@,
            "Cannot connect to "@,
        ) && is_place(message@.skip("Cannot connect to "@.len() as int), server.host@, server.port)
            && texts(unreached.logs@) == seq![message@],
        end.result is Ok <==> report.success,
        end.result matches Err(message) ==> message@ == said@ && end.log@ == "SSH test failed: "@
            + message@,
{
    law_first_fault_is_told(*server, arbitrary(), arbitrary());
    let key_path = crate::config_file::expanded(
        server.key_path@,
        crate::startup::home_text(home),
    );
    law_test_arguments_tell_the_profile(*server, key_path);
    let place = crate::text::endpoint(server.host@, server.port);
    crate::text_laws::lemma_endpoint_is_place(server.host@, server.port);
    lemma_ends("Cannot connect to "@, place);
    assert(("Cannot connect to "@ + place).skip("Cannot connect to "@.len() as int) =~= place);
}

/// A tunnel is started only with profiles and settings that pass their checks,
/// and with a proxy whose address nothing answers at.
pub proof fn law_starts_are_checked(
    config: &AppConfig,
    plan: Result<StartPlan, String>,
    proxy: &ProxyProfile,
    answers: bool,
    free: Result<(), String>,
)
    requires
        call_ensures(start_tunnel, (config,), plan),
        call_ensures(check_port, (proxy, answers), free),
    ensures
        plan matches Ok(plan) ==> {
            &&& first_failing(server_checks(plan.server)) is None
            &&& first_failing(proxy_checks(plan.proxy)) is None
            &&& first_failing(settings_checks(config.settings)) is None
            &&& crate::config::chosen_server(*config) == Some(plan.server)
            &&& crate::config::chosen_proxy(*config) == Some(plan.proxy)
            &&& plan.verify == config.settings.verify_proxy_on_start
            &&& plan.hide == config.settings.hide_sensitive
            &&& plan.clear_logs == config.settings.clear_logs_on_start
            &&& plan.engine == EngineChoice::System <==> config.settings.ssh_engine@ == "system"@
        },
        plan is Ok <==> crate::startup::start_fault(*config) is None,
        free is Ok <==> !answers,
        free matches Err(message) ==> starts_with(message@, "Local proxy "@ + proxy.host@)
            && ends_with(message@, " is already occupied"@),
{
    if let Ok(made) = plan {
        law_first_fault_is_told(made.server, made.proxy, config.settings);
    }
    let place = crate::text::endpoint(proxy.host@, proxy.port);
    reveal_strlit(":");
    let rest = ":"@ + crate::text::decimal(proxy.port as nat) + " is already occupied"@;
    assert("Local proxy "@ + place + " is already occupied"@ =~= ("Local proxy "@ + proxy.host@)
        + rest);
    lemma_ends("Local proxy "@ + proxy.host@, rest);
    lemma_ends("Local proxy "@ + place, " is already occupied"@);
}

/// Where nothing answers at the proxy's address, the engine of the plan is
/// launched with the profile of the plan.
pub proof fn law_free_address_is_launched_at(
    plan: &StartPlan,
    home: Option<&str>,
    step: StartStep,
)
    requires
        call_ensures(start_step, (plan, home, StartEvent::Port { answers: false }), step),
    ensures
        match plan.engine {
            EngineChoice::Embedded => {
                &&& step.action matches StartAction::LaunchEmbedded { server, proxy } && {
                    &&& server.name@ == plan.server.name@
                    &&& server.host@ == plan.server.host@
                    &&& server.port == plan.server.port
                    &&& server.user@ == plan.server.user@
                    &&& server.strict_host_key_checking@ == plan.server.strict_host_key_checking@
                    &&& proxy.host@ == plan.proxy.host@
                    &&& proxy.port == plan.proxy.port
                }
            },
            EngineChoice::System => {
                &&& step.action matches StartAction::LaunchSystem(arguments) && {
                    let args = texts(arguments@);
                    &&& after_flag(args, seq!['-', 'D']) matches Some(place) && is_place(
                        place,
                        plan.proxy.host@,
                        plan.proxy.port,
                    )
                    &&& after_flag(args, seq!['-', 'p']) matches Some(port) && reads_as(
                        port,
                        plan.server.port as nat,
                    )
                    &&& is_login(args.last(), plan.server.user@, plan.server.host@)
                }
            },
        },
{
    let key_path = crate::config_file::expanded(
        plan.server.key_path@,
        crate::startup::home_text(home),
    );
    law_tunnel_arguments_tell_the_profile(plan.server, plan.proxy, key_path);
}

/// With the address to be hidden, what is logged of a verification is the same
/// whatever address it found; else the address is logged.
pub proof fn law_hidden_address_stays_hidden(
    first: String,
    second: String,
    one: WatchStep,
    other: WatchStep,
    shown: WatchStep,
)
    requires
        call_ensures(watch_verified, (Ok(first), true), one),
        call_ensures(watch_verified, (Ok(second), true), other),
        call_ensures(watch_verified, (Ok(first), false), shown),
    ensures
        texts(one.logs@) == texts(other.logs@),
        one.next is Started && other.next is Started && shown.next is Started,
        shown.logs@.len() == 1 && ends_with(shown.logs@[0]@, first@),
{
    lemma_ends("Proxy verification OK, public IP "@, first@);
    assert(texts(shown.logs@).len() == shown.logs@.len());
    assert(texts(shown.logs@)[0] == shown.logs@[0]@);
}

/// What the programs are told goes by the profiles and by what they are told of.
pub proof fn law_programs_are_told_the_profiles(
    server: &ServerProfile,
    proxy: &ProxyProfile,
    key_path: &str,
    tunnel: Vec<String>,
    test: Vec<String>,
    verify: Vec<String>,
    pid: u32,
    nettop: Vec<String>,
)
    requires
        call_ensures(ssh_tunnel_arguments, (server, proxy, key_path), tunnel),
        call_ensures(ssh_test_arguments, (server, key_path), test),
        call_ensures(curl_verify_arguments, (proxy,), verify),
        call_ensures(nettop_arguments, (pid,), nettop),
    ensures
        after_flag(texts(tunnel@), seq!['-', 'D']) matches Some(place) && is_place(
            place,
            proxy.host@,
            proxy.port,
        ),
        after_flag(texts(tunnel@), seq!['-', 'p']) matches Some(port) && reads_as(
            port,
            server.port as nat,
        ),
        after_flag(texts(tunnel@), seq!['-', 'i']) == Some(key_path@),
        after_flag(texts(test@), seq!['-', 'i']) == Some(key_path@),
        after_flag(texts(test@), seq!['-', 'p']) matches Some(port) && reads_as(
            port,
            server.port as nat,
        ),
        is_place(texts(verify@)[4], proxy.host@, proxy.port),
        after_flag(texts(nettop@), seq!['-', 'p']) matches Some(n) && reads_as(n, pid as nat),
{
    law_tunnel_arguments_tell_the_profile(*server, *proxy, key_path@);
    law_test_arguments_tell_the_profile(*server, key_path@);
    law_curl_goes_through_the_proxy(*proxy, Seq::empty(), None);
    law_nettop_is_told_the_process(pid);
}

/// The address is asked for exactly if there is a token, through the proxy and
/// with the token as it is but for the white space around it.
pub proof fn law_address_is_asked_for_with_a_token(
    token: &str,
    proxy: &ProxyProfile,
    asked: Option<Vec<String>>,
)
    requires
        call_ensures(ipinfo_arguments, (token, Some(proxy)), asked),
    ensures
        asked is None <==> is_blank(token@),
        asked matches Some(args) ==> ends_with(texts(args@).last(), trimmed(token@)) && is_place(
            texts(args@)[4],
            proxy.host@,
            proxy.port,
        ),
{
    law_trimming_takes_white_ends(token@);
    law_curl_goes_through_the_proxy(*proxy, trimmed(token@), Some(*proxy));
    lemma_ends("https://api.ipinfo.io/lite/me?token="@, trimmed(token@));
}

/// A line that is logged stands last, with its time; the lines before it stand
/// as they stood, a thousand in all at most. Of what a child process writes only
/// blank lines are left out.
pub proof fn law_logged_line_stands_last(
    logs: &mut Vec<String>,
    now: u64,
    message: &str,
    label: &str,
    line: Option<String>,
)
    requires
        call_ensures(log_line, (logs, now, message), ()),
        call_ensures(word_child_line, (label, message), line),
    ensures
        final(logs)@.len() == if old(logs)@.len() < 1000 {
            old(logs)@.len() + 1
        } else {
            1000
        },
        final(logs)@.last()@ == seq!['['] + crate::text::decimal(now as nat) + seq![']', ' ']
            + message@,
        forall|i: int|
            0 <= i < final(logs)@.len() - 1 ==> #[trigger] final(logs)@[i]@ == old(
                logs,
            )@[old(logs)@.len() - (final(logs)@.len() - 1) + i]@,
        line is None <==> is_blank(message@),
        line matches Some(logged) ==> starts_with(logged@, label@) && ends_with(
            logged@,
            message@,
        ),
{
    crate::shown_laws::law_log_lines_read_back(now, message@, message@);
    crate::shown_laws::law_child_lines_are_kept(label@, message@);
    let before = texts(old(logs)@);
    let after = texts(final(logs)@);
    assert(before.len() == old(logs)@.len());
    assert(after.len() == final(logs)@.len());
    assert(after.last() == final(logs)@.last()@);
    assert forall|i: int| 0 <= i < final(logs)@.len() - 1 implies #[trigger] final(logs)@[i]@
        == old(logs)@[old(logs)@.len() - (final(logs)@.len() - 1) + i]@ by {
        assert(after[i] == final(logs)@[i]@);
    }
}

/// What is shown is the tunnel that there is, under the state that it is shown
/// in, with the totals of the last point of the history.
pub proof fn law_status_is_of_the_tunnel(
    state_name: &str,
    tunnel: &TunnelRuntime,
    config: &AppConfig,
    history: &Vec<TrafficPoint>,
    info: IpInfo,
    version: &str,
    status: TunnelStatus,
)
    requires
        call_ensures(
            build_status,
            (state_name, Some(tunnel), config, history, info, version),
            status,
        ),
    ensures
        status.state@ == state_name@ && status.app_version@ == version@,
        status.server_id@ == tunnel.server.id@ && status.server_name@ == tunnel.server.name@,
        status.proxy_id@ == tunnel.proxy.id@ && status.proxy_name@ == tunnel.proxy.name@,
        status.proxy_host@ == tunnel.proxy.host@ && status.proxy_port == tunnel.proxy.port,
        status.started_at == Some(tunnel.started_at),
        status.last_error@ == tunnel.last_error@,
        tunnel.engine matches Engine::System { pid } ==> status.pid == Some(pid)
            && status.ssh_engine@ == "system"@,
        tunnel.engine == Engine::Embedded ==> status.pid is None && status.ssh_engine@
            == "embedded"@,
        status.ip@ == info.ip@ && status.country_code@ == info.country_code@,
        status.country_name@ == info.country_name@,
        history@.len() > 0 ==> status.rx_total == history@.last().rx_total && status.tx_total
            == history@.last().tx_total,
        history@.len() == 0 ==> status.rx_total == 0 && status.tx_total == 0,
{
}

/// A reset leaves no traffic and nothing that was found out, and the
/// configuration of a fresh installation. A tunnel is started with the
/// application exactly if a configuration can be read that says so, and its
/// failure is told.
pub proof fn law_reset_and_launch(
    history: &mut Vec<TrafficPoint>,
    cache: &mut Option<CachedIp>,
    reset: Reset,
    config: &Result<AppConfig, String>,
    starts: bool,
    outcome: Result<String, String>,
    told: String,
    elapsed: Option<u64>,
    seconds: u64,
    millis: u128,
    latency: u64,
)
    requires
        call_ensures(reset_config, (history, cache), reset),
        call_ensures(starts_on_launch, (config,), starts),
        call_ensures(word_launch, (outcome,), told),
        call_ensures(epoch_seconds, (elapsed,), seconds),
        call_ensures(latency_ms, (millis,), latency),
    ensures
        final(history)@.len() == 0 && *final(cache) is None,
        crate::config::is_default_config(reset.config),
        starts <==> (config matches Ok(config) && config.settings.start_tunnel_on_launch),
        outcome matches Ok(message) ==> told@ == message@,
        outcome matches Err(error) ==> told@ == "Autostart failed: "@ + error@,
        elapsed matches Some(n) ==> seconds == n,
        elapsed is None ==> seconds == 0,
        latency <= millis,
        millis <= u64::MAX ==> latency == millis,
        millis > u64::MAX ==> latency == u64::MAX,
{
}

} // verus!
