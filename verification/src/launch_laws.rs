//! What a start is made with and what is said of it, against the profiles and
//! the settings that it was asked for with.
use crate::command::tunnel_arguments;
use crate::command_laws::{
    after_flag, has_number, has_option, is_login, law_tunnel_arguments_tell_the_profile,
};
use crate::config::{chosen_proxy, chosen_server, AppConfig};
use crate::config_file::expanded;
use crate::launch::{
    after_start_event, law_launch_needs_a_free_place, may_launch, run_from, run_start,
    start_logs, ExistingModel, StartActionModel, StartEventModel, Surroundings,
};
use crate::profile::{
    proxy_fault, server_fault, settings_fault, valid_proxy, valid_server, valid_settings,
    ProxyProfile, ServerProfile,
};
use crate::runtime::Engine;
use crate::startup::{
    after_poll, after_verify, embedded_start_notice, is_plan, occupied, start_fault,
    system_notice, EngineChoice, PollModel, StartPlan, WatchModel,
};
use crate::text::{decimal, endpoint};
use crate::text_laws::{
    ends_with, is_place, lemma_decimal_reads, lemma_endpoint_is_place, reads_as, starts_with,
};
use vstd::prelude::*;

verus! {

/// A start with the embedded engine hands it the profile that was planned with:
/// the server's name, host, port, user and way of checking host keys, its key
/// with the home directory put in, and the proxy's host and port. A start with
/// `ssh` runs it for the same server, key and proxy.
pub proof fn law_launch_carries_the_plan(
    plan: StartPlan,
    home: Option<Seq<char>>,
    world: Surroundings,
)
    requires
        may_launch(plan, world),
    ensures
        ({
            let run = run_start(plan, home, world);
            let key_path = expanded(plan.server.key_path@, home);
            &&& run.len() > 2
            &&& match plan.engine {
                EngineChoice::Embedded => {
                    &&& run[2] matches StartActionModel::LaunchEmbedded(told) && {
                        &&& told.name == plan.server.name@
                        &&& told.host == plan.server.host@
                        &&& told.port == plan.server.port
                        &&& told.user == plan.server.user@
                        &&& told.key_path == key_path
                        &&& told.strict_host_key_checking == plan.server.strict_host_key_checking@
                        &&& told.proxy_host == plan.proxy.host@
                        &&& told.proxy_port == plan.proxy.port
                    }
                },
                EngineChoice::System => {
                    &&& run[2] matches StartActionModel::LaunchSystem(args) && {
                        &&& args == tunnel_arguments(plan.server, plan.proxy, key_path)
                        &&& after_flag(args, seq!['-', 'D']) matches Some(place) && is_place(
                            place,
                            plan.proxy.host@,
                            plan.proxy.port,
                        )
                        &&& after_flag(args, seq!['-', 'p']) matches Some(port) && reads_as(
                            port,
                            plan.server.port as nat,
                        )
                        &&& after_flag(args, seq!['-', 'i']) == Some(key_path)
                        &&& is_login(args.last(), plan.server.user@, plan.server.host@)
                        &&& has_option(
                            args,
                            "StrictHostKeyChecking="@,
                            plan.server.strict_host_key_checking@,
                        )
                        &&& has_number(args, "ConnectTimeout="@, plan.server.connect_timeout)
                    }
                },
            }
        }),
{
    law_launch_needs_a_free_place(plan, home, world);
    law_tunnel_arguments_tell_the_profile(
        plan.server,
        plan.proxy,
        expanded(plan.server.key_path@, home),
    );
}

/// A plan takes its server and its proxy from the configuration, and is carried
/// out as the settings say: with the engine that they name, verified, hidden
/// and with the log cleared if they say so.
pub proof fn law_plan_follows_the_settings(config: AppConfig, plan: StartPlan)
    requires
        is_plan(plan, config),
    ensures
        chosen_server(config) == Some(plan.server),
        chosen_proxy(config) == Some(plan.proxy),
        plan.engine == EngineChoice::System <==> config.settings.ssh_engine@ == "system"@,
        plan.verify == config.settings.verify_proxy_on_start,
        plan.hide == config.settings.hide_sensitive,
        plan.clear_logs == config.settings.clear_logs_on_start,
{
}

/// A start is refused exactly if there is no server, no proxy, or something is
/// wrong with the ones that would be used or with the settings; and the user is
/// told the first of these.
pub proof fn law_start_is_refused_for_a_reason(config: AppConfig)
    ensures
        ({
            let server = chosen_server(config);
            let proxy = chosen_proxy(config);
            &&& start_fault(config) is None <==> {
                &&& server is Some && proxy is Some
                &&& valid_server(server->0) && valid_proxy(proxy->0)
                &&& valid_settings(config.settings)
            }
            &&& server is None ==> start_fault(config) == Some("Add at least one server profile"@)
            &&& server is Some && proxy is None ==> start_fault(config) == Some(
                "Add at least one local proxy profile"@,
            )
            &&& server is Some && proxy is Some && !valid_server(server->0) ==> start_fault(config)
                == server_fault(server->0)
            &&& server is Some && proxy is Some && valid_server(server->0) && !valid_proxy(
                proxy->0,
            ) ==> start_fault(config) == proxy_fault(proxy->0)
            &&& server is Some && proxy is Some && valid_server(server->0) && valid_proxy(proxy->0)
                ==> start_fault(config) == settings_fault(config.settings)
        }),
{
}

/// A text that holds an address between two others.
pub open spec fn names_place(
    s: Seq<char>,
    before: Seq<char>,
    place: Seq<char>,
    after: Seq<char>,
    host: Seq<char>,
    port: u16,
) -> bool {
    &&& s == before + place + after
    &&& is_place(place, host, port)
}

/// What is logged of a launch names the server first, then the address that the
/// proxy listens on, and the proxy last; a launch of `ssh` tells the port of the
/// server before. An address that is taken is named too.
pub proof fn law_launch_is_told(server: ServerProfile, proxy: ProxyProfile)
    ensures
        exists|before: Seq<char>, place: Seq<char>, after: Seq<char>|
            #[trigger] names_place(
                system_notice(server, proxy),
                before,
                place,
                after,
                proxy.host@,
                proxy.port,
            ) && after == " ("@ + proxy.name@ + ")"@ && starts_with(
                before,
                "Starting '"@ + server.name@ + "' with System OpenSSH"@,
            ) && before == "Starting '"@ + server.name@ + "' with System OpenSSH on SSH port "@
                + decimal(server.port as nat) + " -> "@,
        exists|before: Seq<char>, place: Seq<char>, after: Seq<char>|
            #[trigger] names_place(
                embedded_start_notice(server, proxy),
                before,
                place,
                after,
                proxy.host@,
                proxy.port,
            ) && after == " ("@ + proxy.name@ + ")"@ && before == "Starting '"@ + server.name@
                + "' with Embedded Rust SSH listener -> "@,
        exists|before: Seq<char>, place: Seq<char>, after: Seq<char>|
            #[trigger] names_place(
                occupied(proxy),
                before,
                place,
                after,
                proxy.host@,
                proxy.port,
            ) && before == "Local proxy "@ && after == " is already occupied"@,
        reads_as(decimal(server.port as nat), server.port as nat),
{
    lemma_decimal_reads(server.port as u64);
    lemma_endpoint_is_place(proxy.host@, proxy.port);
    let place = endpoint(proxy.host@, proxy.port);
    let after = " ("@ + proxy.name@ + ")"@;
    let first = "Starting '"@ + server.name@ + "' with System OpenSSH on SSH port "@ + decimal(
        server.port as nat,
    ) + " -> "@;
    assert(system_notice(server, proxy) =~= first + place + after);
    assert(starts_with(first, "Starting '"@ + server.name@ + "' with System OpenSSH"@)) by {
        reveal_strlit("' with System OpenSSH");
        reveal_strlit("' with System OpenSSH on SSH port ");
        let begun = "Starting '"@ + server.name@ + "' with System OpenSSH"@;
        assert(first.take(begun.len() as int) =~= begun);
    }
    assert(names_place(
        system_notice(server, proxy),
        first,
        place,
        after,
        proxy.host@,
        proxy.port,
    ));
    let second = "Starting '"@ + server.name@ + "' with Embedded Rust SSH listener -> "@;
    assert(embedded_start_notice(server, proxy) =~= second + place + after);
    assert(names_place(
        embedded_start_notice(server, proxy),
        second,
        place,
        after,
        proxy.host@,
        proxy.port,
    ));
    assert(names_place(
        occupied(proxy),
        "Local proxy "@,
        place,
        " is already occupied"@,
        proxy.host@,
        proxy.port,
    ));
}

/// What a look at `ssh` and a verification leave in the log: its exit status,
/// its process, the failure of the verification, or the address that was found
/// unless that is hidden. What a start fails with is what was logged last, or
/// the failure to look.
pub proof fn law_watch_is_told(
    left: nat,
    verify: bool,
    pid: u32,
    status: Seq<char>,
    found: Seq<char>,
)
    ensures
        ({
            let (logs, next) = after_poll(left, PollModel::Exited(status), verify, pid);
            &&& logs.len() == 1 && ends_with(logs[0], status)
            &&& starts_with(logs[0], "ssh exited during startup with "@)
            &&& next == WatchModel::Fail(false, logs[0])
        }),
        after_poll(left, PollModel::Unknown(status), verify, pid) == (
            Seq::<Seq<char>>::empty(),
            WatchModel::Fail(false, status),
        ),
        ({
            let (logs, next) = after_poll(left, PollModel::Answers, verify, pid);
            &&& logs.len() == 1 && ends_with(logs[0], decimal(pid as nat))
            &&& reads_as(decimal(pid as nat), pid as nat)
            &&& next is Verify <==> verify
            &&& next is Started <==> !verify
        }),
        ({
            let (logs, next) = after_poll(left, PollModel::Silent, verify, pid);
            if left > 1 {
                logs.len() == 0 && next == WatchModel::Wait((left - 1) as nat)
            } else {
                logs.len() == 1 && next == WatchModel::Fail(true, logs[0])
            }
        }),
        ({
            let (logs, next) = after_verify(Err(found), verify);
            &&& logs.len() == 1 && ends_with(logs[0], found)
            &&& next == WatchModel::Fail(true, logs[0])
        }),
        ({
            let (logs, next) = after_verify(Ok(found), false);
            logs.len() == 1 && ends_with(logs[0], found) && next is Started
        }),
{
    lemma_decimal_reads(pid as u64);
    lemma_ends("ssh exited during startup with "@, status);
    lemma_ends("Tunnel is running, ssh pid="@, decimal(pid as nat));
    lemma_ends("Proxy verification failed: "@, found);
    lemma_ends("Proxy verification OK, public IP "@, found);
}

pub proof fn lemma_ends(front: Seq<char>, back: Seq<char>)
    ensures
        starts_with(front + back, front),
        ends_with(front + back, back),
{
    let whole = front + back;
    assert(whole.take(front.len() as int) =~= front);
    assert(whole.skip(whole.len() - back.len()) =~= back);
}

/// A start that comes to nothing before an engine runs tells why, in the words
/// of whatever stopped it: that a tunnel runs, that the one before cannot be
/// looked at, which address is taken, or why the engine cannot be launched.
/// Nothing is ended then, and only a launch is logged.
pub proof fn law_refused_start_tells_why(
    plan: StartPlan,
    home: Option<Seq<char>>,
    world: Surroundings,
    message: Seq<char>,
)
    requires
        plan.engine == EngineChoice::Embedded ==> world.embedded_built,
    ensures
        ({
            let end = run_start(plan, home, world).last();
            let logs = start_logs(plan, home, world);
            &&& world.existing == ExistingModel::Done(message) ==> end == StartActionModel::Done(
                message,
            ) && logs.len() == 0
            &&& world.existing == ExistingModel::Fail(message) ==> end == StartActionModel::Fail(
                false,
                message,
            ) && logs.len() == 0
            &&& world.existing is Proceed && world.answers ==> end == StartActionModel::Fail(
                false,
                "Local proxy "@ + endpoint(plan.proxy.host@, plan.proxy.port)
                    + " is already occupied"@,
            ) && logs.len() == 0
            &&& may_launch(plan, world) && world.launched == Err::<Engine, Seq<char>>(message)
                ==> end == StartActionModel::Fail(false, message) && logs.len() == 1
        }),
{
    let asked = StartEventModel::Asked(world.embedded_built);
    let existing = StartEventModel::Existing(world.existing);
    let port = StartEventModel::Port(world.answers);
    let run = run_start(plan, home, world);
    let second = run_from(plan, home, world, existing);
    assert(run == seq![StartActionModel::LookAtExisting] + second);
    let later = crate::launch::logs_from(plan, home, world, existing);
    assert(start_logs(plan, home, world) =~= later);
    if world.existing is Proceed {
        let third = run_from(plan, home, world, port);
        let third_logs = crate::launch::logs_from(plan, home, world, port);
        assert(second == seq![StartActionModel::TryPort] + third);
        assert(later =~= third_logs);
        if world.answers {
            assert(third.len() == 1);
        } else if let Err(error) = world.launched {
            let failed = StartEventModel::LaunchFailed(error);
            let (logs, launch) = after_start_event(plan, home, port);
            assert(crate::launch::event_after(world, launch) == Some(failed));
            let last = run_from(plan, home, world, failed);
            assert(last == seq![StartActionModel::Fail(false, error)]);
            assert(third == seq![launch] + last);
            assert(crate::launch::logs_from(plan, home, world, failed).len() == 0);
            assert(third_logs =~= logs);
        }
    }
}

/// What the user is told of a tunnel that is up.
pub proof fn law_started_tunnel_is_told(plan: StartPlan, home: Option<Seq<char>>, pid: u32)
    ensures
        after_start_event(plan, home, StartEventModel::Launched(Engine::Embedded)).1
            == StartActionModel::Install(
            Engine::Embedded,
            "Embedded SOCKS listener started; russh direct-tcpip transport is not implemented yet"@,
        ),
        after_start_event(plan, home, StartEventModel::Launched(Engine::System { pid })).1
            == StartActionModel::Poll(pid, 24),
        forall|left: nat| !plan.verify ==> #[trigger]
            after_start_event(
                plan,
                home,
                StartEventModel::Polled(pid, left, PollModel::Answers),
            ).1 == StartActionModel::Install(Engine::System { pid }, "Tunnel started"@),
        forall|ip: Seq<char>| #[trigger]
            after_start_event(plan, home, StartEventModel::Verified(pid, Ok(ip))).1
                == StartActionModel::Install(Engine::System { pid }, "Tunnel started"@),
{
}

} // verus!
