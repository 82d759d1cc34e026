use secret_tunnel::command::CommandReport;
use secret_tunnel::config::{default_config, selected_proxy, AppConfig};
use secret_tunnel::control::{
    note_reconnect, plan_reconnect, reset_config, starts_on_launch, state_name, stop_tunnel,
    test_finished,
    test_reached, test_server, tunnel_status, word_launch, ReconnectNext, StatusStep, TestNext,
};
use secret_tunnel::ip_info::{CachedIp, IpInfo};
use secret_tunnel::launch::{start_step, StartAction, StartEvent};
use secret_tunnel::profile::{AppSettings, ProxyProfile, ServerProfile};
use secret_tunnel::runtime::{
    needs_latency, totals_from_traffic, update_traffic, word_exit, Engine, TrafficPoint,
    TrafficSample, TunnelRuntime, HISTORY_LIMIT,
};
use secret_tunnel::startup::{
    check_existing, check_port, embedded_disabled, embedded_started, prepare_embedded,
    prepare_system, start_tunnel, watch_poll, watch_verified, EngineChoice, ExistingNext,
    StartPlan, StartPoll, WatchNext, START_ATTEMPTS, START_PAUSE_MS,
};
use secret_tunnel::status::{build_status, shown_proxy, shown_server, status_emoji, TunnelStatus};

fn server() -> ServerProfile {
    default_config().servers[0].clone()
}

fn proxy() -> ProxyProfile {
    default_config().proxies[0].clone()
}

fn runtime(engine: Engine) -> TunnelRuntime {
    TunnelRuntime::started(engine, server(), proxy(), 500)
}

fn no_profiles() -> AppConfig {
    let mut config = default_config();
    config.servers = Vec::new();
    config.proxies = Vec::new();
    config
}

fn point(rx_total: u64, tx_total: u64) -> TrafficPoint {
    TrafficPoint { ts: 1, rx_bps: 0, tx_bps: 0, rx_total, tx_total, latency_ms: None }
}

fn plain_status(config: &AppConfig) -> TunnelStatus {
    build_status("stopped", None, config, &Vec::new(), IpInfo::default(), "1.2.3")
}

#[test]
fn a_fresh_tunnel_knows_its_engine() {
    let system = runtime(Engine::System { pid: 42 });
    assert_eq!(system.ssh_engine(), "system");
    assert_eq!(system.pid(), Some(42));
    assert_eq!(system.last_error, "");
    assert_eq!(system.started_at, 500);
    assert_eq!(system.word_stop(), "Stopping tunnel 'Example server', pid=42");
    let embedded = runtime(Engine::Embedded);
    assert_eq!(embedded.ssh_engine(), "embedded");
    assert_eq!(embedded.pid(), None);
    assert_eq!(
        embedded.last_error,
        "Embedded russh direct-tcpip transport is not implemented yet"
    );
    assert_eq!(embedded.word_stop(), "Stopping embedded tunnel 'Example server'");
}

#[test]
fn only_a_process_is_seen_to_end() {
    let system = runtime(Engine::System { pid: 42 });
    assert_eq!(system.try_wait(Ok(None)), Ok(None));
    assert_eq!(
        system.try_wait(Ok(Some("exit status: 255".to_string()))),
        Ok(Some("ssh exited with exit status: 255".to_string()))
    );
    assert_eq!(system.try_wait(Err("e".to_string())), Err("e".to_string()));
    let embedded = runtime(Engine::Embedded);
    assert_eq!(embedded.try_wait(Ok(Some("x".to_string()))), Ok(None));
    assert_eq!(word_exit("signal: 9"), "ssh exited with signal: 9");
}

#[test]
fn traffic_is_sampled_or_counted() {
    let sampled = Ok(Some((1, 2)));
    assert_eq!(
        runtime(Engine::System { pid: 1 }).traffic_totals(sampled.clone(), (3, 4)),
        sampled
    );
    assert_eq!(
        runtime(Engine::Embedded).traffic_totals(Err("e".to_string()), (3, 4)),
        Ok(Some((3, 4)))
    );
}

#[test]
fn the_history_grows_from_the_second_reading_on() {
    let mut tunnel = runtime(Engine::Embedded);
    let mut history = Vec::new();
    let first = Ok(Some((1000, 500)));
    assert!(!needs_latency(&tunnel, &first));
    assert!(update_traffic(&mut tunnel, &mut history, 100, first, None).is_none());
    assert!(history.is_empty());
    let second = Ok(Some((2000, 400)));
    assert!(needs_latency(&tunnel, &second));
    assert!(update_traffic(&mut tunnel, &mut history, 110, second, Some(7)).is_none());
    assert_eq!(
        history,
        vec![TrafficPoint {
            ts: 110,
            rx_bps: 100,
            tx_bps: 0,
            rx_total: 2000,
            tx_total: 400,
            latency_ms: Some(7),
        }]
    );
    assert_eq!(
        tunnel.last_traffic,
        Some(TrafficSample { ts: 110, rx_total: 2000, tx_total: 400 })
    );
    assert_eq!(totals_from_traffic(&history), (2000, 400));
    assert_eq!(totals_from_traffic(&Vec::new()), (0, 0));
}

#[test]
fn rates_never_claim_more_than_was_counted() {
    for (now, rx_total, expected) in [(103, 1010, 3), (100, 1010, 10), (90, 1010, 10), (101, 999, 0)] {
        let mut tunnel = runtime(Engine::Embedded);
        tunnel.last_traffic = Some(TrafficSample { ts: 100, rx_total: 1000, tx_total: 0 });
        let mut history = Vec::new();
        update_traffic(&mut tunnel, &mut history, now, Ok(Some((rx_total, 0))), None);
        assert_eq!(history[0].rx_bps, expected);
    }
}

#[test]
fn the_history_is_bounded() {
    let mut tunnel = runtime(Engine::Embedded);
    let mut history = Vec::new();
    for n in 0..130_u64 {
        update_traffic(&mut tunnel, &mut history, n, Ok(Some((n, n))), None);
    }
    assert_eq!(HISTORY_LIMIT, 120);
    assert_eq!(history.len(), 120);
    assert_eq!(history[0].ts, 10);
    assert_eq!(history[119].ts, 129);
}

#[test]
fn a_sampler_failure_is_logged_once_in_a_row() {
    let mut tunnel = runtime(Engine::System { pid: 1 });
    let mut history = Vec::new();
    let mut sample = |totals| update_traffic(&mut tunnel, &mut history, 1, totals, None);
    assert_eq!(sample(Err("no".to_string())).as_deref(), Some("Traffic sampler: no"));
    assert_eq!(sample(Err("no".to_string())), None);
    assert_eq!(sample(Ok(None)), None);
    assert_eq!(sample(Err("no".to_string())), None);
    assert_eq!(sample(Err("other".to_string())).as_deref(), Some("Traffic sampler: other"));
    assert_eq!(tunnel.last_error, "other");
    assert!(!needs_latency(&tunnel, &Err("e".to_string())));
    assert!(!needs_latency(&tunnel, &Ok(None)));
}

#[test]
fn states_have_their_signs() {
    assert_eq!(status_emoji("running"), "🟢");
    assert_eq!(status_emoji("unknown"), "🟡");
    assert_eq!(status_emoji("stopped"), "🔴");
    assert_eq!(status_emoji(""), "🔴");
}

#[test]
fn a_running_tunnel_is_shown() {
    let mut tunnel = runtime(Engine::System { pid: 42 });
    tunnel.last_error = "before".to_string();
    let mut config = no_profiles();
    config.settings.ssh_engine = "embedded".to_string();
    let info = IpInfo {
        ip: "192.0.2.9".to_string(),
        country_code: "fr".to_string(),
        country_name: "France".to_string(),
    };
    let history = vec![point(1, 2), point(3, 4)];
    let status = build_status("running", Some(&tunnel), &config, &history, info, "1.2.3");
    assert_eq!(status.state, "running");
    assert_eq!(status.state_emoji, "🟢");
    assert_eq!(status.app_version, "1.2.3");
    assert_eq!(status.ssh_engine, "system");
    assert_eq!(status.server_id, "example");
    assert_eq!(status.server_name, "Example server");
    assert_eq!(status.proxy_id, "local-1080");
    assert_eq!(status.proxy_name, "Local 1080");
    assert_eq!(status.proxy_host, "127.0.0.1");
    assert_eq!(status.proxy_port, 1080);
    assert_eq!(status.pid, Some(42));
    assert_eq!(status.started_at, Some(500));
    assert_eq!(status.ip, "192.0.2.9");
    assert_eq!(status.country_code, "fr");
    assert_eq!(status.country_name, "France");
    assert_eq!(status.country_flag, "🇫🇷");
    assert_eq!((status.rx_total, status.tx_total), (3, 4));
    assert_eq!(status.last_error, "before");
}

#[test]
fn without_a_tunnel_the_selected_profiles_are_shown() {
    let status = plain_status(&default_config());
    assert_eq!(status.server_id, "example");
    assert_eq!(status.proxy_port, 1080);
    assert_eq!(status.ssh_engine, "system");
    assert_eq!(status.pid, None);
    assert_eq!(status.started_at, None);
    assert_eq!(status.country_flag, "");
    assert_eq!(status.last_error, "");
    assert_eq!((status.rx_total, status.tx_total), (0, 0));
}

#[test]
fn without_profiles_stand_ins_are_shown() {
    let status = plain_status(&no_profiles());
    assert_eq!(status.server_id, "");
    assert_eq!(status.server_name, "No server");
    assert_eq!(status.proxy_name, "No proxy");
    assert_eq!(status.proxy_host, "");
    assert_eq!(status.proxy_port, 0);
    assert_eq!(shown_server(None, &no_profiles()).port, 22);
    assert_eq!(shown_proxy(None, &no_profiles()).port, 0);
}

#[test]
fn valid_profiles_can_be_started() {
    let plan = start_tunnel(&default_config()).unwrap();
    assert_eq!(plan.server.id, "example");
    assert_eq!(plan.proxy.id, "local-1080");
    assert_eq!(plan.engine, EngineChoice::System);
    assert!(!plan.clear_logs && plan.verify && plan.hide);
    let mut config = default_config();
    config.settings.ssh_engine = "embedded".to_string();
    config.settings.clear_logs_on_start = true;
    let plan = start_tunnel(&config).unwrap();
    assert_eq!(plan.engine, EngineChoice::Embedded);
    assert!(plan.clear_logs);
}

#[test]
fn only_valid_profiles_start() {
    let mut config = no_profiles();
    assert_eq!(start_tunnel(&config).unwrap_err(), "Add at least one server profile");
    config.servers = default_config().servers;
    assert_eq!(start_tunnel(&config).unwrap_err(), "Add at least one local proxy profile");
    config.proxies = default_config().proxies;
    config.settings.ssh_engine = "none".to_string();
    assert_eq!(start_tunnel(&config).unwrap_err(), "SSH engine must be system or embedded");
    config.proxies[0].host = String::new();
    assert_eq!(start_tunnel(&config).unwrap_err(), "Proxy host is required");
    config.servers[0].port = 0;
    assert_eq!(start_tunnel(&config).unwrap_err(), "SSH port must be in range 1..65535");
}

#[test]
fn a_tunnel_that_runs_is_not_started_again() {
    let mut slot = None;
    assert!(matches!(check_existing(&mut slot, Ok(None)), ExistingNext::Proceed));
    let mut slot = Some(runtime(Engine::System { pid: 1 }));
    match check_existing(&mut slot, Ok(None)) {
        ExistingNext::Done(message) => assert_eq!(message, "Tunnel is already running"),
        other => panic!("{other:?}"),
    }
    match check_existing(&mut slot, Err("e".to_string())) {
        ExistingNext::Fail(message) => assert_eq!(message, "e"),
        other => panic!("{other:?}"),
    }
    assert!(slot.is_some());
    assert!(matches!(
        check_existing(&mut slot, Ok(Some("ended".to_string()))),
        ExistingNext::Proceed
    ));
    assert!(slot.is_none());
}

#[test]
fn an_occupied_address_is_refused() {
    assert_eq!(check_port(&proxy(), false), Ok(()));
    assert_eq!(
        check_port(&proxy(), true),
        Err("Local proxy 127.0.0.1:1080 is already occupied".to_string())
    );
}

#[test]
fn ssh_is_launched_with_the_expanded_key_path() {
    let launch = prepare_system(&server(), &proxy(), Some("/home/me"));
    assert_eq!(
        launch.log,
        "Starting 'Example server' with System OpenSSH on SSH port 22 -> 127.0.0.1:1080 (Local 1080)"
    );
    assert!(launch.arguments.contains(&"/home/me/.ssh/id_ed25519".to_string()));
    assert_eq!(launch.arguments.last().unwrap(), "user@example.com");
}

#[test]
fn the_embedded_engine_is_launched_with_the_profile() {
    let launch = prepare_embedded(&server(), &proxy(), Some("/home/me"));
    assert_eq!(
        launch.log,
        "Starting 'Example server' with Embedded Rust SSH listener -> 127.0.0.1:1080 (Local 1080)"
    );
    assert_eq!(launch.server.name, "Example server");
    assert_eq!(launch.server.host, "example.com");
    assert_eq!(launch.server.port, 22);
    assert_eq!(launch.server.user, "user");
    assert_eq!(launch.server.key_path, "/home/me/.ssh/id_ed25519");
    assert_eq!(launch.server.strict_host_key_checking, "yes");
    assert_eq!(launch.proxy.host, "127.0.0.1");
    assert_eq!(launch.proxy.port, 1080);
    assert_eq!(
        embedded_started(),
        "Embedded SOCKS listener started; russh direct-tcpip transport is not implemented yet"
    );
    assert!(embedded_disabled().starts_with("Embedded Rust SSH engine is disabled in this build."));
    assert!(embedded_disabled().ends_with("or switch SSH engine to System OpenSSH."));
}

#[test]
fn a_start_times_out_after_its_last_attempt() {
    assert_eq!((START_ATTEMPTS, START_PAUSE_MS), (24, 250));
    let mut left = START_ATTEMPTS;
    let mut looks = 0;
    loop {
        looks += 1;
        let step = watch_poll(left, StartPoll::Silent, true, 9);
        match step.next {
            WatchNext::Wait { left: fewer } => {
                assert!(step.logs.is_empty());
                left = fewer;
            }
            WatchNext::Fail { kill, message } => {
                assert!(kill);
                assert_eq!(message, "Timed out waiting for local SOCKS listener");
                assert_eq!(step.logs, vec![message]);
                break;
            }
            other => panic!("{other:?}"),
        }
    }
    assert_eq!(looks, 24);
}

#[test]
fn an_exit_during_the_start_is_a_failure() {
    let step = watch_poll(5, StartPoll::Exited("exit status: 255".to_string()), true, 9);
    match step.next {
        WatchNext::Fail { kill, message } => {
            assert!(!kill);
            assert_eq!(message, "ssh exited during startup with exit status: 255");
            assert_eq!(step.logs, vec![message]);
        }
        other => panic!("{other:?}"),
    }
    let step = watch_poll(5, StartPoll::Unknown("e".to_string()), true, 9);
    assert!(step.logs.is_empty());
    match step.next {
        WatchNext::Fail { kill, message } => assert_eq!((kill, message.as_str()), (false, "e")),
        other => panic!("{other:?}"),
    }
}

#[test]
fn a_proxy_that_answers_is_verified_if_asked_for() {
    let step = watch_poll(5, StartPoll::Answers, true, 9);
    assert_eq!(step.logs, vec!["Tunnel is running, ssh pid=9"]);
    assert!(matches!(step.next, WatchNext::Verify));
    match watch_poll(1, StartPoll::Answers, false, 9).next {
        WatchNext::Started(message) => assert_eq!(message, "Tunnel started"),
        other => panic!("{other:?}"),
    }
}

#[test]
fn a_hidden_address_is_not_logged() {
    let shown = watch_verified(Ok("192.0.2.9".to_string()), false);
    assert_eq!(shown.logs, vec!["Proxy verification OK, public IP 192.0.2.9"]);
    assert!(matches!(shown.next, WatchNext::Started(_)));
    let hidden = watch_verified(Ok("192.0.2.9".to_string()), true);
    assert_eq!(hidden.logs, vec!["Proxy verification OK, public IP hidden"]);
    match hidden.next {
        WatchNext::Started(message) => assert_eq!(message, "Tunnel started"),
        other => panic!("{other:?}"),
    }
}

#[test]
fn a_failed_verification_ends_ssh() {
    let step = watch_verified(Err("no route".to_string()), true);
    match step.next {
        WatchNext::Fail { kill, message } => {
            assert!(kill);
            assert_eq!(message, "Proxy verification failed: no route");
            assert_eq!(step.logs, vec![message]);
        }
        other => panic!("{other:?}"),
    }
}

#[test]
fn a_server_is_tested_in_steps() {
    assert_eq!(
        test_server(&server()).unwrap(),
        "Testing TCP reachability for 'Example server:22'..."
    );
    let step = test_reached(&server(), true, None);
    assert_eq!(step.logs, vec!["TCP reachability OK", "Testing SSH key authentication..."]);
    match step.next {
        TestNext::RunSsh(arguments) => {
            assert_eq!(arguments.last().unwrap(), "exit");
            assert!(arguments.contains(&"~/.ssh/id_ed25519".to_string()));
        }
        other => panic!("{other:?}"),
    }
    let done = test_finished(&CommandReport {
        success: true,
        status: String::new(),
        stdout: Vec::new(),
        stderr: Vec::new(),
    });
    assert_eq!(done.log, "SSH key authentication OK");
    assert_eq!(done.result, Ok("TCP and SSH key authentication OK".to_string()));
}

#[test]
fn a_test_can_fail_at_every_step() {
    let mut faulty = server();
    faulty.user = String::new();
    assert_eq!(test_server(&faulty).unwrap_err(), "Server host and SSH user are required");
    let step = test_reached(&server(), false, None);
    assert_eq!(step.logs, vec!["Cannot connect to example.com:22"]);
    match step.next {
        TestNext::Fail(message) => assert_eq!(message, "Cannot connect to example.com:22"),
        other => panic!("{other:?}"),
    }
    let done = test_finished(&CommandReport {
        success: false,
        status: "exit status: 255".to_string(),
        stdout: Vec::new(),
        stderr: b"Permission denied\n".to_vec(),
    });
    assert_eq!(done.log, "SSH test failed: Permission denied");
    assert_eq!(done.result, Err("Permission denied".to_string()));
    let done = test_finished(&CommandReport {
        success: false,
        status: "exit status: 255".to_string(),
        stdout: Vec::new(),
        stderr: Vec::new(),
    });
    assert_eq!(done.result, Err("SSH test exited with exit status: 255".to_string()));
}

#[test]
fn the_state_of_the_tunnel_is_told() {
    let mut slot = None;
    assert!(matches!(tunnel_status(&mut slot, Ok(None)), StatusStep::Stopped));
    let mut slot = Some(runtime(Engine::System { pid: 1 }));
    assert!(matches!(tunnel_status(&mut slot, Ok(None)), StatusStep::Running));
    match tunnel_status(&mut slot, Err("e".to_string())) {
        StatusStep::Fail(error) => assert_eq!(error, "e"),
        other => panic!("{other:?}"),
    }
    assert!(slot.is_some());
    match tunnel_status(&mut slot, Ok(Some("ssh exited with 1".to_string()))) {
        StatusStep::Ended { runtime, log } => {
            assert_eq!(runtime.last_error, "ssh exited with 1");
            assert_eq!(runtime.started_at, 500);
            assert_eq!(log, "ssh exited with 1");
        }
        other => panic!("{other:?}"),
    }
    assert!(slot.is_none());
}

#[test]
fn a_lost_tunnel_is_started_again_if_asked_for() {
    let mut settings = AppSettings::default();
    assert!(plan_reconnect(&settings).is_none());
    settings.auto_reconnect = true;
    let plan = plan_reconnect(&settings).unwrap();
    assert_eq!(plan.delay, 3);
    assert_eq!(plan.log, "Auto reconnect in 3s using selected profiles");
    settings.reconnect_delay_seconds = 0;
    assert_eq!(plan_reconnect(&settings).unwrap().delay, 1);
}

#[test]
fn the_outcome_of_a_reconnect_is_noted() {
    let status = plain_status(&default_config());
    let (log, next) = note_reconnect(Ok("Tunnel started".to_string()), status);
    assert_eq!(log, "Auto reconnect: Tunnel started");
    assert!(matches!(next, ReconnectNext::LookAgain));
    let status = plain_status(&default_config());
    let (log, next) = note_reconnect(Err("no".to_string()), status);
    assert_eq!(log, "Auto reconnect failed: no");
    match next {
        ReconnectNext::Show(shown) => {
            assert_eq!(shown.last_error, "Auto reconnect failed: no");
            assert_eq!(shown.server_id, "example");
        }
        other => panic!("{other:?}"),
    }
}

#[test]
fn stopping_says_whether_there_was_a_tunnel() {
    let mut slot = Some(runtime(Engine::System { pid: 42 }));
    let step = stop_tunnel(&mut slot);
    assert!(slot.is_none());
    assert_eq!(step.message, "Tunnel stopped");
    let logs = step.ended.unwrap();
    assert_eq!(logs.before, "Stopping tunnel 'Example server', pid=42");
    assert_eq!(logs.after, "Tunnel stopped");
    let step = stop_tunnel(&mut slot);
    assert!(slot.is_none() && step.ended.is_none());
    assert_eq!(step.message, "Tunnel is already stopped");
}

#[test]
fn a_reset_forgets_everything() {
    let mut history = vec![point(1, 2)];
    let mut cache =
        Some(CachedIp { ts: 1, key: "k".to_string(), info: IpInfo::default() });
    let reset = reset_config(&mut history, &mut cache);
    assert!(history.is_empty() && cache.is_none());
    assert_eq!(selected_proxy(&reset.config).unwrap().id, "local-1080");
    assert_eq!(reset.log, "Config reset to defaults");
}

#[test]
fn a_tunnel_starts_with_the_application_if_asked_for() {
    assert!(!starts_on_launch(&Ok(default_config())));
    assert!(!starts_on_launch(&Err("e".to_string())));
    let mut config = default_config();
    config.settings.start_tunnel_on_launch = true;
    assert!(starts_on_launch(&Ok(config)));
    assert_eq!(word_launch(Ok("Tunnel started".to_string())), "Tunnel started");
    assert_eq!(word_launch(Err("no".to_string())), "Autostart failed: no");
}

struct World {
    existing: Result<bool, String>,
    answers: bool,
    launch: Result<Engine, String>,
    answers_at: Option<u8>,
    verified: Result<String, String>,
}

fn open_world(engine: Engine) -> World {
    World {
        existing: Ok(false),
        answers: false,
        launch: Ok(engine),
        answers_at: Some(2),
        verified: Ok("192.0.2.9".to_string()),
    }
}

fn run(plan: &StartPlan, world: World) -> (Vec<String>, Vec<StartAction>) {
    let mut logs = Vec::new();
    let mut actions = Vec::new();
    let mut event = StartEvent::Asked { embedded_built: true };
    loop {
        let step = start_step(plan, Some("/home/me"), event);
        logs.extend(step.logs);
        event = match &step.action {
            StartAction::LookAtExisting => StartEvent::Existing(match &world.existing {
                Ok(false) => ExistingNext::Proceed,
                Ok(true) => ExistingNext::Done("Tunnel is already running".to_string()),
                Err(error) => ExistingNext::Fail(error.clone()),
            }),
            StartAction::TryPort => StartEvent::Port { answers: world.answers },
            StartAction::LaunchSystem(_) | StartAction::LaunchEmbedded { .. } => {
                match &world.launch {
                    Ok(engine) => StartEvent::Launched(*engine),
                    Err(error) => StartEvent::LaunchFailed(error.clone()),
                }
            }
            StartAction::Poll { pid, left } => StartEvent::Polled {
                pid: *pid,
                left: *left,
                poll: if Some(START_ATTEMPTS - *left) == world.answers_at {
                    StartPoll::Answers
                } else {
                    StartPoll::Silent
                },
            },
            StartAction::Verify { pid } => StartEvent::Verified {
                pid: *pid,
                verified: world.verified.clone(),
            },
            _ => {
                actions.push(step.action);
                return (logs, actions);
            }
        };
        actions.push(step.action);
    }
}

fn launches(actions: &[StartAction]) -> usize {
    actions
        .iter()
        .filter(|action| {
            matches!(action, StartAction::LaunchSystem(_) | StartAction::LaunchEmbedded { .. })
        })
        .count()
}

#[test]
fn a_start_keeps_what_comes_up() {
    let plan = start_tunnel(&default_config()).unwrap();
    let (logs, actions) = run(&plan, open_world(Engine::System { pid: 9 }));
    assert_eq!(launches(&actions), 1);
    assert_eq!(actions.len(), 8);
    match actions.last().unwrap() {
        StartAction::Install { engine, message } => {
            assert_eq!(*engine, Engine::System { pid: 9 });
            assert_eq!(message, "Tunnel started");
        }
        other => panic!("{other:?}"),
    }
    assert_eq!(
        logs[1..],
        ["Tunnel is running, ssh pid=9", "Proxy verification OK, public IP hidden"]
    );
    assert!(logs[0].starts_with("Starting 'Example server' with System OpenSSH"));
}

#[test]
fn an_embedded_start_is_kept_at_once() {
    let mut config = default_config();
    config.settings.ssh_engine = "embedded".to_string();
    let plan = start_tunnel(&config).unwrap();
    let (logs, actions) = run(&plan, open_world(Engine::Embedded));
    assert_eq!((logs.len(), actions.len()), (1, 4));
    match &actions[2] {
        StartAction::LaunchEmbedded { server, proxy } => {
            assert_eq!(server.key_path, "/home/me/.ssh/id_ed25519");
            assert_eq!(proxy.port, 1080);
        }
        other => panic!("{other:?}"),
    }
    match &actions[3] {
        StartAction::Install { engine, message } => {
            assert_eq!(*engine, Engine::Embedded);
            assert_eq!(*message, embedded_started());
        }
        other => panic!("{other:?}"),
    }
    let step = start_step(&plan, None, StartEvent::Asked { embedded_built: false });
    assert_eq!(step.logs, vec![embedded_disabled()]);
    assert!(matches!(step.action, StartAction::Fail { kill: false, .. }));
}

#[test]
fn a_launch_needs_a_free_place() {
    let plan = start_tunnel(&default_config()).unwrap();
    let engine = Engine::System { pid: 9 };
    let mut world = open_world(engine);
    world.existing = Ok(true);
    let (_, actions) = run(&plan, world);
    assert_eq!(launches(&actions), 0);
    assert!(matches!(actions.last().unwrap(), StartAction::Done(_)));
    let mut world = open_world(engine);
    world.existing = Err("e".to_string());
    let (_, actions) = run(&plan, world);
    assert_eq!(launches(&actions), 0);
    assert!(matches!(actions.last().unwrap(), StartAction::Fail { kill: false, .. }));
    let mut world = open_world(engine);
    world.answers = true;
    let (logs, actions) = run(&plan, world);
    assert_eq!((launches(&actions), logs.len()), (0, 0));
    match actions.last().unwrap() {
        StartAction::Fail { kill, message } => {
            assert!(!kill);
            assert_eq!(message, "Local proxy 127.0.0.1:1080 is already occupied");
        }
        other => panic!("{other:?}"),
    }
}

#[test]
fn a_failed_start_leaves_no_ssh() {
    let plan = start_tunnel(&default_config()).unwrap();
    let engine = Engine::System { pid: 9 };
    let mut world = open_world(engine);
    world.launch = Err("no ssh".to_string());
    let (_, actions) = run(&plan, world);
    match actions.last().unwrap() {
        StartAction::Fail { kill, message } => assert_eq!((*kill, message.as_str()), (false, "no ssh")),
        other => panic!("{other:?}"),
    }
    let mut world = open_world(engine);
    world.answers_at = None;
    let (_, actions) = run(&plan, world);
    assert_eq!(actions.len(), 28);
    assert!(matches!(actions.last().unwrap(), StartAction::Fail { kill: true, .. }));
    let mut world = open_world(engine);
    world.verified = Err("no route".to_string());
    let (_, actions) = run(&plan, world);
    match actions.last().unwrap() {
        StartAction::Fail { kill, message } => {
            assert!(kill);
            assert_eq!(message, "Proxy verification failed: no route");
        }
        other => panic!("{other:?}"),
    }
}

#[test]
fn a_state_has_its_word() {
    assert_eq!(state_name(&StatusStep::Running).as_deref(), Some("running"));
    assert_eq!(state_name(&StatusStep::Stopped).as_deref(), Some("stopped"));
    let ended = StatusStep::Ended { runtime: runtime(Engine::Embedded), log: String::new() };
    assert_eq!(state_name(&ended).as_deref(), Some("stopped"));
    assert!(state_name(&StatusStep::Fail("e".to_string())).is_none());
}

#[test]
fn the_log_of_a_start_does_not_depend_on_a_hidden_address() {
    let mut plan = start_tunnel(&default_config()).unwrap();
    let engine = Engine::System { pid: 9 };
    let mut other = open_world(engine);
    other.verified = Ok("198.51.100.7".to_string());
    assert_eq!(run(&plan, open_world(engine)).0, run(&plan, other).0);
    plan.hide = false;
    assert!(run(&plan, open_world(engine)).0[2].ends_with("public IP 192.0.2.9"));
}
