//! Testing a server, watching a tunnel that runs, and stopping it.
use crate::command::{
    failure, ssh_test_arguments, test_arguments, text_outcome, word_failure, CommandReport,
};
use crate::config::{default_config, is_default_config, AppConfig};
use crate::config_file::{expand_home, expanded};
use crate::ip_info::CachedIp;
use crate::profile::{server_fault, valid_server, validate_server, AppSettings, ServerProfile};
use crate::runtime::{stop_notice, TrafficPoint, TunnelRuntime};
use crate::startup::home_text;
use crate::status::TunnelStatus;
use crate::text::{
    concat2, concat3, decimal, endpoint, endpoint_text, maybe_text, push_decimal, texts,
};
use vstd::prelude::*;
use vstd::string::StringExecFns;

verus! {

/// What is logged when a server is about to be tested.
pub open spec fn test_notice(server: ServerProfile) -> Seq<char> {
    "Testing TCP reachability for '"@ + endpoint(server.name@, server.port) + "'..."@
}

/// Begins the test of a server: what is wrong with the profile, or what is
/// logged before the server is tried.
pub fn test_server(server: &ServerProfile) -> (r: Result<String, String>)
    ensures
        text_outcome(r) == match server_fault(*server) {
            Some(message) => Err(message),
            None => Ok(test_notice(*server)),
        },
        r is Ok <==> valid_server(*server),
{
    match validate_server(server) {
        Ok(()) => {},
        Err(message) => {
            return Err(message);
        },
    }
    let place = endpoint_text(server.name.as_str(), server.port);
    Ok(concat3("Testing TCP reachability for '", place.as_str(), "'..."))
}

/// How the test of a server goes on.
#[derive(Debug)]
pub enum TestNext {
    /// Run `ssh` with these arguments.
    RunSsh(Vec<String>),
    /// The test is over, for this reason.
    Fail(String),
}

/// What is logged, and how the test goes on.
#[derive(Debug)]
pub struct TestStep {
    pub logs: Vec<String>,
    pub next: TestNext,
}

/// What is said of a server that does not answer.
pub open spec fn unreachable_notice(server: ServerProfile) -> Seq<char> {
    "Cannot connect to "@ + endpoint(server.host@, server.port)
}

/// Goes on with the test of a server that answers or does not.
pub fn test_reached(server: &ServerProfile, answers: bool, home: Option<&str>) -> (r: TestStep)
    ensures
        if answers {
            &&& texts(r.logs@) == seq![
                "TCP reachability OK"@,
                "Testing SSH key authentication..."@,
            ]
            &&& r.next is RunSsh
            &&& texts(r.next->RunSsh_0@) == test_arguments(
                *server,
                expanded(server.key_path@, home_text(home)),
            )
        } else {
            &&& texts(r.logs@) == seq![unreachable_notice(*server)]
            &&& r.next is Fail
            &&& r.next->Fail_0@ == unreachable_notice(*server)
        },
{
    let mut logs: Vec<String> = Vec::new();
    if !answers {
        let place = endpoint_text(server.host.as_str(), server.port);
        let message = concat2("Cannot connect to ", place.as_str());
        logs.push(message.clone());
        assert(texts(logs@) =~= seq![message@]);
        return TestStep { logs, next: TestNext::Fail(message) };
    }
    logs.push("TCP reachability OK".to_owned());
    logs.push("Testing SSH key authentication...".to_owned());
    assert(texts(logs@) =~= seq!["TCP reachability OK"@, "Testing SSH key authentication..."@]);
    let key_path = expand_home(server.key_path.as_str(), home);
    TestStep { logs, next: TestNext::RunSsh(ssh_test_arguments(server, key_path.as_str())) }
}

/// What is logged at the end of a test, and what the user is told.
#[derive(Debug)]
pub struct TestResult {
    pub log: String,
    pub result: Result<String, String>,
}

/// Ends the test of a server with the report of `ssh`.
pub fn test_finished(report: &CommandReport) -> (r: TestResult)
    ensures
        if report.success {
            &&& r.log@ == "SSH key authentication OK"@
            &&& text_outcome(r.result) == Ok::<Seq<char>, Seq<char>>(
                "TCP and SSH key authentication OK"@,
            )
        } else {
            &&& r.log@ == "SSH test failed: "@ + failure("SSH test exited with "@, *report)
            &&& text_outcome(r.result) == Err::<Seq<char>, Seq<char>>(
                failure("SSH test exited with "@, *report),
            )
        },
{
    if report.success {
        TestResult {
            log: "SSH key authentication OK".to_owned(),
            result: Ok("TCP and SSH key authentication OK".to_owned()),
        }
    } else {
        let message = word_failure("SSH test exited with ", report);
        TestResult { log: concat2("SSH test failed: ", message.as_str()), result: Err(message) }
    }
}

/// What there is to show of the tunnel.
#[derive(Debug)]
pub enum StatusStep {
    /// There is no tunnel: it is shown as stopped.
    Stopped,
    /// It runs: its traffic is sampled and it is shown as running.
    Running,
    /// It has ended: what is left of it is shown as stopped, and this is
    /// logged.
    Ended { runtime: TunnelRuntime, log: String },
    /// Nothing can be told of it, for this reason.
    Fail(String),
}

/// Decides what there is to show of the tunnel. `seen` says of a tunnel that
/// it runs, how it has ended, or why neither can be told. One that has ended
/// is taken out, with its end as its last error.
pub fn tunnel_status(runtime: &mut Option<TunnelRuntime>, seen: Result<Option<String>, String>) -> (r:
    StatusStep)
    ensures
        match (*old(runtime), seen) {
            (None, _) => r is Stopped && *final(runtime) == *old(runtime),
            (Some(_), Ok(None)) => r is Running && *final(runtime) == *old(runtime),
            (Some(ended), Ok(Some(exit))) => r == (StatusStep::Ended {
                runtime: TunnelRuntime { last_error: exit, ..ended },
                log: exit,
            }) && *final(runtime) is None,
            (Some(_), Err(error)) => r == StatusStep::Fail(error) && *final(runtime) == *old(
                runtime,
            ),
        },
{
    if runtime.is_none() {
        return StatusStep::Stopped;
    }
    match seen {
        Ok(None) => StatusStep::Running,
        Ok(Some(exit)) => match runtime.take() {
            Some(mut ended) => {
                let log = exit.clone();
                ended.last_error = exit;
                StatusStep::Ended { runtime: ended, log }
            },
            None => StatusStep::Stopped,
        },
        Err(error) => StatusStep::Fail(error),
    }
}

/// The word for the state of the tunnel that is shown; none where nothing can be
/// told of it.
pub open spec fn state_word(step: StatusStep) -> Option<Seq<char>> {
    match step {
        StatusStep::Running => Some("running"@),
        StatusStep::Stopped => Some("stopped"@),
        StatusStep::Ended { runtime: _, log: _ } => Some("stopped"@),
        StatusStep::Fail(_) => None,
    }
}

/// Picks the word for the state of the tunnel that is shown.
pub fn state_name(step: &StatusStep) -> (r: Option<String>)
    ensures
        maybe_text(r) == state_word(*step),
{
    match step {
        StatusStep::Running => Some("running".to_owned()),
        StatusStep::Stopped => Some("stopped".to_owned()),
        StatusStep::Ended { runtime: _, log: _ } => Some("stopped".to_owned()),
        StatusStep::Fail(_) => None,
    }
}

/// How a tunnel that has ended is started again.
#[derive(Debug)]
pub struct Reconnect {
    /// Seconds to wait first.
    pub delay: u64,
    /// What is logged.
    pub log: String,
}

/// Seconds to wait before a tunnel is started again: one at least.
pub open spec fn reconnect_delay(settings: AppSettings) -> u64 {
    if settings.reconnect_delay_seconds < 1 {
        1
    } else {
        settings.reconnect_delay_seconds as u64
    }
}

/// Decides whether a tunnel that has ended is started again, and how.
pub fn plan_reconnect(settings: &AppSettings) -> (r: Option<Reconnect>)
    ensures
        match r {
            Some(plan) => {
                &&& settings.auto_reconnect
                &&& plan.delay == reconnect_delay(*settings)
                &&& plan.log@ == "Auto reconnect in "@ + decimal(
                    reconnect_delay(*settings) as nat,
                ) + "s using selected profiles"@
            },
            None => !settings.auto_reconnect,
        },
{
    if !settings.auto_reconnect {
        return None;
    }
    let delay: u64 = if settings.reconnect_delay_seconds < 1 {
        1
    } else {
        settings.reconnect_delay_seconds as u64
    };
    let mut log = "Auto reconnect in ".to_owned();
    push_decimal(&mut log, delay);
    log.append("s using selected profiles");
    Some(Reconnect { delay, log })
}

/// What is made of an attempt to start the tunnel again.
#[derive(Debug)]
pub enum ReconnectNext {
    /// The state of the tunnel is looked at once more.
    LookAgain,
    /// This state is shown.
    Show(TunnelStatus),
}

/// Takes the outcome of an attempt to start the tunnel again: what is logged,
/// and what is shown. A failure is shown as the last error of the tunnel that
/// had ended.
pub fn note_reconnect(outcome: Result<String, String>, status: TunnelStatus) -> (r: (
    String,
    ReconnectNext,
))
    ensures
        match outcome {
            Ok(message) => r.0@ == "Auto reconnect: "@ + message@ && r.1 is LookAgain,
            Err(error) => {
                &&& r.0@ == "Auto reconnect failed: "@ + error@
                &&& r.1 matches ReconnectNext::Show(shown) && shown == (TunnelStatus {
                    last_error: shown.last_error,
                    ..status
                }) && shown.last_error@ == "Auto reconnect failed: "@ + error@
            },
        },
{
    match outcome {
        Ok(message) => (
            concat2("Auto reconnect: ", message.as_str()),
            ReconnectNext::LookAgain,
        ),
        Err(error) => {
            let message = concat2("Auto reconnect failed: ", error.as_str());
            let mut shown = status;
            shown.last_error = message.clone();
            (message, ReconnectNext::Show(shown))
        },
    }
}

/// What is logged before what carries a tunnel is ended, and after.
#[derive(Debug)]
pub struct StopLogs {
    pub before: String,
    pub after: String,
}

/// What is done when the tunnel is to stop.
#[derive(Debug)]
pub struct StopStep {
    /// What is logged around the end of the tunnel, if there was one.
    pub ended: Option<StopLogs>,
    /// What the user is told.
    pub message: String,
}

/// Takes the tunnel out, if there is one, so that what carries it can be ended.
pub fn stop_tunnel(runtime: &mut Option<TunnelRuntime>) -> (r: StopStep)
    ensures
        *final(runtime) is None,
        match *old(runtime) {
            Some(stopped) => {
                &&& r.ended matches Some(logs) && logs.before@ == stop_notice(stopped)
                    && logs.after@ == "Tunnel stopped"@
                &&& r.message@ == "Tunnel stopped"@
            },
            None => r.ended is None && r.message@ == "Tunnel is already stopped"@,
        },
{
    match runtime.take() {
        Some(stopped) => StopStep {
            ended: Some(
                StopLogs { before: stopped.word_stop(), after: "Tunnel stopped".to_owned() },
            ),
            message: "Tunnel stopped".to_owned(),
        },
        None => StopStep { ended: None, message: "Tunnel is already stopped".to_owned() },
    }
}

/// The configuration after a reset, and what is logged of it.
#[derive(Debug)]
pub struct Reset {
    pub config: AppConfig,
    pub log: String,
}

/// Goes back to the configuration of a fresh installation, and forgets the
/// traffic and what is known of the public address.
pub fn reset_config(history: &mut Vec<TrafficPoint>, cache: &mut Option<CachedIp>) -> (r: Reset)
    ensures
        is_default_config(r.config),
        r.log@ == "Config reset to defaults"@,
        final(history)@.len() == 0,
        *final(cache) is None,
{
    history.clear();
    *cache = None;
    Reset { config: default_config(), log: "Config reset to defaults".to_owned() }
}

/// Whether a tunnel is started with the application: where the configuration
/// can be read and says so.
pub fn starts_on_launch(config: &Result<AppConfig, String>) -> (r: bool)
    ensures
        r == match *config {
            Ok(config) => config.settings.start_tunnel_on_launch,
            Err(_) => false,
        },
{
    match config {
        Ok(config) => config.settings.start_tunnel_on_launch,
        Err(_) => false,
    }
}

/// What is logged of the tunnel that was started with the application.
pub fn word_launch(outcome: Result<String, String>) -> (r: String)
    ensures
        r@ == match outcome {
            Ok(message) => message@,
            Err(error) => "Autostart failed: "@ + error@,
        },
{
    match outcome {
        Ok(message) => message,
        Err(error) => concat2("Autostart failed: ", error.as_str()),
    }
}

} // verus!
