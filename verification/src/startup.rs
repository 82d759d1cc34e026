//! Starting a tunnel: what is checked before, and how `ssh` is watched until
//! the proxy answers.
use crate::command::{ssh_tunnel_arguments, tunnel_arguments};
use crate::config::{
    chosen_proxy, chosen_server, selected_proxy, selected_server, AppConfig,
};
use crate::config_file::{expand_home, expanded};
use crate::embedded::{EmbeddedProxy, EmbeddedServer};
use crate::profile::{
    proxy_fault, server_fault, settings_fault, valid_proxy, valid_server,
    valid_settings, validate_proxy, validate_server, validate_settings, ProxyProfile,
    ServerProfile,
};
use crate::runtime::TunnelRuntime;
use crate::text::{
    concat2, concat3, decimal, endpoint, endpoint_text, push_decimal, same_text, texts,
};
use vstd::prelude::*;
use vstd::string::StringExecFns;

verus! {

/// Which engine a tunnel is started with.
#[derive(Clone, Copy, Debug, PartialEq, Eq, Structural)]
pub enum EngineChoice {
    System,
    Embedded,
}

/// What is to be started.
#[derive(Debug)]
pub struct StartPlan {
    pub server: ServerProfile,
    pub proxy: ProxyProfile,
    pub engine: EngineChoice,
    /// Whether the log is cleared first.
    pub clear_logs: bool,
    /// Whether the proxy is verified once it answers.
    pub verify: bool,
    /// Whether the public address is kept out of the log.
    pub hide: bool,
}

/// The first reason why no tunnel can be started.
pub open spec fn start_fault(config: AppConfig) -> Option<Seq<char>> {
    if chosen_server(config) is None {
        Some("Add at least one server profile"@)
    } else if chosen_proxy(config) is None {
        Some("Add at least one local proxy profile"@)
    } else if server_fault(chosen_server(config)->0) is Some {
        server_fault(chosen_server(config)->0)
    } else if proxy_fault(chosen_proxy(config)->0) is Some {
        proxy_fault(chosen_proxy(config)->0)
    } else {
        settings_fault(config.settings)
    }
}

/// What a configuration starts.
pub open spec fn is_plan(plan: StartPlan, config: AppConfig) -> bool {
    &&& chosen_server(config) == Some(plan.server)
    &&& chosen_proxy(config) == Some(plan.proxy)
    &&& plan.engine == if config.settings.ssh_engine@ == "system"@ {
        EngineChoice::System
    } else {
        EngineChoice::Embedded
    }
    &&& plan.clear_logs == config.settings.clear_logs_on_start
    &&& plan.verify == config.settings.verify_proxy_on_start
    &&& plan.hide == config.settings.hide_sensitive
}

/// Decides what is started: the selected profiles, if they and the settings are
/// valid.
pub fn start_tunnel(config: &AppConfig) -> (r: Result<StartPlan, String>)
    ensures
        match r {
            Ok(plan) => {
                &&& start_fault(*config) is None
                &&& is_plan(plan, *config)
                &&& valid_server(plan.server) && valid_proxy(plan.proxy) && valid_settings(
                    config.settings,
                )
            },
            Err(message) => start_fault(*config) == Some(message@),
        },
{
    let server = match selected_server(config) {
        Ok(server) => server,
        Err(message) => {
            return Err(message);
        },
    };
    let proxy = match selected_proxy(config) {
        Ok(proxy) => proxy,
        Err(message) => {
            return Err(message);
        },
    };
    match validate_server(&server) {
        Ok(()) => {},
        Err(message) => {
            return Err(message);
        },
    }
    match validate_proxy(&proxy) {
        Ok(()) => {},
        Err(message) => {
            return Err(message);
        },
    }
    match validate_settings(&config.settings) {
        Ok(()) => {},
        Err(message) => {
            return Err(message);
        },
    }
    let engine = if same_text(config.settings.ssh_engine.as_str(), "system") {
        EngineChoice::System
    } else {
        EngineChoice::Embedded
    };
    Ok(
        StartPlan {
            server,
            proxy,
            engine,
            clear_logs: config.settings.clear_logs_on_start,
            verify: config.settings.verify_proxy_on_start,
            hide: config.settings.hide_sensitive,
        },
    )
}

/// What is done about the tunnel that was there before.
#[derive(Debug)]
pub enum ExistingNext {
    /// Start.
    Proceed,
    /// Nothing is started; this is all right.
    Done(String),
    /// Nothing is started, for this reason.
    Fail(String),
}

/// Decides what is done about the tunnel that was there before, if there was
/// one. `seen` says that it runs, how it has ended, or why neither can be told.
/// One that has ended is forgotten.
pub fn check_existing(runtime: &mut Option<TunnelRuntime>, seen: Result<Option<String>, String>) -> (r:
    ExistingNext)
    ensures
        match (*old(runtime), seen) {
            (None, _) => r is Proceed && *final(runtime) == *old(runtime),
            (Some(_), Ok(None)) => r is Done && r->Done_0@ == "Tunnel is already running"@
                && *final(runtime) == *old(runtime),
            (Some(_), Ok(Some(_))) => r is Proceed && *final(runtime) is None,
            (Some(_), Err(error)) => r == ExistingNext::Fail(error) && *final(runtime) == *old(
                runtime,
            ),
        },
{
    if runtime.is_none() {
        return ExistingNext::Proceed;
    }
    match seen {
        Ok(None) => ExistingNext::Done("Tunnel is already running".to_owned()),
        Ok(Some(_)) => {
            *runtime = None;
            ExistingNext::Proceed
        },
        Err(error) => ExistingNext::Fail(error),
    }
}

/// What the user is told when something else answers at the proxy's address.
pub open spec fn occupied(proxy: ProxyProfile) -> Seq<char> {
    "Local proxy "@ + endpoint(proxy.host@, proxy.port) + " is already occupied"@
}

/// Decides whether a proxy can be started at an address where something
/// answers, or nothing does.
pub fn check_port(proxy: &ProxyProfile, answers: bool) -> (r: Result<(), String>)
    ensures
        r is Ok <==> !answers,
        r is Err ==> r->Err_0@ == occupied(*proxy),
{
    if answers {
        let place = endpoint_text(proxy.host.as_str(), proxy.port);
        Err(concat3("Local proxy ", place.as_str(), " is already occupied"))
    } else {
        Ok(())
    }
}

/// How `ssh` is launched.
#[derive(Debug)]
pub struct SystemLaunch {
    /// What is logged.
    pub log: String,
    pub arguments: Vec<String>,
}

/// What is logged when `ssh` is launched.
pub open spec fn system_notice(server: ServerProfile, proxy: ProxyProfile) -> Seq<char> {
    "Starting '"@ + server.name@ + "' with System OpenSSH on SSH port "@ + decimal(
        server.port as nat,
    ) + " -> "@ + endpoint(proxy.host@, proxy.port) + " ("@ + proxy.name@ + ")"@
}

/// A home directory as text, if it is known.
pub open spec fn home_text(home: Option<&str>) -> Option<Seq<char>> {
    match home {
        Some(home) => Some(home@),
        None => None,
    }
}

/// Prepares the launch of `ssh`.
pub fn prepare_system(server: &ServerProfile, proxy: &ProxyProfile, home: Option<&str>) -> (r:
    SystemLaunch)
    ensures
        r.log@ == system_notice(*server, *proxy),
        texts(r.arguments@) == tunnel_arguments(
            *server,
            *proxy,
            expanded(server.key_path@, home_text(home)),
        ),
{
    let key_path = expand_home(server.key_path.as_str(), home);
    let place = endpoint_text(proxy.host.as_str(), proxy.port);
    let mut log = "Starting '".to_owned();
    log.append(server.name.as_str());
    log.append("' with System OpenSSH on SSH port ");
    push_decimal(&mut log, server.port as u64);
    log.append(" -> ");
    log.append(place.as_str());
    log.append(" (");
    log.append(proxy.name.as_str());
    log.append(")");
    SystemLaunch { log, arguments: ssh_tunnel_arguments(server, proxy, key_path.as_str()) }
}

/// How the embedded engine is launched.
#[derive(Debug)]
pub struct EmbeddedLaunch {
    /// What is logged.
    pub log: String,
    pub server: EmbeddedServer,
    pub proxy: EmbeddedProxy,
}

/// What is logged when the embedded engine is launched.
pub open spec fn embedded_start_notice(server: ServerProfile, proxy: ProxyProfile) -> Seq<char> {
    "Starting '"@ + server.name@ + "' with Embedded Rust SSH listener -> "@ + endpoint(
        proxy.host@,
        proxy.port,
    ) + " ("@ + proxy.name@ + ")"@
}

/// Prepares the launch of the embedded engine.
pub fn prepare_embedded(server: &ServerProfile, proxy: &ProxyProfile, home: Option<&str>) -> (r:
    EmbeddedLaunch)
    ensures
        r.log@ == embedded_start_notice(*server, *proxy),
        r.server.name@ == server.name@,
        r.server.host@ == server.host@,
        r.server.port == server.port,
        r.server.user@ == server.user@,
        r.server.key_path@ == expanded(server.key_path@, home_text(home)),
        r.server.strict_host_key_checking@ == server.strict_host_key_checking@,
        r.proxy.host@ == proxy.host@,
        r.proxy.port == proxy.port,
{
    let place = endpoint_text(proxy.host.as_str(), proxy.port);
    let mut log = "Starting '".to_owned();
    log.append(server.name.as_str());
    log.append("' with Embedded Rust SSH listener -> ");
    log.append(place.as_str());
    log.append(" (");
    log.append(proxy.name.as_str());
    log.append(")");
    EmbeddedLaunch {
        log,
        server: EmbeddedServer {
            name: server.name.clone(),
            host: server.host.clone(),
            port: server.port,
            user: server.user.clone(),
            key_path: expand_home(server.key_path.as_str(), home),
            strict_host_key_checking: server.strict_host_key_checking.clone(),
        },
        proxy: EmbeddedProxy { host: proxy.host.clone(), port: proxy.port },
    }
}

/// What the user is told when the embedded engine has started.
pub fn embedded_started() -> (r: String)
    ensures
        r@
            == "Embedded SOCKS listener started; russh direct-tcpip transport is not implemented yet"@,
{
    "Embedded SOCKS listener started; russh direct-tcpip transport is not implemented yet".to_owned()
}

/// What the user is told when the application was built without the embedded
/// engine.
pub fn embedded_disabled() -> (r: String)
    ensures
        r@
            == "Embedded Rust SSH engine is disabled in this build. Build with Cargo feature 'embedded-ssh' or switch SSH engine to System OpenSSH."@,
{
    "Embedded Rust SSH engine is disabled in this build. Build with Cargo feature 'embedded-ssh' or switch SSH engine to System OpenSSH.".to_owned()
}

/// How often the proxy is tried before `ssh` is given up.
pub const START_ATTEMPTS: u8 = 24;

/// Milliseconds between two attempts.
pub const START_PAUSE_MS: u64 = 250;

/// What was seen of `ssh` after a pause.
#[derive(Debug)]
pub enum StartPoll {
    /// It has ended, with this exit status in words.
    Exited(String),
    /// Whether it runs cannot be told.
    Unknown(String),
    /// It runs and the proxy does not answer yet.
    Silent,
    /// It runs and the proxy answers.
    Answers,
}

/// What is done then.
#[derive(Debug)]
pub enum WatchNext {
    /// Pause and look again; so many attempts are left.
    Wait { left: u8 },
    /// Ask for the public address through the proxy.
    Verify,
    /// The tunnel is up; this is what the user is told.
    Started(String),
    /// The tunnel is not up, for this reason. `ssh` is ended first if `kill`
    /// is set.
    Fail { kill: bool, message: String },
}

/// What is logged, and what is done then.
#[derive(Debug)]
pub struct WatchStep {
    pub logs: Vec<String>,
    pub next: WatchNext,
}

/// What was seen, with its texts.
pub enum PollModel {
    Exited(Seq<char>),
    Unknown(Seq<char>),
    Silent,
    Answers,
}

/// What is done then, with its texts.
pub enum WatchModel {
    Wait(nat),
    Verify,
    Started(Seq<char>),
    Fail(bool, Seq<char>),
}

impl View for StartPoll {
    type V = PollModel;

    open spec fn view(&self) -> PollModel {
        match *self {
            StartPoll::Exited(status) => PollModel::Exited(status@),
            StartPoll::Unknown(error) => PollModel::Unknown(error@),
            StartPoll::Silent => PollModel::Silent,
            StartPoll::Answers => PollModel::Answers,
        }
    }
}

impl View for WatchNext {
    type V = WatchModel;

    open spec fn view(&self) -> WatchModel {
        match *self {
            WatchNext::Wait { left } => WatchModel::Wait(left as nat),
            WatchNext::Verify => WatchModel::Verify,
            WatchNext::Started(message) => WatchModel::Started(message@),
            WatchNext::Fail { kill, message } => WatchModel::Fail(kill, message@),
        }
    }
}

/// What is logged after a look at `ssh` with `left` attempts left, this one
/// among them, and what is done then.
pub open spec fn after_poll(left: nat, poll: PollModel, verify: bool, pid: u32) -> (
    Seq<Seq<char>>,
    WatchModel,
) {
    match poll {
        PollModel::Exited(status) => {
            let message = "ssh exited during startup with "@ + status;
            (seq![message], WatchModel::Fail(false, message))
        },
        PollModel::Unknown(error) => (Seq::empty(), WatchModel::Fail(false, error)),
        PollModel::Silent => if left > 1 {
            (Seq::empty(), WatchModel::Wait((left - 1) as nat))
        } else {
            let message = "Timed out waiting for local SOCKS listener"@;
            (seq![message], WatchModel::Fail(true, message))
        },
        PollModel::Answers => (
            seq!["Tunnel is running, ssh pid="@ + decimal(pid as nat)],
            if verify {
                WatchModel::Verify
            } else {
                WatchModel::Started("Tunnel started"@)
            },
        ),
    }
}

/// What is logged after the proxy was verified or not, and what is done then.
pub open spec fn after_verify(verified: Result<Seq<char>, Seq<char>>, hide: bool) -> (
    Seq<Seq<char>>,
    WatchModel,
) {
    match verified {
        Ok(ip) => (
            seq![
                if hide {
                    "Proxy verification OK, public IP hidden"@
                } else {
                    "Proxy verification OK, public IP "@ + ip
                },
            ],
            WatchModel::Started("Tunnel started"@),
        ),
        Err(error) => {
            let message = "Proxy verification failed: "@ + error;
            (seq![message], WatchModel::Fail(true, message))
        },
    }
}

pub(crate) fn one_text(text: String) -> (r: Vec<String>)
    ensures
        texts(r@) == seq![text@],
{
    let mut list: Vec<String> = Vec::new();
    list.push(text);
    assert(texts(list@) =~= seq![text@]);
    list
}

pub(crate) fn no_texts() -> (r: Vec<String>)
    ensures
        texts(r@) == Seq::<Seq<char>>::empty(),
{
    let list: Vec<String> = Vec::new();
    assert(texts(list@) =~= Seq::<Seq<char>>::empty());
    list
}

/// What the user is told when the tunnel is up.
fn started() -> (r: WatchNext)
    ensures
        r@ == WatchModel::Started("Tunnel started"@),
{
    WatchNext::Started("Tunnel started".to_owned())
}

/// Decides what is done after a look at `ssh`, with `left` attempts left, this
/// one among them.
pub fn watch_poll(left: u8, poll: StartPoll, verify: bool, pid: u32) -> (r: WatchStep)
    ensures
        (texts(r.logs@), r.next@) == after_poll(left as nat, poll@, verify, pid),
{
    match poll {
        StartPoll::Exited(status) => {
            let message = concat2("ssh exited during startup with ", status.as_str());
            WatchStep {
                logs: one_text(message.clone()),
                next: WatchNext::Fail { kill: false, message },
            }
        },
        StartPoll::Unknown(error) => WatchStep {
            logs: no_texts(),
            next: WatchNext::Fail { kill: false, message: error },
        },
        StartPoll::Silent => if left > 1 {
            WatchStep { logs: no_texts(), next: WatchNext::Wait { left: left - 1 } }
        } else {
            let message = "Timed out waiting for local SOCKS listener".to_owned();
            WatchStep {
                logs: one_text(message.clone()),
                next: WatchNext::Fail { kill: true, message },
            }
        },
        StartPoll::Answers => {
            let mut log = "Tunnel is running, ssh pid=".to_owned();
            push_decimal(&mut log, pid as u64);
            WatchStep {
                logs: one_text(log),
                next: if verify {
                    WatchNext::Verify
                } else {
                    started()
                },
            }
        },
    }
}

/// Decides what is done after the proxy was verified or not. The public
/// address is not logged where it is to be hidden.
pub fn watch_verified(verified: Result<String, String>, hide: bool) -> (r: WatchStep)
    ensures
        (texts(r.logs@), r.next@) == after_verify(
            crate::command::text_outcome(verified),
            hide,
        ),
{
    match verified {
        Ok(ip) => {
            let log = if hide {
                "Proxy verification OK, public IP hidden".to_owned()
            } else {
                concat2("Proxy verification OK, public IP ", ip.as_str())
            };
            WatchStep { logs: one_text(log), next: started() }
        },
        Err(error) => {
            let message = concat2("Proxy verification failed: ", error.as_str());
            WatchStep {
                logs: one_text(message.clone()),
                next: WatchNext::Fail { kill: true, message },
            }
        },
    }
}

/// How a start ends that is looked at as `polls` say, one after another: the
/// number of looks that were taken, and what is done in the end. `verified` is
/// what comes of the verification, if it comes to that.
pub open spec fn watch(
    left: nat,
    polls: spec_fn(nat) -> PollModel,
    verify: bool,
    verified: Result<Seq<char>, Seq<char>>,
    hide: bool,
    pid: u32,
) -> (nat, WatchModel)
    decreases left,
{
    let taken = (START_ATTEMPTS - left) as nat;
    match after_poll(left, polls(taken), verify, pid).1 {
        WatchModel::Wait(fewer) => if fewer < left {
            watch(fewer, polls, verify, verified, hide, pid)
        } else {
            (taken + 1, WatchModel::Wait(fewer))
        },
        WatchModel::Verify => (taken + 1, after_verify(verified, hide).1),
        end => (taken + 1, end),
    }
}

/// A start comes to an end after 24 looks at most. It succeeds only if the
/// proxy answers at the last look and, where that is asked for, was verified.
/// Where it fails while `ssh` still runs, `ssh` is ended; a start that times
/// out has found the proxy silent at every look.
pub proof fn law_start_ends(
    polls: spec_fn(nat) -> PollModel,
    verify: bool,
    verified: Result<Seq<char>, Seq<char>>,
    hide: bool,
    pid: u32,
)
    ensures
        ({
            let (looks, end) = watch(START_ATTEMPTS as nat, polls, verify, verified, hide, pid);
            let last = polls((looks - 1) as nat);
            &&& 1 <= looks <= 24
            &&& forall|k: nat| k < looks - 1 ==> #[trigger] polls(k) is Silent
            &&& end is Started <==> last is Answers && (verify ==> verified is Ok)
            &&& end is Started || end is Fail
            &&& end is Fail && (last is Silent || last is Answers) ==> end->Fail_0
            &&& last is Silent <==> end == WatchModel::Fail(
                true,
                "Timed out waiting for local SOCKS listener"@,
            ) && looks == 24 && polls(23) is Silent
        }),
{
    lemma_watch(START_ATTEMPTS as nat, polls, verify, verified, hide, pid);
}

proof fn lemma_watch(
    left: nat,
    polls: spec_fn(nat) -> PollModel,
    verify: bool,
    verified: Result<Seq<char>, Seq<char>>,
    hide: bool,
    pid: u32,
)
    requires
        1 <= left <= START_ATTEMPTS,
    ensures
        ({
            let (looks, end) = watch(left, polls, verify, verified, hide, pid);
            let last = polls((looks - 1) as nat);
            &&& START_ATTEMPTS - left < looks <= START_ATTEMPTS
            &&& forall|k: nat|
                START_ATTEMPTS - left <= k < looks - 1 ==> #[trigger] polls(k) is Silent
            &&& end is Started <==> last is Answers && (verify ==> verified is Ok)
            &&& end is Started || end is Fail
            &&& end is Fail && (last is Silent || last is Answers) ==> end->Fail_0
            &&& last is Silent ==> looks == START_ATTEMPTS && end == WatchModel::Fail(
                true,
                "Timed out waiting for local SOCKS listener"@,
            )
        }),
    decreases left,
{
    let taken = (START_ATTEMPTS - left) as nat;
    if polls(taken) is Silent && left > 1 {
        lemma_watch((left - 1) as nat, polls, verify, verified, hide, pid);
    }
}

/// A tunnel is started only with valid profiles, and with an engine that the
/// settings name.
pub proof fn law_only_valid_profiles_start(config: AppConfig, plan: StartPlan)
    requires
        start_fault(config) is None,
        is_plan(plan, config),
    ensures
        valid_server(plan.server),
        valid_proxy(plan.proxy),
        valid_settings(config.settings),
        plan.engine == EngineChoice::Embedded <==> config.settings.ssh_engine@ == "embedded"@,
{
    assert("system"@ != "embedded"@) by {
        reveal_strlit("system");
        reveal_strlit("embedded");
        assert("system"@.len() == 6 && "embedded"@.len() == 8);
    }
}

} // verus!
