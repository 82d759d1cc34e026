//! A start from its beginning to its end: what is done after each thing that
//! happens, and what a whole start comes to.
use crate::command::{text_outcome, tunnel_arguments};
use crate::config_file::expanded;
use crate::embedded::{EmbeddedProxy, EmbeddedServer};
use crate::runtime::Engine;
use crate::startup::{
    after_poll, after_verify, check_port, embedded_disabled, embedded_start_notice,
    embedded_started, home_text, no_texts, occupied, one_text, prepare_embedded, prepare_system,
    system_notice, watch, watch_poll, watch_verified, EngineChoice, ExistingNext, PollModel,
    StartPlan, StartPoll, WatchModel, WatchNext, START_ATTEMPTS,
};
use crate::text::texts;
use vstd::prelude::*;

verus! {

/// What has happened in a start.
#[derive(Debug)]
pub enum StartEvent {
    /// It was asked for, in an application with or without the embedded engine.
    Asked { embedded_built: bool },
    /// The tunnel that was there before was looked at.
    Existing(ExistingNext),
    /// The proxy's address was tried.
    Port { answers: bool },
    /// The engine was launched.
    Launched(Engine),
    /// The engine cannot be launched.
    LaunchFailed(String),
    /// `ssh` was looked at, with `left` attempts left, this one among them.
    Polled { pid: u32, left: u8, poll: StartPoll },
    /// The proxy was verified or not.
    Verified { pid: u32, verified: Result<String, String> },
}

/// What is done then.
#[derive(Debug)]
pub enum StartAction {
    /// Look at the tunnel that was there before.
    LookAtExisting,
    /// Try whether something answers at the proxy's address.
    TryPort,
    /// Forget the traffic and run `ssh` with these arguments.
    LaunchSystem(Vec<String>),
    /// Forget the traffic and launch the embedded engine.
    LaunchEmbedded { server: EmbeddedServer, proxy: EmbeddedProxy },
    /// Pause and look at `ssh`, with so many attempts left.
    Poll { pid: u32, left: u8 },
    /// Ask for the public address through the proxy.
    Verify { pid: u32 },
    /// The tunnel is up: keep it, and tell the user this.
    Install { engine: Engine, message: String },
    /// There is nothing to start; the user is told this.
    Done(String),
    /// The start failed for this reason. `ssh` is ended first if `kill` is set.
    Fail { kill: bool, message: String },
}

/// What is logged, and what is done then.
#[derive(Debug)]
pub struct StartStep {
    pub logs: Vec<String>,
    pub action: StartAction,
}

/// What was found out of the tunnel that was there before, as text.
pub enum ExistingModel {
    Proceed,
    Done(Seq<char>),
    Fail(Seq<char>),
}

/// What has happened in a start, with its texts.
pub enum StartEventModel {
    Asked(bool),
    Existing(ExistingModel),
    Port(bool),
    Launched(Engine),
    LaunchFailed(Seq<char>),
    Polled(u32, nat, PollModel),
    Verified(u32, Result<Seq<char>, Seq<char>>),
}

/// What the embedded engine is told.
pub struct EmbeddedModel {
    pub name: Seq<char>,
    pub host: Seq<char>,
    pub port: u16,
    pub user: Seq<char>,
    pub key_path: Seq<char>,
    pub strict_host_key_checking: Seq<char>,
    pub proxy_host: Seq<char>,
    pub proxy_port: u16,
}

/// What is done in a start, with its texts.
pub enum StartActionModel {
    LookAtExisting,
    TryPort,
    LaunchSystem(Seq<Seq<char>>),
    LaunchEmbedded(EmbeddedModel),
    Poll(u32, nat),
    Verify(u32),
    Install(Engine, Seq<char>),
    Done(Seq<char>),
    Fail(bool, Seq<char>),
}

impl View for ExistingNext {
    type V = ExistingModel;

    open spec fn view(&self) -> ExistingModel {
        match *self {
            ExistingNext::Proceed => ExistingModel::Proceed,
            ExistingNext::Done(message) => ExistingModel::Done(message@),
            ExistingNext::Fail(message) => ExistingModel::Fail(message@),
        }
    }
}

impl View for StartEvent {
    type V = StartEventModel;

    open spec fn view(&self) -> StartEventModel {
        match *self {
            StartEvent::Asked { embedded_built } => StartEventModel::Asked(embedded_built),
            StartEvent::Existing(next) => StartEventModel::Existing(next@),
            StartEvent::Port { answers } => StartEventModel::Port(answers),
            StartEvent::Launched(engine) => StartEventModel::Launched(engine),
            StartEvent::LaunchFailed(error) => StartEventModel::LaunchFailed(error@),
            StartEvent::Polled { pid, left, poll } => StartEventModel::Polled(
                pid,
                left as nat,
                poll@,
            ),
            StartEvent::Verified { pid, verified } => StartEventModel::Verified(
                pid,
                text_outcome(verified),
            ),
        }
    }
}

/// What the embedded engine is told, as text.
pub open spec fn embedded_model(server: EmbeddedServer, proxy: EmbeddedProxy) -> EmbeddedModel {
    EmbeddedModel {
        name: server.name@,
        host: server.host@,
        port: server.port,
        user: server.user@,
        key_path: server.key_path@,
        strict_host_key_checking: server.strict_host_key_checking@,
        proxy_host: proxy.host@,
        proxy_port: proxy.port,
    }
}

impl View for StartAction {
    type V = StartActionModel;

    open spec fn view(&self) -> StartActionModel {
        match *self {
            StartAction::LookAtExisting => StartActionModel::LookAtExisting,
            StartAction::TryPort => StartActionModel::TryPort,
            StartAction::LaunchSystem(arguments) => StartActionModel::LaunchSystem(
                texts(arguments@),
            ),
            StartAction::LaunchEmbedded { server, proxy } => StartActionModel::LaunchEmbedded(
                embedded_model(server, proxy),
            ),
            StartAction::Poll { pid, left } => StartActionModel::Poll(pid, left as nat),
            StartAction::Verify { pid } => StartActionModel::Verify(pid),
            StartAction::Install { engine, message } => StartActionModel::Install(
                engine,
                message@,
            ),
            StartAction::Done(message) => StartActionModel::Done(message@),
            StartAction::Fail { kill, message } => StartActionModel::Fail(kill, message@),
        }
    }
}

/// What an engine is launched with, and what is logged of it.
pub open spec fn launch_of(plan: StartPlan, home: Option<Seq<char>>) -> (
    Seq<Seq<char>>,
    StartActionModel,
) {
    let key_path = expanded(plan.server.key_path@, home);
    match plan.engine {
        EngineChoice::System => (
            seq![system_notice(plan.server, plan.proxy)],
            StartActionModel::LaunchSystem(tunnel_arguments(plan.server, plan.proxy, key_path)),
        ),
        EngineChoice::Embedded => (
            seq![embedded_start_notice(plan.server, plan.proxy)],
            StartActionModel::LaunchEmbedded(
                EmbeddedModel {
                    name: plan.server.name@,
                    host: plan.server.host@,
                    port: plan.server.port,
                    user: plan.server.user@,
                    key_path,
                    strict_host_key_checking: plan.server.strict_host_key_checking@,
                    proxy_host: plan.proxy.host@,
                    proxy_port: plan.proxy.port,
                },
            ),
        ),
    }
}

/// What is done after `ssh` was looked at or the proxy verified.
pub open spec fn watch_action(pid: u32, next: WatchModel) -> StartActionModel {
    match next {
        WatchModel::Wait(left) => StartActionModel::Poll(pid, left),
        WatchModel::Verify => StartActionModel::Verify(pid),
        WatchModel::Started(message) => StartActionModel::Install(
            Engine::System { pid },
            message,
        ),
        WatchModel::Fail(kill, message) => StartActionModel::Fail(kill, message),
    }
}

/// What is said of an application without the embedded engine.
pub open spec fn no_embedded_engine() -> Seq<char> {
    "Embedded Rust SSH engine is disabled in this build. Build with Cargo feature 'embedded-ssh' or switch SSH engine to System OpenSSH."@
}

/// What is logged after each thing that happens in a start, and what is done.
pub open spec fn after_start_event(
    plan: StartPlan,
    home: Option<Seq<char>>,
    event: StartEventModel,
) -> (Seq<Seq<char>>, StartActionModel) {
    let silent = Seq::<Seq<char>>::empty();
    match event {
        StartEventModel::Asked(embedded_built) => if plan.engine == EngineChoice::Embedded
            && !embedded_built {
            (seq![no_embedded_engine()], StartActionModel::Fail(false, no_embedded_engine()))
        } else {
            (silent, StartActionModel::LookAtExisting)
        },
        StartEventModel::Existing(existing) => match existing {
            ExistingModel::Proceed => (silent, StartActionModel::TryPort),
            ExistingModel::Done(message) => (silent, StartActionModel::Done(message)),
            ExistingModel::Fail(message) => (silent, StartActionModel::Fail(false, message)),
        },
        StartEventModel::Port(answers) => if answers {
            (silent, StartActionModel::Fail(false, occupied(plan.proxy)))
        } else {
            launch_of(plan, home)
        },
        StartEventModel::Launched(engine) => match engine {
            Engine::System { pid } => (
                silent,
                StartActionModel::Poll(pid, START_ATTEMPTS as nat),
            ),
            Engine::Embedded => (
                silent,
                StartActionModel::Install(
                    engine,
                    "Embedded SOCKS listener started; russh direct-tcpip transport is not implemented yet"@,
                ),
            ),
        },
        StartEventModel::LaunchFailed(error) => (silent, StartActionModel::Fail(false, error)),
        StartEventModel::Polled(pid, left, poll) => {
            let (logs, next) = after_poll(left, poll, plan.verify, pid);
            (logs, watch_action(pid, next))
        },
        StartEventModel::Verified(pid, verified) => {
            let (logs, next) = after_verify(verified, plan.hide);
            (logs, watch_action(pid, next))
        },
    }
}

fn to_action(pid: u32, next: WatchNext) -> (r: StartAction)
    ensures
        r@ == watch_action(pid, next@),
{
    match next {
        WatchNext::Wait { left } => StartAction::Poll { pid, left },
        WatchNext::Verify => StartAction::Verify { pid },
        WatchNext::Started(message) => StartAction::Install {
            engine: Engine::System { pid },
            message,
        },
        WatchNext::Fail { kill, message } => StartAction::Fail { kill, message },
    }
}

/// Decides what is done after something has happened in a start.
pub fn start_step(plan: &StartPlan, home: Option<&str>, event: StartEvent) -> (r: StartStep)
    ensures
        (texts(r.logs@), r.action@) == after_start_event(*plan, home_text(home), event@),
        r.action matches StartAction::LaunchEmbedded { server, proxy } ==> {
            &&& plan.engine == EngineChoice::Embedded
            &&& server.name@ == plan.server.name@
            &&& server.host@ == plan.server.host@
            &&& server.port == plan.server.port
            &&& server.user@ == plan.server.user@
            &&& server.key_path@ == expanded(plan.server.key_path@, home_text(home))
            &&& server.strict_host_key_checking@ == plan.server.strict_host_key_checking@
            &&& proxy.host@ == plan.proxy.host@
            &&& proxy.port == plan.proxy.port
        },
{
    match event {
        StartEvent::Asked { embedded_built } => if plan.engine == EngineChoice::Embedded
            && !embedded_built {
            let message = embedded_disabled();
            StartStep {
                logs: one_text(message.clone()),
                action: StartAction::Fail { kill: false, message },
            }
        } else {
            StartStep { logs: no_texts(), action: StartAction::LookAtExisting }
        },
        StartEvent::Existing(next) => {
            let action = match next {
                ExistingNext::Proceed => StartAction::TryPort,
                ExistingNext::Done(message) => StartAction::Done(message),
                ExistingNext::Fail(message) => StartAction::Fail { kill: false, message },
            };
            StartStep { logs: no_texts(), action }
        },
        StartEvent::Port { answers } => match check_port(&plan.proxy, answers) {
            Err(message) => StartStep {
                logs: no_texts(),
                action: StartAction::Fail { kill: false, message },
            },
            Ok(()) => match plan.engine {
                EngineChoice::System => {
                    let launch = prepare_system(&plan.server, &plan.proxy, home);
                    StartStep {
                        logs: one_text(launch.log),
                        action: StartAction::LaunchSystem(launch.arguments),
                    }
                },
                EngineChoice::Embedded => {
                    let launch = prepare_embedded(&plan.server, &plan.proxy, home);
                    StartStep {
                        logs: one_text(launch.log),
                        action: StartAction::LaunchEmbedded {
                            server: launch.server,
                            proxy: launch.proxy,
                        },
                    }
                },
            },
        },
        StartEvent::Launched(engine) => {
            let action = match engine {
                Engine::System { pid } => StartAction::Poll { pid, left: START_ATTEMPTS },
                Engine::Embedded => StartAction::Install { engine, message: embedded_started() },
            };
            StartStep { logs: no_texts(), action }
        },
        StartEvent::LaunchFailed(message) => StartStep {
            logs: no_texts(),
            action: StartAction::Fail { kill: false, message },
        },
        StartEvent::Polled { pid, left, poll } => {
            let step = watch_poll(left, poll, plan.verify, pid);
            StartStep { logs: step.logs, action: to_action(pid, step.next) }
        },
        StartEvent::Verified { pid, verified } => {
            let step = watch_verified(verified, plan.hide);
            StartStep { logs: step.logs, action: to_action(pid, step.next) }
        },
    }
}

/// Everything outside the application that a start meets with.
pub struct Surroundings {
    /// Whether the application has the embedded engine.
    pub embedded_built: bool,
    /// What is found out of the tunnel that was there before.
    pub existing: ExistingModel,
    /// Whether something answers at the proxy's address.
    pub answers: bool,
    /// The engine that a launch brings about, or why there is none.
    pub launched: Result<Engine, Seq<char>>,
    /// What each look at `ssh` sees.
    pub polls: spec_fn(nat) -> PollModel,
    /// What comes of the verification.
    pub verified: Result<Seq<char>, Seq<char>>,
}

/// A launch brings about the engine that was asked for.
pub open spec fn fits(plan: StartPlan, world: Surroundings) -> bool {
    world.launched matches Ok(engine) ==> (engine is Embedded <==> plan.engine
        == EngineChoice::Embedded)
}

/// What happens when an action is carried out; nothing more after the last.
pub open spec fn event_after(world: Surroundings, action: StartActionModel) -> Option<
    StartEventModel,
> {
    match action {
        StartActionModel::LookAtExisting => Some(StartEventModel::Existing(world.existing)),
        StartActionModel::TryPort => Some(StartEventModel::Port(world.answers)),
        StartActionModel::LaunchSystem(_) | StartActionModel::LaunchEmbedded(_) => Some(
            match world.launched {
                Ok(engine) => StartEventModel::Launched(engine),
                Err(error) => StartEventModel::LaunchFailed(error),
            },
        ),
        StartActionModel::Poll(pid, left) => Some(
            StartEventModel::Polled(pid, left, (world.polls)((START_ATTEMPTS - left) as nat)),
        ),
        StartActionModel::Verify(pid) => Some(StartEventModel::Verified(pid, world.verified)),
        _ => None,
    }
}

/// How much of a start is still to come after something has happened.
pub open spec fn remaining(event: StartEventModel) -> nat {
    match event {
        StartEventModel::Asked(_) => 5 + START_ATTEMPTS as nat,
        StartEventModel::Existing(_) => 4 + START_ATTEMPTS as nat,
        StartEventModel::Port(_) => 3 + START_ATTEMPTS as nat,
        StartEventModel::Launched(_) => 2 + START_ATTEMPTS as nat,
        StartEventModel::LaunchFailed(_) => 0,
        StartEventModel::Polled(_, left, _) => 1 + left,
        StartEventModel::Verified(_, _) => 0,
    }
}

/// The rest of a start after something has happened: everything that is done,
/// in its order.
pub open spec fn run_from(
    plan: StartPlan,
    home: Option<Seq<char>>,
    world: Surroundings,
    event: StartEventModel,
) -> Seq<StartActionModel>
    decreases remaining(event),
{
    let action = after_start_event(plan, home, event).1;
    match event_after(world, action) {
        Some(next) => if remaining(next) < remaining(event) {
            seq![action] + run_from(plan, home, world, next)
        } else {
            seq![action]
        },
        None => seq![action],
    }
}

/// The lines that are logged in the rest of a start after something has
/// happened, in their order.
pub open spec fn logs_from(
    plan: StartPlan,
    home: Option<Seq<char>>,
    world: Surroundings,
    event: StartEventModel,
) -> Seq<Seq<char>>
    decreases remaining(event),
{
    let (logs, action) = after_start_event(plan, home, event);
    match event_after(world, action) {
        Some(next) => if remaining(next) < remaining(event) {
            logs + logs_from(plan, home, world, next)
        } else {
            logs
        },
        None => logs,
    }
}

/// The lines that are logged in a whole start, in their order.
pub open spec fn start_logs(plan: StartPlan, home: Option<Seq<char>>, world: Surroundings) -> Seq<
    Seq<char>,
> {
    logs_from(plan, home, world, StartEventModel::Asked(world.embedded_built))
}

/// A whole start: everything that is done, in its order.
pub open spec fn run_start(plan: StartPlan, home: Option<Seq<char>>, world: Surroundings) -> Seq<
    StartActionModel,
> {
    run_from(plan, home, world, StartEventModel::Asked(world.embedded_built))
}

/// Whether an engine may be launched: it is part of the application, no tunnel
/// runs, and the proxy's address is free.
pub open spec fn may_launch(plan: StartPlan, world: Surroundings) -> bool {
    &&& plan.engine == EngineChoice::Embedded ==> world.embedded_built
    &&& world.existing is Proceed
    &&& !world.answers
}

/// Whether an engine is launched by an action.
pub open spec fn is_launch(action: StartActionModel) -> bool {
    action is LaunchSystem || action is LaunchEmbedded
}

/// Whether the look number `k` at `ssh` is the one that decides: at all before
/// it, `ssh` ran and the proxy did not answer.
pub open spec fn decides(world: Surroundings, k: nat) -> bool {
    &&& k < START_ATTEMPTS
    &&& !((world.polls)(k) is Silent)
    &&& forall|j: nat| j < k ==> #[trigger] (world.polls)(j) is Silent
}

/// Whether a look finds the proxy answering in time, and the proxy is verified
/// where that is asked for.
pub open spec fn comes_up(plan: StartPlan, world: Surroundings) -> bool {
    &&& exists|k: nat| #[trigger] decides(world, k) && (world.polls)(k) is Answers
    &&& plan.verify ==> world.verified is Ok
}

/// A start that watches `ssh` does nothing but look at it and verify the
/// proxy, and ends as the watch does.
proof fn lemma_watch_run(
    plan: StartPlan,
    home: Option<Seq<char>>,
    world: Surroundings,
    pid: u32,
    left: nat,
)
    requires
        1 <= left <= START_ATTEMPTS,
    ensures
        ({
            let taken = (START_ATTEMPTS - left) as nat;
            let event = StartEventModel::Polled(pid, left, (world.polls)(taken));
            let run = run_from(plan, home, world, event);
            let end = watch(left, world.polls, plan.verify, world.verified, plan.hide, pid).1;
            &&& run.len() > 0
            &&& run.last() == watch_action(pid, end)
            &&& forall|i: int| 0 <= i < run.len() ==> !is_launch(#[trigger] run[i])
        }),
    decreases left,
{
    let taken = (START_ATTEMPTS - left) as nat;
    let event = StartEventModel::Polled(pid, left, (world.polls)(taken));
    let run = run_from(plan, home, world, event);
    let action = after_start_event(plan, home, event).1;
    match after_poll(left, (world.polls)(taken), plan.verify, pid).1 {
        WatchModel::Wait(fewer) => {
            lemma_watch_run(plan, home, world, pid, fewer);
            let next = StartEventModel::Polled(
                pid,
                fewer,
                (world.polls)((START_ATTEMPTS - fewer) as nat),
            );
            let rest = run_from(plan, home, world, next);
            assert(event_after(world, action) == Some(next));
            assert(run == seq![action] + rest);
            assert forall|i: int| 0 <= i < run.len() implies !is_launch(#[trigger] run[i]) by {
                if i > 0 {
                    assert(run[i] == rest[i - 1]);
                }
            }
        },
        WatchModel::Verify => {
            let next = StartEventModel::Verified(pid, world.verified);
            let rest = run_from(plan, home, world, next);
            assert(event_after(world, action) == Some(next));
            assert(rest == seq![after_start_event(plan, home, next).1]);
            assert(run == seq![action] + rest);
        },
        _ => {
            assert(run == seq![action]);
        },
    }
}

/// A start, one action after another up to the launch.
proof fn lemma_run_begins(plan: StartPlan, home: Option<Seq<char>>, world: Surroundings)
    ensures
        ({
            let run = run_start(plan, home, world);
            let launch = launch_of(plan, home).1;
            let event = match world.launched {
                Ok(engine) => StartEventModel::Launched(engine),
                Err(error) => StartEventModel::LaunchFailed(error),
            };
            if may_launch(plan, world) {
                run == seq![
                    StartActionModel::LookAtExisting,
                    StartActionModel::TryPort,
                    launch,
                ] + run_from(plan, home, world, event)
            } else {
                &&& 0 < run.len() <= 3
                &&& forall|i: int| 0 <= i < run.len() ==> !is_launch(#[trigger] run[i])
                &&& run.last() is Done || run.last() is Fail
                &&& run.last() is Fail ==> !run.last()->Fail_0
            }
        }),
{
    let asked = StartEventModel::Asked(world.embedded_built);
    let existing = StartEventModel::Existing(world.existing);
    let port = StartEventModel::Port(world.answers);
    let run = run_start(plan, home, world);
    if !(plan.engine == EngineChoice::Embedded && !world.embedded_built) {
        let second = run_from(plan, home, world, existing);
        assert(run == seq![StartActionModel::LookAtExisting] + second);
        if world.existing is Proceed {
            let third = run_from(plan, home, world, port);
            assert(second == seq![StartActionModel::TryPort] + third);
            if world.answers {
                assert(third == seq![StartActionModel::Fail(false, occupied(plan.proxy))]);
            } else {
                let launch = launch_of(plan, home).1;
                let event = match world.launched {
                    Ok(engine) => StartEventModel::Launched(engine),
                    Err(error) => StartEventModel::LaunchFailed(error),
                };
                assert(event_after(world, launch) == Some(event));
                assert(third == seq![launch] + run_from(plan, home, world, event));
                assert(run == seq![
                    StartActionModel::LookAtExisting,
                    StartActionModel::TryPort,
                    launch,
                ] + run_from(plan, home, world, event));
            }
        }
    }
}

/// What follows a launch launches nothing more.
proof fn lemma_after_launch(
    plan: StartPlan,
    home: Option<Seq<char>>,
    world: Surroundings,
    event: StartEventModel,
)
    requires
        event is Launched || event is LaunchFailed,
    ensures
        ({
            let run = run_from(plan, home, world, event);
            &&& run.len() > 0
            &&& forall|i: int| 0 <= i < run.len() ==> !is_launch(#[trigger] run[i])
            &&& run.last() == match event {
                StartEventModel::Launched(Engine::System { pid }) => watch_action(
                    pid,
                    watch(
                        START_ATTEMPTS as nat,
                        world.polls,
                        plan.verify,
                        world.verified,
                        plan.hide,
                        pid,
                    ).1,
                ),
                _ => after_start_event(plan, home, event).1,
            }
        }),
{
    let run = run_from(plan, home, world, event);
    match event {
        StartEventModel::Launched(Engine::System { pid }) => {
            lemma_watch_run(plan, home, world, pid, START_ATTEMPTS as nat);
            let first = StartActionModel::Poll(pid, START_ATTEMPTS as nat);
            let next = StartEventModel::Polled(pid, START_ATTEMPTS as nat, (world.polls)(0));
            let rest = run_from(plan, home, world, next);
            assert(event_after(world, first) == Some(next));
            assert(run == seq![first] + rest);
            assert forall|i: int| 0 <= i < run.len() implies !is_launch(#[trigger] run[i]) by {
                if i > 0 {
                    assert(run[i] == rest[i - 1]);
                }
            }
        },
        _ => {
            assert(run == seq![after_start_event(plan, home, event).1]);
        },
    }
}

/// A start launches an engine once if no tunnel runs, the proxy's address is
/// free and the application has the engine, and not at all otherwise.
pub proof fn law_launch_needs_a_free_place(
    plan: StartPlan,
    home: Option<Seq<char>>,
    world: Surroundings,
)
    ensures
        ({
            let run = run_start(plan, home, world);
            &&& may_launch(plan, world) ==> run.len() > 2 && run[2] == launch_of(plan, home).1
            &&& forall|i: int|
                0 <= i < run.len() && is_launch(#[trigger] run[i]) ==> may_launch(plan, world) && i
                    == 2
        }),
{
    lemma_run_begins(plan, home, world);
    let run = run_start(plan, home, world);
    if may_launch(plan, world) {
        let event = match world.launched {
            Ok(engine) => StartEventModel::Launched(engine),
            Err(error) => StartEventModel::LaunchFailed(error),
        };
        lemma_after_launch(plan, home, world, event);
        let rest = run_from(plan, home, world, event);
        assert forall|i: int| 0 <= i < run.len() && is_launch(#[trigger] run[i]) implies i == 2 by {
            if i > 2 {
                assert(run[i] == rest[i - 3]);
            }
        }
    }
}

/// A start ends with a tunnel exactly if an engine may be launched, its launch
/// succeeds and, for `ssh`, the proxy comes up. The tunnel that is then kept is
/// the one that was launched.
pub proof fn law_start_keeps_what_comes_up(
    plan: StartPlan,
    home: Option<Seq<char>>,
    world: Surroundings,
)
    requires
        fits(plan, world),
    ensures
        ({
            let end = run_start(plan, home, world).last();
            &&& end is Install || end is Done || end is Fail
            &&& end is Install <==> {
                &&& may_launch(plan, world)
                &&& world.launched is Ok
                &&& plan.engine == EngineChoice::System ==> comes_up(plan, world)
            }
            &&& end is Install ==> world.launched == Ok::<Engine, Seq<char>>(end->Install_0)
        }),
{
    lemma_run_begins(plan, home, world);
    if may_launch(plan, world) {
        let event = match world.launched {
            Ok(engine) => StartEventModel::Launched(engine),
            Err(error) => StartEventModel::LaunchFailed(error),
        };
        lemma_after_launch(plan, home, world, event);
        let rest = run_from(plan, home, world, event);
        let run = run_start(plan, home, world);
        assert(run.last() == rest.last());
        if let Ok(Engine::System { pid }) = world.launched {
            lemma_decisive_look(plan, world, pid);
        }
    }
}

/// A start that fails after `ssh` was launched ends `ssh`, unless `ssh` has
/// ended by itself or cannot be looked at.
pub proof fn law_failed_start_leaves_no_ssh(
    plan: StartPlan,
    home: Option<Seq<char>>,
    world: Surroundings,
    pid: u32,
)
    requires
        may_launch(plan, world),
        world.launched == Ok::<Engine, Seq<char>>(Engine::System { pid }),
        run_start(plan, home, world).last() is Fail,
    ensures
        run_start(plan, home, world).last()->Fail_0 || exists|k: nat| #[trigger]
            decides(world, k) && ((world.polls)(k) is Exited || (world.polls)(k) is Unknown),
{
    lemma_run_begins(plan, home, world);
    let event = StartEventModel::Launched(Engine::System { pid });
    lemma_after_launch(plan, home, world, event);
    let rest = run_from(plan, home, world, event);
    assert(run_start(plan, home, world).last() == rest.last());
    lemma_decisive_look(plan, world, pid);
}

/// The look at which a watch ends, and how it ends there.
proof fn lemma_decisive_look(plan: StartPlan, world: Surroundings, pid: u32)
    ensures
        ({
            let end = watch(
                START_ATTEMPTS as nat,
                world.polls,
                plan.verify,
                world.verified,
                plan.hide,
                pid,
            ).1;
            &&& end is Started || end is Fail
            &&& end is Started <==> comes_up(plan, world)
            &&& end is Fail ==> end->Fail_0 || exists|k: nat| #[trigger]
                decides(world, k) && ((world.polls)(k) is Exited || (world.polls)(k) is Unknown)
        }),
{
    crate::startup::law_start_ends(
        world.polls,
        plan.verify,
        world.verified,
        plan.hide,
        pid,
    );
    let (looks, end) = watch(
        START_ATTEMPTS as nat,
        world.polls,
        plan.verify,
        world.verified,
        plan.hide,
        pid,
    );
    let last = (looks - 1) as nat;
    if !((world.polls)(last) is Silent) {
        assert(decides(world, last));
    }
    if comes_up(plan, world) {
        let k = choose|k: nat| #[trigger] decides(world, k) && (world.polls)(k) is Answers;
        assert(k == last) by {
            if k < last {
                assert((world.polls)(k) is Silent);
            } else if last < k {
                assert((world.polls)(last) is Silent);
            }
        }
    }
}

/// With the address to be hidden, neither what is done in a start nor what is
/// logged of it depends on the address that the verification finds.
pub proof fn law_hidden_address_is_not_logged(
    plan: StartPlan,
    home: Option<Seq<char>>,
    world: Surroundings,
    first: Seq<char>,
    second: Seq<char>,
)
    requires
        plan.hide,
    ensures
        ({
            let one = Surroundings { verified: Ok(first), ..world };
            let other = Surroundings { verified: Ok(second), ..world };
            &&& run_start(plan, home, one) == run_start(plan, home, other)
            &&& start_logs(plan, home, one) == start_logs(plan, home, other)
        }),
{
    let asked = StartEventModel::Asked(world.embedded_built);
    lemma_hidden_address(plan, home, world, first, second, asked);
}

proof fn lemma_hidden_address(
    plan: StartPlan,
    home: Option<Seq<char>>,
    world: Surroundings,
    first: Seq<char>,
    second: Seq<char>,
    event: StartEventModel,
)
    requires
        plan.hide,
    ensures
        ({
            let one = Surroundings { verified: Ok(first), ..world };
            let other = Surroundings { verified: Ok(second), ..world };
            &&& run_from(plan, home, one, event) == run_from(plan, home, other, event)
            &&& logs_from(plan, home, one, event) == logs_from(plan, home, other, event)
        }),
    decreases remaining(event),
{
    let one = Surroundings { verified: Ok(first), ..world };
    let other = Surroundings { verified: Ok(second), ..world };
    let action = after_start_event(plan, home, event).1;
    match action {
        StartActionModel::Verify(pid) => {
            let here = StartEventModel::Verified(pid, one.verified);
            let there = StartEventModel::Verified(pid, other.verified);
            assert(after_start_event(plan, home, here) == after_start_event(plan, home, there));
            assert(run_from(plan, home, one, here) == run_from(plan, home, other, there));
            assert(logs_from(plan, home, one, here) == logs_from(plan, home, other, there));
        },
        _ => match event_after(one, action) {
            Some(next) => {
                if remaining(next) < remaining(event) {
                    lemma_hidden_address(plan, home, world, first, second, next);
                }
            },
            None => {},
        },
    }
}

} // verus!
