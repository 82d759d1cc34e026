//! A tunnel that was started, and the traffic that it carries.
use crate::log::{keep_newest, newest};
use crate::profile::{ProxyProfile, ServerProfile};
use crate::text::{concat2, concat3, decimal, maybe_text, push_decimal, same_text};
use crate::text_laws::{lemma_decimal_reads, reads_as};
use vstd::prelude::*;

verus! {

/// What carries a tunnel.
#[derive(Clone, Copy, Debug, PartialEq, Eq, Structural)]
pub enum Engine {
    /// The `ssh` program, as the process with this id.
    System { pid: u32 },
    /// The SSH client of this application.
    Embedded,
}

/// The traffic of a tunnel at one moment.
#[derive(Clone, Copy, Debug, PartialEq, Eq, Structural)]
pub struct TrafficSample {
    pub ts: u64,
    pub rx_total: u64,
    pub tx_total: u64,
}

/// A point of the traffic history. The rates are in bytes a second.
#[derive(Clone, Copy, Debug, PartialEq, Eq, Structural)]
pub struct TrafficPoint {
    pub ts: u64,
    pub rx_bps: u64,
    pub tx_bps: u64,
    pub rx_total: u64,
    pub tx_total: u64,
    pub latency_ms: Option<u64>,
}

/// A tunnel that was started.
#[derive(Debug)]
pub struct TunnelRuntime {
    pub engine: Engine,
    pub server: ServerProfile,
    pub proxy: ProxyProfile,
    pub started_at: u64,
    pub last_error: String,
    pub last_traffic: Option<TrafficSample>,
}

/// What is said of an embedded tunnel from the start.
pub open spec fn embedded_notice() -> Seq<char> {
    "Embedded russh direct-tcpip transport is not implemented yet"@
}

/// The name of an engine in the settings.
pub open spec fn engine_name(engine: Engine) -> Seq<char> {
    match engine {
        Engine::System { pid: _ } => "system"@,
        Engine::Embedded => "embedded"@,
    }
}

/// The process that carries a tunnel, if one does.
pub open spec fn engine_pid(engine: Engine) -> Option<u32> {
    match engine {
        Engine::System { pid } => Some(pid),
        Engine::Embedded => None,
    }
}

/// What is logged when a tunnel is stopped.
pub open spec fn stop_notice(runtime: TunnelRuntime) -> Seq<char> {
    match runtime.engine {
        Engine::System { pid } => "Stopping tunnel '"@ + runtime.server.name@ + "', pid="@
            + decimal(pid as nat),
        Engine::Embedded => "Stopping embedded tunnel '"@ + runtime.server.name@ + "'"@,
    }
}

/// What is said of `ssh` when it has ended.
pub open spec fn exit_notice(status: Seq<char>) -> Seq<char> {
    "ssh exited with "@ + status
}

/// Words the end of `ssh`, from its exit status in words.
pub fn word_exit(status: &str) -> (r: String)
    ensures
        r@ == exit_notice(status@),
{
    concat2("ssh exited with ", status)
}

impl TunnelRuntime {
    /// A tunnel that was just started.
    pub fn started(engine: Engine, server: ServerProfile, proxy: ProxyProfile, now: u64) -> (r: Self)
        ensures
            r.engine == engine,
            r.server == server,
            r.proxy == proxy,
            r.started_at == now,
            r.last_traffic is None,
            r.last_error@ == match engine {
                Engine::System { pid: _ } => Seq::<char>::empty(),
                Engine::Embedded => embedded_notice(),
            },
    {
        let last_error = match engine {
            Engine::System { pid: _ } => String::new(),
            Engine::Embedded => {
                "Embedded russh direct-tcpip transport is not implemented yet".to_owned()
            },
        };
        TunnelRuntime { engine, server, proxy, started_at: now, last_error, last_traffic: None }
    }

    /// The name of the engine that carries the tunnel.
    pub fn ssh_engine(&self) -> (r: String)
        ensures
            r@ == engine_name(self.engine),
    {
        match self.engine {
            Engine::System { pid: _ } => "system".to_owned(),
            Engine::Embedded => "embedded".to_owned(),
        }
    }

    /// The process that carries the tunnel, if one does.
    pub fn pid(&self) -> (r: Option<u32>)
        ensures
            r == engine_pid(self.engine),
    {
        match self.engine {
            Engine::System { pid } => Some(pid),
            Engine::Embedded => None,
        }
    }

    /// How the tunnel has ended, if it has. `child` is the exit status of its
    /// process in words, nothing while that runs, or why it cannot be told. A
    /// tunnel without a process is not seen to end.
    pub fn try_wait(&self, child: Result<Option<String>, String>) -> (r: Result<
        Option<String>,
        String,
    >)
        ensures
            match (self.engine, child) {
                (Engine::Embedded, _) => r == Ok::<Option<String>, String>(None),
                (Engine::System { pid: _ }, Ok(Some(status))) => r is Ok && maybe_text(r->Ok_0)
                    == Some(exit_notice(status@)),
                (Engine::System { pid: _ }, Ok(None)) => r == child,
                (Engine::System { pid: _ }, Err(_)) => r == child,
            },
    {
        match self.engine {
            Engine::Embedded => Ok(None),
            Engine::System { pid: _ } => match child {
                Ok(Some(status)) => Ok(Some(word_exit(status.as_str()))),
                other => other,
            },
        }
    }

    /// The traffic of the tunnel: what was sampled of its process, or what the
    /// embedded engine has counted.
    pub fn traffic_totals(
        &self,
        sampled: Result<Option<(u64, u64)>, String>,
        counted: (u64, u64),
    ) -> (r: Result<Option<(u64, u64)>, String>)
        ensures
            r == match self.engine {
                Engine::System { pid: _ } => sampled,
                Engine::Embedded => Ok(Some(counted)),
            },
    {
        match self.engine {
            Engine::System { pid: _ } => sampled,
            Engine::Embedded => Ok(Some(counted)),
        }
    }

    /// Words what is logged when the tunnel is stopped.
    pub fn word_stop(&self) -> (r: String)
        ensures
            r@ == stop_notice(*self),
    {
        match self.engine {
            Engine::System { pid } => {
                let mut out = concat3("Stopping tunnel '", self.server.name.as_str(), "', pid=");
                push_decimal(&mut out, pid as u64);
                out
            },
            Engine::Embedded => concat3(
                "Stopping embedded tunnel '",
                self.server.name.as_str(),
                "'",
            ),
        }
    }
}

/// How many points the traffic history holds at most.
pub const HISTORY_LIMIT: usize = 120;

/// Seconds between two moments: at least one, also where the clock was set
/// back.
pub open spec fn seconds_between(before: u64, now: u64) -> u64 {
    if now > before + 1 {
        (now - before) as u64
    } else {
        1
    }
}

/// Bytes a second between two totals. A total that has fallen counts as
/// unchanged.
pub open spec fn rate(before: u64, total: u64, seconds: u64) -> u64 {
    if total > before {
        ((total - before) / seconds as int) as u64
    } else {
        0
    }
}

/// The point of the history that follows a sample.
pub open spec fn next_point(
    previous: TrafficSample,
    now: u64,
    totals: (u64, u64),
    latency_ms: Option<u64>,
) -> TrafficPoint {
    let seconds = seconds_between(previous.ts, now);
    TrafficPoint {
        ts: now,
        rx_bps: rate(previous.rx_total, totals.0, seconds),
        tx_bps: rate(previous.tx_total, totals.1, seconds),
        rx_total: totals.0,
        tx_total: totals.1,
        latency_ms,
    }
}

/// Whether the latency of the server is worth measuring: it is when a point of
/// the history will be made.
pub fn needs_latency(runtime: &TunnelRuntime, totals: &Result<Option<(u64, u64)>, String>) -> (r:
    bool)
    ensures
        r == (runtime.last_traffic is Some && *totals is Ok && totals->Ok_0 is Some),
{
    match totals {
        Ok(Some(_)) => runtime.last_traffic.is_some(),
        _ => false,
    }
}

fn rate_between(before: u64, total: u64, seconds: u64) -> (r: u64)
    requires
        seconds >= 1,
    ensures
        r == rate(before, total, seconds),
{
    if total > before {
        (total - before) / seconds
    } else {
        0
    }
}

/// Takes a new reading of the traffic, or the failure to get one. The history
/// grows by a point from the second reading on. A failure that is not the last
/// one over again is remembered, and what is to be logged of it is returned.
pub fn update_traffic(
    runtime: &mut TunnelRuntime,
    history: &mut Vec<TrafficPoint>,
    now: u64,
    totals: Result<Option<(u64, u64)>, String>,
    latency_ms: Option<u64>,
) -> (log: Option<String>)
    ensures
        match totals {
            Ok(Some((rx_total, tx_total))) => {
                &&& *final(runtime) == (TunnelRuntime {
                    last_traffic: Some(TrafficSample { ts: now, rx_total, tx_total }),
                    ..*old(runtime)
                })
                &&& final(history)@ == match old(runtime).last_traffic {
                    Some(previous) => newest(
                        old(history)@.push(
                            next_point(previous, now, (rx_total, tx_total), latency_ms),
                        ),
                        HISTORY_LIMIT as nat,
                    ),
                    None => old(history)@,
                }
                &&& log is None
            },
            Ok(None) => *final(runtime) == *old(runtime) && final(history)@ == old(history)@ && log
                is None,
            Err(error) => {
                &&& final(history)@ == old(history)@
                &&& if old(runtime).last_error@ == error@ {
                    *final(runtime) == *old(runtime) && log is None
                } else {
                    *final(runtime) == (TunnelRuntime { last_error: error, ..*old(runtime) })
                        && maybe_text(log) == Some("Traffic sampler: "@ + error@)
                }
            },
        },
{
    match totals {
        Ok(Some((rx_total, tx_total))) => {
            match runtime.last_traffic {
                Some(previous) => {
                    let passed: u64 = now.saturating_sub(previous.ts);
                    let seconds: u64 = if passed > 1 {
                        passed
                    } else {
                        1
                    };
                    let rx_bps: u64 = rate_between(previous.rx_total, rx_total, seconds);
                    let tx_bps: u64 = rate_between(previous.tx_total, tx_total, seconds);
                    history.push(
                        TrafficPoint { ts: now, rx_bps, tx_bps, rx_total, tx_total, latency_ms },
                    );
                    keep_newest(history, HISTORY_LIMIT);
                },
                None => {},
            }
            runtime.last_traffic = Some(TrafficSample { ts: now, rx_total, tx_total });
            None
        },
        Ok(None) => None,
        Err(error) => {
            if same_text(runtime.last_error.as_str(), error.as_str()) {
                return None;
            }
            let message = concat2("Traffic sampler: ", error.as_str());
            runtime.last_error = error;
            Some(message)
        },
    }
}

/// The totals that the history ends with, or none.
pub open spec fn last_totals(history: Seq<TrafficPoint>) -> (u64, u64) {
    if history.len() == 0 {
        (0, 0)
    } else {
        (history.last().rx_total, history.last().tx_total)
    }
}

/// The totals that the history ends with.
pub fn totals_from_traffic(history: &Vec<TrafficPoint>) -> (r: (u64, u64))
    ensures
        r == last_totals(history@),
{
    if history.len() == 0 {
        (0, 0)
    } else {
        let last = history[history.len() - 1];
        (last.rx_total, last.tx_total)
    }
}

/// A point tells the totals that were read and when, and its rates are the
/// whole quotients of what was counted since the sample before it by the seconds
/// that have passed: never more than was counted, and never less by a byte each
/// second. They are zero where a counter has fallen, and no time is less than a
/// second, also where the clock was set back.
pub proof fn law_rates_are_covered(
    previous: TrafficSample,
    now: u64,
    totals: (u64, u64),
    latency_ms: Option<u64>,
)
    ensures
        ({
            let point = next_point(previous, now, totals, latency_ms);
            let seconds = if now > previous.ts {
                now - previous.ts
            } else {
                1
            };
            &&& seconds == seconds_between(previous.ts, now)
            &&& point.ts == now
            &&& point.rx_total == totals.0
            &&& point.tx_total == totals.1
            &&& point.latency_ms == latency_ms
            &&& totals.0 >= previous.rx_total ==> point.rx_bps * seconds <= totals.0
                - previous.rx_total < (point.rx_bps + 1) * seconds
            &&& totals.1 >= previous.tx_total ==> point.tx_bps * seconds <= totals.1
                - previous.tx_total < (point.tx_bps + 1) * seconds
            &&& totals.0 <= previous.rx_total ==> point.rx_bps == 0
            &&& totals.1 <= previous.tx_total ==> point.tx_bps == 0
        }),
{
    let seconds = seconds_between(previous.ts, now);
    lemma_rate_is_covered(previous.rx_total, totals.0, seconds);
    lemma_rate_is_covered(previous.tx_total, totals.1, seconds);
}

/// The totals that are shown are those of the point that was added last.
pub proof fn law_last_point_is_shown(history: Seq<TrafficPoint>, point: TrafficPoint)
    ensures
        last_totals(newest(history.push(point), HISTORY_LIMIT as nat)) == (
            point.rx_total,
            point.tx_total,
        ),
        last_totals(Seq::empty()) == (0u64, 0u64),
{
}

/// What is logged when a tunnel is stopped names the server, and ends with the
/// process that carries it where there is one. What is said of `ssh` that has
/// ended ends with its exit status.
pub proof fn law_stop_is_told(runtime: TunnelRuntime, status: Seq<char>)
    ensures
        match runtime.engine {
            Engine::System { pid } => stop_notice(runtime) == "Stopping tunnel '"@
                + runtime.server.name@ + "', pid="@ + decimal(pid as nat) && reads_as(
                decimal(pid as nat),
                pid as nat,
            ),
            Engine::Embedded => stop_notice(runtime) == "Stopping embedded tunnel '"@
                + runtime.server.name@ + "'"@,
        },
        exit_notice(status) == "ssh exited with "@ + status,
        engine_pid(runtime.engine) is Some <==> engine_name(runtime.engine) == "system"@,
{
    reveal_strlit("system");
    reveal_strlit("embedded");
    assert("system"@.len() == 6 && "embedded"@.len() == 8);
    if let Engine::System { pid } = runtime.engine {
        lemma_decimal_reads(pid as u64);
    }
}

proof fn lemma_rate_is_covered(before: u64, total: u64, seconds: u64)
    requires
        seconds >= 1,
    ensures
        total >= before ==> rate(before, total, seconds) * seconds <= total - before < (rate(
            before,
            total,
            seconds,
        ) + 1) * seconds,
{
    let bytes = total - before;
    let each = seconds as int;
    if bytes > 0 {
        assert(0 <= bytes / each <= bytes && (bytes / each) * each <= bytes < (bytes / each + 1)
            * each) by (nonlinear_arith)
            requires
                bytes > 0,
                each >= 1,
        ;
    } else {
        assert(0 * each == 0 && (0 + 1) * each == each) by (nonlinear_arith);
    }
}

} // verus!
