//! Serving one client: opening its connection and carrying bytes both ways.
use crate::counters::TrafficCounters;
use crate::socks::{reply_bytes, socks5_reply, SocksRequest};
use vstd::prelude::*;

verus! {

/// What has happened to a client so far.
#[derive(Debug)]
pub enum ClientEvent {
    /// Its request was read.
    Requested(SocksRequest),
    /// Its request was refused or could not be read.
    Unreadable(String),
    /// The connection that it asked for is open.
    Opened,
    /// The connection that it asked for cannot be opened.
    OpenFailed(String),
}

/// What is done about it.
#[derive(Debug)]
pub enum ClientAction {
    /// Open a connection to this host and port.
    Open { host: String, port: u32 },
    /// Send these bytes to the client, then relay.
    AnswerAndRelay(Vec<u8>),
    /// Close the client's stream and end with this failure.
    ShutDown(String),
    /// End with this failure.
    Fail(String),
}

/// Decides what is done about a client.
pub fn client_step(event: ClientEvent) -> (r: ClientAction)
    ensures
        match event {
            ClientEvent::Requested(request) => r == (ClientAction::Open {
                host: request.host,
                port: request.port as u32,
            }),
            ClientEvent::Unreadable(reason) => r == ClientAction::ShutDown(reason),
            ClientEvent::Opened => r is AnswerAndRelay && r->AnswerAndRelay_0@ == reply_bytes(0),
            ClientEvent::OpenFailed(reason) => r == ClientAction::Fail(reason),
        },
{
    match event {
        ClientEvent::Requested(request) => ClientAction::Open {
            host: request.host,
            port: request.port as u32,
        },
        ClientEvent::Unreadable(reason) => ClientAction::ShutDown(reason),
        ClientEvent::Opened => ClientAction::AnswerAndRelay(socks5_reply(0x00)),
        ClientEvent::OpenFailed(reason) => ClientAction::Fail(reason),
    }
}

/// One end of a relay.
#[derive(Clone, Copy, Debug, PartialEq, Eq, Structural)]
pub enum Side {
    Client,
    Remote,
}

/// The other end.
pub open spec fn other_side(side: Side) -> Side {
    match side {
        Side::Client => Side::Remote,
        Side::Remote => Side::Client,
    }
}

/// Which ends of a relay have said all they had to say.
#[derive(Clone, Copy, Debug)]
pub struct Relay {
    pub client_closed: bool,
    pub remote_closed: bool,
}

/// What is done with what was read.
#[derive(Clone, Copy, Debug, PartialEq, Eq, Structural)]
pub enum RelayAction {
    /// Tell this end that nothing more comes.
    ShutDown(Side),
    /// Send this end the bytes that were read.
    Forward { to: Side, bytes: usize },
}

impl Relay {
    /// Whether an end has said all it had to say.
    pub open spec fn closed(self, side: Side) -> bool {
        match side {
            Side::Client => self.client_closed,
            Side::Remote => self.remote_closed,
        }
    }

    /// A relay between two ends that may both speak.
    pub fn new() -> (r: Self)
        ensures
            !r.closed(Side::Client),
            !r.closed(Side::Remote),
    {
        Relay { client_closed: false, remote_closed: false }
    }

    /// Whether an end is still read from.
    pub fn reads(&self, side: Side) -> (r: bool)
        ensures
            r == !self.closed(side),
    {
        match side {
            Side::Client => !self.client_closed,
            Side::Remote => !self.remote_closed,
        }
    }

    /// Whether the relay goes on: it does until both ends are closed.
    pub fn running(&self) -> (r: bool)
        ensures
            r == !(self.closed(Side::Client) && self.closed(Side::Remote)),
    {
        !self.client_closed || !self.remote_closed
    }

    /// Takes note of `bytes` bytes read from an end; none means that it closed.
    pub fn on_read(&mut self, from: Side, bytes: usize) -> (r: RelayAction)
        ensures
            *final(self) == after_read(*old(self), from, bytes as nat),
            r == action_for(from, bytes),
    {
        let to = match from {
            Side::Client => Side::Remote,
            Side::Remote => Side::Client,
        };
        if bytes == 0 {
            match from {
                Side::Client => {
                    self.client_closed = true;
                },
                Side::Remote => {
                    self.remote_closed = true;
                },
            }
            RelayAction::ShutDown(to)
        } else {
            RelayAction::Forward { to, bytes }
        }
    }
}

/// A relay after `bytes` bytes were read from an end.
pub open spec fn after_read(relay: Relay, from: Side, bytes: nat) -> Relay {
    if bytes > 0 {
        relay
    } else {
        match from {
            Side::Client => Relay { client_closed: true, ..relay },
            Side::Remote => Relay { remote_closed: true, ..relay },
        }
    }
}

/// The sum of two counts, modulo 2^64.
pub open spec fn count_on(total: u64, bytes: nat) -> u64 {
    ((total + bytes) % 0x1_0000_0000_0000_0000) as u64
}

/// The counters, received and sent, after an action was carried out.
pub open spec fn counted(totals: (u64, u64), action: RelayAction) -> (u64, u64) {
    match action {
        RelayAction::ShutDown(_) => totals,
        RelayAction::Forward { to, bytes } => match to {
            Side::Client => (count_on(totals.0, bytes as nat), totals.1),
            Side::Remote => (totals.0, count_on(totals.1, bytes as nat)),
        },
    }
}

/// Counts an action that was carried out: bytes to the remote end are sent,
/// bytes to the client are received.
pub fn count_action(counters: &mut TrafficCounters, action: RelayAction)
    ensures
        (final(counters).rx(), final(counters).tx()) == counted(
            (old(counters).rx(), old(counters).tx()),
            action,
        ),
{
    match action {
        RelayAction::ShutDown(_) => {},
        RelayAction::Forward { to, bytes } => match to {
            Side::Client => counters.add_rx(bytes as u64),
            Side::Remote => counters.add_tx(bytes as u64),
        },
    }
}

/// A relay after a row of reads.
pub open spec fn after_reads(relay: Relay, reads: Seq<(Side, usize)>) -> Relay
    decreases reads.len(),
{
    if reads.len() == 0 {
        relay
    } else {
        let (from, bytes) = reads.last();
        after_read(after_reads(relay, reads.drop_last()), from, bytes as nat)
    }
}

/// What is done with a read.
pub open spec fn action_for(from: Side, bytes: usize) -> RelayAction {
    if bytes == 0 {
        RelayAction::ShutDown(other_side(from))
    } else {
        RelayAction::Forward { to: other_side(from), bytes }
    }
}

/// The counters after the actions for a row of reads were carried out.
pub open spec fn counted_all(totals: (u64, u64), reads: Seq<(Side, usize)>) -> (u64, u64)
    decreases reads.len(),
{
    if reads.len() == 0 {
        totals
    } else {
        let (from, bytes) = reads.last();
        counted(counted_all(totals, reads.drop_last()), action_for(from, bytes))
    }
}

/// How many bytes came from an end.
pub open spec fn bytes_from(side: Side, reads: Seq<(Side, usize)>) -> nat
    decreases reads.len(),
{
    if reads.len() == 0 {
        0
    } else {
        let (from, bytes) = reads.last();
        bytes_from(side, reads.drop_last()) + if from == side {
            bytes as nat
        } else {
            0
        }
    }
}

/// The counters add up, from whatever they stood at: what came from the remote
/// end was received and what came from the client was sent, modulo 2^64.
pub proof fn law_counters_add_up(totals: (u64, u64), reads: Seq<(Side, usize)>)
    ensures
        counted_all(totals, reads) == (
            count_on(totals.0, bytes_from(Side::Remote, reads)),
            count_on(totals.1, bytes_from(Side::Client, reads)),
        ),
        counted_all(totals, reads).0 == (totals.0 + bytes_from(Side::Remote, reads))
            % 0x1_0000_0000_0000_0000,
        counted_all(totals, reads).1 == (totals.1 + bytes_from(Side::Client, reads))
            % 0x1_0000_0000_0000_0000,
    decreases reads.len(),
{
    if reads.len() > 0 {
        law_counters_add_up(totals, reads.drop_last());
        let (from, bytes) = reads.last();
        let before = bytes_from(from, reads.drop_last());
        let start = match from {
            Side::Remote => totals.0,
            Side::Client => totals.1,
        };
        assert(count_on(count_on(start, before), bytes as nat) == count_on(
            start,
            before + bytes as nat,
        )) by {
            vstd::arithmetic::div_mod::lemma_add_mod_noop_right(
                bytes as int,
                start + before,
                0x1_0000_0000_0000_0000,
            );
        }
    }
}

/// An end is closed exactly when a read from it has come back empty, so a
/// relay goes on until both ends have closed.
pub proof fn law_closed_by_empty_read(reads: Seq<(Side, usize)>, side: Side)
    ensures
        after_reads(Relay { client_closed: false, remote_closed: false }, reads).closed(side)
            <==> reads.contains((side, 0usize)),
    decreases reads.len(),
{
    let fresh = Relay { client_closed: false, remote_closed: false };
    if reads.len() > 0 {
        let front = reads.drop_last();
        law_closed_by_empty_read(front, side);
        assert(reads == front.push(reads.last()));
        if front.contains((side, 0usize)) {
            let k = choose|k: int| 0 <= k < front.len() && front[k] == (side, 0usize);
            assert(reads[k] == (side, 0usize));
        }
        if reads.last() == (side, 0usize) {
            assert(reads[reads.len() - 1] == (side, 0usize));
        }
        if reads.contains((side, 0usize)) && reads.last() != (side, 0usize) {
            let k = choose|k: int| 0 <= k < reads.len() && reads[k] == (side, 0usize);
            assert(front[k] == (side, 0usize));
        }
    }
}

/// What is done with each of a row of reads.
pub open spec fn actions_for(reads: Seq<(Side, usize)>) -> Seq<RelayAction> {
    reads.map_values(|read: (Side, usize)| action_for(read.0, read.1))
}

/// How many bytes an end is sent.
pub open spec fn bytes_to(side: Side, actions: Seq<RelayAction>) -> nat
    decreases actions.len(),
{
    if actions.len() == 0 {
        0
    } else {
        bytes_to(side, actions.drop_last()) + match actions.last() {
            RelayAction::ShutDown(_) => 0,
            RelayAction::Forward { to, bytes } => if to == side {
                bytes as nat
            } else {
                0
            },
        }
    }
}

/// A row of reads in which no end is read from after a read from it has come
/// back empty.
pub open spec fn stops_at_end(reads: Seq<(Side, usize)>) -> bool {
    forall|i: int, j: int|
        0 <= i < j < reads.len() && (#[trigger] reads[i]).1 == 0 ==> (#[trigger] reads[j]).0
            != reads[i].0
}

/// A row of reads that a relay makes: each from an end that is still read from.
pub open spec fn made_by_relay(reads: Seq<(Side, usize)>) -> bool {
    forall|k: int|
        0 <= k < reads.len() ==> !after_reads(
            Relay { client_closed: false, remote_closed: false },
            reads.take(k),
        ).closed((#[trigger] reads[k]).0)
}

/// A relay reads from no end after a read from it has come back empty, and any
/// row of reads that keeps to this is one that a relay can make.
pub proof fn law_relay_stops_at_end(reads: Seq<(Side, usize)>)
    ensures
        made_by_relay(reads) <==> stops_at_end(reads),
{
    let fresh = Relay { client_closed: false, remote_closed: false };
    if made_by_relay(reads) {
        assert forall|i: int, j: int|
            0 <= i < j < reads.len() && (#[trigger] reads[i]).1 == 0 implies (
        #[trigger] reads[j]).0 != reads[i].0 by {
            law_closed_by_empty_read(reads.take(j), reads[j].0);
            assert(reads.take(j)[i] == reads[i]);
        }
    }
    if stops_at_end(reads) {
        assert forall|k: int| 0 <= k < reads.len() implies !after_reads(
            fresh,
            reads.take(k),
        ).closed((#[trigger] reads[k]).0) by {
            let side = reads[k].0;
            law_closed_by_empty_read(reads.take(k), side);
            if reads.take(k).contains((side, 0usize)) {
                let i = choose|i: int|
                    0 <= i < reads.take(k).len() && reads.take(k)[i] == (side, 0usize);
                assert(reads[i] == (side, 0usize));
            }
        }
    }
}

/// Every byte that an end has said is sent to the other end.
pub proof fn law_every_byte_is_forwarded(reads: Seq<(Side, usize)>, side: Side)
    ensures
        bytes_to(side, actions_for(reads)) == bytes_from(other_side(side), reads),
    decreases reads.len(),
{
    if reads.len() > 0 {
        law_every_byte_is_forwarded(reads.drop_last(), side);
        assert(actions_for(reads).drop_last() == actions_for(reads.drop_last()));
    }
}

/// An end is told that nothing more comes exactly if the other end has closed.
/// Over a whole relay it is told so once at most, and is sent nothing after.
pub proof fn law_each_end_is_told_once(reads: Seq<(Side, usize)>, side: Side)
    requires
        made_by_relay(reads),
    ensures
        ({
            let actions = actions_for(reads);
            &&& actions.contains(RelayAction::ShutDown(side)) <==> after_reads(
                Relay { client_closed: false, remote_closed: false },
                reads,
            ).closed(other_side(side))
            &&& forall|i: int, j: int|
                0 <= i < j < actions.len() && #[trigger] actions[i] == RelayAction::ShutDown(side)
                    ==> #[trigger] actions[j] != RelayAction::ShutDown(side) && !(
                actions[j] matches RelayAction::Forward { to, bytes } && to == side)
        }),
{
    let actions = actions_for(reads);
    let other = other_side(side);
    law_relay_stops_at_end(reads);
    law_closed_by_empty_read(reads, other);
    if reads.contains((other, 0usize)) {
        let k = choose|k: int| 0 <= k < reads.len() && reads[k] == (other, 0usize);
        assert(actions[k] == RelayAction::ShutDown(side));
    }
    if actions.contains(RelayAction::ShutDown(side)) {
        let k = choose|k: int|
            0 <= k < actions.len() && actions[k] == RelayAction::ShutDown(side);
        assert(reads[k] == (other, 0usize));
    }
    assert forall|i: int, j: int|
        0 <= i < j < actions.len() && #[trigger] actions[i] == RelayAction::ShutDown(
            side,
        ) implies #[trigger] actions[j] != RelayAction::ShutDown(side) && !(
    actions[j] matches RelayAction::Forward { to, bytes } && to == side) by {
        assert(actions[i] == action_for(reads[i].0, reads[i].1));
        assert(actions[j] == action_for(reads[j].0, reads[j].1));
        assert(reads[i].1 == 0);
        assert(reads[j].0 != reads[i].0);
    }
}

/// Whatever is read from one end goes to the other, every byte of it, and a read
/// that comes back empty is passed on as the end of what there is to say. A read
/// changes nothing of the end that it is not from.
pub proof fn law_reads_go_to_the_other_end(relay: Relay, from: Side, bytes: usize)
    ensures
        bytes > 0 ==> (action_for(from, bytes) matches RelayAction::Forward { to, bytes: sent }
            && to != from && sent == bytes),
        bytes == 0 ==> (action_for(from, bytes) matches RelayAction::ShutDown(to) && to != from),
        bytes > 0 ==> after_read(relay, from, bytes as nat) == relay,
        bytes == 0 ==> after_read(relay, from, 0).closed(from),
        after_read(relay, from, bytes as nat).closed(other_side(from)) == relay.closed(
            other_side(from),
        ),
        other_side(from) != from,
        relay.closed(Side::Client) == relay.client_closed,
        relay.closed(Side::Remote) == relay.remote_closed,
{
}

} // verus!
