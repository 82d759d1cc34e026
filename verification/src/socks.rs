//! The SOCKS5 front end: what is read from a client, what it is answered, and
//! which connection it asks for.
use crate::address::{ipv4, ipv4_text, ipv6, ipv6_text};
use crate::unicode::{decode_strict, utf8_text};
use vstd::prelude::*;
use vstd::slice::{slice_subrange, slice_to_vec};

verus! {

/// The connection that a client asks for.
#[derive(Debug)]
pub struct SocksRequest {
    pub host: String,
    pub port: u16,
}

/// How far the conversation with a client has come.
#[derive(Debug)]
pub enum SocksState {
    /// The version and the number of methods come next.
    Greeting,
    /// The methods that the client offers come next.
    Methods { count: u8 },
    /// The head of the request comes next.
    Head,
    /// An IPv4 address comes next.
    Ipv4,
    /// The length of a host name comes next.
    NameLength,
    /// A host name comes next.
    Name { length: u8 },
    /// An IPv6 address comes next.
    Ipv6,
    /// The port comes next.
    Port { host: String },
}

/// What to do after the answer is sent.
#[derive(Debug)]
pub enum SocksNext {
    /// Read on.
    Read(SocksState),
    /// Open the connection.
    Connect(SocksRequest),
    /// Hang up, for this reason.
    Refuse(String),
}

/// The answer to what was read, and what to do then.
#[derive(Debug)]
pub struct SocksStep {
    pub reply: Vec<u8>,
    pub next: SocksNext,
}

/// A state with its host as text.
pub enum Phase {
    Greeting,
    Methods(nat),
    Head,
    Ipv4,
    NameLength,
    Name(nat),
    Ipv6,
    Port(Seq<char>),
}

/// What follows a phase.
pub enum Turn {
    Read(Phase),
    Connect(Seq<char>, u16),
    Refuse(Seq<char>),
}

impl View for SocksState {
    type V = Phase;

    open spec fn view(&self) -> Phase {
        match *self {
            SocksState::Greeting => Phase::Greeting,
            SocksState::Methods { count } => Phase::Methods(count as nat),
            SocksState::Head => Phase::Head,
            SocksState::Ipv4 => Phase::Ipv4,
            SocksState::NameLength => Phase::NameLength,
            SocksState::Name { length } => Phase::Name(length as nat),
            SocksState::Ipv6 => Phase::Ipv6,
            SocksState::Port { host } => Phase::Port(host@),
        }
    }
}

impl View for SocksNext {
    type V = Turn;

    open spec fn view(&self) -> Turn {
        match *self {
            SocksNext::Read(state) => Turn::Read(state@),
            SocksNext::Connect(request) => Turn::Connect(request.host@, request.port),
            SocksNext::Refuse(reason) => Turn::Refuse(reason@),
        }
    }
}

/// How many bytes a phase waits for.
pub open spec fn awaited(phase: Phase) -> nat {
    match phase {
        Phase::Greeting => 2,
        Phase::Methods(count) => count,
        Phase::Head => 4,
        Phase::Ipv4 => 4,
        Phase::NameLength => 1,
        Phase::Name(length) => length,
        Phase::Ipv6 => 16,
        Phase::Port(_) => 2,
    }
}

/// A reply to a request: the version, the status, and an unspecified IPv4
/// address and port.
pub open spec fn reply_bytes(status: u8) -> Seq<u8> {
    seq![0x05u8, status, 0x00, 0x01, 0, 0, 0, 0, 0, 0]
}

/// The method that the server picked: none of those offered is `0xff`.
pub open spec fn method_bytes(method: u8) -> Seq<u8> {
    seq![0x05u8, method]
}

/// What follows a phase when its bytes have come, and what is answered.
pub open spec fn respond(phase: Phase, bytes: Seq<u8>) -> (Seq<u8>, Turn) {
    let silent = Seq::<u8>::empty();
    match phase {
        Phase::Greeting => if bytes[0] != 5 {
            (silent, Turn::Refuse("Unsupported SOCKS version"@))
        } else {
            (silent, Turn::Read(Phase::Methods(bytes[1] as nat)))
        },
        Phase::Methods(_) => if !bytes.contains(0) {
            (method_bytes(0xff), Turn::Refuse("SOCKS client did not offer no-auth method"@))
        } else {
            (method_bytes(0), Turn::Read(Phase::Head))
        },
        Phase::Head => if bytes[0] != 5 {
            (silent, Turn::Refuse("Unsupported SOCKS request version"@))
        } else if bytes[1] != 1 {
            (reply_bytes(7), Turn::Refuse("Only SOCKS CONNECT is supported"@))
        } else if bytes[3] == 1 {
            (silent, Turn::Read(Phase::Ipv4))
        } else if bytes[3] == 3 {
            (silent, Turn::Read(Phase::NameLength))
        } else if bytes[3] == 4 {
            (silent, Turn::Read(Phase::Ipv6))
        } else {
            (reply_bytes(8), Turn::Refuse("Unsupported SOCKS address type"@))
        },
        Phase::Ipv4 => (silent, Turn::Read(Phase::Port(ipv4(bytes)))),
        Phase::NameLength => (silent, Turn::Read(Phase::Name(bytes[0] as nat))),
        Phase::Name(_) => match utf8_text(bytes) {
            Ok(host) => (silent, Turn::Read(Phase::Port(host))),
            Err(reason) => (silent, Turn::Refuse(reason)),
        },
        Phase::Ipv6 => (silent, Turn::Read(Phase::Port(ipv6(bytes)))),
        Phase::Port(host) => (
            silent,
            Turn::Connect(host, (256 * bytes[0] + bytes[1]) as u16),
        ),
    }
}

/// The reply that tells a client how its request went.
pub fn socks5_reply(status: u8) -> (r: Vec<u8>)
    ensures
        r@ == reply_bytes(status),
{
    vec![0x05, status, 0x00, 0x01, 0, 0, 0, 0, 0, 0]
}

fn method_reply(method: u8) -> (r: Vec<u8>)
    ensures
        r@ == method_bytes(method),
{
    vec![0x05, method]
}

fn offers_no_auth(methods: &[u8]) -> (r: bool)
    ensures
        r == methods@.contains(0),
{
    let mut i: usize = 0;
    while i < methods.len()
        invariant
            i <= methods@.len(),
            forall|j: int| 0 <= j < i ==> #[trigger] methods@[j] != 0,
        decreases methods@.len() - i,
    {
        if methods[i] == 0 {
            return true;
        }
        i += 1;
    }
    false
}

impl SocksState {
    /// How many bytes to read before the next call of `advance`.
    pub fn wanted(&self) -> (r: usize)
        ensures
            r == awaited(self@),
    {
        match self {
            SocksState::Greeting => 2,
            SocksState::Methods { count } => *count as usize,
            SocksState::Head => 4,
            SocksState::Ipv4 => 4,
            SocksState::NameLength => 1,
            SocksState::Name { length } => *length as usize,
            SocksState::Ipv6 => 16,
            SocksState::Port { host: _ } => 2,
        }
    }

    /// Takes the bytes that were read, as many as were wanted.
    pub fn advance(self, bytes: &[u8]) -> (r: SocksStep)
        requires
            bytes@.len() == awaited(self@),
        ensures
            (r.reply@, r.next@) == respond(self@, bytes@),
    {
        let mut reply: Vec<u8> = Vec::new();
        let next = match self {
            SocksState::Greeting => if bytes[0] != 0x05 {
                SocksNext::Refuse("Unsupported SOCKS version".to_owned())
            } else {
                SocksNext::Read(SocksState::Methods { count: bytes[1] })
            },
            SocksState::Methods { count: _ } => if !offers_no_auth(bytes) {
                reply = method_reply(0xff);
                SocksNext::Refuse("SOCKS client did not offer no-auth method".to_owned())
            } else {
                reply = method_reply(0x00);
                SocksNext::Read(SocksState::Head)
            },
            SocksState::Head => if bytes[0] != 0x05 {
                SocksNext::Refuse("Unsupported SOCKS request version".to_owned())
            } else if bytes[1] != 0x01 {
                reply = socks5_reply(0x07);
                SocksNext::Refuse("Only SOCKS CONNECT is supported".to_owned())
            } else if bytes[3] == 0x01 {
                SocksNext::Read(SocksState::Ipv4)
            } else if bytes[3] == 0x03 {
                SocksNext::Read(SocksState::NameLength)
            } else if bytes[3] == 0x04 {
                SocksNext::Read(SocksState::Ipv6)
            } else {
                reply = socks5_reply(0x08);
                SocksNext::Refuse("Unsupported SOCKS address type".to_owned())
            },
            SocksState::Ipv4 => {
                let host = ipv4_text(bytes, 0);
                assert(bytes@.skip(0) == bytes@);
                SocksNext::Read(SocksState::Port { host })
            },
            SocksState::NameLength => SocksNext::Read(SocksState::Name { length: bytes[0] }),
            SocksState::Name { length: _ } => match decode_strict(slice_to_vec(bytes)) {
                Ok(host) => SocksNext::Read(SocksState::Port { host }),
                Err(reason) => SocksNext::Refuse(reason),
            },
            SocksState::Ipv6 => SocksNext::Read(SocksState::Port { host: ipv6_text(bytes) }),
            SocksState::Port { host } => SocksNext::Connect(
                SocksRequest { host, port: 256 * bytes[0] as u16 + bytes[1] as u16 },
            ),
        };
        assert(reply@ == respond(self@, bytes@).0);
        SocksStep { reply, next }
    }
}

/// How a conversation ended.
pub enum Ending {
    /// The client asks for this connection; these bytes were not read.
    Connect(Seq<char>, u16, Seq<u8>),
    /// The client was refused for this reason; these bytes were not read.
    Refused(Seq<char>, Seq<u8>),
    /// The client fell silent.
    Starved,
}

/// How many phases can still come.
pub open spec fn rank(phase: Phase) -> nat {
    match phase {
        Phase::Greeting => 5,
        Phase::Methods(_) => 4,
        Phase::Head => 3,
        Phase::NameLength => 2,
        Phase::Ipv4 => 1,
        Phase::Name(_) => 1,
        Phase::Ipv6 => 1,
        Phase::Port(_) => 0,
    }
}

/// Everything that is answered to a client that sends `input`, and how the
/// conversation ends.
pub open spec fn converse(phase: Phase, input: Seq<u8>) -> (Seq<u8>, Ending)
    decreases rank(phase),
{
    let length = awaited(phase) as int;
    if input.len() < length {
        (Seq::empty(), Ending::Starved)
    } else {
        let (reply, turn) = respond(phase, input.take(length));
        match turn {
            Turn::Read(next) => {
                let (replies, ending) = converse(next, input.skip(length));
                (reply + replies, ending)
            },
            Turn::Connect(host, port) => (reply, Ending::Connect(host, port, input.skip(length))),
            Turn::Refuse(reason) => (reply, Ending::Refused(reason, input.skip(length))),
        }
    }
}

/// What a client was answered, and how the conversation ended.
#[derive(Debug)]
pub struct SocksDialogue {
    pub replies: Vec<u8>,
    pub ending: SocksEnding,
}

/// How a conversation over recorded bytes ended.
#[derive(Debug)]
pub enum SocksEnding {
    /// The client asks for this connection, in the first `read` bytes.
    Connect { request: SocksRequest, read: usize },
    /// The client was refused for this reason, after the first `read` bytes.
    Refused { reason: String, read: usize },
    /// The bytes ended before the conversation did.
    Starved,
}

/// The ending of a conversation over `input`, with its texts.
pub open spec fn ending_of(ending: SocksEnding, input: Seq<u8>) -> Ending {
    match ending {
        SocksEnding::Connect { request, read } => Ending::Connect(
            request.host@,
            request.port,
            input.skip(read as int),
        ),
        SocksEnding::Refused { reason, read } => Ending::Refused(
            reason@,
            input.skip(read as int),
        ),
        SocksEnding::Starved => Ending::Starved,
    }
}

/// Holds the conversation over bytes that a client has already sent.
pub fn read_socks5_request(input: &[u8]) -> (r: SocksDialogue)
    ensures
        (r.replies@, ending_of(r.ending, input@)) == converse(Phase::Greeting, input@),
        r.ending matches SocksEnding::Connect { request, read } ==> read <= input@.len(),
        r.ending matches SocksEnding::Refused { reason, read } ==> read <= input@.len(),
{
    let mut state = SocksState::Greeting;
    let mut replies: Vec<u8> = Vec::new();
    let mut at: usize = 0;
    let ghost whole = converse(Phase::Greeting, input@);
    assert(input@.skip(0) == input@);
    assert(Seq::<u8>::empty() + whole.0 == whole.0);
    loop
        invariant
            at <= input@.len(),
            whole == converse(Phase::Greeting, input@),
            whole.0 == replies@ + converse(state@, input@.skip(at as int)).0,
            whole.1 == converse(state@, input@.skip(at as int)).1,
        decreases rank(state@),
    {
        let wanted: usize = state.wanted();
        let ghost rest = input@.skip(at as int);
        if input.len() - at < wanted {
            assert(replies@ + Seq::<u8>::empty() == replies@);
            return SocksDialogue { replies, ending: SocksEnding::Starved };
        }
        let bytes = slice_subrange(input, at, at + wanted);
        assert(bytes@ == rest.take(wanted as int));
        assert(rest.skip(wanted as int) == input@.skip(at + wanted));
        let ghost before = replies@;
        let step = state.advance(bytes);
        let mut reply = step.reply;
        let ghost said = reply@;
        replies.append(&mut reply);
        at = at + wanted;
        match step.next {
            SocksNext::Read(next) => {
                proof {
                    let later = converse(next@, input@.skip(at as int));
                    assert(before + (said + later.0) == replies@ + later.0);
                }
                state = next;
            },
            SocksNext::Connect(request) => {
                return SocksDialogue {
                    replies,
                    ending: SocksEnding::Connect { request, read: at },
                };
            },
            SocksNext::Refuse(reason) => {
                return SocksDialogue {
                    replies,
                    ending: SocksEnding::Refused { reason, read: at },
                };
            },
        }
    }
}

/// A client's greeting.
pub open spec fn greeting(methods: Seq<u8>) -> Seq<u8> {
    seq![0x05u8, methods.len() as u8] + methods
}

/// The address of a request.
pub enum Target {
    Ipv4(Seq<u8>),
    Name(Seq<char>),
    Ipv6(Seq<u8>),
}

/// An address that a request can carry.
pub open spec fn can_be_sent(target: Target) -> bool {
    match target {
        Target::Ipv4(octets) => octets.len() == 4,
        Target::Name(host) => vstd::utf8::encode_utf8(host).len() <= 255,
        Target::Ipv6(octets) => octets.len() == 16,
    }
}

/// The host that an address names.
pub open spec fn host_of(target: Target) -> Seq<char> {
    match target {
        Target::Ipv4(octets) => ipv4(octets),
        Target::Name(host) => host,
        Target::Ipv6(octets) => ipv6(octets),
    }
}

/// The type and the bytes of an address.
pub open spec fn target_bytes(target: Target) -> (u8, Seq<u8>) {
    match target {
        Target::Ipv4(octets) => (1, octets),
        Target::Name(host) => {
            let name = vstd::utf8::encode_utf8(host);
            (3, seq![name.len() as u8] + name)
        },
        Target::Ipv6(octets) => (4, octets),
    }
}

/// The head of a client's request.
pub open spec fn head(version: u8, command: u8, reserved: u8, kind: u8) -> Seq<u8> {
    seq![version, command, reserved, kind]
}

/// A port in network byte order.
pub open spec fn port_bytes(port: u16) -> Seq<u8> {
    seq![(port / 256) as u8, (port % 256) as u8]
}

pub proof fn lemma_split(front: Seq<u8>, back: Seq<u8>)
    ensures
        (front + back).take(front.len() as int) == front,
        (front + back).skip(front.len() as int) == back,
{
    assert((front + back).take(front.len() as int) =~= front);
    assert((front + back).skip(front.len() as int) =~= back);
}

/// A greeting is answered by the choice of a method, and what follows it is
/// then read as a request.
pub proof fn lemma_greeted(methods: Seq<u8>, rest: Seq<u8>)
    requires
        methods.len() <= 255,
    ensures
        converse(Phase::Greeting, greeting(methods) + rest) == if methods.contains(0) {
            let (replies, ending) = converse(Phase::Head, rest);
            (method_bytes(0) + replies, ending)
        } else {
            (
                method_bytes(0xff),
                Ending::Refused("SOCKS client did not offer no-auth method"@, rest),
            )
        },
{
    let first = seq![0x05u8, methods.len() as u8];
    let input = greeting(methods) + rest;
    assert(input == first + (methods + rest));
    lemma_split(first, methods + rest);
    lemma_split(methods, rest);
    let phase = Phase::Methods(methods.len());
    assert(respond(Phase::Greeting, first) == (Seq::<u8>::empty(), Turn::Read(phase)));
    let inner = converse(phase, methods + rest);
    assert(converse(Phase::Greeting, input) == (Seq::<u8>::empty() + inner.0, inner.1));
    assert(Seq::<u8>::empty() + inner.0 == inner.0);
}

/// The phase in which an address is read.
pub open spec fn address_phase(target: Target) -> Phase {
    match target {
        Target::Ipv4(_) => Phase::Ipv4,
        Target::Name(_) => Phase::NameLength,
        Target::Ipv6(_) => Phase::Ipv6,
    }
}

/// After an address comes its port, and then nothing more is read.
proof fn lemma_port_is_read(host: Seq<char>, port: u16, rest: Seq<u8>)
    ensures
        converse(Phase::Port(host), port_bytes(port) + rest) == (
            Seq::<u8>::empty(),
            Ending::Connect(host, port, rest),
        ),
{
    lemma_split(port_bytes(port), rest);
    assert((256 * (port / 256) as u8 + (port % 256) as u8) as u16 == port);
}

/// A phase that says nothing and reads on ends as what follows it does.
pub proof fn lemma_reads_on(phase: Phase, front: Seq<u8>, back: Seq<u8>, next: Phase)
    requires
        front.len() == awaited(phase),
        respond(phase, front) == (Seq::<u8>::empty(), Turn::Read(next)),
        rank(next) < rank(phase),
    ensures
        converse(phase, front + back) == converse(next, back),
{
    lemma_split(front, back);
    let later = converse(next, back);
    assert(Seq::<u8>::empty() + later.0 == later.0);
}

proof fn lemma_ipv4_is_read(octets: Seq<u8>, port: u16, rest: Seq<u8>)
    requires
        octets.len() == 4,
    ensures
        converse(Phase::Ipv4, octets + (port_bytes(port) + rest)) == (
            Seq::<u8>::empty(),
            Ending::Connect(ipv4(octets), port, rest),
        ),
{
    lemma_port_is_read(ipv4(octets), port, rest);
    lemma_reads_on(Phase::Ipv4, octets, port_bytes(port) + rest, Phase::Port(ipv4(octets)));
}

proof fn lemma_ipv6_is_read(octets: Seq<u8>, port: u16, rest: Seq<u8>)
    requires
        octets.len() == 16,
    ensures
        converse(Phase::Ipv6, octets + (port_bytes(port) + rest)) == (
            Seq::<u8>::empty(),
            Ending::Connect(ipv6(octets), port, rest),
        ),
{
    lemma_port_is_read(ipv6(octets), port, rest);
    lemma_reads_on(Phase::Ipv6, octets, port_bytes(port) + rest, Phase::Port(ipv6(octets)));
}

proof fn lemma_name_is_read(host: Seq<char>, port: u16, rest: Seq<u8>)
    requires
        can_be_sent(Target::Name(host)),
    ensures
        converse(
            Phase::NameLength,
            target_bytes(Target::Name(host)).1 + (port_bytes(port) + rest),
        ) == (Seq::<u8>::empty(), Ending::Connect(host, port, rest)),
{
    let name = vstd::utf8::encode_utf8(host);
    let size = seq![name.len() as u8];
    let tail = port_bytes(port) + rest;
    vstd::utf8::encode_utf8_valid_utf8(host);
    vstd::utf8::encode_utf8_decode_utf8(host);
    lemma_port_is_read(host, port, rest);
    lemma_reads_on(Phase::Name(name.len()), name, tail, Phase::Port(host));
    lemma_reads_on(Phase::NameLength, size, name + tail, Phase::Name(name.len()));
    assert(size + name + tail == size + (name + tail));
}

proof fn lemma_address_is_read(target: Target, port: u16, rest: Seq<u8>)
    requires
        can_be_sent(target),
    ensures
        converse(
            address_phase(target),
            target_bytes(target).1 + (port_bytes(port) + rest),
        ) == (Seq::<u8>::empty(), Ending::Connect(host_of(target), port, rest)),
{
    match target {
        Target::Ipv4(octets) => lemma_ipv4_is_read(octets, port, rest),
        Target::Name(host) => lemma_name_is_read(host, port, rest),
        Target::Ipv6(octets) => lemma_ipv6_is_read(octets, port, rest),
    }
}

/// A well-formed request to connect is understood, whatever methods are
/// offered besides the one without authentication: the client is told that
/// method, the host and the port are those that it sent, and no byte after
/// them is read.
pub proof fn law_connect_is_understood(
    methods: Seq<u8>,
    reserved: u8,
    target: Target,
    port: u16,
    rest: Seq<u8>,
)
    requires
        methods.len() <= 255,
        methods.contains(0),
        can_be_sent(target),
    ensures
        converse(
            Phase::Greeting,
            greeting(methods) + head(5, 1, reserved, target_bytes(target).0) + target_bytes(
                target,
            ).1 + port_bytes(port) + rest,
        ) == (method_bytes(0), Ending::Connect(host_of(target), port, rest)),
{
    let address = target_bytes(target).1;
    let first = head(5, 1, reserved, target_bytes(target).0);
    let tail = port_bytes(port) + rest;
    assert(greeting(methods) + first + address + port_bytes(port) + rest == greeting(methods) + (
    first + (address + tail)));
    lemma_greeted(methods, first + (address + tail));
    lemma_address_is_read(target, port, rest);
    lemma_reads_on(Phase::Head, first, address + tail, address_phase(target));
    assert(method_bytes(0) + Seq::<u8>::empty() == method_bytes(0));
}

/// A client that does not speak version five is refused without an answer, and
/// nothing after its first two bytes is read.
pub proof fn law_other_version_is_not_answered(input: Seq<u8>)
    requires
        input.len() >= 2,
        input[0] != 5,
    ensures
        converse(Phase::Greeting, input) == (
            Seq::<u8>::empty(),
            Ending::Refused("Unsupported SOCKS version"@, input.skip(2)),
        ),
{
    assert(input.take(2)[0] == input[0]);
}

/// A client that wants authentication is told that no method will do.
pub proof fn law_authentication_is_refused(methods: Seq<u8>, rest: Seq<u8>)
    requires
        methods.len() <= 255,
        !methods.contains(0),
    ensures
        converse(Phase::Greeting, greeting(methods) + rest) == (
            method_bytes(0xff),
            Ending::Refused("SOCKS client did not offer no-auth method"@, rest),
        ),
{
    lemma_greeted(methods, rest);
}

/// A request of another version is refused without an answer to it, one for
/// another command than to connect with status seven, and one for an address
/// of an unknown type with status eight; in this order.
pub proof fn law_refused_requests_are_answered(
    methods: Seq<u8>,
    version: u8,
    command: u8,
    reserved: u8,
    kind: u8,
    rest: Seq<u8>,
)
    requires
        methods.len() <= 255,
        methods.contains(0),
    ensures
        ({
            let said = converse(
                Phase::Greeting,
                greeting(methods) + head(version, command, reserved, kind) + rest,
            );
            if version != 5 {
                said == (method_bytes(0), Ending::Refused("Unsupported SOCKS request version"@, rest))
            } else if command != 1 {
                said == (
                    method_bytes(0) + reply_bytes(7),
                    Ending::Refused("Only SOCKS CONNECT is supported"@, rest),
                )
            } else if kind != 1 && kind != 3 && kind != 4 {
                said == (
                    method_bytes(0) + reply_bytes(8),
                    Ending::Refused("Unsupported SOCKS address type"@, rest),
                )
            } else {
                true
            }
        }),
{
    let first = head(version, command, reserved, kind);
    assert(greeting(methods) + first + rest == greeting(methods) + (first + rest));
    lemma_greeted(methods, first + rest);
    lemma_split(first, rest);
    assert(method_bytes(0) + Seq::<u8>::empty() == method_bytes(0));
}

} // verus!
