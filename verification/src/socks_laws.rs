//! The conversation with a SOCKS5 client, byte for byte.
use crate::address_laws::{is_dotted, lemma_dotted};
use crate::socks::{
    awaited, converse, ending_of, greeting, head, law_authentication_is_refused, law_connect_is_understood,
    law_refused_requests_are_answered, lemma_greeted, lemma_reads_on, lemma_split, method_bytes,
    port_bytes, rank, reply_bytes, respond, Ending, Phase, SocksEnding, SocksNext,
    SocksRequest, SocksState, Target, Turn,
};
use crate::unicode::utf8_fault;
use vstd::prelude::*;
use vstd::utf8::{decode_utf8, encode_utf8, valid_utf8};

verus! {

/// What a client sends up to its address: the greeting with the methods that it
/// offers, and the head of a request to connect to an address of this kind.
pub open spec fn opening(methods: Seq<u8>, reserved: u8, kind: u8) -> Seq<u8> {
    seq![5u8, methods.len() as u8] + methods + seq![5u8, 1u8, reserved, kind]
}

proof fn lemma_port_bytes(high: u8, low: u8)
    ensures
        port_bytes((256 * high + low) as u16) == seq![high, low],
{
    let port = (256 * high + low) as u16;
    assert(port / 256 == high && port % 256 == low);
    assert(port_bytes(port) =~= seq![high, low]);
}

/// A client that asks for an IPv4 address is connected to that address: the
/// host reads back as the four octets that it sent, the port is the two bytes
/// after them with the high one first, and nothing after those is read.
pub proof fn law_ipv4_request_is_understood(
    methods: Seq<u8>,
    reserved: u8,
    octets: Seq<u8>,
    high: u8,
    low: u8,
    rest: Seq<u8>,
)
    requires
        methods.len() <= 255,
        methods.contains(0),
        octets.len() == 4,
    ensures
        ({
            let said = converse(
                Phase::Greeting,
                opening(methods, reserved, 1) + octets + seq![high, low] + rest,
            );
            &&& said.0 == seq![5u8, 0u8]
            &&& said.1 matches Ending::Connect(host, port, unread) && is_dotted(host, octets)
                && port == 256 * high + low && unread == rest
        }),
{
    let port = (256 * high + low) as u16;
    lemma_port_bytes(high, low);
    lemma_dotted(octets);
    law_connect_is_understood(methods, reserved, Target::Ipv4(octets), port, rest);
    assert(greeting(methods) + head(5, 1, reserved, 1) =~= opening(methods, reserved, 1));
    assert(method_bytes(0) =~= seq![5u8, 0u8]);
}

/// A client that asks for an IPv6 address is connected to the text of that
/// address, at the port that it sent.
pub proof fn law_ipv6_request_is_understood(
    methods: Seq<u8>,
    reserved: u8,
    octets: Seq<u8>,
    high: u8,
    low: u8,
    rest: Seq<u8>,
)
    requires
        methods.len() <= 255,
        methods.contains(0),
        octets.len() == 16,
    ensures
        ({
            let said = converse(
                Phase::Greeting,
                opening(methods, reserved, 4) + octets + seq![high, low] + rest,
            );
            &&& said.0 == seq![5u8, 0u8]
            &&& said.1 matches Ending::Connect(host, port, unread) && host
                == crate::address::ipv6(octets) && port == 256 * high + low && unread == rest
        }),
{
    let port = (256 * high + low) as u16;
    lemma_port_bytes(high, low);
    law_connect_is_understood(methods, reserved, Target::Ipv6(octets), port, rest);
    assert(greeting(methods) + head(5, 1, reserved, 4) =~= opening(methods, reserved, 4));
    assert(method_bytes(0) =~= seq![5u8, 0u8]);
}

/// A client that asks for a name is connected to the name that its bytes are
/// the UTF-8 of, at the port that it sent. Bytes that are not valid UTF-8 are
/// refused before the port is read.
pub proof fn law_name_request_is_understood(
    methods: Seq<u8>,
    reserved: u8,
    name: Seq<u8>,
    high: u8,
    low: u8,
    rest: Seq<u8>,
)
    requires
        methods.len() <= 255,
        methods.contains(0),
        name.len() <= 255,
    ensures
        ({
            let said = converse(
                Phase::Greeting,
                opening(methods, reserved, 3) + seq![name.len() as u8] + name + seq![high, low]
                    + rest,
            );
            &&& said.0 == seq![5u8, 0u8]
            &&& if valid_utf8(name) {
                said.1 matches Ending::Connect(host, port, unread) && encode_utf8(host) == name
                    && host == decode_utf8(name) && port == 256 * high + low && unread == rest
            } else {
                said.1 == Ending::Refused(utf8_fault(name), seq![high, low] + rest)
            }
        }),
{
    let port = (256 * high + low) as u16;
    let size = seq![name.len() as u8];
    let tail = seq![high, low] + rest;
    let input = opening(methods, reserved, 3) + size + name + seq![high, low] + rest;
    lemma_port_bytes(high, low);
    assert(greeting(methods) + head(5, 1, reserved, 3) =~= opening(methods, reserved, 3));
    assert(method_bytes(0) =~= seq![5u8, 0u8]);
    if valid_utf8(name) {
        let host = decode_utf8(name);
        vstd::utf8::decode_utf8_encode_utf8(name);
        law_connect_is_understood(methods, reserved, Target::Name(host), port, rest);
        assert(input =~= greeting(methods) + head(5, 1, reserved, 3) + (size + name) + port_bytes(
            port,
        ) + rest);
    } else {
        let first = head(5, 1, reserved, 3);
        let request = first + (size + (name + tail));
        assert(input =~= greeting(methods) + request);
        lemma_greeted(methods, request);
        lemma_reads_on(Phase::Head, first, size + (name + tail), Phase::NameLength);
        lemma_reads_on(Phase::NameLength, size, name + tail, Phase::Name(name.len()));
        lemma_split(name, tail);
        assert(respond(Phase::Name(name.len()), name).1 == Turn::Refuse(utf8_fault(name)));
        assert(method_bytes(0) + Seq::<u8>::empty() =~= method_bytes(0));
    }
}

/// Every refusal, byte for byte: of a client without the one method that is
/// spoken, of a request of another version, for another command, and for an
/// address of another kind.
pub proof fn law_refusals_byte_for_byte(
    methods: Seq<u8>,
    version: u8,
    command: u8,
    reserved: u8,
    kind: u8,
    rest: Seq<u8>,
)
    requires
        methods.len() <= 255,
    ensures
        ({
            let asked = seq![version, command, reserved, kind] + rest;
            let (replies, ending) = converse(
                Phase::Greeting,
                seq![5u8, methods.len() as u8] + methods + asked,
            );
            if !methods.contains(0) {
                &&& replies == seq![5u8, 0xffu8]
                &&& ending matches Ending::Refused(_, unread) && unread == asked
            } else if version != 5 {
                &&& replies == seq![5u8, 0u8]
                &&& ending matches Ending::Refused(_, unread) && unread == rest
            } else if command != 1 {
                &&& replies == seq![5u8, 0u8, 5u8, 7u8, 0u8, 1u8, 0u8, 0u8, 0u8, 0u8, 0u8, 0u8]
                &&& ending matches Ending::Refused(_, unread) && unread == rest
            } else if kind != 1 && kind != 3 && kind != 4 {
                &&& replies == seq![5u8, 0u8, 5u8, 8u8, 0u8, 1u8, 0u8, 0u8, 0u8, 0u8, 0u8, 0u8]
                &&& ending matches Ending::Refused(_, unread) && unread == rest
            } else {
                ending !is Refused || kind == 3
            }
        }),
{
    let asked = seq![version, command, reserved, kind] + rest;
    let input = seq![5u8, methods.len() as u8] + methods + asked;
    assert(head(version, command, reserved, kind) =~= seq![version, command, reserved, kind]);
    assert(method_bytes(0) =~= seq![5u8, 0u8]);
    assert(method_bytes(0xff) =~= seq![5u8, 0xffu8]);
    if !methods.contains(0) {
        law_authentication_is_refused(methods, asked);
        assert(input =~= greeting(methods) + asked);
    } else {
        law_refused_requests_are_answered(methods, version, command, reserved, kind, rest);
        assert(input =~= greeting(methods) + head(version, command, reserved, kind) + rest);
        assert(method_bytes(0) + reply_bytes(7) =~= seq![
            5u8,
            0u8,
            5u8,
            7u8,
            0u8,
            1u8,
            0u8,
            0u8,
            0u8,
            0u8,
            0u8,
            0u8,
        ]);
        assert(method_bytes(0) + reply_bytes(8) =~= seq![
            5u8,
            0u8,
            5u8,
            8u8,
            0u8,
            1u8,
            0u8,
            0u8,
            0u8,
            0u8,
            0u8,
            0u8,
        ]);
        if version == 5 && command == 1 && (kind == 1 || kind == 4) {
            let first = head(version, command, reserved, kind);
            assert(greeting(methods) + first + rest =~= greeting(methods) + (first + rest));
            lemma_greeted(methods, first + rest);
            let next = if kind == 1 {
                Phase::Ipv4
            } else {
                Phase::Ipv6
            };
            lemma_reads_on(Phase::Head, first, rest, next);
            lemma_addresses_are_not_refused(next, rest);
        }
    }
}

proof fn lemma_addresses_are_not_refused(phase: Phase, input: Seq<u8>)
    requires
        phase is Ipv4 || phase is Ipv6 || phase is Port,
    ensures
        converse(phase, input).1 !is Refused,
    decreases rank(phase),
{
    let length = awaited(phase) as int;
    if input.len() >= length {
        if let Turn::Read(next) = respond(phase, input.take(length)).1 {
            lemma_addresses_are_not_refused(next, input.skip(length));
        }
    }
}

/// The bytes that an ending leaves unread, with more behind them.
pub open spec fn with_more(ending: Ending, more: Seq<u8>) -> Ending {
    match ending {
        Ending::Connect(host, port, unread) => Ending::Connect(host, port, unread + more),
        Ending::Refused(reason, unread) => Ending::Refused(reason, unread + more),
        Ending::Starved => Ending::Starved,
    }
}

/// What a client sends after a conversation has ended changes nothing of it,
/// and a conversation that has not ended has been answered nothing that a
/// longer one is not.
pub proof fn law_more_input_changes_nothing(phase: Phase, input: Seq<u8>, more: Seq<u8>)
    ensures
        converse(phase, input).1 !is Starved ==> converse(phase, input + more) == (
            converse(phase, input).0,
            with_more(converse(phase, input).1, more),
        ),
        converse(phase, input).0.len() <= converse(phase, input + more).0.len(),
        converse(phase, input + more).0.take(converse(phase, input).0.len() as int) == converse(
            phase,
            input,
        ).0,
    decreases rank(phase),
{
    let length = awaited(phase) as int;
    let longer = input + more;
    if input.len() < length {
        assert(converse(phase, longer).0.take(0) =~= Seq::<u8>::empty());
    } else {
        assert(longer.take(length) =~= input.take(length));
        assert(longer.skip(length) =~= input.skip(length) + more);
        let (reply, turn) = respond(phase, input.take(length));
        match turn {
            Turn::Read(next) => {
                law_more_input_changes_nothing(next, input.skip(length), more);
                let short = converse(next, input.skip(length)).0;
                let long = converse(next, longer.skip(length)).0;
                assert((reply + long).take((reply + short).len() as int) =~= reply + long.take(
                    short.len() as int,
                ));
            },
            _ => {
                assert(reply.take(reply.len() as int) =~= reply);
            },
        }
    }
}

/// How a conversation over recorded bytes is said to end is how it ends: with
/// the host, the port and the reason as they are, and with what comes after the
/// bytes that were read.
pub proof fn law_endings_are_told_as_they_are(
    request: SocksRequest,
    reason: String,
    read: usize,
    input: Seq<u8>,
)
    ensures
        ending_of(SocksEnding::Connect { request, read }, input) == Ending::Connect(
            request.host@,
            request.port,
            input.skip(read as int),
        ),
        ending_of(SocksEnding::Refused { reason, read }, input) == Ending::Refused(
            reason@,
            input.skip(read as int),
        ),
        ending_of(SocksEnding::Starved, input) == Ending::Starved,
        SocksNext::Connect(request)@ == Turn::Connect(request.host@, request.port),
        SocksNext::Refuse(reason)@ == Turn::Refuse(reason@),
        SocksNext::Read(SocksState::Port { host: reason })@ == Turn::Read(Phase::Port(reason@)),
{
}

} // verus!
