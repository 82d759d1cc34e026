//! What serving a client and connecting with the embedded engine come to, call
//! after call.
use crate::address_laws::is_dotted;
use crate::counters::TrafficCounters;
use crate::embedded::{
    connect_step, friendly_auth_error, friendly_connect_error, friendly_key_error, listener_step,
    word_bind_error, ConnectNext, ConnectStage, EmbeddedProxy, EmbeddedServer, ListenerAction,
    ListenerEvent, StageOutcome,
};
use crate::embedded_laws::{
    law_connect_errors_name_the_server, law_key_errors_name_the_key,
    law_other_errors_name_their_subject,
};
use crate::host_key::{
    host_key_looked_up, host_key_recorded, start_host_key_check, HostKeyAction, KnownHost,
};
use crate::ip_info::country_code_to_flag;
use crate::launch_laws::names_place;
use crate::relay::{
    client_step, count_action, ClientAction, ClientEvent, Relay, RelayAction, Side,
};
use crate::shown_laws::law_flags_go_by_the_letters;
use crate::socks::{
    read_socks5_request, socks5_reply, SocksDialogue, SocksEnding, SocksNext, SocksRequest,
    SocksState, SocksStep,
};
use crate::socks_laws::{
    law_ipv4_request_is_understood, law_name_request_is_understood, law_refusals_byte_for_byte,
    opening,
};
use crate::status::status_emoji;
use crate::text::{has_text, is_blank, is_white};
use crate::text_laws::{law_trimming_gives_back, starts_with};
use crate::unicode::{capital_letter, in_small};
use vstd::prelude::*;
use vstd::utf8::{decode_utf8, is_ascii_chars, valid_utf8};

verus! {

/// A client that asks for an IPv4 address is understood: the host that is
/// connected to reads back as the octets, at the port that was sent, and every
/// byte after it is left unread.
pub proof fn law_ipv4_client_is_connected(
    input: &[u8],
    methods: Seq<u8>,
    reserved: u8,
    octets: Seq<u8>,
    high: u8,
    low: u8,
    rest: Seq<u8>,
    dialogue: SocksDialogue,
)
    requires
        call_ensures(read_socks5_request, (input,), dialogue),
        methods.len() <= 255,
        methods.contains(0),
        octets.len() == 4,
        input@ == opening(methods, reserved, 1) + octets + seq![high, low] + rest,
    ensures
        dialogue.replies@ == seq![5u8, 0u8],
        dialogue.ending matches SocksEnding::Connect { request, read } && is_dotted(
            request.host@,
            octets,
        ) && request.port == 256 * high + low && read + rest.len() == input@.len(),
{
    law_ipv4_request_is_understood(methods, reserved, octets, high, low, rest);
    if let SocksEnding::Connect { request, read } = dialogue.ending {
        assert(input@.skip(read as int).len() == rest.len());
    }
}

/// A client that asks for a name is connected to that name at its port, or
/// refused where the name is not valid UTF-8.
pub proof fn law_name_client_is_connected(
    input: &[u8],
    methods: Seq<u8>,
    reserved: u8,
    name: Seq<u8>,
    high: u8,
    low: u8,
    rest: Seq<u8>,
    dialogue: SocksDialogue,
)
    requires
        call_ensures(read_socks5_request, (input,), dialogue),
        methods.len() <= 255,
        methods.contains(0),
        name.len() <= 255,
        input@ == opening(methods, reserved, 3) + seq![name.len() as u8] + name + seq![high, low]
            + rest,
    ensures
        dialogue.replies@ == seq![5u8, 0u8],
        valid_utf8(name) ==> (dialogue.ending matches SocksEnding::Connect { request, read }
            && request.host@ == decode_utf8(name) && request.port == 256 * high + low && read
            + rest.len() == input@.len()),
        !valid_utf8(name) ==> dialogue.ending is Refused,
{
    law_name_request_is_understood(methods, reserved, name, high, low, rest);
    if let SocksEnding::Connect { request, read } = dialogue.ending {
        assert(input@.skip(read as int).len() == input@.len() - read);
    }
}

/// A client is answered exactly the bytes of its refusal.
pub proof fn law_refused_client_is_answered(
    input: &[u8],
    methods: Seq<u8>,
    version: u8,
    command: u8,
    reserved: u8,
    kind: u8,
    rest: Seq<u8>,
    dialogue: SocksDialogue,
)
    requires
        call_ensures(read_socks5_request, (input,), dialogue),
        methods.len() <= 255,
        input@ == seq![5u8, methods.len() as u8] + methods + (seq![
            version,
            command,
            reserved,
            kind,
        ] + rest),
    ensures
        !methods.contains(0) ==> dialogue.ending is Refused && dialogue.replies@ == seq![
            5u8,
            0xffu8,
        ],
        methods.contains(0) && version != 5 ==> dialogue.ending is Refused && dialogue.replies@
            == seq![5u8, 0u8],
        methods.contains(0) && version == 5 && command != 1 ==> dialogue.ending is Refused
            && dialogue.replies@ == seq![5u8, 0u8, 5u8, 7u8, 0u8, 1u8, 0u8, 0u8, 0u8, 0u8, 0u8, 0u8],
        methods.contains(0) && version == 5 && command == 1 && kind != 1 && kind != 3 && kind != 4
            ==> dialogue.ending is Refused && dialogue.replies@ == seq![
            5u8,
            0u8,
            5u8,
            8u8,
            0u8,
            1u8,
            0u8,
            0u8,
            0u8,
            0u8,
            0u8,
            0u8,
        ],
{
    law_refusals_byte_for_byte(methods, version, command, reserved, kind, rest);
}

/// Step by step a client is understood as it is at once: the host that was read
/// is the one that is connected to, at the port that follows. A reply holds its
/// status.
pub proof fn law_steps_carry_the_host(
    host: String,
    bytes: &[u8],
    step: SocksStep,
    octets: &[u8],
    read: SocksStep,
    status: u8,
    reply: Vec<u8>,
)
    requires
        call_ensures(SocksState::advance, (SocksState::Port { host }, bytes), step),
        bytes@.len() == 2,
        call_ensures(SocksState::advance, (SocksState::Ipv4, octets), read),
        octets@.len() == 4,
        call_ensures(socks5_reply, (status,), reply),
    ensures
        step.reply@.len() == 0,
        step.next matches SocksNext::Connect(request) && request.host@ == host@ && request.port
            == 256 * bytes@[0] + bytes@[1],
        read.reply@.len() == 0,
        read.next matches SocksNext::Read(SocksState::Port { host: found }) && is_dotted(
            found@,
            octets@,
        ),
        reply@ == seq![5u8, status, 0u8, 1u8, 0u8, 0u8, 0u8, 0u8, 0u8, 0u8],
{
    crate::address_laws::lemma_dotted(octets@);
    if let SocksNext::Connect(request) = step.next {
        assert(step.next@ == crate::socks::Turn::Connect(request.host@, request.port));
    }
    if let SocksNext::Read(state) = read.next {
        assert(read.next@ == crate::socks::Turn::Read(state@));
        assert(state@ is Port);
    }
}

/// A client is connected to the host and the port that it asked for, is told so
/// once the connection is open, and is shut down where it was refused.
pub proof fn law_clients_get_what_they_ask_for(
    request: SocksRequest,
    opened: ClientAction,
    reason: String,
    refused: ClientAction,
    answered: ClientAction,
    failed: ClientAction,
)
    requires
        call_ensures(client_step, (ClientEvent::Requested(request),), opened),
        call_ensures(client_step, (ClientEvent::Unreadable(reason),), refused),
        call_ensures(client_step, (ClientEvent::Opened,), answered),
        call_ensures(client_step, (ClientEvent::OpenFailed(reason),), failed),
    ensures
        opened matches ClientAction::Open { host, port } && host@ == request.host@ && port
            == request.port,
        refused matches ClientAction::ShutDown(why) && why@ == reason@,
        answered matches ClientAction::AnswerAndRelay(bytes) && bytes@ == seq![
            5u8,
            0u8,
            0u8,
            1u8,
            0u8,
            0u8,
            0u8,
            0u8,
            0u8,
            0u8,
        ],
        failed matches ClientAction::Fail(why) && why@ == reason@,
{
}

/// What is read from one end is sent to the other and counted there, and a read
/// that comes back empty closes the end that it is from and no other.
pub proof fn law_relay_carries_and_counts(
    relay: &mut Relay,
    from: Side,
    bytes: usize,
    action: RelayAction,
    counters: &mut TrafficCounters,
    reads: bool,
    running: bool,
)
    requires
        call_ensures(Relay::on_read, (relay, from, bytes), action),
        call_ensures(count_action, (counters, action), ()),
        call_ensures(Relay::reads, (&*final(relay), from), reads),
        call_ensures(Relay::running, (&*final(relay),), running),
    ensures
        bytes > 0 ==> *final(relay) == *old(relay) && (action matches RelayAction::Forward {
            to,
            bytes: sent,
        } && to != from && sent == bytes),
        bytes == 0 ==> !reads && (action matches RelayAction::ShutDown(to) && to != from),
        final(relay).client_closed == (old(relay).client_closed || (bytes == 0 && from
            == Side::Client)),
        final(relay).remote_closed == (old(relay).remote_closed || (bytes == 0 && from
            == Side::Remote)),
        running <==> !(final(relay).client_closed && final(relay).remote_closed),
        from == Side::Remote ==> final(counters).rx() == (old(counters).rx() + bytes)
            % 0x1_0000_0000_0000_0000 && final(counters).tx() == old(counters).tx(),
        from == Side::Client ==> final(counters).tx() == (old(counters).tx() + bytes)
            % 0x1_0000_0000_0000_0000 && final(counters).rx() == old(counters).rx(),
{
    crate::relay::law_reads_go_to_the_other_end(*old(relay), from, bytes);
}

/// A key that is known is trusted, and a changed one never is but where any key
/// will do. A new one is trusted where it is to be recorded and was.
pub proof fn law_host_keys_are_checked(
    mode: &str,
    first: HostKeyAction,
    known: KnownHost,
    second: HostKeyAction,
    recorded: bool,
    third: HostKeyAction,
)
    requires
        call_ensures(start_host_key_check, (mode,), first),
        call_ensures(host_key_looked_up, (mode, known), second),
        call_ensures(host_key_recorded, (recorded,), third),
    ensures
        first == HostKeyAction::Accept <==> mode@ == "no"@,
        first == HostKeyAction::LookUp <==> mode@ != "no"@,
        second == HostKeyAction::Accept <==> known == KnownHost::Match,
        second == HostKeyAction::Record <==> known == KnownHost::Unknown && mode@
            == "accept-new"@,
        second == HostKeyAction::Reject <==> known == KnownHost::Conflict || (known
            == KnownHost::Unknown && mode@ != "accept-new"@),
        third == HostKeyAction::Accept <==> recorded,
        third == HostKeyAction::Reject <==> !recorded,
{
}

/// What the user is told of a failure names the key or the server and goes by
/// what the failure speaks of, in letters of any case.
pub proof fn law_failures_are_told(
    key_path: &str,
    raw: &str,
    of_key: String,
    server: &EmbeddedServer,
    of_server: String,
    of_login: String,
    proxy: &EmbeddedProxy,
    of_bind: String,
)
    requires
        call_ensures(friendly_key_error, (key_path, raw), of_key),
        call_ensures(friendly_connect_error, (server, raw), of_server),
        call_ensures(friendly_auth_error, (server, raw), of_login),
        call_ensures(word_bind_error, (proxy, raw), of_bind),
    ensures
        ({
            let lower = in_small(raw@);
            let encrypted = has_text(lower, "encrypted"@) || has_text(lower, "passphrase"@);
            let missing = has_text(lower, "no such file"@) || has_text(lower, "not found"@);
            &&& encrypted ==> starts_with(
                of_key@,
                "Embedded SSH cannot open encrypted private key '"@ + key_path@,
            )
            &&& !encrypted && missing ==> of_key@ == "SSH key file not found: "@ + key_path@
            &&& !encrypted && !missing ==> starts_with(
                of_key@,
                "Cannot load SSH key for embedded engine '"@ + key_path@,
            )
        }),
        exists|before: Seq<char>, place: Seq<char>, after: Seq<char>|
            #[trigger] names_place(
                of_server@,
                before,
                place,
                after,
                server.host@,
                server.port,
            ),
        of_login@ == "Embedded SSH public key authentication failed for "@ + server.user@.push('@')
            + server.host@ + ": "@ + raw@
            + ". Check username, key path, authorized_keys, and key permissions."@,
        exists|before: Seq<char>, place: Seq<char>, after: Seq<char>|
            #[trigger] names_place(of_bind@, before, place, after, proxy.host@, proxy.port)
                && after == ": "@ + raw@,
{
    law_key_errors_name_the_key(key_path@, raw@, in_small(raw@));
    law_connect_errors_name_the_server(*server, raw@, in_small(raw@));
    law_other_errors_name_their_subject(*server, *proxy, raw@);
}

/// A connection goes from stage to stage, is ready only when the key was
/// accepted at the last, and is given up at the first stage that fails.
pub proof fn law_connection_is_ready_when_accepted(
    server: &EmbeddedServer,
    stage: ConnectStage,
    accepted: bool,
    went: ConnectNext,
    error: String,
    failed: ConnectNext,
)
    requires
        call_ensures(connect_step, (server, stage, StageOutcome::Done { accepted }), went),
        call_ensures(connect_step, (server, stage, StageOutcome::Failed(error)), failed),
    ensures
        failed is GiveUp,
        went is Ready <==> stage == ConnectStage::Authenticate && accepted,
        went is GiveUp <==> stage == ConnectStage::Authenticate && !accepted,
        stage == ConnectStage::LoadKey ==> went == ConnectNext::Stage(ConnectStage::Connect),
        stage == ConnectStage::Connect ==> went == ConnectNext::Stage(ConnectStage::AgreeHash),
        stage == ConnectStage::AgreeHash ==> went == ConnectNext::Stage(
            ConnectStage::Authenticate,
        ),
{
    assert(went@ is Ready <==> went is Ready);
    assert(went@ is GiveUp <==> went is GiveUp);
    assert(failed@ is GiveUp <==> failed is GiveUp);
    if let ConnectNext::Stage(next) = went {
        assert(went@ == crate::embedded::AfterStage::Stage(next));
    }
}

/// The listener serves every client that connects until it is told to stop or
/// can accept none any more.
pub proof fn law_listener_serves_until_stopped(
    error: String,
    stopped: ListenerAction,
    served: ListenerAction,
    failed: ListenerAction,
    waited: ListenerAction,
)
    requires
        call_ensures(listener_step, (ListenerEvent::StopRequested,), stopped),
        call_ensures(listener_step, (ListenerEvent::Accepted,), served),
        call_ensures(listener_step, (ListenerEvent::AcceptFailed(error),), failed),
        call_ensures(listener_step, (ListenerEvent::Idle,), waited),
    ensures
        stopped is Disconnect && served is Serve && waited is Wait,
        failed matches ListenerAction::Fail(why) && why@ == error@,
{
}

/// A code of two letters in either case, with white space around it or none, has
/// the flag of these letters.
pub proof fn law_codes_have_their_flags(
    cc: &str,
    before: Seq<char>,
    code: Seq<char>,
    after: Seq<char>,
    drawn: String,
    state: &str,
    sign: String,
)
    requires
        call_ensures(country_code_to_flag, (cc,), drawn),
        call_ensures(status_emoji, (state,), sign),
        is_blank(before) && is_blank(after),
        code.len() == 2,
        'A' <= capital_letter(code[0]) <= 'Z',
        'A' <= capital_letter(code[1]) <= 'Z',
        cc@ == before + code + after,
    ensures
        drawn@.len() == 2,
        drawn@[0] as u32 - 0x1f1e6 == capital_letter(code[0]) as u32 - 'A' as u32,
        drawn@[1] as u32 - 0x1f1e6 == capital_letter(code[1]) as u32 - 'A' as u32,
        sign@ == if state@ == "running"@ {
            "🟢"@
        } else if state@ == "unknown"@ {
            "🟡"@
        } else {
            "🔴"@
        },
{
    assert(!is_white(code[0]) && !is_white(code.last()));
    law_trimming_gives_back(before, code, after);
    assert(is_ascii_chars(code));
    let capitals = crate::unicode::in_capitals(code);
    assert(capitals[0] == capital_letter(code[0]) && capitals[1] == capital_letter(code[1]));
    law_flags_go_by_the_letters(capitals, capitals);
}

} // verus!
