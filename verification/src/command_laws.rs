//! What the programs that are run beside the application are told, read back
//! from their arguments.
use crate::command::{
    failure, failure_of, ipinfo_request, nettop_request, public_address, test_arguments, tunnel_arguments,
    verify_arguments, CommandReport,
};
use crate::embedded::login;
use crate::profile::{ProxyProfile, ServerProfile};
use crate::text::{decimal, endpoint, is_blank, lemma_position_is, position, trimmed};
use crate::text_laws::{
    is_place, law_endpoint_reads_back, law_trimming_takes_white_ends, lemma_decimal_reads,
    lemma_endpoint_is_place, reads_as, trimmed_at,
};
use crate::unicode::{decoded, utf8_text};
use vstd::prelude::*;
use vstd::utf8::{decode_utf8, encode_utf8, valid_utf8};

verus! {

/// The argument that stands behind a flag where that first occurs.
pub open spec fn after_flag(args: Seq<Seq<char>>, flag: Seq<char>) -> Option<Seq<char>> {
    match position(args, flag) {
        Some(k) => if k + 1 < args.len() {
            Some(args[k + 1])
        } else {
            None
        },
        None => None,
    }
}

/// Whether `ssh` is given an option with this name and value at `k`.
pub open spec fn is_option(args: Seq<Seq<char>>, k: int, name: Seq<char>, value: Seq<char>) -> bool {
    &&& 0 <= k < args.len() - 1
    &&& args[k].len() == 2 && args[k][0] == '-' && args[k][1] == 'o'
    &&& args[k + 1] == name + value
}

/// Whether `ssh` is given an option with this name and value.
pub open spec fn has_option(args: Seq<Seq<char>>, name: Seq<char>, value: Seq<char>) -> bool {
    exists|k: int| #[trigger] is_option(args, k, name, value)
}

/// Whether `ssh` is given an option with this name and a number for its value.
pub open spec fn has_number(args: Seq<Seq<char>>, name: Seq<char>, n: u16) -> bool {
    exists|value: Seq<char>| #[trigger] has_option(args, name, value) && reads_as(value, n as nat)
}

/// Text that is a user, an at sign and a host.
pub open spec fn is_login(s: Seq<char>, user: Seq<char>, host: Seq<char>) -> bool {
    s == user.push('@') + host
}

proof fn lemma_login(user: Seq<char>, host: Seq<char>)
    ensures
        is_login(login(user, host), user, host),
{
    reveal_strlit("@");
    assert(login(user, host) =~= user.push('@') + host);
}

proof fn lemma_has_number(args: Seq<Seq<char>>, k: int, name: Seq<char>, n: u16)
    requires
        is_option(args, k, name, decimal(n as nat)),
    ensures
        has_number(args, name, n),
{
    lemma_decimal_reads(n as u64);
    assert(has_option(args, name, decimal(n as nat)));
}

proof fn lemma_has_option(args: Seq<Seq<char>>, k: int, name: Seq<char>, value: Seq<char>)
    requires
        is_option(args, k, name, value),
    ensures
        has_option(args, name, value),
{
}

/// An argument that is no flag of two characters that ends with `c`.
spec fn is_not_flag(arg: Seq<char>, c: char) -> bool {
    arg.len() != 2 || arg[0] != '-' || arg[1] != c
}

proof fn lemma_flag_is_first(args: Seq<Seq<char>>, flag: Seq<char>, k: int)
    requires
        0 <= k < args.len() - 1,
        args[k] == flag,
        flag.len() == 2,
        flag[0] == '-',
        forall|j: int| 0 <= j < k ==> is_not_flag(#[trigger] args[j], flag[1]),
    ensures
        after_flag(args, flag) == Some(args[k + 1]),
{
    assert forall|j: int| 0 <= j < k implies #[trigger] args[j] != flag by {
        assert(is_not_flag(args[j], flag[1]));
    }
    lemma_position_is(args, flag, k);
}

proof fn lemma_number_is_no_flag(n: u16, c: char)
    ensures
        is_not_flag(decimal(n as nat), c),
{
    lemma_decimal_reads(n as u64);
    assert(crate::text::is_digit(decimal(n as nat)[0]));
}

proof fn lemma_place_is_no_flag(host: Seq<char>, port: u16, c: char)
    ensures
        is_not_flag(endpoint(host, port), c),
{
    lemma_endpoint_is_place(host, port);
    let place = endpoint(host, port);
    let tail = crate::text::split(place, ':').last();
    assert(place[host.len() as int] == ':');
}

proof fn lemma_flags()
    ensures
        "-o"@ == seq!['-', 'o'],
        "-p"@ == seq!['-', 'p'],
        "-D"@ == seq!['-', 'D'],
        "-i"@ == seq!['-', 'i'],
        "-C"@ == seq!['-', 'C'],
        "-P"@ == seq!['-', 'P'],
        "-NT"@ == seq!['-', 'N', 'T'],
{
    reveal_strlit("-o");
    reveal_strlit("-p");
    reveal_strlit("-D");
    reveal_strlit("-i");
    reveal_strlit("-C");
    reveal_strlit("-P");
    reveal_strlit("-NT");
    assert("-o"@ =~= seq!['-', 'o']);
    assert("-p"@ =~= seq!['-', 'p']);
    assert("-D"@ =~= seq!['-', 'D']);
    assert("-i"@ =~= seq!['-', 'i']);
    assert("-C"@ =~= seq!['-', 'C']);
    assert("-P"@ =~= seq!['-', 'P']);
    assert("-NT"@ =~= seq!['-', 'N', 'T']);
}

proof fn lemma_option_names()
    ensures
        "ExitOnForwardFailure=yes"@.len() > 2,
        "ServerAliveInterval="@.len() > 2,
        "ServerAliveCountMax="@.len() > 2,
        "ConnectTimeout="@.len() > 2,
        "TCPKeepAlive=yes"@.len() > 2,
        "IdentitiesOnly=yes"@.len() > 2,
        "PasswordAuthentication=no"@.len() > 2,
        "BatchMode=yes"@.len() > 2,
        "StrictHostKeyChecking="@.len() > 2,
{
    reveal_strlit("ExitOnForwardFailure=yes");
    reveal_strlit("ServerAliveInterval=");
    reveal_strlit("ServerAliveCountMax=");
    reveal_strlit("ConnectTimeout=");
    reveal_strlit("TCPKeepAlive=yes");
    reveal_strlit("IdentitiesOnly=yes");
    reveal_strlit("PasswordAuthentication=no");
    reveal_strlit("BatchMode=yes");
    reveal_strlit("StrictHostKeyChecking=");
}

/// What stands before the flags with values in the arguments of a tunnel.
proof fn lemma_tunnel_front(
    server: ServerProfile,
    proxy: ProxyProfile,
    key_path: Seq<char>,
) -> (from: int)
    ensures
        ({
            let args = tunnel_arguments(server, proxy, key_path);
            &&& from == if server.compression {
                20int
            } else {
                19
            }
            &&& args.len() == from + 7
            &&& forall|j: int|
                0 <= j < from ==> is_not_flag(#[trigger] args[j], 'p') && is_not_flag(args[j], 'D')
                    && is_not_flag(args[j], 'i')
            &&& forall|j: int| 0 <= j < 19 ==> is_not_flag(#[trigger] args[j], 'C')
            &&& server.compression ==> args[19] == seq!['-', 'C']
            &&& args[from] == seq!['-', 'p']
            &&& args[from + 1] == decimal(server.port as nat)
            &&& args[from + 2] == seq!['-', 'D']
            &&& args[from + 3] == endpoint(proxy.host@, proxy.port)
            &&& args[from + 4] == seq!['-', 'i']
            &&& args[from + 5] == key_path
            &&& args[from + 6] == login(server.user@, server.host@)
        }),
{
    lemma_flags();
    lemma_option_names();
    let args = tunnel_arguments(server, proxy, key_path);
    if server.compression {
        20
    } else {
        19
    }
}

/// The arguments with which `ssh` carries a tunnel tell the whole profile: the
/// proxy's own address behind `-D`, the server's port behind `-p`, the key
/// behind `-i`, the limits and the way of checking host keys as options, `-C`
/// for compression and for nothing else, and whom to log in as at the end.
/// Nothing is asked of the user, and a tunnel whose proxy cannot listen ends.
pub proof fn law_tunnel_arguments_tell_the_profile(
    server: ServerProfile,
    proxy: ProxyProfile,
    key_path: Seq<char>,
)
    ensures
        ({
            let args = tunnel_arguments(server, proxy, key_path);
            &&& after_flag(args, seq!['-', 'D']) matches Some(place) && is_place(
                place,
                proxy.host@,
                proxy.port,
            )
            &&& after_flag(args, seq!['-', 'p']) matches Some(port) && reads_as(
                port,
                server.port as nat,
            )
            &&& after_flag(args, seq!['-', 'i']) == Some(key_path)
            &&& is_login(args.last(), server.user@, server.host@)
            &&& args[0] == seq!['-', 'N', 'T']
            &&& has_number(args, "ServerAliveInterval="@, server.server_alive_interval)
            &&& has_number(args, "ServerAliveCountMax="@, server.server_alive_count_max)
            &&& has_number(args, "ConnectTimeout="@, server.connect_timeout)
            &&& has_option(
                args,
                "StrictHostKeyChecking="@,
                server.strict_host_key_checking@,
            )
            &&& has_option(args, "ExitOnForwardFailure=yes"@, Seq::empty())
            &&& has_option(args, "TCPKeepAlive=yes"@, Seq::empty())
            &&& has_option(args, "IdentitiesOnly=yes"@, Seq::empty())
            &&& has_option(args, "PasswordAuthentication=no"@, Seq::empty())
            &&& has_option(args, "BatchMode=yes"@, Seq::empty())
            &&& args.contains(seq!['-', 'C']) <==> server.compression || key_path == seq!['-', 'C']
            &&& args.len() == if server.compression {
                27nat
            } else {
                26
            }
        }),
{
    let args = tunnel_arguments(server, proxy, key_path);
    let from = lemma_tunnel_front(server, proxy, key_path);
    lemma_flags();
    let place = endpoint(proxy.host@, proxy.port);
    lemma_endpoint_is_place(proxy.host@, proxy.port);
    lemma_decimal_reads(server.port as u64);
    lemma_login(server.user@, server.host@);
    lemma_number_is_no_flag(server.port, 'D');
    lemma_number_is_no_flag(server.port, 'i');
    lemma_number_is_no_flag(server.port, 'C');
    lemma_place_is_no_flag(proxy.host@, proxy.port, 'i');
    lemma_place_is_no_flag(proxy.host@, proxy.port, 'C');
    lemma_flag_is_first(args, seq!['-', 'p'], from);
    lemma_flag_is_first(args, seq!['-', 'D'], from + 2);
    lemma_flag_is_first(args, seq!['-', 'i'], from + 4);
    let nothing = Seq::<char>::empty();
    assert("ExitOnForwardFailure=yes"@ + nothing =~= "ExitOnForwardFailure=yes"@);
    assert("TCPKeepAlive=yes"@ + nothing =~= "TCPKeepAlive=yes"@);
    assert("IdentitiesOnly=yes"@ + nothing =~= "IdentitiesOnly=yes"@);
    assert("PasswordAuthentication=no"@ + nothing =~= "PasswordAuthentication=no"@);
    assert("BatchMode=yes"@ + nothing =~= "BatchMode=yes"@);
    lemma_has_option(args, 1, "ExitOnForwardFailure=yes"@, nothing);
    lemma_has_number(args, 3, "ServerAliveInterval="@, server.server_alive_interval);
    lemma_has_number(args, 5, "ServerAliveCountMax="@, server.server_alive_count_max);
    lemma_has_number(args, 7, "ConnectTimeout="@, server.connect_timeout);
    lemma_has_option(args, 9, "TCPKeepAlive=yes"@, nothing);
    lemma_has_option(args, 11, "IdentitiesOnly=yes"@, nothing);
    lemma_has_option(args, 13, "PasswordAuthentication=no"@, nothing);
    lemma_has_option(args, 15, "BatchMode=yes"@, nothing);
    lemma_has_option(args, 17, "StrictHostKeyChecking="@, server.strict_host_key_checking@);
    let flag = seq!['-', 'C'];
    if server.compression {
        assert(args[19] == flag);
    }
    if key_path == flag {
        assert(args[from + 5] == flag);
    }
    if args.contains(flag) && !server.compression && key_path != flag {
        let k = choose|k: int| 0 <= k < args.len() && args[k] == flag;
        assert(is_not_flag(args[k], 'C')) by {
            if k == from + 6 {
                assert(args[k][server.user@.len() as int] == '@');
            }
        }
    }
}

/// Two tunnels that are carried with the same arguments listen at the same
/// address, go to the same port with the same key and the same limits, and log
/// in alike.
pub proof fn law_tunnel_arguments_tell_apart(
    server: ServerProfile,
    proxy: ProxyProfile,
    key_path: Seq<char>,
    other: ServerProfile,
    other_proxy: ProxyProfile,
    other_path: Seq<char>,
)
    requires
        tunnel_arguments(server, proxy, key_path) == tunnel_arguments(
            other,
            other_proxy,
            other_path,
        ),
    ensures
        proxy.host@ == other_proxy.host@,
        proxy.port == other_proxy.port,
        server.port == other.port,
        key_path == other_path,
        server.compression == other.compression,
        server.server_alive_interval == other.server_alive_interval,
        server.server_alive_count_max == other.server_alive_count_max,
        server.connect_timeout == other.connect_timeout,
        server.strict_host_key_checking@ == other.strict_host_key_checking@,
        server.user@.push('@') + server.host@ == other.user@.push('@') + other.host@,
{
    let args = tunnel_arguments(server, proxy, key_path);
    let same = tunnel_arguments(other, other_proxy, other_path);
    let from = lemma_tunnel_front(server, proxy, key_path);
    let from2 = lemma_tunnel_front(other, other_proxy, other_path);
    assert(from == from2);
    law_endpoint_reads_back(proxy.host@, proxy.port, other_proxy.host@, other_proxy.port);
    assert(args[from + 3] == same[from + 3]);
    lemma_decimal_reads(server.port as u64);
    lemma_decimal_reads(other.port as u64);
    assert(args[from + 1] == same[from + 1]);
    assert(args[from + 5] == same[from + 5]);
    lemma_login(server.user@, server.host@);
    lemma_login(other.user@, other.host@);
    assert(args[from + 6] == same[from + 6]);
    lemma_numbers_tell_apart(
        "ServerAliveInterval="@,
        server.server_alive_interval,
        other.server_alive_interval,
        args[4],
        same[4],
    );
    lemma_numbers_tell_apart(
        "ServerAliveCountMax="@,
        server.server_alive_count_max,
        other.server_alive_count_max,
        args[6],
        same[6],
    );
    lemma_numbers_tell_apart(
        "ConnectTimeout="@,
        server.connect_timeout,
        other.connect_timeout,
        args[8],
        same[8],
    );
    let name = "StrictHostKeyChecking="@;
    assert(args[18] == name + server.strict_host_key_checking@);
    assert(same[18] == name + other.strict_host_key_checking@);
    assert(server.strict_host_key_checking@ =~= args[18].skip(name.len() as int));
    assert(other.strict_host_key_checking@ =~= args[18].skip(name.len() as int));
}

proof fn lemma_numbers_tell_apart(name: Seq<char>, n: u16, m: u16, a: Seq<char>, b: Seq<char>)
    requires
        a == name + decimal(n as nat),
        b == name + decimal(m as nat),
        a == b,
    ensures
        n == m,
{
    assert(decimal(n as nat) =~= a.skip(name.len() as int));
    assert(decimal(m as nat) =~= a.skip(name.len() as int));
    lemma_decimal_reads(n as u64);
    lemma_decimal_reads(m as u64);
}

/// The arguments with which `ssh` tries a key tell the profile too: its port
/// behind `-p`, the key behind `-i`, its time limit and its way of checking
/// host keys. Whom to log in as stands before the one command, which is to
/// leave again.
pub proof fn law_test_arguments_tell_the_profile(server: ServerProfile, key_path: Seq<char>)
    ensures
        ({
            let args = test_arguments(server, key_path);
            &&& args.len() == 16
            &&& after_flag(args, seq!['-', 'p']) matches Some(port) && reads_as(
                port,
                server.port as nat,
            )
            &&& after_flag(args, seq!['-', 'i']) == Some(key_path)
            &&& is_login(args[14], server.user@, server.host@)
            &&& args[15] == "exit"@
            &&& has_number(args, "ConnectTimeout="@, server.connect_timeout)
            &&& has_option(
                args,
                "StrictHostKeyChecking="@,
                server.strict_host_key_checking@,
            )
            &&& has_option(args, "IdentitiesOnly=yes"@, Seq::empty())
            &&& has_option(args, "PasswordAuthentication=no"@, Seq::empty())
            &&& has_option(args, "BatchMode=yes"@, Seq::empty())
        }),
{
    let args = test_arguments(server, key_path);
    lemma_flags();
    lemma_option_names();
    lemma_decimal_reads(server.port as u64);
    lemma_number_is_no_flag(server.port, 'i');
    lemma_login(server.user@, server.host@);
    lemma_flag_is_first(args, seq!['-', 'p'], 10);
    lemma_flag_is_first(args, seq!['-', 'i'], 12);
    let nothing = Seq::<char>::empty();
    assert("IdentitiesOnly=yes"@ + nothing =~= "IdentitiesOnly=yes"@);
    assert("PasswordAuthentication=no"@ + nothing =~= "PasswordAuthentication=no"@);
    assert("BatchMode=yes"@ + nothing =~= "BatchMode=yes"@);
    lemma_has_option(args, 0, "BatchMode=yes"@, nothing);
    lemma_has_option(args, 2, "PasswordAuthentication=no"@, nothing);
    lemma_has_option(args, 4, "IdentitiesOnly=yes"@, nothing);
    lemma_has_number(args, 6, "ConnectTimeout="@, server.connect_timeout);
    lemma_has_option(args, 8, "StrictHostKeyChecking="@, server.strict_host_key_checking@);
}

/// `curl` goes through the proxy that is to be verified, and through the one
/// that an address is asked for behind, if any; what is asked for ends with the
/// token. A question without a proxy names none.
pub proof fn law_curl_goes_through_the_proxy(
    proxy: ProxyProfile,
    token: Seq<char>,
    through: Option<ProxyProfile>,
)
    ensures
        ({
            let verify = verify_arguments(proxy);
            &&& verify.len() == 6
            &&& verify[3] == "--socks5-hostname"@ && is_place(verify[4], proxy.host@, proxy.port)
            &&& verify[1] == "--max-time"@ && reads_as(verify[2], 8)
            &&& verify[5] == "https://api.ipify.org"@
        }),
        ({
            let ask = ipinfo_request(token, through);
            &&& ask[1] == "--max-time"@ && reads_as(ask[2], 6)
            &&& ask.last() == "https://api.ipinfo.io/lite/me?token="@ + token
            &&& match through {
                Some(through) => ask.len() == 6 && ask[3] == "--socks5-hostname"@ && is_place(
                    ask[4],
                    through.host@,
                    through.port,
                ),
                None => ask.len() == 4,
            }
        }),
{
    lemma_endpoint_is_place(proxy.host@, proxy.port);
    match through {
        Some(through) => lemma_endpoint_is_place(through.host@, through.port),
        None => {},
    }
    reveal_strlit("8");
    reveal_strlit("6");
    lemma_decimal_reads(8);
    lemma_decimal_reads(6);
    assert("8"@ =~= decimal(8));
    assert("6"@ =~= decimal(6));
}

/// `nettop` is asked for the process that carries the tunnel, once.
pub proof fn law_nettop_is_told_the_process(pid: u32)
    ensures
        ({
            let args = nettop_request(pid);
            &&& args.len() == 6
            &&& after_flag(args, seq!['-', 'p']) matches Some(n) && reads_as(n, pid as nat)
            &&& args[3] == "-L"@ && reads_as(args[4], 1)
        }),
{
    lemma_flags();
    lemma_decimal_reads(pid as u64);
    lemma_decimal_reads(1);
    reveal_strlit("1");
    assert("1"@ =~= decimal(1));
    lemma_flag_is_first(nettop_request(pid), seq!['-', 'p'], 1);
}

/// A program that failed is quoted where it wrote anything but white space, and
/// nothing is added to what it wrote; else its exit status is told, whole and
/// last.
pub proof fn law_failures_are_quoted(ended: Seq<char>, status: Seq<char>, wrote: Seq<char>)
    ensures
        is_blank(wrote) ==> failure_of(ended, status, wrote) == ended + status,
        !is_blank(wrote) ==> exists|k: int| #[trigger]
            trimmed_at(wrote, failure_of(ended, status, wrote), k),
        !is_blank(wrote) ==> failure_of(ended, status, wrote).len() > 0,
{
    law_trimming_takes_white_ends(wrote);
    let k = choose|k: int| #[trigger] trimmed_at(wrote, trimmed(wrote), k);
    assert(!is_blank(wrote) ==> trimmed_at(wrote, failure_of(ended, status, wrote), k));
}

/// The public address is all that `curl` wrote but for white space around it,
/// and there is one exactly if `curl` wrote anything else.
pub proof fn law_public_address_is_what_was_written(wrote: Seq<char>)
    ensures
        public_address(wrote) is Ok <==> !is_blank(wrote),
        public_address(wrote) matches Ok(address) ==> exists|k: int| #[trigger]
            trimmed_at(wrote, address, k),
{
    law_trimming_takes_white_ends(wrote);
    let k = choose|k: int| #[trigger] trimmed_at(wrote, trimmed(wrote), k);
    if let Ok(address) = public_address(wrote) {
        assert(trimmed_at(wrote, address, k));
    }
}

/// A failure goes by what the program wrote of it and by its exit status, and
/// not by what else it wrote.
pub proof fn law_failures_go_by_what_was_written_of_them(
    ended: Seq<char>,
    report: CommandReport,
    stdout: Vec<u8>,
    success: bool,
)
    ensures
        failure(ended, CommandReport { stdout, success, ..report }) == failure(ended, report),
        valid_utf8(report.stderr@) ==> failure(ended, report) == failure_of(
            ended,
            report.status@,
            decode_utf8(report.stderr@),
        ),
{
}

/// Text that was encoded is decoded to itself.
pub proof fn law_decoding_gives_back(s: Seq<char>)
    ensures
        decoded(encode_utf8(s)) == s,
        utf8_text(encode_utf8(s)) == Ok::<Seq<char>, Seq<char>>(s),
{
    vstd::utf8::encode_utf8_valid_utf8(s);
    vstd::utf8::encode_utf8_decode_utf8(s);
}

} // verus!
