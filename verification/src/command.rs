//! The programs that are run beside the application: what they are told, and
//! what is made of what they report.
use crate::embedded::{login, login_text};
use crate::profile::{ProxyProfile, ServerProfile};
use crate::text::{
    concat2, decimal, endpoint, endpoint_text, push_decimal, texts, trim, trimmed,
};
use crate::unicode::{decode_lossy, decoded};
use vstd::prelude::*;

verus! {

/// How a program ended and what it wrote.
#[derive(Debug)]
pub struct CommandReport {
    /// Whether it ended well.
    pub success: bool,
    /// Its exit status in words.
    pub status: String,
    pub stdout: Vec<u8>,
    pub stderr: Vec<u8>,
}

/// Why a program failed: what it wrote of it, or its exit status.
pub open spec fn failure(ended: Seq<char>, report: CommandReport) -> Seq<char> {
    failure_of(ended, report.status@, decoded(report.stderr@))
}

/// Why a program failed, from what it wrote of it as text.
pub open spec fn failure_of(ended: Seq<char>, status: Seq<char>, wrote: Seq<char>) -> Seq<char> {
    if trimmed(wrote).len() == 0 {
        ended + status
    } else {
        trimmed(wrote)
    }
}

/// Words the failure of a program, from what it wrote of it as text.
pub fn word_failure_of(ended: &str, status: &str, wrote: &str) -> (r: String)
    ensures
        r@ == failure_of(ended@, status@, wrote@),
{
    let said = trim(wrote);
    if said.as_str().is_empty() {
        concat2(ended, status)
    } else {
        said
    }
}

/// Words the failure of a program. `ended` stands before its exit status.
pub fn word_failure(ended: &str, report: &CommandReport) -> (r: String)
    ensures
        r@ == failure(ended@, *report),
{
    let wrote = decode_lossy(report.stderr.as_slice());
    word_failure_of(ended, report.status.as_str(), wrote.as_str())
}

fn add_text(list: &mut Vec<String>, text: &str)
    ensures
        texts(final(list)@) == texts(old(list)@).push(text@),
{
    list.push(text.to_owned());
    assert(texts(list@) =~= texts(old(list)@).push(text@));
}

fn add_number(list: &mut Vec<String>, label: &str, n: u16)
    ensures
        texts(final(list)@) == texts(old(list)@).push(label@ + decimal(n as nat)),
{
    let mut text = label.to_owned();
    push_decimal(&mut text, n as u64);
    list.push(text);
    assert(texts(list@) =~= texts(old(list)@).push(label@ + decimal(n as nat)));
}

/// The arguments with which `ssh` carries a tunnel.
pub open spec fn tunnel_arguments(
    server: ServerProfile,
    proxy: ProxyProfile,
    key_path: Seq<char>,
) -> Seq<Seq<char>> {
    seq![
        "-NT"@,
        "-o"@,
        "ExitOnForwardFailure=yes"@,
        "-o"@,
        "ServerAliveInterval="@ + decimal(server.server_alive_interval as nat),
        "-o"@,
        "ServerAliveCountMax="@ + decimal(server.server_alive_count_max as nat),
        "-o"@,
        "ConnectTimeout="@ + decimal(server.connect_timeout as nat),
        "-o"@,
        "TCPKeepAlive=yes"@,
        "-o"@,
        "IdentitiesOnly=yes"@,
        "-o"@,
        "PasswordAuthentication=no"@,
        "-o"@,
        "BatchMode=yes"@,
        "-o"@,
        "StrictHostKeyChecking="@ + server.strict_host_key_checking@,
    ] + (if server.compression {
        seq!["-C"@]
    } else {
        Seq::empty()
    }) + seq![
        "-p"@,
        decimal(server.port as nat),
        "-D"@,
        endpoint(proxy.host@, proxy.port),
        "-i"@,
        key_path,
        login(server.user@, server.host@),
    ]
}

/// Writes the arguments with which `ssh` carries a tunnel.
pub fn ssh_tunnel_arguments(server: &ServerProfile, proxy: &ProxyProfile, key_path: &str) -> (r:
    Vec<String>)
    ensures
        texts(r@) == tunnel_arguments(*server, *proxy, key_path@),
{
    let mut args: Vec<String> = Vec::new();
    assert(texts(args@) == Seq::<Seq<char>>::empty());
    add_text(&mut args, "-NT");
    add_text(&mut args, "-o");
    add_text(&mut args, "ExitOnForwardFailure=yes");
    add_text(&mut args, "-o");
    add_number(&mut args, "ServerAliveInterval=", server.server_alive_interval);
    add_text(&mut args, "-o");
    add_number(&mut args, "ServerAliveCountMax=", server.server_alive_count_max);
    add_text(&mut args, "-o");
    add_number(&mut args, "ConnectTimeout=", server.connect_timeout);
    add_text(&mut args, "-o");
    add_text(&mut args, "TCPKeepAlive=yes");
    add_text(&mut args, "-o");
    add_text(&mut args, "IdentitiesOnly=yes");
    add_text(&mut args, "-o");
    add_text(&mut args, "PasswordAuthentication=no");
    add_text(&mut args, "-o");
    add_text(&mut args, "BatchMode=yes");
    add_text(&mut args, "-o");
    let checking = concat2("StrictHostKeyChecking=", server.strict_host_key_checking.as_str());
    add_text(&mut args, checking.as_str());
    if server.compression {
        add_text(&mut args, "-C");
    }
    let place = endpoint_text(proxy.host.as_str(), proxy.port);
    let destination = login_text(server.user.as_str(), server.host.as_str());
    add_text(&mut args, "-p");
    add_port(&mut args, server.port);
    add_text(&mut args, "-D");
    add_text(&mut args, place.as_str());
    add_text(&mut args, "-i");
    add_text(&mut args, key_path);
    add_text(&mut args, destination.as_str());
    assert(texts(args@) =~= tunnel_arguments(*server, *proxy, key_path@));
    args
}

fn add_port(list: &mut Vec<String>, port: u16)
    ensures
        texts(final(list)@) == texts(old(list)@).push(decimal(port as nat)),
{
    let mut text = String::new();
    push_decimal(&mut text, port as u64);
    assert(text@ == decimal(port as nat));
    list.push(text);
    assert(texts(list@) =~= texts(old(list)@).push(decimal(port as nat)));
}

/// The arguments with which `ssh` tries whether a server accepts the key.
pub open spec fn test_arguments(server: ServerProfile, key_path: Seq<char>) -> Seq<Seq<char>> {
    seq![
        "-o"@,
        "BatchMode=yes"@,
        "-o"@,
        "PasswordAuthentication=no"@,
        "-o"@,
        "IdentitiesOnly=yes"@,
        "-o"@,
        "ConnectTimeout="@ + decimal(server.connect_timeout as nat),
        "-o"@,
        "StrictHostKeyChecking="@ + server.strict_host_key_checking@,
        "-p"@,
        decimal(server.port as nat),
        "-i"@,
        key_path,
        login(server.user@, server.host@),
        "exit"@,
    ]
}

/// Writes the arguments with which `ssh` tries whether a server accepts the
/// key.
pub fn ssh_test_arguments(server: &ServerProfile, key_path: &str) -> (r: Vec<String>)
    ensures
        texts(r@) == test_arguments(*server, key_path@),
{
    let mut args: Vec<String> = Vec::new();
    assert(texts(args@) == Seq::<Seq<char>>::empty());
    add_text(&mut args, "-o");
    add_text(&mut args, "BatchMode=yes");
    add_text(&mut args, "-o");
    add_text(&mut args, "PasswordAuthentication=no");
    add_text(&mut args, "-o");
    add_text(&mut args, "IdentitiesOnly=yes");
    add_text(&mut args, "-o");
    add_number(&mut args, "ConnectTimeout=", server.connect_timeout);
    add_text(&mut args, "-o");
    let checking = concat2("StrictHostKeyChecking=", server.strict_host_key_checking.as_str());
    add_text(&mut args, checking.as_str());
    add_text(&mut args, "-p");
    add_port(&mut args, server.port);
    add_text(&mut args, "-i");
    add_text(&mut args, key_path);
    let destination = login_text(server.user.as_str(), server.host.as_str());
    add_text(&mut args, destination.as_str());
    add_text(&mut args, "exit");
    assert(texts(args@) =~= test_arguments(*server, key_path@));
    args
}

/// The arguments with which `curl` asks for the public address through a
/// proxy.
pub open spec fn verify_arguments(proxy: ProxyProfile) -> Seq<Seq<char>> {
    seq![
        "-sS"@,
        "--max-time"@,
        "8"@,
        "--socks5-hostname"@,
        endpoint(proxy.host@, proxy.port),
        "https://api.ipify.org"@,
    ]
}

/// Writes the arguments with which `curl` asks for the public address through
/// a proxy.
pub fn curl_verify_arguments(proxy: &ProxyProfile) -> (r: Vec<String>)
    ensures
        texts(r@) == verify_arguments(*proxy),
{
    let mut args: Vec<String> = Vec::new();
    assert(texts(args@) == Seq::<Seq<char>>::empty());
    add_text(&mut args, "-sS");
    add_text(&mut args, "--max-time");
    add_text(&mut args, "8");
    add_text(&mut args, "--socks5-hostname");
    let place = endpoint_text(proxy.host.as_str(), proxy.port);
    add_text(&mut args, place.as_str());
    add_text(&mut args, "https://api.ipify.org");
    assert(texts(args@) =~= verify_arguments(*proxy));
    args
}

/// The public address in what `curl` wrote, as text.
pub open spec fn public_address(wrote: Seq<char>) -> Result<Seq<char>, Seq<char>> {
    if trimmed(wrote).len() == 0 {
        Err("Proxy verification returned empty response"@)
    } else {
        Ok(trimmed(wrote))
    }
}

/// A text, or what is wrong.
pub open spec fn text_outcome(r: Result<String, String>) -> Result<Seq<char>, Seq<char>> {
    match r {
        Ok(text) => Ok(text@),
        Err(message) => Err(message@),
    }
}

/// Reads the public address from what `curl` wrote, as text.
pub fn read_public_address(wrote: &str) -> (r: Result<String, String>)
    ensures
        text_outcome(r) == public_address(wrote@),
{
    let address = trim(wrote);
    if address.as_str().is_empty() {
        Err("Proxy verification returned empty response".to_owned())
    } else {
        Ok(address)
    }
}

/// What a report of `curl` says of a proxy: the public address behind it, or
/// why there is none.
pub fn verify_proxy(report: &CommandReport) -> (r: Result<String, String>)
    ensures
        text_outcome(r) == if report.success {
            public_address(decoded(report.stdout@))
        } else {
            Err(failure("curl exited with "@, *report))
        },
{
    if !report.success {
        return Err(word_failure("curl exited with ", report));
    }
    let wrote = decode_lossy(report.stdout.as_slice());
    read_public_address(wrote.as_str())
}

/// The arguments with which `curl` asks for what is known of the public
/// address, through a proxy if one is given.
pub open spec fn ipinfo_request(token: Seq<char>, proxy: Option<ProxyProfile>) -> Seq<Seq<char>> {
    seq!["-sS"@, "--max-time"@, "6"@] + (match proxy {
        Some(proxy) => seq!["--socks5-hostname"@, endpoint(proxy.host@, proxy.port)],
        None => Seq::empty(),
    }) + seq!["https://api.ipinfo.io/lite/me?token="@ + token]
}

/// Writes the arguments with which `curl` asks for what is known of the public
/// address. Without a token nothing is asked.
pub fn ipinfo_arguments(token: &str, proxy: Option<&ProxyProfile>) -> (r: Option<Vec<String>>)
    ensures
        match r {
            Some(args) => trimmed(token@).len() > 0 && texts(args@) == ipinfo_request(
                trimmed(token@),
                match proxy {
                    Some(proxy) => Some(*proxy),
                    None => None,
                },
            ),
            None => trimmed(token@).len() == 0,
        },
{
    let token = trim(token);
    if token.as_str().is_empty() {
        return None;
    }
    let mut args: Vec<String> = Vec::new();
    assert(texts(args@) == Seq::<Seq<char>>::empty());
    add_text(&mut args, "-sS");
    add_text(&mut args, "--max-time");
    add_text(&mut args, "6");
    match proxy {
        Some(proxy) => {
            add_text(&mut args, "--socks5-hostname");
            let place = endpoint_text(proxy.host.as_str(), proxy.port);
            add_text(&mut args, place.as_str());
        },
        None => {},
    }
    let url = concat2("https://api.ipinfo.io/lite/me?token=", token.as_str());
    add_text(&mut args, url.as_str());
    assert(texts(args@) =~= ipinfo_request(
        token@,
        match proxy {
            Some(proxy) => Some(*proxy),
            None => None,
        },
    ));
    Some(args)
}

/// The arguments with which `nettop` reports the traffic of a process.
pub open spec fn nettop_request(pid: u32) -> Seq<Seq<char>> {
    seq!["-P"@, "-p"@, decimal(pid as nat), "-L"@, "1"@, "-x"@]
}

/// Writes the arguments with which `nettop` reports the traffic of a process.
pub fn nettop_arguments(pid: u32) -> (r: Vec<String>)
    ensures
        texts(r@) == nettop_request(pid),
{
    let mut args: Vec<String> = Vec::new();
    assert(texts(args@) == Seq::<Seq<char>>::empty());
    add_text(&mut args, "-P");
    add_text(&mut args, "-p");
    let mut number = String::new();
    push_decimal(&mut number, pid as u64);
    assert(number@ == decimal(pid as nat));
    add_text(&mut args, number.as_str());
    add_text(&mut args, "-L");
    add_text(&mut args, "1");
    add_text(&mut args, "-x");
    assert(texts(args@) =~= nettop_request(pid));
    args
}

} // verus!
