//! What is known of the public address: how it is read, kept and shown.
use crate::command::{failure, word_failure, CommandReport};
use crate::json::{get_text_member, json_from_bytes, json_of, parse_bytes, text_member, Json};
use crate::profile::ProxyProfile;
use crate::text::{chars_of, concat2, endpoint, endpoint_text, maybe_text, same_text, trim, trimmed};
use crate::unicode::{capital_letter, in_capitals};
use vstd::prelude::*;
use vstd::utf8::is_ascii_chars;

verus! {

/// What is known of the public address.
#[derive(Debug)]
pub struct IpInfo {
    pub ip: String,
    pub country_code: String,
    pub country_name: String,
}

impl Clone for IpInfo {
    fn clone(&self) -> (r: Self)
        ensures
            r == *self,
    {
        IpInfo {
            ip: self.ip.clone(),
            country_code: self.country_code.clone(),
            country_name: self.country_name.clone(),
        }
    }
}

/// Nothing is known.
pub open spec fn is_unknown(info: IpInfo) -> bool {
    info.ip@.len() == 0 && info.country_code@.len() == 0 && info.country_name@.len() == 0
}

impl Default for IpInfo {
    fn default() -> (r: Self)
        ensures
            is_unknown(r),
    {
        IpInfo { ip: String::new(), country_code: String::new(), country_name: String::new() }
    }
}

/// The text of a member, or nothing.
pub open spec fn text_or_empty(json: Json, key: Seq<char>) -> Seq<char> {
    match text_member(json, key) {
        Some(text) => text,
        None => Seq::empty(),
    }
}

/// What a document says of the public address.
pub open spec fn says(json: Json, info: IpInfo) -> bool {
    &&& info.ip@ == text_or_empty(json, "ip"@)
    &&& info.country_code@ == text_or_empty(json, "country_code"@)
    &&& info.country_name@ == text_or_empty(json, "country"@)
}

fn read_text(value: &serde_json::Value, key: &str) -> (r: String)
    ensures
        r@ == text_or_empty(json_of(*value), key@),
{
    match get_text_member(value, key) {
        Some(text) => text,
        None => String::new(),
    }
}

/// Reads what a document says of the public address. What it leaves out is
/// left empty.
pub fn read_ip_info(value: &serde_json::Value) -> (r: IpInfo)
    ensures
        says(json_of(*value), r),
{
    IpInfo {
        ip: read_text(value, "ip"),
        country_code: read_text(value, "country_code"),
        country_name: read_text(value, "country"),
    }
}

/// What a report of `curl` says of the public address, or why it says nothing.
pub fn fetch_ipinfo(report: &CommandReport) -> (r: Result<IpInfo, String>)
    ensures
        if !report.success {
            r is Err && r->Err_0@ == failure("curl exited with "@, *report)
        } else {
            match json_from_bytes(report.stdout@) {
                Ok(json) => r is Ok && says(json, r->Ok_0),
                Err(message) => r is Err && r->Err_0@ == message,
            }
        },
{
    if !report.success {
        return Err(word_failure("curl exited with ", report));
    }
    match parse_bytes(report.stdout.as_slice()) {
        Ok(value) => Ok(read_ip_info(&value)),
        Err(message) => Err(message),
    }
}

/// What was last found out, when, and behind which proxy.
#[derive(Debug)]
pub struct CachedIp {
    pub ts: u64,
    pub key: String,
    pub info: IpInfo,
}

/// How long, in seconds, what was found out stays good.
pub const CACHE_SECONDS: u64 = 60;

/// Whether what was found out still holds for a proxy.
pub open spec fn is_fresh(cached: CachedIp, proxy: ProxyProfile, now: u64) -> bool {
    cached.key@ == endpoint(proxy.host@, proxy.port) && now <= cached.ts + CACHE_SECONDS
}

/// Where what is known of the public address comes from.
#[derive(Debug)]
pub enum IpLookup {
    /// From nowhere: the tunnel is not running.
    Skip,
    /// From what was found out before.
    Cached(IpInfo),
    /// It is to be asked for.
    Fetch,
}

/// Decides where what is known of the public address comes from.
pub fn look_up_ip(state_name: &str, proxy: &ProxyProfile, cache: &Option<CachedIp>, now: u64) -> (r:
    IpLookup)
    ensures
        r == if state_name@ != "running"@ {
            IpLookup::Skip
        } else if cache is Some && is_fresh(cache->0, *proxy, now) {
            IpLookup::Cached(cache->0.info)
        } else {
            IpLookup::Fetch
        },
{
    if !same_text(state_name, "running") {
        return IpLookup::Skip;
    }
    match cache {
        Some(cached) => {
            let key = endpoint_text(proxy.host.as_str(), proxy.port);
            if same_text(cached.key.as_str(), key.as_str()) && now.saturating_sub(cached.ts)
                <= CACHE_SECONDS {
                IpLookup::Cached(cached.info.clone())
            } else {
                IpLookup::Fetch
            }
        },
        None => IpLookup::Fetch,
    }
}

/// What is known of the public address without asking: nothing where the tunnel
/// is not running, or what was found out before.
pub fn known_ip(found: IpLookup) -> (r: Option<IpInfo>)
    ensures
        match found {
            IpLookup::Skip => r is Some && is_unknown(r->0),
            IpLookup::Cached(info) => r == Some(info),
            IpLookup::Fetch => r is None,
        },
{
    match found {
        IpLookup::Skip => Some(IpInfo::default()),
        IpLookup::Cached(info) => Some(info),
        IpLookup::Fetch => None,
    }
}

/// Takes the answer to a question for the public address: what was found out
/// is kept, and a failure is to be logged. Without a token nothing was asked.
pub fn note_ip(
    answer: Result<Option<IpInfo>, String>,
    proxy: &ProxyProfile,
    now: u64,
    cache: &mut Option<CachedIp>,
) -> (r: (IpInfo, Option<String>))
    ensures
        match answer {
            Ok(Some(info)) => {
                &&& r == (info, None::<String>)
                &&& *final(cache) matches Some(kept) && kept.ts == now && kept.key@ == endpoint(
                    proxy.host@,
                    proxy.port,
                ) && kept.info == info
            },
            Ok(None) => is_unknown(r.0) && r.1 is None && *final(cache) == *old(cache),
            Err(error) => is_unknown(r.0) && maybe_text(r.1) == Some("IPinfo: "@ + error@)
                && *final(cache) == *old(cache),
        },
{
    match answer {
        Ok(Some(info)) => {
            *cache = Some(
                CachedIp {
                    ts: now,
                    key: endpoint_text(proxy.host.as_str(), proxy.port),
                    info: info.clone(),
                },
            );
            (info, None)
        },
        Ok(None) => (IpInfo::default(), None),
        Err(error) => (IpInfo::default(), Some(concat2("IPinfo: ", error.as_str()))),
    }
}

/// What was found out is used again for a minute, for a proxy at the same
/// address and for no other.
pub proof fn law_ip_info_is_kept_for_a_minute(
    kept: CachedIp,
    proxy: ProxyProfile,
    asked_at: u64,
    other: ProxyProfile,
    now: u64,
)
    requires
        kept.ts == asked_at,
        kept.key@ == endpoint(proxy.host@, proxy.port),
    ensures
        is_fresh(kept, proxy, now) <==> now <= asked_at + 60,
        is_fresh(kept, other, now) ==> endpoint(other.host@, other.port) == endpoint(
            proxy.host@,
            proxy.port,
        ),
{
}

/// Whether a character is a capital letter of ASCII.
pub open spec fn is_capital(c: char) -> bool {
    'A' <= c <= 'Z'
}

/// The flag of a country code in capital letters: two regional indicators. Any
/// other text has no flag.
pub open spec fn flag(code: Seq<char>) -> Seq<char> {
    if code.len() == 2 && is_capital(code[0]) && is_capital(code[1]) {
        seq![(127397 + code[0] as u32) as char, (127397 + code[1] as u32) as char]
    } else {
        Seq::empty()
    }
}

/// Draws the flag of a country code in capital letters.
pub fn draw_flag(code: &str) -> (r: String)
    ensures
        r@ == flag(code@),
{
    let letters = chars_of(code);
    let mut out = String::new();
    if letters.len() != 2 {
        return out;
    }
    let first: char = letters[0];
    let second: char = letters[1];
    if !('A' <= first && first <= 'Z' && 'A' <= second && second <= 'Z') {
        return out;
    }
    match char::from_u32(127397 + first as u32) {
        Some(c) => out.push(c),
        None => {},
    }
    match char::from_u32(127397 + second as u32) {
        Some(c) => out.push(c),
        None => {},
    }
    assert(out@ =~= flag(code@));
    out
}

/// Draws the flag of a country code, in whatever case it is written.
pub fn country_code_to_flag(cc: &str) -> (r: String)
    ensures
        r@ == flag(in_capitals(trimmed(cc@))),
{
    let code = trim(cc);
    let capitals = code.as_str().to_uppercase();
    draw_flag(capitals.as_str())
}

/// A flag is two regional indicators for two ASCII letters in either case, and
/// nothing for any other ASCII text.
pub proof fn law_flags_are_for_two_letters(code: Seq<char>)
    requires
        is_ascii_chars(code),
    ensures
        ({
            let drawn = flag(in_capitals(code));
            if code.len() == 2 && is_capital(capital_letter(code[0])) && is_capital(
                capital_letter(code[1]),
            ) {
                &&& drawn.len() == 2
                &&& 0x1f1e6 <= drawn[0] as u32 <= 0x1f1ff
                &&& 0x1f1e6 <= drawn[1] as u32 <= 0x1f1ff
            } else {
                drawn.len() == 0
            }
        }),
{
}

} // verus!
