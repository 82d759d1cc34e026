//! IP addresses as text.
use crate::text::{decimal, digits, joined, push_decimal, push_digits};
use vstd::prelude::*;
use vstd::string::StringExecFns;

verus! {

/// Four octets in decimal with dots between them.
pub open spec fn ipv4(octets: Seq<u8>) -> Seq<char> {
    decimal(octets[0] as nat) + "."@ + decimal(octets[1] as nat) + "."@ + decimal(octets[2] as nat)
        + "."@ + decimal(octets[3] as nat)
}

/// The eight 16-bit groups of an IPv6 address.
pub open spec fn groups(octets: Seq<u8>) -> Seq<nat> {
    Seq::new(8, |i: int| (256 * octets[2 * i] + octets[2 * i + 1]) as nat)
}

/// How many groups in a row are zero from `start` on.
pub open spec fn zero_run(groups: Seq<nat>, start: int) -> nat
    decreases groups.len() - start,
{
    if 0 <= start < groups.len() && groups[start] == 0 {
        1 + zero_run(groups, start + 1)
    } else {
        0
    }
}

/// Where the longest row of zeros begins that begins before `end`; the first
/// of them where several are as long.
pub open spec fn longest_run(groups: Seq<nat>, end: nat) -> int
    decreases end,
{
    if end == 0 {
        0
    } else {
        let best = longest_run(groups, (end - 1) as nat);
        if zero_run(groups, end - 1) > zero_run(groups, best) {
            end - 1
        } else {
            best
        }
    }
}

/// Groups in hexadecimal with colons between them.
pub open spec fn group_texts(groups: Seq<nat>) -> Seq<char> {
    joined(groups.map_values(|group: nat| digits(group, 16)), ':')
}

/// Whether an IPv6 address stands for an IPv4 one.
pub open spec fn is_mapped_ipv4(groups: Seq<nat>) -> bool {
    zero_run(groups, 0) == 5 && groups[5] == 0xffff
}

/// The short form of an IPv6 address: the longest row of two zero groups or
/// more, and the first of several such, is written `::`, and the last two
/// groups of a mapped IPv4 address are written as that address.
pub open spec fn ipv6(octets: Seq<u8>) -> Seq<char> {
    let all = groups(octets);
    let start = longest_run(all, 8);
    let length = zero_run(all, start);
    if is_mapped_ipv4(all) {
        "::ffff:"@ + ipv4(octets.skip(12))
    } else if length >= 2 {
        group_texts(all.take(start)) + "::"@ + group_texts(all.skip(start + length))
    } else {
        group_texts(all)
    }
}

/// Writes an IPv4 address, from four octets that begin at `at`.
pub fn ipv4_text(octets: &[u8], at: usize) -> (r: String)
    requires
        at + 4 <= octets@.len(),
    ensures
        r@ == ipv4(octets@.skip(at as int)),
{
    let mut out = String::new();
    push_decimal(&mut out, octets[at] as u64);
    out.append(".");
    push_decimal(&mut out, octets[at + 1] as u64);
    out.append(".");
    push_decimal(&mut out, octets[at + 2] as u64);
    out.append(".");
    push_decimal(&mut out, octets[at + 3] as u64);
    out
}

/// The groups of an address as machine numbers.
pub open spec fn group_values(groups: Seq<u64>) -> Seq<nat> {
    groups.map_values(|group: u64| group as nat)
}

fn zero_run_from(groups: &Vec<u64>, start: usize) -> (r: usize)
    requires
        start <= groups@.len(),
    ensures
        r == zero_run(group_values(groups@), start as int),
        start + r <= groups@.len(),
    decreases groups@.len() - start,
{
    if start < groups.len() && groups[start] == 0 {
        1 + zero_run_from(groups, start + 1)
    } else {
        0
    }
}

fn push_groups(out: &mut String, groups: &Vec<u64>, from: usize, to: usize)
    requires
        from <= to <= groups@.len(),
    ensures
        final(out)@ == old(out)@ + group_texts(
            group_values(groups@).subrange(from as int, to as int),
        ),
    decreases to - from,
{
    let ghost part = group_values(groups@).subrange(from as int, to as int);
    let ghost pieces = part.map_values(|group: nat| digits(group, 16));
    if from < to {
        let ghost front = group_values(groups@).subrange(from as int, to - 1);
        assert(pieces.drop_last() == front.map_values(|group: nat| digits(group, 16)));
        assert(pieces.last() == digits(groups@[to - 1] as nat, 16));
        push_groups(out, groups, from, to - 1);
        if from < to - 1 {
            out.push(':');
        }
        push_digits(out, groups[to - 1], 16);
    }
    assert(out@ == old(out)@ + group_texts(part));
}

/// Writes an IPv6 address in its short form.
pub fn ipv6_text(octets: &[u8]) -> (r: String)
    requires
        octets@.len() == 16,
    ensures
        r@ == ipv6(octets@),
{
    let mut parts: Vec<u64> = Vec::new();
    let mut i: usize = 0;
    while i < 8
        invariant
            i <= 8,
            octets@.len() == 16,
            parts@.len() == i,
            group_values(parts@) == groups(octets@).take(i as int),
        decreases 8 - i,
    {
        let ghost before = group_values(parts@);
        parts.push(256 * octets[2 * i] as u64 + octets[2 * i + 1] as u64);
        assert(group_values(parts@) == before.push(groups(octets@)[i as int]));
        i += 1;
    }
    let ghost all = groups(octets@);
    assert(group_values(parts@) == all);
    if zero_run_from(&parts, 0) == 5 && parts[5] == 0xffff {
        assert(all[5] == parts@[5]);
        let mut out = "::ffff:".to_owned();
        let tail = ipv4_text(octets, 12);
        out.append(tail.as_str());
        return out;
    }
    assert(all[5] == parts@[5]);
    let mut start: usize = 0;
    let mut length: usize = zero_run_from(&parts, 0);
    i = 1;
    assert(longest_run(all, 0) == 0);
    assert(longest_run(all, 1) == 0);
    while i < 8
        invariant
            1 <= i <= 8,
            parts@.len() == 8,
            group_values(parts@) == all,
            start == longest_run(all, i as nat),
            length == zero_run(all, start as int),
            start + length <= 8,
        decreases 8 - i,
    {
        let run: usize = zero_run_from(&parts, i);
        if run > length {
            start = i;
            length = run;
        }
        i += 1;
    }
    let mut out = String::new();
    if length >= 2 {
        push_groups(&mut out, &parts, 0, start);
        out.append("::");
        push_groups(&mut out, &parts, start + length, 8);
        assert(all.take(start as int) == all.subrange(0, start as int));
        assert(all.skip(start + length) == all.subrange(start + length, 8));
    } else {
        push_groups(&mut out, &parts, 0, 8);
        assert(all.subrange(0, 8) == all);
    }
    out
}

/// The row of zeros that is left out is the longest, and no row before it is
/// as long.
pub proof fn law_longest_run_is_longest(groups: Seq<nat>, j: int)
    requires
        0 <= j < groups.len(),
    ensures
        0 <= longest_run(groups, groups.len()) < groups.len(),
        zero_run(groups, j) <= zero_run(groups, longest_run(groups, groups.len())),
        j < longest_run(groups, groups.len()) ==> zero_run(groups, j) < zero_run(
            groups,
            longest_run(groups, groups.len()),
        ),
{
    lemma_longest_run(groups, groups.len(), j);
}

proof fn lemma_longest_run(groups: Seq<nat>, end: nat, j: int)
    requires
        0 <= j < end,
    ensures
        0 <= longest_run(groups, end) < end,
        zero_run(groups, j) <= zero_run(groups, longest_run(groups, end)),
        j < longest_run(groups, end) ==> zero_run(groups, j) < zero_run(
            groups,
            longest_run(groups, end),
        ),
    decreases end,
{
    if end > 1 {
        lemma_longest_run(groups, (end - 1) as nat, if j < end - 1 { j } else { 0 });
    } else {
        assert(longest_run(groups, 0) == 0);
    }
}

} // verus!
