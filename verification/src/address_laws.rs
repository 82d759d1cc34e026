//! The text of an IP address stands for that address and for no other.
use crate::address::{
    group_texts, groups, ipv4, ipv6, is_mapped_ipv4, law_longest_run_is_longest, longest_run,
    zero_run,
};
use crate::text::{decimal, digits, joined, split};
use crate::text_laws::{
    law_digits_read_back, law_split_at_separator, law_split_of_plain_text, lemma_decimal_reads,
    number_in, reads_as,
};
use vstd::prelude::*;

verus! {

/// Four numbers with dots between them, which are these octets.
pub open spec fn is_dotted(s: Seq<char>, octets: Seq<u8>) -> bool {
    let pieces = split(s, '.');
    &&& pieces.len() == 4
    &&& forall|i: int| 0 <= i < 4 ==> reads_as(#[trigger] pieces[i], octets[i] as nat)
}

/// The text of an IPv4 address has four pieces between its dots, and each reads
/// back as its octet. So two addresses never have the same text.
pub proof fn law_ipv4_reads_back(octets: Seq<u8>, other: Seq<u8>)
    requires
        octets.len() == 4,
        other.len() == 4,
    ensures
        is_dotted(ipv4(octets), octets),
        ipv4(octets) == ipv4(other) ==> octets == other,
{
    lemma_dotted(octets);
    lemma_dotted(other);
    if ipv4(octets) == ipv4(other) {
        let pieces = split(ipv4(octets), '.');
        assert forall|i: int| 0 <= i < 4 implies octets[i] == other[i] by {
            assert(reads_as(pieces[i], octets[i] as nat));
            assert(reads_as(pieces[i], other[i] as nat));
        }
        assert(octets =~= other);
    }
}

pub proof fn lemma_dotted(octets: Seq<u8>)
    requires
        octets.len() >= 4,
    ensures
        is_dotted(ipv4(octets), octets),
{
    let a = decimal(octets[0] as nat);
    let b = decimal(octets[1] as nat);
    let c = decimal(octets[2] as nat);
    let d = decimal(octets[3] as nat);
    lemma_decimal_reads(octets[0] as u64);
    lemma_decimal_reads(octets[1] as u64);
    lemma_decimal_reads(octets[2] as u64);
    lemma_decimal_reads(octets[3] as u64);
    law_split_of_plain_text(a, '.');
    law_split_of_plain_text(b, '.');
    law_split_of_plain_text(c, '.');
    law_split_of_plain_text(d, '.');
    law_split_at_separator(a, b, '.');
    let ab = a.push('.') + b;
    law_split_at_separator(ab, c, '.');
    let abc = ab.push('.') + c;
    law_split_at_separator(abc, d, '.');
    reveal_strlit(".");
    assert(ipv4(octets) =~= abc.push('.') + d);
    assert(split(ipv4(octets), '.') =~= seq![a, b, c, d]);
}

/// The groups that a row of hexadecimal numbers with colons between them stands
/// for.
pub open spec fn hex_groups(s: Seq<char>) -> Seq<nat> {
    if s.len() == 0 {
        Seq::empty()
    } else {
        split(s, ':').map_values(|piece: Seq<char>| number_in(piece, 16))
    }
}

/// An IPv6 address with `::` in place of two zero groups or more.
pub open spec fn is_shortened(s: Seq<char>, front: Seq<char>, back: Seq<char>, all: Seq<nat>) -> bool {
    let missing = all.len() - hex_groups(front).len() - hex_groups(back).len();
    &&& s == front + seq![':', ':'] + back
    &&& missing >= 2
    &&& all == hex_groups(front) + Seq::new(missing as nat, |i: int| 0nat) + hex_groups(back)
}

/// A text that stands for the eight groups of an IPv6 address: all of them in
/// hexadecimal, or with `::` in place of zeros.
pub open spec fn stands_for(s: Seq<char>, all: Seq<nat>) -> bool {
    ||| hex_groups(s) == all
    ||| exists|front: Seq<char>, back: Seq<char>| #[trigger] is_shortened(s, front, back, all)
}

/// The groups of an IPv6 address: two octets each, the first in front.
pub open spec fn are_groups(all: Seq<nat>, octets: Seq<u8>) -> bool {
    &&& all.len() == 8
    &&& forall|i: int| 0 <= i < 8 ==> #[trigger] all[i] == 256 * octets[2 * i] + octets[2 * i + 1]
}

proof fn lemma_split_of_joined(pieces: Seq<Seq<char>>, separator: char)
    requires
        pieces.len() > 0,
        forall|i: int| 0 <= i < pieces.len() ==> !(#[trigger] pieces[i]).contains(separator),
    ensures
        split(joined(pieces, separator), separator) == pieces,
    decreases pieces.len(),
{
    if pieces.len() == 1 {
        assert(!pieces[0].contains(separator));
        law_split_of_plain_text(pieces[0], separator);
        assert(seq![pieces[0]] =~= pieces);
    } else {
        let front = pieces.drop_last();
        assert forall|i: int| 0 <= i < front.len() implies !(#[trigger] front[i]).contains(
            separator,
        ) by {
            assert(front[i] == pieces[i]);
        }
        lemma_split_of_joined(front, separator);
        assert(!pieces[pieces.len() - 1].contains(separator));
        law_split_of_plain_text(pieces.last(), separator);
        law_split_at_separator(joined(front, separator), pieces.last(), separator);
        assert(front + seq![pieces.last()] =~= pieces);
    }
}

proof fn lemma_groups_read_back(all: Seq<nat>)
    ensures
        hex_groups(group_texts(all)) == all,
{
    let pieces = all.map_values(|group: nat| digits(group, 16));
    if all.len() == 0 {
        assert(group_texts(all).len() == 0);
        assert(hex_groups(group_texts(all)) =~= all);
    } else {
        assert forall|i: int| 0 <= i < pieces.len() implies !(#[trigger] pieces[i]).contains(
            ':',
        ) && number_in(pieces[i], 16) == all[i] by {
            law_digits_read_back(all[i], 16);
            assert forall|k: int| 0 <= k < pieces[i].len() implies pieces[i][k] != ':' by {
                assert('0' <= digits(all[i], 16)[k] <= '9' || 'a' <= digits(all[i], 16)[k] <= 'f');
            }
        }
        lemma_split_of_joined(pieces, ':');
        assert(group_texts(all).len() > 0) by {
            if group_texts(all).len() == 0 {
                law_split_of_plain_text(group_texts(all), ':');
                assert(pieces[0].len() == 0);
                law_digits_read_back(all[0], 16);
            }
        }
        assert(hex_groups(group_texts(all)) =~= all);
    }
}

proof fn lemma_run_is_zero(all: Seq<nat>, start: int)
    requires
        0 <= start,
    ensures
        start <= all.len() ==> start + zero_run(all, start) <= all.len(),
        forall|i: int| start <= i < start + zero_run(all, start) ==> all[i] == 0,
    decreases all.len() - start,
{
    if start < all.len() && all[start] == 0 {
        lemma_run_is_zero(all, start + 1);
    }
}

/// The text of an IPv6 address stands for its eight groups; a mapped IPv4
/// address stands in dots behind `::ffff:`.
pub proof fn law_ipv6_stands_for_its_groups(octets: Seq<u8>)
    requires
        octets.len() == 16,
    ensures
        exists|all: Seq<nat>| #[trigger]
            are_groups(all, octets) && if (forall|i: int| 0 <= i < 5 ==> all[i] == 0) && all[5]
                == 0xffff {
                exists|tail: Seq<char>| #[trigger]
                    is_dotted(tail, octets.skip(12)) && ipv6(octets) == seq![
                        ':',
                        ':',
                        'f',
                        'f',
                        'f',
                        'f',
                        ':',
                    ] + tail
            } else {
                stands_for(ipv6(octets), all)
            },
{
    let all = groups(octets);
    assert(are_groups(all, octets));
    lemma_run_is_zero(all, 0);
    lemma_leading_zeros(all);
    if (forall|i: int| 0 <= i < 5 ==> all[i] == 0) && all[5] == 0xffff {
        assert(is_mapped_ipv4(all));
        let tail = ipv4(octets.skip(12));
        lemma_dotted(octets.skip(12));
        reveal_strlit("::ffff:");
        assert(ipv6(octets) =~= seq![':', ':', 'f', 'f', 'f', 'f', ':'] + tail);
        assert(is_dotted(tail, octets.skip(12)));
    } else {
        assert(!is_mapped_ipv4(all));
        let start = longest_run(all, 8);
        let length = zero_run(all, start);
        law_longest_run_is_longest(all, 0);
        lemma_run_is_zero(all, start);
        if length >= 2 {
            let front = group_texts(all.take(start));
            let back = group_texts(all.skip(start + length));
            lemma_groups_read_back(all.take(start));
            lemma_groups_read_back(all.skip(start + length));
            reveal_strlit("::");
            assert("::"@ =~= seq![':', ':']);
            assert(all =~= all.take(start) + Seq::new(length, |i: int| 0nat) + all.skip(
                start + length,
            ));
            assert(is_shortened(ipv6(octets), front, back, all));
        } else {
            lemma_groups_read_back(all);
        }
    }
}

proof fn lemma_leading_zeros(all: Seq<nat>)
    requires
        all.len() == 8,
    ensures
        zero_run(all, 0) == 5 && all[5] == 0xffff <==> (forall|i: int|
            0 <= i < 5 ==> all[i] == 0) && all[5] == 0xffff,
{
    lemma_run_is_zero(all, 0);
    reveal_with_fuel(zero_run, 7);
}

} // verus!
