//! How texts are taken apart again: what trimming leaves, what lines, numbers
//! and addresses read back as.
use crate::text::{
    all_digits, decimal, digit_char, digits, digits_value, endpoint, is_blank, is_digit, is_white,
    law_decimal_reads_back, lines, split, trim_back, trim_front, trimmed, unsigned_value,
    without_return,
};
use vstd::prelude::*;

verus! {

/// Text that begins with another.
pub open spec fn starts_with(s: Seq<char>, front: Seq<char>) -> bool {
    front.len() <= s.len() && s.take(front.len() as int) == front
}

/// Text that ends with another.
pub open spec fn ends_with(s: Seq<char>, back: Seq<char>) -> bool {
    back.len() <= s.len() && s.skip(s.len() - back.len()) == back
}

/// Text that is a number in decimal digits alone.
pub open spec fn reads_as(s: Seq<char>, n: nat) -> bool {
    &&& all_digits(s)
    &&& n <= u64::MAX
    &&& unsigned_value(s) == Some(n as u64)
}

/// What is written in decimal is made of digits and reads back.
pub proof fn lemma_decimal_reads(n: u64)
    ensures
        reads_as(decimal(n as nat), n as nat),
        decimal(n as nat).len() > 0,
        !decimal(n as nat).contains('.'),
        !decimal(n as nat).contains(':'),
        !decimal(n as nat).contains(','),
        !decimal(n as nat).contains('\n'),
{
    law_decimal_reads_back(n);
    lemma_decimal_is_digits(n as nat);
    lemma_digits_hold_no(decimal(n as nat), '.');
    lemma_digits_hold_no(decimal(n as nat), ':');
    lemma_digits_hold_no(decimal(n as nat), ',');
    lemma_digits_hold_no(decimal(n as nat), '\n');
}

proof fn lemma_digits_hold_no(s: Seq<char>, c: char)
    requires
        all_digits(s),
        !is_digit(c),
    ensures
        !s.contains(c),
{
    assert forall|i: int| 0 <= i < s.len() implies s[i] != c by {
        assert(is_digit(s[i]));
    }
}

proof fn lemma_decimal_is_digits(n: nat)
    ensures
        all_digits(decimal(n)),
    decreases n,
{
    if n >= 10 {
        lemma_decimal_is_digits(n / 10);
        let s = decimal(n);
        assert forall|i: int| 0 <= i < s.len() implies is_digit(#[trigger] s[i]) by {
            if i < s.len() - 1 {
                assert(s[i] == decimal(n / 10)[i]);
            }
        }
    }
}

/// A number is read digit by digit: one more digit makes it ten times as large
/// and adds the digit, and a zero in front changes nothing. Nothing that holds
/// another character, but for one plus sign in front, is a number.
pub proof fn law_numbers_are_positional(s: Seq<char>, d: nat)
    requires
        d < 10,
    ensures
        all_digits(s) && 10 * digits_value(s) + d <= u64::MAX ==> unsigned_value(
            s.push((48 + d) as char),
        ) == Some((10 * digits_value(s) + d) as u64),
        all_digits(s) ==> unsigned_value(seq!['0'] + s) == unsigned_value(s),
        all_digits(s) ==> unsigned_value(seq!['+'] + s) == unsigned_value(s),
        all_digits(s) ==> (unsigned_value(s) is Some <==> digits_value(s) <= u64::MAX),
        unsigned_value(s) is Some ==> all_digits(s) || (s.len() > 1 && s[0] == '+' && all_digits(
            s.skip(1),
        )),
{
    let longer = s.push((48 + d) as char);
    if all_digits(s) {
        assert(is_digit(s[0]));
        assert(longer.drop_last() == s);
        assert(all_digits(longer)) by {
            assert forall|i: int| 0 <= i < longer.len() implies is_digit(#[trigger] longer[i]) by {
                if i < s.len() {
                    assert(longer[i] == s[i]);
                }
            }
        }
        assert(longer[0] == s[0]);
        let zeroed = seq!['0'] + s;
        lemma_zero_in_front(s);
        assert(all_digits(zeroed)) by {
            assert forall|i: int| 0 <= i < zeroed.len() implies is_digit(#[trigger] zeroed[i]) by {
                if i > 0 {
                    assert(zeroed[i] == s[i - 1]);
                }
            }
        }
        assert(zeroed[0] == '0');
        let signed = seq!['+'] + s;
        assert(signed[0] == '+');
        assert(signed.skip(1) == s);
    }
}

proof fn lemma_zero_in_front(s: Seq<char>)
    ensures
        digits_value(seq!['0'] + s) == digits_value(s),
    decreases s.len(),
{
    let zeroed = seq!['0'] + s;
    if s.len() == 0 {
        assert(zeroed.drop_last() =~= Seq::<char>::empty());
        assert(digits_value(zeroed.drop_last()) == 0);
        assert(zeroed.last() == '0');
    } else {
        assert(zeroed.drop_last() =~= seq!['0'] + s.drop_last());
        assert(zeroed.last() == s.last());
        lemma_zero_in_front(s.drop_last());
    }
}

/// The number that digits to a base stand for.
pub open spec fn number_in(s: Seq<char>, base: nat) -> nat
    decreases s.len(),
{
    if s.len() == 0 {
        0
    } else {
        let c = s.last() as nat;
        base * number_in(s.drop_last(), base) + (if c < 58 {
            c - 48
        } else {
            c - 87
        }) as nat
    }
}

/// A number that is written in a base of 16 at most reads back, and is made of
/// digits and small letters alone.
pub proof fn law_digits_read_back(n: nat, base: nat)
    requires
        2 <= base <= 16,
    ensures
        number_in(digits(n, base), base) == n,
        digits(n, base).len() > 0,
        forall|i: int|
            0 <= i < digits(n, base).len() ==> ('0' <= #[trigger] digits(n, base)[i] <= '9' || 'a'
                <= digits(n, base)[i] <= 'f'),
    decreases n,
{
    let s = digits(n, base);
    if n < base {
        assert(s.drop_last() =~= Seq::<char>::empty());
        assert(number_in(s.drop_last(), base) == 0);
        assert(base * 0 == 0) by (nonlinear_arith);
        assert(s.last() == digit_char(n));
    } else {
        vstd::arithmetic::div_mod::lemma_div_decreases(n as int, base as int);
        vstd::arithmetic::div_mod::lemma_fundamental_div_mod(n as int, base as int);
        vstd::arithmetic::div_mod::lemma_mod_bound(n as int, base as int);
        law_digits_read_back(n / base, base);
        assert(s.drop_last() =~= digits(n / base, base));
        assert(s.last() == digit_char(n % base));
        assert forall|i: int| 0 <= i < s.len() implies ('0' <= #[trigger] s[i] <= '9' || 'a'
            <= s[i] <= 'f') by {
            if i < s.len() - 1 {
                assert(s[i] == digits(n / base, base)[i]);
            }
        }
    }
}

/// A separator parts a text: the pieces of what stands before it come first,
/// then those of what stands behind it.
pub proof fn law_split_at_separator(front: Seq<char>, back: Seq<char>, separator: char)
    ensures
        split(front.push(separator) + back, separator) == split(front, separator) + split(
            back,
            separator,
        ),
    decreases back.len(),
{
    let whole = front.push(separator) + back;
    crate::text::law_split_joins_back(back, separator);
    if back.len() == 0 {
        assert(whole =~= front.push(separator));
        assert(whole.drop_last() =~= front);
        assert(split(whole, separator) =~= split(front, separator) + split(back, separator));
    } else {
        law_split_at_separator(front, back.drop_last(), separator);
        crate::text::law_split_joins_back(back.drop_last(), separator);
        assert(whole.drop_last() =~= front.push(separator) + back.drop_last());
        assert(whole.last() == back.last());
        assert(split(whole, separator) =~= split(front, separator) + split(back, separator));
    }
}

/// A text without a separator is one piece.
pub proof fn law_split_of_plain_text(s: Seq<char>, separator: char)
    requires
        !s.contains(separator),
    ensures
        split(s, separator) == seq![s],
    decreases s.len(),
{
    if s.len() > 0 {
        assert forall|i: int| 0 <= i < s.drop_last().len() implies s.drop_last()[i]
            != separator by {
            assert(s[i] != separator);
        }
        law_split_of_plain_text(s.drop_last(), separator);
        assert(s.last() == s[s.len() - 1]);
        assert(split(s, separator) =~= seq![s.drop_last().push(s.last())]);
        assert(s.drop_last().push(s.last()) =~= s);
    } else {
        assert(s =~= Seq::<char>::empty());
    }
}

/// A host and a port with a colon between them: what stands behind the last
/// colon reads back as the port, and what stands before it is the host.
pub open spec fn is_place(s: Seq<char>, host: Seq<char>, port: u16) -> bool {
    let pieces = split(s, ':');
    &&& pieces.len() >= 2
    &&& reads_as(pieces.last(), port as nat)
    &&& s == host.push(':') + pieces.last()
}

/// A written address tells its host and its port, so that two that differ in
/// either are never written alike.
pub proof fn law_endpoint_reads_back(host: Seq<char>, port: u16, other: Seq<char>, other_port: u16)
    ensures
        is_place(endpoint(host, port), host, port),
        endpoint(host, port) == endpoint(other, other_port) ==> host == other && port
            == other_port,
{
    lemma_endpoint_is_place(host, port);
    lemma_endpoint_is_place(other, other_port);
    if endpoint(host, port) == endpoint(other, other_port) {
        let tail = split(endpoint(host, port), ':').last();
        let s = endpoint(host, port);
        assert(host.push(':') =~= s.take(s.len() - tail.len()));
        assert(other.push(':') =~= s.take(s.len() - tail.len()));
        assert(host =~= host.push(':').drop_last());
        assert(other =~= other.push(':').drop_last());
    }
}

pub proof fn lemma_endpoint_is_place(host: Seq<char>, port: u16)
    ensures
        is_place(endpoint(host, port), host, port),
{
    let tail = decimal(port as nat);
    reveal_strlit(":");
    assert(endpoint(host, port) =~= host.push(':') + tail);
    lemma_decimal_reads(port as u64);
    law_split_at_separator(host, tail, ':');
    law_split_of_plain_text(tail, ':');
    crate::text::law_split_joins_back(host, ':');
}

/// What is left of a text when white space was taken from its ends: it stands
/// there from `k` on, all around it is blank, and its own ends are not white.
pub open spec fn trimmed_at(s: Seq<char>, left: Seq<char>, k: int) -> bool {
    &&& 0 <= k <= k + left.len() <= s.len()
    &&& s.subrange(k, k + left.len()) == left
    &&& is_blank(s.take(k))
    &&& is_blank(s.skip(k + left.len()))
    &&& left.len() > 0 ==> !is_white(left[0]) && !is_white(left.last())
}

proof fn lemma_trim_front_at(s: Seq<char>) -> (k: int)
    ensures
        0 <= k <= s.len(),
        trim_front(s) == s.skip(k),
        is_blank(s.take(k)),
        k < s.len() ==> !is_white(s[k]),
    decreases s.len(),
{
    if s.len() > 0 && is_white(s[0]) {
        let m = lemma_trim_front_at(s.skip(1));
        assert(s.skip(1).skip(m) =~= s.skip(m + 1));
        assert forall|i: int| 0 <= i < s.take(m + 1).len() implies is_white(
            #[trigger] s.take(m + 1)[i],
        ) by {
            if i > 0 {
                assert(s.skip(1).take(m)[i - 1] == s[i]);
            }
        }
        if m + 1 < s.len() {
            assert(s.skip(1)[m] == s[m + 1]);
        }
        m + 1
    } else {
        assert(s.skip(0) =~= s);
        0
    }
}

proof fn lemma_trim_back_at(s: Seq<char>) -> (k: int)
    ensures
        0 <= k <= s.len(),
        trim_back(s) == s.take(k),
        is_blank(s.skip(k)),
        k > 0 ==> !is_white(s[k - 1]),
    decreases s.len(),
{
    if s.len() > 0 && is_white(s.last()) {
        let k = lemma_trim_back_at(s.drop_last());
        assert(s.drop_last().take(k) =~= s.take(k));
        assert forall|i: int| 0 <= i < s.skip(k).len() implies is_white(
            #[trigger] s.skip(k)[i],
        ) by {
            if k + i < s.len() - 1 {
                assert(s.drop_last().skip(k)[i] == s[k + i]);
            }
        }
        k
    } else {
        assert(s.take(s.len() as int) =~= s);
        s.len() as int
    }
}

/// Trimming takes white space from both ends, all of it and nothing else.
pub proof fn law_trimming_takes_white_ends(s: Seq<char>)
    ensures
        exists|k: int| #[trigger] trimmed_at(s, trimmed(s), k),
        trimmed(s).len() == 0 <==> is_blank(s),
{
    let k = lemma_trim_front_at(s);
    let middle = trim_front(s);
    let m = lemma_trim_back_at(middle);
    let left = trimmed(s);
    assert(s.subrange(k, k + left.len()) =~= left);
    assert(s.skip(k + left.len()) =~= middle.skip(m));
    if left.len() > 0 {
        assert(left[0] == s[k]);
        assert(left.last() == middle[m - 1]);
    }
    assert(trimmed_at(s, left, k));
    if left.len() == 0 {
        assert forall|i: int| 0 <= i < s.len() implies is_white(#[trigger] s[i]) by {
            if i < k {
                assert(s.take(k)[i] == s[i]);
            } else {
                assert(s.skip(k)[i - k] == s[i]);
            }
        }
    } else {
        assert(s[k] == left[0]);
    }
}

/// A text whose ends are not white is what is left when white space around it
/// is trimmed.
pub proof fn law_trimming_gives_back(before: Seq<char>, s: Seq<char>, after: Seq<char>)
    requires
        is_blank(before),
        is_blank(after),
        s.len() > 0,
        !is_white(s[0]),
        !is_white(s.last()),
    ensures
        trimmed(before + s + after) == s,
{
    let whole = before + s + after;
    law_trimming_takes_white_ends(whole);
    let left = trimmed(whole);
    let k = choose|k: int| #[trigger] trimmed_at(whole, left, k);
    let from = before.len() as int;
    let to = (before.len() + s.len()) as int;
    assert(whole[from] == s[0]);
    assert(whole[to - 1] == s.last());
    assert(k <= from) by {
        if from < k {
            assert(whole.take(k)[from] == s[0]);
        }
    }
    assert(to <= k + left.len()) by {
        if k + left.len() < to {
            assert(whole.skip((k + left.len()) as int)[to - 1 - k - left.len()] == s.last());
        }
    }
    assert(left.len() > 0);
    assert(left[0] == whole[k]);
    assert(left.last() == whole[k + left.len() - 1]);
    if k < from {
        assert(whole[k] == before[k]);
    }
    if to < k + left.len() {
        assert(whole[k + left.len() - 1] == after[k + left.len() - 1 - to]);
    }
    assert(left =~= s);
}

/// Lines one after another, each with what ends it.
pub open spec fn ended(list: Seq<Seq<char>>, end: Seq<char>) -> Seq<char>
    decreases list.len(),
{
    if list.len() == 0 {
        Seq::empty()
    } else {
        ended(list.drop_last(), end) + list.last() + end
    }
}

/// A line that can be told from its end.
pub open spec fn is_line(line: Seq<char>) -> bool {
    &&& !line.contains('\n')
    &&& line.len() > 0 ==> line.last() != '\r'
}

proof fn lemma_split_of_ended(list: Seq<Seq<char>>, last: Seq<char>, end: Seq<char>)
    requires
        forall|i: int| 0 <= i < list.len() ==> is_line(#[trigger] list[i]),
        !last.contains('\n'),
        end == seq!['\n'] || end == seq!['\r', '\n'],
    ensures
        split(ended(list, end) + last, '\n') == list.map_values(
            |line: Seq<char>| line + end.drop_last(),
        ).push(last),
    decreases list.len(),
{
    let with_end = |line: Seq<char>| line + end.drop_last();
    if list.len() == 0 {
        assert(ended(list, end) + last =~= last);
        law_split_of_plain_text(last, '\n');
        assert(list.map_values(with_end).push(last) =~= seq![last]);
    } else {
        let front = list.drop_last();
        let line = list.last() + end.drop_last();
        assert forall|i: int| 0 <= i < front.len() implies is_line(#[trigger] front[i]) by {
            assert(front[i] == list[i]);
        }
        assert(is_line(list[list.len() - 1]));
        assert forall|i: int| 0 <= i < line.len() implies line[i] != '\n' by {
            if i < list.last().len() {
                assert(line[i] == list.last()[i]);
            }
        }
        lemma_split_of_ended(front, line, end);
        let begun = ended(front, end) + line;
        assert(ended(list, end) + last =~= begun.push('\n') + last);
        law_split_at_separator(begun, last, '\n');
        law_split_of_plain_text(last, '\n');
        assert(list.map_values(with_end) =~= front.map_values(with_end).push(line));
    }
}

/// Lines that end with a line feed, or with a carriage return and a line feed,
/// come back one by one. What follows the last of them is a line too, unless
/// there is nothing.
pub proof fn law_lines_come_back(list: Seq<Seq<char>>, last: Seq<char>, end: Seq<char>)
    requires
        forall|i: int| 0 <= i < list.len() ==> is_line(#[trigger] list[i]),
        !last.contains('\n'),
        end == seq!['\n'] || end == seq!['\r', '\n'],
    ensures
        lines(ended(list, end) + last) == if last.len() == 0 {
            list
        } else {
            list.push(last)
        },
{
    lemma_split_of_ended(list, last, end);
    let with_end = |line: Seq<char>| line + end.drop_last();
    let pieces = split(ended(list, end) + last, '\n');
    let front = pieces.drop_last();
    assert(front =~= list.map_values(with_end));
    assert forall|i: int| 0 <= i < list.len() implies without_return(#[trigger] front[i])
        == list[i] by {
        assert(is_line(list[i]));
        assert(front[i] == list[i] + end.drop_last());
        if end.len() == 2 {
            assert(front[i].last() == '\r');
            assert(front[i].drop_last() =~= list[i]);
        } else {
            assert(front[i] =~= list[i]);
        }
    }
    assert(front.map_values(|line: Seq<char>| without_return(line)) =~= list);
}

/// The texts of a list are those of its strings one by one, and a result or a
/// text that may be missing is taken as what it holds.
pub proof fn law_texts_are_those_of_the_strings(
    list: Seq<String>,
    text: String,
    value: u64,
)
    ensures
        crate::text::texts(list).len() == list.len(),
        forall|i: int|
            0 <= i < list.len() ==> #[trigger] crate::text::texts(list)[i] == list[i]@,
        crate::text::maybe_text(Some(text)) == Some(text@),
        crate::text::maybe_text(None) is None,
        crate::text::outcome(Ok::<u64, String>(value)) == Ok::<u64, Seq<char>>(value),
        crate::text::outcome(Err::<u64, String>(text)) == Err::<u64, Seq<char>>(text@),
        crate::command::text_outcome(Ok(text)) == Ok::<Seq<char>, Seq<char>>(text@),
        crate::command::text_outcome(Err(text)) == Err::<Seq<char>, Seq<char>>(text@),
{
}

} // verus!
