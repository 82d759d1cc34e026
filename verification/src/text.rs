//! Text as sequences of characters: trimming, searching, splitting, numbers.
use vstd::prelude::*;
use vstd::string::StringExecFns;

verus! {

/// `String::push` appends one character at the end.
pub assume_specification[ String::push ](text: &mut String, c: char)
    ensures
        final(text)@ == old(text)@.push(c),
;

/// The characters that Unicode gives the property White_Space.
pub open spec fn is_white(c: char) -> bool {
    let n = c as u32;
    ||| 0x9 <= n <= 0xd
    ||| n == 0x20
    ||| n == 0x85
    ||| n == 0xa0
    ||| n == 0x1680
    ||| 0x2000 <= n <= 0x200a
    ||| n == 0x2028
    ||| n == 0x2029
    ||| n == 0x202f
    ||| n == 0x205f
    ||| n == 0x3000
}

/// Whether a character is white space.
pub fn white(c: char) -> (r: bool)
    ensures
        r == is_white(c),
{
    let n: u32 = c as u32;
    (0x9 <= n && n <= 0xd) || n == 0x20 || n == 0x85 || n == 0xa0 || n == 0x1680 || (0x2000 <= n
        && n <= 0x200a) || n == 0x2028 || n == 0x2029 || n == 0x202f || n == 0x205f || n == 0x3000
}

/// Text that holds nothing but white space.
pub open spec fn is_blank(s: Seq<char>) -> bool {
    forall|i: int| 0 <= i < s.len() ==> is_white(#[trigger] s[i])
}

/// `s` without the white space in front.
pub open spec fn trim_front(s: Seq<char>) -> Seq<char>
    decreases s.len(),
{
    if s.len() > 0 && is_white(s[0]) {
        trim_front(s.skip(1))
    } else {
        s
    }
}

/// `s` without the white space at the end.
pub open spec fn trim_back(s: Seq<char>) -> Seq<char>
    decreases s.len(),
{
    if s.len() > 0 && is_white(s.last()) {
        trim_back(s.drop_last())
    } else {
        s
    }
}

/// `s` without the white space at either end.
pub open spec fn trimmed(s: Seq<char>) -> Seq<char> {
    trim_back(trim_front(s))
}

/// The characters of a text.
pub fn chars_of(s: &str) -> (r: Vec<char>)
    ensures
        r@ == s@,
{
    let mut out: Vec<char> = Vec::new();
    for c in it: s.chars()
        invariant
            out@ == it.seq().take(it.index()),
            it.seq() == s@,
    {
        out.push(c);
    }
    assert(s@.take(s@.len() as int) == s@);
    out
}

/// The text made of the characters `from..to`.
pub fn text_of(chars: &Vec<char>, from: usize, to: usize) -> (r: String)
    requires
        from <= to <= chars@.len(),
    ensures
        r@ == chars@.subrange(from as int, to as int),
{
    let mut out = String::new();
    let mut i: usize = from;
    while i < to
        invariant
            from <= i <= to <= chars@.len(),
            out@ == chars@.subrange(from as int, i as int),
        decreases to - i,
    {
        out.push(chars[i]);
        i += 1;
    }
    out
}

/// Whether two texts are the same.
pub fn same_text(a: &str, b: &str) -> (r: bool)
    ensures
        r == (a@ == b@),
{
    a.to_owned() == b.to_owned()
}

/// Whether a text is blank.
pub fn blank(s: &str) -> (r: bool)
    ensures
        r == is_blank(s@),
{
    let chars = chars_of(s);
    let mut i: usize = 0;
    while i < chars.len()
        invariant
            chars@ == s@,
            i <= chars@.len(),
            forall|j: int| 0 <= j < i ==> is_white(#[trigger] s@[j]),
        decreases chars@.len() - i,
    {
        if !white(chars[i]) {
            assert(!is_white(s@[i as int]));
            return false;
        }
        i += 1;
    }
    true
}

/// Removes the white space at both ends.
pub fn trim(s: &str) -> (r: String)
    ensures
        r@ == trimmed(s@),
{
    let chars = chars_of(s);
    let mut from: usize = 0;
    assert(s@.skip(0) == s@);
    while from < chars.len() && white(chars[from])
        invariant
            chars@ == s@,
            from <= chars@.len(),
            trim_front(s@) == trim_front(s@.skip(from as int)),
        decreases chars@.len() - from,
    {
        assert(s@.skip(from as int).skip(1) == s@.skip(from + 1));
        from += 1;
    }
    let ghost front = s@.skip(from as int);
    assert(trim_front(s@) == front);
    let mut to: usize = chars.len();
    assert(s@.subrange(from as int, to as int) == front);
    while to > from && white(chars[to - 1])
        invariant
            chars@ == s@,
            from <= to <= chars@.len(),
            trim_back(front) == trim_back(s@.subrange(from as int, to as int)),
        decreases to,
    {
        assert(s@.subrange(from as int, to as int).drop_last() == s@.subrange(
            from as int,
            to - 1,
        ));
        to -= 1;
    }
    text_of(&chars, from, to)
}

/// Whether `pattern` stands somewhere in `s`.
pub open spec fn has_text(s: Seq<char>, pattern: Seq<char>) -> bool {
    exists|i: int|
        0 <= i <= s.len() - pattern.len() && #[trigger] s.subrange(i, i + pattern.len()) == pattern
}

/// Whether `pattern` stands in `s` at `at`.
fn stands_at(s: &Vec<char>, at: usize, pattern: &Vec<char>) -> (r: bool)
    requires
        at + pattern@.len() <= s@.len(),
    ensures
        r == (s@.subrange(at as int, at + pattern@.len()) == pattern@),
{
    let mut k: usize = 0;
    let length: usize = s.len();
    while k < pattern.len()
        invariant
            length == s@.len(),
            at + pattern@.len() <= length,
            k <= pattern@.len(),
            forall|j: int| 0 <= j < k ==> s@[at + j] == #[trigger] pattern@[j],
        decreases pattern@.len() - k,
    {
        if s[at + k] != pattern[k] {
            assert(s@.subrange(at as int, at + pattern@.len())[k as int] != pattern@[k as int]);
            return false;
        }
        k += 1;
    }
    assert(s@.subrange(at as int, at + pattern@.len()) == pattern@);
    true
}

/// Looks for `pattern` in `s`.
pub fn contains_text(s: &str, pattern: &str) -> (r: bool)
    ensures
        r == has_text(s@, pattern@),
{
    let text = chars_of(s);
    let wanted = chars_of(pattern);
    if wanted.len() > text.len() {
        return false;
    }
    let last: usize = text.len() - wanted.len();
    let mut i: usize = 0;
    loop
        invariant
            text@ == s@,
            wanted@ == pattern@,
            last == text@.len() - wanted@.len(),
            i <= last,
            forall|j: int|
                0 <= j < i ==> #[trigger] s@.subrange(j, j + pattern@.len()) != pattern@,
        decreases last - i,
    {
        if stands_at(&text, i, &wanted) {
            return true;
        }
        if i == last {
            return false;
        }
        i += 1;
    }
}

/// The character of a digit, in lower case above nine.
pub open spec fn digit_char(d: nat) -> char
    recommends
        d < 16,
{
    if d < 10 {
        (48 + d) as char
    } else {
        (87 + d) as char
    }
}

/// The digits of `n` to the base `base`, without leading zeros.
pub open spec fn digits(n: nat, base: nat) -> Seq<char>
    recommends
        2 <= base <= 16,
    decreases n,
{
    if n < base || base < 2 {
        seq![digit_char(n)]
    } else {
        proof {
            vstd::arithmetic::div_mod::lemma_div_decreases(n as int, base as int);
        }
        digits(n / base, base).push(digit_char(n % base))
    }
}

/// `n` in decimal.
pub open spec fn decimal(n: nat) -> Seq<char> {
    digits(n, 10)
}

/// Appends `n` in the given base.
pub fn push_digits(out: &mut String, n: u64, base: u64)
    requires
        2 <= base <= 16,
    ensures
        final(out)@ == old(out)@ + digits(n as nat, base as nat),
    decreases n,
{
    if n >= base {
        proof {
            vstd::arithmetic::div_mod::lemma_div_decreases(n as int, base as int);
        }
        push_digits(out, n / base, base);
    } else {
        assert(n % base == n) by {
            vstd::arithmetic::div_mod::lemma_small_mod(n as nat, base as nat);
        }
    }
    assert(n % base < base) by {
        vstd::arithmetic::div_mod::lemma_mod_bound(n as int, base as int);
    }
    let d: u8 = (n % base) as u8;
    if d < 10 {
        out.push((48 + d) as char);
    } else {
        out.push((87 + d) as char);
    }
}

/// Appends `n` in decimal.
pub fn push_decimal(out: &mut String, n: u64)
    ensures
        final(out)@ == old(out)@ + decimal(n as nat),
{
    push_digits(out, n, 10);
}

/// Whether a character is one of `0` to `9`.
pub open spec fn is_digit(c: char) -> bool {
    '0' <= c <= '9'
}

/// Text that is one decimal digit or more.
pub open spec fn all_digits(s: Seq<char>) -> bool {
    &&& s.len() > 0
    &&& forall|i: int| 0 <= i < s.len() ==> is_digit(#[trigger] s[i])
}

/// The number that a row of decimal digits stands for.
pub open spec fn digits_value(s: Seq<char>) -> nat
    decreases s.len(),
{
    if s.len() == 0 {
        0
    } else {
        10 * digits_value(s.drop_last()) + (s.last() as nat - 48) as nat
    }
}

/// The digits of a number that may carry a plus sign.
pub open spec fn unsigned_digits(s: Seq<char>) -> Seq<char> {
    if s.len() > 0 && s[0] == '+' {
        s.skip(1)
    } else {
        s
    }
}

/// The unsigned number below 2^64 that a text stands for, if it does.
pub open spec fn unsigned_value(s: Seq<char>) -> Option<u64> {
    let ds = unsigned_digits(s);
    if all_digits(ds) && digits_value(ds) <= u64::MAX {
        Some(digits_value(ds) as u64)
    } else {
        None
    }
}

proof fn lemma_value_grows(s: Seq<char>, n: int)
    requires
        all_digits(s),
        0 <= n <= s.len(),
    ensures
        digits_value(s.take(n)) <= digits_value(s),
    decreases s.len(),
{
    if n == s.len() {
        assert(s.take(n) == s);
    } else if s.len() == 1 {
    } else {
        assert(all_digits(s.drop_last())) by {
            assert forall|i: int| 0 <= i < s.drop_last().len() implies is_digit(
                #[trigger] s.drop_last()[i],
            ) by {
                assert(s.drop_last()[i] == s[i]);
            }
        }
        lemma_value_grows(s.drop_last(), n);
        assert(s.drop_last().take(n) == s.take(n));
    }
}

/// Reads an unsigned number below 2^64.
pub fn parse_unsigned(s: &str) -> (r: Option<u64>)
    ensures
        r == unsigned_value(s@),
{
    let chars = chars_of(s);
    let from: usize = if chars.len() > 0 && chars[0] == '+' {
        1
    } else {
        0
    };
    let ghost ds = unsigned_digits(s@);
    assert(ds == s@.skip(from as int));
    if chars.len() == from {
        return None;
    }
    let mut value: u64 = 0;
    let mut i: usize = from;
    while i < chars.len()
        invariant
            chars@ == s@,
            from <= i <= chars@.len(),
            from < chars@.len(),
            ds == s@.skip(from as int),
            ds == unsigned_digits(s@),
            value == digits_value(ds.take(i - from)),
            forall|j: int| 0 <= j < i - from ==> is_digit(#[trigger] ds[j]),
        decreases chars@.len() - i,
    {
        let c: char = chars[i];
        assert(ds[i - from] == c);
        if !('0' <= c && c <= '9') {
            assert(!is_digit(ds[i - from]));
            return None;
        }
        let d: u64 = c as u64 - 48;
        proof {
            let k = i + 1 - from;
            assert(ds.take(k).drop_last() == ds.take(i - from));
            assert(digits_value(ds.take(k)) == 10 * value + d);
            if all_digits(ds) {
                lemma_value_grows(ds, k);
            }
        }
        if value > (u64::MAX - d) / 10 {
            return None;
        }
        value = 10 * value + d;
        i += 1;
    }
    assert(ds.take(i - from) == ds);
    Some(value)
}

/// A number written in decimal reads back as itself.
pub proof fn law_decimal_reads_back(n: u64)
    ensures
        unsigned_value(decimal(n as nat)) == Some(n),
{
    lemma_decimal_value(n as nat);
    assert(decimal(n as nat)[0] != '+') by {
        assert(is_digit(decimal(n as nat)[0]));
    }
}

proof fn lemma_decimal_value(n: nat)
    ensures
        all_digits(decimal(n)),
        digits_value(decimal(n)) == n,
    decreases n,
{
    if n < 10 {
        let s = decimal(n);
        assert(s.drop_last() == Seq::<char>::empty());
        assert(digits_value(s.drop_last()) == 0);
        assert(s.last() as nat - 48 == n);
    } else {
        lemma_decimal_value(n / 10);
        let s = decimal(n);
        assert(s.drop_last() == decimal(n / 10));
        assert forall|i: int| 0 <= i < s.len() implies is_digit(#[trigger] s[i]) by {
            if i < s.len() - 1 {
                assert(s[i] == decimal(n / 10)[i]);
            }
        }
    }
}

/// The pieces of `s` between the separators: one more than there are separators.
pub open spec fn split(s: Seq<char>, separator: char) -> Seq<Seq<char>>
    decreases s.len(),
{
    if s.len() == 0 {
        seq![Seq::empty()]
    } else {
        let front = split(s.drop_last(), separator);
        if s.last() == separator {
            front.push(Seq::empty())
        } else {
            front.drop_last().push(front.last().push(s.last()))
        }
    }
}

/// The pieces with the separator between them again.
pub open spec fn joined(pieces: Seq<Seq<char>>, separator: char) -> Seq<char>
    decreases pieces.len(),
{
    if pieces.len() == 0 {
        Seq::empty()
    } else if pieces.len() == 1 {
        pieces[0]
    } else {
        joined(pieces.drop_last(), separator).push(separator) + pieces.last()
    }
}

/// Splitting takes the separators out and nothing else: joined again, the
/// pieces give the text back, and no piece holds a separator.
pub proof fn law_split_joins_back(s: Seq<char>, separator: char)
    ensures
        joined(split(s, separator), separator) == s,
        forall|k: int|
            0 <= k < split(s, separator).len() ==> !(#[trigger] split(s, separator)[k]).contains(
                separator,
            ),
        split(s, separator).len() > 0,
    decreases s.len(),
{
    let pieces = split(s, separator);
    if s.len() > 0 {
        law_split_joins_back(s.drop_last(), separator);
        let front = split(s.drop_last(), separator);
        assert(s == s.drop_last().push(s.last()));
        if s.last() == separator {
            assert(pieces.drop_last() == front);
            assert(joined(pieces, separator) == s);
        } else {
            assert(pieces.drop_last() == front.drop_last());
            if front.len() > 1 {
                assert(joined(pieces, separator) == joined(front, separator).push(s.last()));
            } else {
                assert(pieces[0] == front[0].push(s.last()));
            }
            assert(joined(pieces, separator) == s);
            assert forall|k: int| 0 <= k < pieces.len() implies !(#[trigger] pieces[k]).contains(
                separator,
            ) by {
                if k < pieces.len() - 1 {
                    assert(pieces[k] == front[k]);
                } else {
                    assert(!front.last().contains(separator)) by {
                        assert(front.last() == front[front.len() - 1]);
                    }
                    assert forall|m: int| 0 <= m < pieces[k].len() implies pieces[k][m]
                        != separator by {
                        if m < pieces[k].len() - 1 {
                            assert(pieces[k][m] == front.last()[m]);
                        }
                    }
                }
            }
        }
    }
}

/// The texts of a list of strings.
pub open spec fn texts(list: Seq<String>) -> Seq<Seq<char>> {
    list.map_values(|s: String| s@)
}

/// Where `item` first stands in a list.
pub open spec fn position(items: Seq<Seq<char>>, item: Seq<char>) -> Option<int>
    decreases items.len(),
{
    if items.len() == 0 {
        None
    } else {
        match position(items.drop_last(), item) {
            Some(k) => Some(k),
            None => if items.last() == item {
                Some(items.len() - 1)
            } else {
                None
            },
        }
    }
}

/// A position is that of the first match, and is missing only where there is none.
pub proof fn lemma_position(items: Seq<Seq<char>>, item: Seq<char>)
    ensures
        match position(items, item) {
            Some(k) => 0 <= k < items.len() && items[k] == item && forall|j: int|
                0 <= j < k ==> #[trigger] items[j] != item,
            None => forall|j: int| 0 <= j < items.len() ==> #[trigger] items[j] != item,
        },
    decreases items.len(),
{
    if items.len() > 0 {
        let front = items.drop_last();
        lemma_position(front, item);
        match position(front, item) {
            Some(k) => {
                assert(front[k] == items[k]);
                assert forall|j: int| 0 <= j < k implies #[trigger] items[j] != item by {
                    assert(front[j] == items[j]);
                }
            },
            None => {
                assert forall|j: int| 0 <= j < items.len() - 1 implies #[trigger] items[j] != item by {
                    assert(front[j] == items[j]);
                }
            },
        }
    }
}

/// The first match, where there is one, is the position.
pub proof fn lemma_position_is(items: Seq<Seq<char>>, item: Seq<char>, k: int)
    requires
        0 <= k < items.len(),
        items[k] == item,
        forall|j: int| 0 <= j < k ==> #[trigger] items[j] != item,
    ensures
        position(items, item) == Some(k),
{
    lemma_position(items, item);
    match position(items, item) {
        Some(m) => {
            assert(items[m] == item && items[k] == item);
        },
        None => {
            assert(items[k] != item);
        },
    }
}

/// Where a text first stands in a list.
pub fn find_text(list: &Vec<String>, wanted: &str) -> (r: Option<usize>)
    ensures
        r matches Some(k) ==> position(texts(list@), wanted@) == Some(k as int) && k
            < list@.len(),
        r is None ==> position(texts(list@), wanted@) is None,
{
    let mut i: usize = 0;
    while i < list.len()
        invariant
            i <= list@.len(),
            forall|j: int| 0 <= j < i ==> #[trigger] texts(list@)[j] != wanted@,
        decreases list@.len() - i,
    {
        if same_text(list[i].as_str(), wanted) {
            proof {
                lemma_position_is(texts(list@), wanted@, i as int);
            }
            return Some(i);
        }
        i += 1;
    }
    proof {
        lemma_position(texts(list@), wanted@);
    }
    None
}

/// Splits a text at every separator.
pub fn split_text(s: &str, separator: char) -> (r: Vec<String>)
    ensures
        texts(r@) == split(s@, separator),
{
    let chars = chars_of(s);
    let mut pieces: Vec<String> = Vec::new();
    let mut piece = String::new();
    let mut i: usize = 0;
    assert(split(s@.take(0), separator) == seq![Seq::<char>::empty()]);
    while i < chars.len()
        invariant
            chars@ == s@,
            i <= chars@.len(),
            texts(pieces@).push(piece@) == split(s@.take(i as int), separator),
        decreases chars@.len() - i,
    {
        let c: char = chars[i];
        let ghost before = s@.take(i as int);
        let ghost after = s@.take(i + 1);
        let ghost old_pieces = texts(pieces@);
        assert(after.drop_last() == before && after.last() == c);
        assert(split(before, separator).drop_last() == old_pieces);
        assert(split(before, separator).last() == piece@);
        if c == separator {
            let ghost done = piece@;
            pieces.push(piece);
            piece = String::new();
            assert(texts(pieces@) == old_pieces.push(done));
        } else {
            piece.push(c);
        }
        i += 1;
    }
    assert(s@.take(i as int) == s@);
    let ghost last = piece@;
    let ghost front = texts(pieces@);
    pieces.push(piece);
    assert(texts(pieces@) == front.push(last));
    pieces
}

/// A line without the carriage return at its end.
pub open spec fn without_return(line: Seq<char>) -> Seq<char> {
    if line.len() > 0 && line.last() == '\r' {
        line.drop_last()
    } else {
        line
    }
}

/// The lines of a text. A line ends with a line feed, or with a carriage
/// return and a line feed; what follows the last line feed is a line of its
/// own unless it is empty, and keeps its carriage return.
pub open spec fn lines(s: Seq<char>) -> Seq<Seq<char>> {
    let pieces = split(s, '\n');
    let ended = pieces.drop_last().map_values(|line: Seq<char>| without_return(line));
    if pieces.last().len() == 0 {
        ended
    } else {
        ended.push(pieces.last())
    }
}

/// Splits a text into its lines.
pub fn split_lines(s: &str) -> (r: Vec<String>)
    ensures
        texts(r@) == lines(s@),
{
    let mut pieces = split_text(s, '\n');
    let ghost all = split(s@, '\n');
    proof {
        law_split_joins_back(s@, '\n');
    }
    assert(texts(pieces@) == all);
    assert(texts(pieces@).len() == pieces@.len());
    let mut out: Vec<String> = Vec::new();
    let mut i: usize = 0;
    while i < pieces.len() - 1
        invariant
            texts(pieces@) == all,
            0 < pieces@.len() == all.len(),
            i <= pieces@.len() - 1,
            texts(out@) == all.take(i as int).map_values(
                |line: Seq<char>| without_return(line),
            ),
        decreases pieces@.len() - i,
    {
        let chars = chars_of(pieces[i].as_str());
        assert(pieces@[i as int]@ == all[i as int]) by {
            assert(texts(pieces@)[i as int] == all[i as int]);
        }
        let to: usize = if chars.len() > 0 && chars[chars.len() - 1] == '\r' {
            chars.len() - 1
        } else {
            chars.len()
        };
        let ghost before = texts(out@);
        let line = text_of(&chars, 0, to);
        assert(line@ == without_return(all[i as int]));
        out.push(line);
        assert(texts(out@) == before.push(line@));
        assert(all.take(i + 1) == all.take(i as int).push(all[i as int]));
        assert(texts(out@) == all.take(i + 1).map_values(
            |line: Seq<char>| without_return(line),
        ));
        i += 1;
    }
    assert(all.take(i as int) == all.drop_last());
    assert(texts(pieces@).last() == all.last());
    let last = pieces[pieces.len() - 1].clone();
    if !last.as_str().is_empty() {
        let ghost before = texts(out@);
        out.push(last);
        assert(texts(out@) == before.push(last@));
    }
    out
}

/// A host and a port with a colon between them.
pub open spec fn endpoint(host: Seq<char>, port: u16) -> Seq<char> {
    host + ":"@ + decimal(port as nat)
}

/// Writes a host and a port.
pub fn endpoint_text(host: &str, port: u16) -> (r: String)
    ensures
        r@ == endpoint(host@, port),
{
    let mut out = host.to_owned();
    out.append(":");
    push_decimal(&mut out, port as u64);
    out
}

/// One text after another.
pub fn concat2(first: &str, second: &str) -> (r: String)
    ensures
        r@ == first@ + second@,
{
    let mut out = first.to_owned();
    out.append(second);
    out
}

/// Three texts in a row.
pub fn concat3(first: &str, second: &str, third: &str) -> (r: String)
    ensures
        r@ == first@ + second@ + third@,
{
    let mut out = first.to_owned();
    out.append(second);
    out.append(third);
    out
}

/// A result with its error taken as text.
pub open spec fn outcome<T>(r: Result<T, String>) -> Result<T, Seq<char>> {
    match r {
        Ok(value) => Ok(value),
        Err(message) => Err(message@),
    }
}

/// A text that may be missing.
pub open spec fn maybe_text(t: Option<String>) -> Option<Seq<char>> {
    match t {
        Some(text) => Some(text@),
        None => None,
    }
}

} // verus!
