//! Which numbers of a table are the traffic, wherever they stand in it.
use crate::nettop::{cell, nettop_totals, row_totals, table_totals};
use crate::text::{
    decimal, lemma_position, lemma_position_is, position, split, trimmed, unsigned_value,
};
use crate::text_laws::{ended, is_line, law_lines_come_back, lemma_decimal_reads};
use vstd::prelude::*;

verus! {

/// A line with a column that is named for the bytes received.
pub open spec fn is_head(line: Seq<char>) -> bool {
    split(line, ',').contains("bytes_in"@)
}

/// Whether the column `i` of a line is the first with this name.
pub open spec fn is_column(line: Seq<char>, i: int, name: Seq<char>) -> bool {
    &&& 0 <= i < split(line, ',').len()
    &&& split(line, ',')[i] == name
    &&& forall|k: int| 0 <= k < i ==> #[trigger] split(line, ',')[k] != name
}

/// Whether the column `i` of a line holds this number.
pub open spec fn holds(line: Seq<char>, i: int, n: u64) -> bool {
    &&& 0 <= i < split(line, ',').len()
    &&& unsigned_value(trimmed(split(line, ',')[i])) == Some(n)
}

/// Whether a line holds these numbers in the columns that the head names.
pub open spec fn holds_both(head: Seq<char>, line: Seq<char>, rx: u64, tx: u64) -> bool {
    exists|i: int, j: int|
        #![trigger is_column(head, i, "bytes_in"@), is_column(head, j, "bytes_out"@)]
        is_column(head, i, "bytes_in"@) && is_column(head, j, "bytes_out"@) && holds(line, i, rx)
            && holds(line, j, tx)
}

/// Whether the line `k` tells these totals, under the head at `h`, which is the
/// last one up to it.
pub open spec fn tells(table: Seq<Seq<char>>, h: int, k: int, rx: u64, tx: u64) -> bool {
    &&& 0 <= h < k < table.len()
    &&& is_head(table[h])
    &&& forall|m: int| h < m <= k ==> !is_head(#[trigger] table[m])
    &&& holds_both(table[h], table[k], rx, tx)
}

proof fn lemma_head(line: Seq<char>)
    ensures
        is_head(line) <==> position(split(line, ','), "bytes_in"@) is Some,
{
    let row = split(line, ',');
    lemma_position(row, "bytes_in"@);
    if row.contains("bytes_in"@) {
        let k = choose|k: int| 0 <= k < row.len() && row[k] == "bytes_in"@;
        assert(row[k] == "bytes_in"@);
    }
}

proof fn lemma_row(head: Seq<char>, line: Seq<char>, rx: u64, tx: u64)
    requires
        is_head(head),
    ensures
        holds_both(head, line, rx, tx) <==> row_totals(
            split(line, ','),
            position(split(head, ','), "bytes_in"@),
            position(split(head, ','), "bytes_out"@),
        ) == Some((rx, tx)),
{
    let names = split(head, ',');
    let received = position(names, "bytes_in"@);
    let sent = position(names, "bytes_out"@);
    let row = split(line, ',');
    lemma_head(head);
    lemma_position(names, "bytes_in"@);
    lemma_position(names, "bytes_out"@);
    if row_totals(row, received, sent) == Some((rx, tx)) {
        assert(cell(row, received) == Some(rx) && cell(row, sent) == Some(tx));
        assert(is_column(head, received->0, "bytes_in"@));
        assert(is_column(head, sent->0, "bytes_out"@));
        assert(holds(line, received->0, rx));
        assert(holds(line, sent->0, tx));
    }
    if holds_both(head, line, rx, tx) {
        let (i, j) = choose|i: int, j: int|
            #![trigger is_column(head, i, "bytes_in"@), is_column(head, j, "bytes_out"@)]
            is_column(head, i, "bytes_in"@) && is_column(head, j, "bytes_out"@) && holds(
                line,
                i,
                rx,
            ) && holds(line, j, tx);
        lemma_position_is(names, "bytes_in"@, i);
        lemma_position_is(names, "bytes_out"@, j);
    }
}

/// The scan of a table from line `n` on, under the last head before it at `h`,
/// or under none.
proof fn lemma_scan(table: Seq<Seq<char>>, n: int, h: int, received: Option<int>, sent: Option<int>)
    requires
        0 <= n <= table.len(),
        -1 <= h < n,
        forall|m: int| h < m < n ==> !is_head(#[trigger] table[m]),
        h == -1 ==> received is None && sent is None,
        h >= 0 ==> is_head(table[h]) && received == position(
            split(table[h], ','),
            "bytes_in"@,
        ) && sent == position(split(table[h], ','), "bytes_out"@),
    ensures
        match table_totals(table.skip(n), received, sent) {
            Some((rx, tx)) => exists|g: int, k: int|
                n <= k && #[trigger] tells(table, g, k, rx, tx) && forall|f: int, m: int, a: u64, b: u64|
                    n <= m < k ==> !#[trigger] tells(table, f, m, a, b),
            None => forall|f: int, m: int, a: u64, b: u64|
                n <= m ==> !#[trigger] tells(table, f, m, a, b),
        },
    decreases table.len() - n,
{
    if n == table.len() {
        assert(table.skip(n).len() == 0);
    } else {
        let line = table[n];
        let row = split(line, ',');
        assert(table.skip(n)[0] == line);
        assert(table.skip(n).skip(1) =~= table.skip(n + 1));
        lemma_head(line);
        if is_head(line) {
            lemma_scan(
                table,
                n + 1,
                n,
                position(row, "bytes_in"@),
                position(row, "bytes_out"@),
            );
            assert forall|f: int, a: u64, b: u64| !#[trigger] tells(table, f, n, a, b) by {}
        } else {
            let found = row_totals(row, received, sent);
            assert forall|f: int, a: u64, b: u64| #[trigger] tells(table, f, n, a, b) implies found
                == Some((a, b)) by {
                assert(f == h) by {
                    if f < h {
                        assert(is_head(table[h]));
                    }
                    if h < f {
                        assert(is_head(table[f]));
                    }
                }
                lemma_row(table[h], line, a, b);
            }
            match found {
                Some((rx, tx)) => {
                    assert(h >= 0);
                    lemma_row(table[h], line, rx, tx);
                    assert(tells(table, h, n, rx, tx));
                },
                None => {
                    lemma_scan(table, n + 1, h, received, sent);
                },
            }
        }
    }
}

/// The totals of a table are those of the first line that tells any: one that
/// holds a number in each of the two columns that the last head before it
/// names, wherever these stand. There are none exactly if no line tells any.
pub proof fn law_first_telling_line_counts(table: Seq<Seq<char>>)
    ensures
        match table_totals(table, None, None) {
            Some((rx, tx)) => exists|h: int, k: int| #[trigger]
                tells(table, h, k, rx, tx) && forall|f: int, m: int, a: u64, b: u64|
                    m < k ==> !#[trigger] tells(table, f, m, a, b),
            None => forall|h: int, k: int, rx: u64, tx: u64| !#[trigger] tells(table, h, k, rx, tx),
        },
{
    assert(table.skip(0) =~= table);
    lemma_scan(table, 0, -1, None, None);
    match table_totals(table, None, None) {
        Some((rx, tx)) => {
            let (h, k) = choose|h: int, k: int|
                0 <= k && #[trigger] tells(table, h, k, rx, tx) && forall|
                    f: int,
                    m: int,
                    a: u64,
                    b: u64,
                |
                    0 <= m < k ==> !#[trigger] tells(table, f, m, a, b);
            assert forall|f: int, m: int, a: u64, b: u64| m < k implies !#[trigger] tells(
                table,
                f,
                m,
                a,
                b,
            ) by {}
            assert(tells(table, h, k, rx, tx));
        },
        None => {},
    }
}

/// A head and a line under it, with any number of columns: where the line holds
/// two numbers in the columns that the head names, with white space around them
/// or none, these are the totals.
pub proof fn law_row_under_head_is_read(
    head: Seq<char>,
    line: Seq<char>,
    i: int,
    j: int,
    rx: u64,
    tx: u64,
    end: Seq<char>,
)
    requires
        is_column(head, i, "bytes_in"@),
        is_column(head, j, "bytes_out"@),
        !is_head(line),
        i < split(line, ',').len(),
        j < split(line, ',').len(),
        trimmed(split(line, ',')[i]) == decimal(rx as nat),
        trimmed(split(line, ',')[j]) == decimal(tx as nat),
        is_line(head),
        is_line(line),
        end == seq!['\n'] || end == seq!['\r', '\n'],
    ensures
        nettop_totals(head + end + line + end) == Some((rx, tx)),
{
    let table = seq![head, line];
    lemma_decimal_reads(rx);
    lemma_decimal_reads(tx);
    assert(holds(line, i, rx) && holds(line, j, tx));
    assert(split(head, ',')[i] == "bytes_in"@);
    assert(is_head(head));
    lemma_head(head);
    lemma_head(line);
    assert(holds_both(head, line, rx, tx));
    lemma_row(head, line, rx, tx);
    assert(table.skip(1) =~= seq![line]);
    assert(table.skip(1)[0] == line);
    assert(table_totals(table, None, None) == table_totals(
        table.skip(1),
        position(split(head, ','), "bytes_in"@),
        position(split(head, ','), "bytes_out"@),
    ));
    law_lines_come_back(table, Seq::empty(), end);
    reveal_with_fuel(ended, 3);
    assert(table.drop_last() =~= seq![head]);
    assert(table.drop_last().drop_last() =~= Seq::<Seq<char>>::empty());
    assert(ended(table, end) + Seq::<char>::empty() =~= head + end + line + end);
}

/// What `nettop` wrote is read line by line, with line feeds or with carriage
/// returns and line feeds between.
pub proof fn law_tables_are_read_line_by_line(list: Seq<Seq<char>>, end: Seq<char>)
    requires
        forall|i: int| 0 <= i < list.len() ==> is_line(#[trigger] list[i]),
        end == seq!['\n'] || end == seq!['\r', '\n'],
    ensures
        nettop_totals(ended(list, end)) == table_totals(list, None, None),
{
    law_lines_come_back(list, Seq::empty(), end);
    assert(ended(list, end) + Seq::<char>::empty() =~= ended(list, end));
}

} // verus!
