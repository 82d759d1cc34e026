//! The traffic of a process, from the table that `nettop` prints.
use crate::command::{failure, word_failure, CommandReport};
use crate::text::{
    find_text, lines, outcome, parse_unsigned, position, split, split_lines, split_text, texts,
    trim, trimmed, unsigned_value,
};
use crate::unicode::{decode_lossy, decoded};
use vstd::prelude::*;

verus! {

/// The number in a column of a row, if the row has that column and it holds
/// one.
pub open spec fn cell(row: Seq<Seq<char>>, column: Option<int>) -> Option<u64> {
    match column {
        Some(k) => if 0 <= k < row.len() {
            unsigned_value(trimmed(row[k]))
        } else {
            None
        },
        None => None,
    }
}

/// Bytes received and sent in a row, where both columns hold a number.
pub open spec fn row_totals(
    row: Seq<Seq<char>>,
    received: Option<int>,
    sent: Option<int>,
) -> Option<(u64, u64)> {
    match (cell(row, received), cell(row, sent)) {
        (Some(rx), Some(tx)) => Some((rx, tx)),
        _ => None,
    }
}

/// Bytes received and sent, from the first row of a table that holds both. A
/// row with a column `bytes_in` is a head: it says where the numbers of the
/// rows after it stand.
pub open spec fn table_totals(
    table: Seq<Seq<char>>,
    received: Option<int>,
    sent: Option<int>,
) -> Option<(u64, u64)>
    decreases table.len(),
{
    if table.len() == 0 {
        None
    } else {
        let row = split(table[0], ',');
        let rest = table.skip(1);
        if position(row, "bytes_in"@) is Some {
            table_totals(rest, position(row, "bytes_in"@), position(row, "bytes_out"@))
        } else {
            match row_totals(row, received, sent) {
                Some(totals) => Some(totals),
                None => table_totals(rest, received, sent),
            }
        }
    }
}

/// Bytes received and sent, from what `nettop` wrote.
pub open spec fn nettop_totals(wrote: Seq<char>) -> Option<(u64, u64)> {
    table_totals(lines(wrote), None, None)
}

/// A column as a number.
pub open spec fn column(k: Option<usize>) -> Option<int> {
    match k {
        Some(k) => Some(k as int),
        None => None,
    }
}

fn read_cell(row: &Vec<String>, k: Option<usize>) -> (r: Option<u64>)
    ensures
        r == cell(texts(row@), column(k)),
{
    match k {
        Some(k) => if k < row.len() {
            assert(texts(row@)[k as int] == row@[k as int]@);
            let number = trim(row[k].as_str());
            parse_unsigned(number.as_str())
        } else {
            None
        },
        None => None,
    }
}

/// Reads the bytes received and sent from what `nettop` wrote.
pub fn parse_nettop(wrote: &str) -> (r: Option<(u64, u64)>)
    ensures
        r == nettop_totals(wrote@),
{
    let table = split_lines(wrote);
    let ghost all = lines(wrote@);
    let mut received: Option<usize> = None;
    let mut sent: Option<usize> = None;
    let mut i: usize = 0;
    assert(all.skip(0) == all);
    assert(texts(table@).len() == table@.len());
    while i < table.len()
        invariant
            i <= table@.len(),
            texts(table@) == all,
            all.len() == table@.len(),
            nettop_totals(wrote@) == table_totals(all.skip(i as int), column(received), column(sent)),
        decreases table@.len() - i,
    {
        assert(texts(table@)[i as int] == table@[i as int]@);
        assert(all.skip(i as int)[0] == all[i as int]);
        assert(all.skip(i as int).skip(1) == all.skip(i + 1));
        let row = split_text(table[i].as_str(), ',');
        i += 1;
        let head = find_text(&row, "bytes_in");
        if head.is_some() {
            received = head;
            sent = find_text(&row, "bytes_out");
        } else {
            let rx = read_cell(&row, received);
            let tx = read_cell(&row, sent);
            match (rx, tx) {
                (Some(rx), Some(tx)) => {
                    return Some((rx, tx));
                },
                _ => {},
            }
        }
    }
    assert(all.skip(i as int).len() == 0);
    None
}

/// What a report of `nettop` says of a process: bytes received and sent, if it
/// tells them, or why it failed. There is no report where the system has no
/// `nettop`.
pub fn sample_process_traffic(report: Option<&CommandReport>) -> (r: Result<
    Option<(u64, u64)>,
    String,
>)
    ensures
        outcome(r) == match report {
            Some(report) => if report.success {
                Ok(nettop_totals(decoded(report.stdout@)))
            } else {
                Err(failure("nettop exited with "@, *report))
            },
            None => Ok(None),
        },
{
    match report {
        Some(report) => {
            if !report.success {
                return Err(word_failure("nettop exited with ", report));
            }
            let wrote = decode_lossy(report.stdout.as_slice());
            Ok(parse_nettop(wrote.as_str()))
        },
        None => Ok(None),
    }
}

/// What stands before the first head is not read, whatever it holds.
pub proof fn law_rows_before_the_head_are_skipped(before: Seq<Seq<char>>, table: Seq<Seq<char>>)
    requires
        forall|i: int|
            0 <= i < before.len() ==> position(split(#[trigger] before[i], ','), "bytes_in"@) is None,
    ensures
        table_totals(before + table, None, None) == table_totals(table, None, None),
    decreases before.len(),
{
    if before.len() == 0 {
        assert(before + table == table);
    } else {
        assert((before + table)[0] == before[0]);
        assert((before + table).skip(1) == before.skip(1) + table);
        assert forall|i: int| 0 <= i < before.skip(1).len() implies position(
            split(#[trigger] before.skip(1)[i], ','),
            "bytes_in"@,
        ) is None by {
            assert(before.skip(1)[i] == before[i + 1]);
        }
        law_rows_before_the_head_are_skipped(before.skip(1), table);
    }
}

} // verus!
