//! The log that the user can look at: the newest lines of bounded number.
use crate::text::{blank, concat3, decimal, is_blank, push_decimal, texts};
use vstd::prelude::*;
use vstd::string::StringExecFns;

verus! {

/// The newest items of a list, `limit` at most.
pub open spec fn newest<T>(items: Seq<T>, limit: nat) -> Seq<T> {
    if items.len() <= limit {
        items
    } else {
        items.skip(items.len() - limit)
    }
}

/// Drops the oldest items until there are `limit` at most.
pub fn keep_newest<T>(items: &mut Vec<T>, limit: usize)
    ensures
        final(items)@ == newest(old(items)@, limit as nat),
{
    if items.len() > limit {
        let overflow: usize = items.len() - limit;
        let tail = items.split_off(overflow);
        *items = tail;
        assert(items@ == old(items)@.skip(overflow as int));
    }
}

/// A bounded list holds no more than its limit, its last item is the one that
/// was added last, and the others stand as they stood.
pub proof fn law_newest_are_kept<T>(items: Seq<T>, item: T, limit: nat)
    requires
        limit > 0,
    ensures
        newest(items.push(item), limit).len() <= limit,
        newest(items.push(item), limit).last() == item,
        newest(items.push(item), limit).drop_last() == newest(items, (limit - 1) as nat),
{
    let longer = items.push(item);
    assert(newest(longer, limit).drop_last() =~= newest(items, (limit - 1) as nat));
}

/// A line of the log.
pub open spec fn stamped(now: u64, message: Seq<char>) -> Seq<char> {
    "["@ + decimal(now as nat) + "] "@ + message
}

/// How many lines the log holds at most.
pub const LOG_LIMIT: usize = 1000;

/// Adds a line to the log and drops the oldest above the limit.
pub fn log_line(logs: &mut Vec<String>, now: u64, message: &str)
    ensures
        texts(final(logs)@) == newest(
            texts(old(logs)@).push(stamped(now, message@)),
            LOG_LIMIT as nat,
        ),
{
    let mut line = "[".to_owned();
    push_decimal(&mut line, now);
    line.append("] ");
    line.append(message);
    logs.push(line);
    let ghost longer = logs@;
    assert(texts(longer) == texts(old(logs)@).push(line@));
    keep_newest(logs, LOG_LIMIT);
    assert(texts(newest(longer, LOG_LIMIT as nat)) == newest(texts(longer), LOG_LIMIT as nat));
}

/// What a line that a child process wrote becomes in the log: its label and the
/// line, or nothing where the line is blank.
pub open spec fn child_line(label: Seq<char>, line: Seq<char>) -> Option<Seq<char>> {
    if is_blank(line) {
        None
    } else {
        Some(label + ": "@ + line)
    }
}

/// Words a line that a child process wrote.
pub fn word_child_line(label: &str, line: &str) -> (r: Option<String>)
    ensures
        crate::text::maybe_text(r) == child_line(label@, line@),
{
    if blank(line) {
        None
    } else {
        Some(concat3(label, ": ", line))
    }
}

} // verus!
