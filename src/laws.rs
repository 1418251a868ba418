use crate::record::{op_of_line, Op};
use crate::store::{all_records, replay, value_of};
use vstd::prelude::*;

verus! {

/// Last write wins: what a key holds after a history of writes is the outcome of
/// the last write on that key (the value of a set, nothing after a remove), and
/// nothing if no write touched it.
pub proof fn last_write_wins(log: Seq<Op>, k: Seq<char>)
    ensures
        forall|i: int|
            0 <= i < log.len() && #[trigger] log[i].key() == k && (forall|j: int|
                i < j < log.len() ==> (#[trigger] log[j]).key() != k) ==> value_of(log, k)
                == log[i].outcome(),
        (forall|i: int| 0 <= i < log.len() ==> (#[trigger] log[i]).key() != k) ==> value_of(
            log,
            k,
        ) is None,
    decreases log.len(),
{
    if log.len() > 0 {
        let init = log.drop_last();
        last_write_wins(init, k);
        assert forall|i: int|
            0 <= i < log.len() && #[trigger] log[i].key() == k && (forall|j: int|
                i < j < log.len() ==> (#[trigger] log[j]).key() != k) implies value_of(log, k)
            == log[i].outcome() by {
            if i < log.len() - 1 {
                assert(log.last().key() != k);
                assert(init[i] == log[i]);
                assert forall|j: int| i < j < init.len() implies (#[trigger] init[j]).key() != k by {
                    assert(init[j] == log[j]);
                }
            }
        }
        if forall|i: int| 0 <= i < log.len() ==> (#[trigger] log[i]).key() != k {
            assert(log.last().key() != k);
            assert forall|i: int| 0 <= i < init.len() implies (#[trigger] init[i]).key() != k by {
                assert(init[i] == log[i]);
            }
        }
    }
}

/// One more write changes what its own key holds to the write's outcome, and what
/// every other key holds not at all.
pub proof fn write_then_read(log: Seq<Op>, op: Op, k: Seq<char>)
    ensures
        value_of(log.push(op), k) == if op.key() == k {
            op.outcome()
        } else {
            value_of(log, k)
        },
{
    assert(log.push(op).drop_last() =~= log);
}

/// A key that was just set holds the value it was set to.
pub proof fn set_then_get(log: Seq<Op>, k: Seq<char>, v: Seq<char>)
    ensures
        value_of(log.push(Op::Put(k, v)), k) == Some(v),
{
    write_then_read(log, Op::Put(k, v), k);
}

/// A key that no write touched is absent, so removing it fails with
/// `KeyNotFound` and appends nothing.
pub proof fn unwritten_key_is_absent(log: Seq<Op>, k: Seq<char>)
    requires
        forall|i: int| 0 <= i < log.len() ==> (#[trigger] log[i]).key() != k,
    ensures
        value_of(log, k) is None,
{
    last_write_wins(log, k);
}

/// Reopening: the lines that hold the records of a history, in order, replay to
/// that history, so every key holds what it held before.
pub proof fn reopen_restores(log: Seq<Op>, lines: Seq<Seq<char>>)
    requires
        lines.len() == log.len(),
        forall|i: int| 0 <= i < lines.len() ==> op_of_line(#[trigger] lines[i]) == Some(log[i]),
    ensures
        replay(lines) == Some(log),
        forall|k: Seq<char>| value_of(replay(lines)->0, k) == value_of(log, k),
{
    assert(all_records(lines));
    assert(lines.map_values(|l: Seq<char>| op_of_line(l)->0) =~= log);
}

/// A log with a line that holds no record does not replay, wherever that line
/// stands; in particular a malformed last line.
pub proof fn corrupt_line_fails(lines: Seq<Seq<char>>, bad: Seq<char>)
    requires
        op_of_line(bad) is None,
    ensures
        replay(lines.push(bad)) is None,
        forall|i: int|
            0 <= i < lines.len() && op_of_line(#[trigger] lines[i]) is None ==> replay(lines) is None,
{
    assert(lines.push(bad)[lines.len() as int] == bad);
}

} // verus!
