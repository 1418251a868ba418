use crate::error::Errors;
use crate::record::{decode, encode, is_one_line, op_of_line, record_of, Op, Operation};
use vstd::prelude::*;

verus! {

/// What key `k` holds after the operations of `log`, in order: the outcome of
/// the last one that touches `k`, or nothing if none does.
pub open spec fn value_of(log: Seq<Op>, k: Seq<char>) -> Option<Seq<char>>
    decreases log.len(),
{
    if log.len() == 0 {
        None
    } else if log.last().key() == k {
        log.last().outcome()
    } else {
        value_of(log.drop_last(), k)
    }
}

/// Whether every line of `lines` holds an operation.
pub open spec fn all_records(lines: Seq<Seq<char>>) -> bool {
    forall|i: int| 0 <= i < lines.len() ==> (#[trigger] op_of_line(lines[i])) is Some
}

/// The operations that the lines of a log hold, in order, if every line holds one.
pub open spec fn replay(lines: Seq<Seq<char>>) -> Option<Seq<Op>> {
    if all_records(lines) {
        Some(lines.map_values(|l: Seq<char>| op_of_line(l)->0))
    } else {
        None
    }
}

/// What an optional string holds, as characters.
pub open spec fn opt_view(o: Option<String>) -> Option<Seq<char>> {
    match o {
        Some(s) => Some(s@),
        None => None,
    }
}

/// A store: the history of its writes, replayed from its log.
///
/// The store does not touch the filesystem. It is opened from the lines of the
/// log, and `set` and `remove` return the record that the caller appends to the
/// log, followed by a newline. While it is open the store is the only writer
/// of its log, so reads go by the history in memory and do not replay again.
#[derive(Debug)]
pub struct KvStore {
    log: Vec<Operation>,
}

impl View for KvStore {
    type V = Seq<Op>;

    closed spec fn view(&self) -> Seq<Op> {
        self.log@.map_values(|o: Operation| o@)
    }
}

impl KvStore {
    /// Opens a store from the lines of its log (none if the log file does not
    /// exist). Fails with `LogCorrupted` if a line holds no operation.
    pub fn open(lines: Vec<String>) -> (r: Result<KvStore, Errors>)
        ensures
            r is Ok <==> replay(lines.deep_view()) is Some,
            r is Ok ==> Some(r->Ok_0@) == replay(lines.deep_view()),
            r is Err ==> r->Err_0 is LogCorrupted,
    {
        let mut store = KvStore { log: Vec::new() };
        proof {
            assert(store@ =~= Seq::<Op>::empty());
        }
        match store.refill_log(&lines) {
            Ok(()) => Ok(store),
            Err(e) => Err(e),
        }
    }

    /// Replaces the history with the operations that `lines` hold; leaves it
    /// as it was if a line holds none.
    fn refill_log(&mut self, lines: &Vec<String>) -> (r: Result<(), Errors>)
        ensures
            r is Ok <==> replay(lines.deep_view()) is Some,
            r is Ok ==> Some(final(self)@) == replay(lines.deep_view()),
            r is Err ==> r->Err_0 is LogCorrupted && final(self)@ == old(self)@,
    {
        let ghost lv = lines.deep_view();
        let mut ops: Vec<Operation> = Vec::new();
        let mut i: usize = 0;
        while i < lines.len()
            invariant
                i <= lines.len(),
                lv == lines.deep_view(),
                ops@.len() == i,
                forall|j: int| 0 <= j < i ==> op_of_line(#[trigger] lv[j]) == Some(ops@[j]@),
            decreases lines.len() - i,
        {
            match decode(lines[i].as_str()) {
                Ok(op) => ops.push(op),
                Err(e) => {
                    proof {
                        assert(op_of_line(lv[i as int]) is None);
                    }
                    return Err(e);
                },
            }
            i = i + 1;
        }
        self.log = ops;
        proof {
            assert(all_records(lv));
            assert(self@ =~= lv.map_values(|l: Seq<char>| op_of_line(l)->0));
        }
        Ok(())
    }

    /// What `k` holds: the value of the last operation on `k` if it is a set,
    /// nothing if it is a remove or if no operation touches `k`.
    pub fn get(&mut self, k: String) -> (r: Result<Option<String>, Errors>)
        ensures
            final(self)@ == old(self)@,
            r is Ok,
            r is Ok ==> opt_view(r->Ok_0) == value_of(old(self)@, k@),
    {
        let mut i: usize = self.log.len();
        proof {
            assert(self@.subrange(0, i as int) =~= self@);
        }
        while i > 0
            invariant
                i <= self.log@.len(),
                value_of(self@.subrange(0, i as int), k@) == value_of(self@, k@),
            decreases i,
        {
            let ghost pre = self@.subrange(0, i as int);
            proof {
                assert(pre.drop_last() =~= self@.subrange(0, i - 1));
                assert(pre.last() == self.log@[i - 1]@);
            }
            match &self.log[i - 1] {
                Operation::Put(kk, v) => {
                    if *kk == k {
                        return Ok(Some(v.clone()));
                    }
                },
                Operation::Rm(kk) => {
                    if *kk == k {
                        return Ok(None);
                    }
                },
            }
            i = i - 1;
        }
        proof {
            assert(self@.subrange(0, 0) =~= Seq::<Op>::empty());
        }
        Ok(None)
    }

    /// Sets `k` to `v`. Returns the record to append to the log.
    pub fn set(&mut self, k: String, v: String) -> (r: Result<String, Errors>)
        ensures
            r is Ok,
            r is Ok ==> final(self)@ == old(self)@.push(Op::Put(k@, v@)),
            r is Ok ==> is_one_line(r->Ok_0@),
            r is Ok ==> r->Ok_0@ == record_of(Op::Put(k@, v@)),
            r is Ok ==> op_of_line(r->Ok_0@) == Some(Op::Put(k@, v@)),
    {
        let op = Operation::Put(k, v);
        match encode(&op) {
            Ok(line) => {
                self.log.push(op);
                proof {
                    assert(self@ =~= old(self)@.push(op@));
                }
                Ok(line)
            },
            Err(e) => Err(e),
        }
    }

    /// Removes `k`. Fails with `KeyNotFound`, and changes nothing, if the store
    /// does not hold `k`. Returns the record to append to the log.
    pub fn remove(&mut self, k: String) -> (r: Result<String, Errors>)
        ensures
            (r is Err && r->Err_0 is KeyNotFound) <==> value_of(old(self)@, k@) is None,
            value_of(old(self)@, k@) is Some ==> r is Ok,
            r is Ok ==> is_one_line(r->Ok_0@),
            r is Ok ==> final(self)@ == old(self)@.push(Op::Rm(k@)),
            r is Ok ==> r->Ok_0@ == record_of(Op::Rm(k@)),
            r is Ok ==> op_of_line(r->Ok_0@) == Some(Op::Rm(k@)),
            r is Err ==> final(self)@ == old(self)@,
            r is Err ==> r->Err_0 is KeyNotFound,
    {
        let present = match self.get(k.clone()) {
            Ok(Some(_)) => true,
            _ => false,
        };
        if !present {
            return Err(Errors::KeyNotFound);
        }
        let op = Operation::Rm(k);
        match encode(&op) {
            Ok(line) => {
                self.log.push(op);
                proof {
                    assert(self@ =~= old(self)@.push(op@));
                }
                Ok(line)
            },
            Err(e) => Err(e),
        }
    }

    /// Takes back the last write, for a caller whose append of its record to the
    /// log failed; does nothing on an empty store.
    pub fn discard_last(&mut self)
        ensures
            old(self)@.len() > 0 ==> final(self)@ == old(self)@.drop_last(),
            old(self)@.len() == 0 ==> final(self)@ == old(self)@,
    {
        let _ = self.log.pop();
        proof {
            assert(self@ =~= if old(self)@.len() > 0 {
                old(self)@.drop_last()
            } else {
                old(self)@
            });
        }
    }
}

} // verus!
