use crate::error::Errors;
use vstd::prelude::*;

verus! {

/// One write to the store, as it is kept in memory and in the log.
#[derive(Debug, Clone, PartialEq, Eq)]
pub enum Operation {
    /// `key` now maps to `value`.
    Put(String, String),
    /// `key` is no longer in the store.
    Rm(String),
}

/// The model of an [`Operation`], over character sequences.
pub enum Op {
    Put(Seq<char>, Seq<char>),
    Rm(Seq<char>),
}

impl View for Operation {
    type V = Op;

    open spec fn view(&self) -> Op {
        match self {
            Operation::Put(k, v) => Op::Put(k@, v@),
            Operation::Rm(k) => Op::Rm(k@),
        }
    }
}

impl Op {
    /// The key that the operation touches.
    pub open spec fn key(self) -> Seq<char> {
        match self {
            Op::Put(k, _) => k,
            Op::Rm(k) => k,
        }
    }

    /// What the key holds right after the operation.
    pub open spec fn outcome(self) -> Option<Seq<char>> {
        match self {
            Op::Put(_, v) => Some(v),
            Op::Rm(_) => None,
        }
    }

    /// The strings that the record of the operation lists after its tag.
    pub open spec fn fields(self) -> Seq<Seq<char>> {
        match self {
            Op::Put(k, v) => seq![k, v],
            Op::Rm(k) => seq![k],
        }
    }
}

/// The text that serde_json writes for a list of strings.
pub uninterp spec fn json_of_strings(items: Seq<Seq<char>>) -> Seq<char>;

/// The list of strings that serde_json reads from a text, if the text is one.
pub uninterp spec fn strings_of_json(text: Seq<char>) -> Option<Seq<Seq<char>>>;

/// Whether a text holds no newline, so that it fits on one line of the log.
pub open spec fn is_one_line(text: Seq<char>) -> bool {
    forall|i: int| 0 <= i < text.len() ==> text[i] != '\n'
}

/// `{"Set":`, the start of the record of a `Put`.
pub open spec fn set_head() -> Seq<char> {
    seq!['{', '"', 'S', 'e', 't', '"', ':']
}

/// `{"Rm":`, the start of the record of a `Rm`.
pub open spec fn rm_head() -> Seq<char> {
    seq!['{', '"', 'R', 'm', '"', ':']
}

/// The start of the record of `op`.
pub open spec fn head_of(op: Op) -> Seq<char> {
    match op {
        Op::Put(_, _) => set_head(),
        Op::Rm(_) => rm_head(),
    }
}

/// The log line of an operation: `{"Set":["<key>","<value>"]}` or `{"Rm":["<key>"]}`,
/// the list being written by serde_json.
pub open spec fn record_of(op: Op) -> Seq<char> {
    head_of(op) + json_of_strings(op.fields()) + seq!['}']
}

/// The list of strings between `head` and the closing brace of `line`, if `line`
/// is framed so.
pub open spec fn body_after(line: Seq<char>, head: Seq<char>) -> Option<Seq<Seq<char>>> {
    if line.len() > head.len() && line.subrange(0, head.len() as int) == head && line.last()
        == '}' {
        strings_of_json(line.subrange(head.len() as int, line.len() - 1))
    } else {
        None
    }
}

/// The operation that a log line holds, if it holds one.
pub open spec fn op_of_line(line: Seq<char>) -> Option<Op> {
    match body_after(line, set_head()) {
        Some(items) => if items.len() == 2 {
            Some(Op::Put(items[0], items[1]))
        } else {
            None
        },
        None => match body_after(line, rm_head()) {
            Some(items) => if items.len() == 1 {
                Some(Op::Rm(items[0]))
            } else {
                None
            },
            None => None,
        },
    }
}

/// Relies on serde_json::to_string on a `Vec<String>`: it writes the JSON array of the
/// strings into a `Vec<u8>`, which cannot fail; every character below U+0020,
/// newline included, is written as an escape; and serde_json::from_str reads that
/// text back as the same list.
#[verifier::external_body]
fn json_array(items: &Vec<String>) -> (r: Result<String, serde_json::Error>)
    ensures
        r is Ok,
        r is Ok ==> is_one_line(r->Ok_0@),
        r is Ok ==> r->Ok_0@ == json_of_strings(items.deep_view()),
        r is Ok ==> strings_of_json(r->Ok_0@) == Some(items.deep_view()),
{
    serde_json::to_string(items)
}

/// Relies on serde_json::from_str::<Vec<String>>: whether a text is a JSON array of
/// strings, and which, depends on the text alone.
#[verifier::external_body]
fn parse_json_array(text: &str) -> (r: Result<Vec<String>, serde_json::Error>)
    ensures
        r is Ok ==> strings_of_json(text@) == Some(r->Ok_0.deep_view()),
        r is Err ==> strings_of_json(text@) is None,
{
    serde_json::from_str::<Vec<String>>(text)
}

/// The record of `op`, without its newline.
pub fn encode(op: &Operation) -> (r: Result<String, Errors>)
    ensures
        r is Ok,
        r is Ok ==> is_one_line(r->Ok_0@),
        r is Ok ==> r->Ok_0@ == record_of(op@),
        r is Ok ==> op_of_line(r->Ok_0@) == Some(op@),
{
    let (mut line, fields) = match op {
        Operation::Put(k, v) => (String::from_str("{\"Set\":"), vec![k.clone(), v.clone()]),
        Operation::Rm(k) => (String::from_str("{\"Rm\":"), vec![k.clone()]),
    };
    proof {
        reveal_strlit("{\"Set\":");
        reveal_strlit("{\"Rm\":");
        assert(fields.deep_view() =~= op@.fields());
        assert(line@ == head_of(op@));
    }
    match json_array(&fields) {
        Ok(list) => {
            line.append(list.as_str());
            line.append("}");
            proof {
                reveal_strlit("}");
                let rec = record_of(op@);
                let head = head_of(op@);
                assert(line@ =~= rec);
                assert(is_one_line(rec)) by {
                    assert forall|i: int| 0 <= i < rec.len() implies rec[i] != '\n' by {
                        if i >= head.len() && i < rec.len() - 1 {
                            assert(rec[i] == list@[i - head.len()]);
                        }
                    }
                }
                assert(rec.subrange(0, head.len() as int) =~= head);
                assert(rec.subrange(head.len() as int, rec.len() - 1) =~= list@);
                if op@ is Rm {
                    assert(rec.subrange(0, 7) != set_head()) by {
                        assert(rec[1] == rm_head()[1]);
                        assert(rec[2] == 'R');
                    }
                }
            }
            Ok(line)
        },
        Err(e) => Err(Errors::Serde(e)),
    }
}

/// Whether `line` starts with `head` and ends with `}` after it; if so, the text in
/// between.
fn framed<'a>(line: &'a str, head: &str) -> (r: Option<&'a str>)
    ensures
        r is Some <==> (line@.len() > head@.len() && line@.subrange(0, head@.len() as int)
            == head@ && line@.last() == '}'),
        r is Some ==> r->0@ == line@.subrange(head@.len() as int, line@.len() - 1),
{
    let n = line.unicode_len();
    let h = head.unicode_len();
    if n <= h {
        return None;
    }
    let start = String::from_str(line.substring_char(0, h));
    let expected = String::from_str(head);
    if start != expected {
        return None;
    }
    if line.get_char(n - 1) != '}' {
        return None;
    }
    Some(line.substring_char(h, n - 1))
}

/// The operation that a log line holds; `LogCorrupted` if it holds none.
pub fn decode(line: &str) -> (r: Result<Operation, Errors>)
    ensures
        r is Ok <==> op_of_line(line@) is Some,
        r is Ok ==> op_of_line(line@) == Some(r->Ok_0@),
        r is Err ==> r->Err_0 is LogCorrupted,
{
    proof {
        reveal_strlit("{\"Set\":");
        reveal_strlit("{\"Rm\":");
        assert("{\"Set\":"@ =~= set_head());
        assert("{\"Rm\":"@ =~= rm_head());
    }
    if let Some(body) = framed(line, "{\"Set\":") {
        match parse_json_array(body) {
            Ok(items) => {
                if items.len() == 2 {
                    let k = items[0].clone();
                    let v = items[1].clone();
                    proof {
                        assert(items.deep_view()[0] == k@ && items.deep_view()[1] == v@);
                    }
                    return Ok(Operation::Put(k, v));
                }
                return Err(Errors::LogCorrupted);
            },
            Err(_) => return Err(Errors::LogCorrupted),
        }
    }
    if let Some(body) = framed(line, "{\"Rm\":") {
        match parse_json_array(body) {
            Ok(items) => {
                if items.len() == 1 {
                    let k = items[0].clone();
                    proof {
                        assert(items.deep_view()[0] == k@);
                    }
                    return Ok(Operation::Rm(k));
                }
                return Err(Errors::LogCorrupted);
            },
            Err(_) => return Err(Errors::LogCorrupted),
        }
    }
    Err(Errors::LogCorrupted)
}

} // verus!
