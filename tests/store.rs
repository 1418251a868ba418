use kvs::{decode, encode, Errors, KvStore, Operation};

fn s(x: &str) -> String {
    x.to_owned()
}

fn empty() -> KvStore {
    KvStore::open(Vec::new()).unwrap()
}

#[test]
fn empty_store_walkthrough() {
    let mut kv = empty();
    assert_eq!(kv.get(s("x")).unwrap(), None);
    let rec = kv.set(s("x"), s("y")).unwrap();
    assert_eq!(rec, "{\"Set\":[\"x\",\"y\"]}");
    assert_eq!(kv.get(s("x")).unwrap(), Some(s("y")));
    let rec = kv.remove(s("x")).unwrap();
    assert_eq!(rec, "{\"Rm\":[\"x\"]}");
    assert_eq!(kv.get(s("x")).unwrap(), None);
    assert!(matches!(kv.remove(s("x")), Err(Errors::KeyNotFound)));
}

#[test]
fn set_then_get_returns_value() {
    let mut kv = empty();
    kv.set(s("alpha"), s("beta")).unwrap();
    assert_eq!(kv.get(s("alpha")).unwrap(), Some(s("beta")));
    assert_eq!(kv.get(s("nothing")).unwrap(), None);
}

#[test]
fn last_write_wins_over_a_sequence() {
    let mut kv = empty();
    kv.set(s("a"), s("1")).unwrap();
    kv.set(s("b"), s("2")).unwrap();
    kv.remove(s("a")).unwrap();
    kv.set(s("b"), s("3")).unwrap();
    kv.set(s("c"), s("4")).unwrap();
    kv.set(s("a"), s("5")).unwrap();
    kv.remove(s("c")).unwrap();
    assert_eq!(kv.get(s("a")).unwrap(), Some(s("5")));
    assert_eq!(kv.get(s("b")).unwrap(), Some(s("3")));
    assert_eq!(kv.get(s("c")).unwrap(), None);
}

#[test]
fn remove_of_unwritten_key_appends_nothing() {
    let mut records: Vec<String> = Vec::new();
    let mut kv = empty();
    records.push(kv.set(s("a"), s("1")).unwrap());
    match kv.remove(s("never")) {
        Err(Errors::KeyNotFound) => {}
        other => panic!("unexpected result {:?}", other),
    }
    assert_eq!(records.len(), 1);
    let mut reopened = KvStore::open(records).unwrap();
    assert_eq!(reopened.get(s("a")).unwrap(), Some(s("1")));
    assert!(matches!(reopened.remove(s("never")), Err(Errors::KeyNotFound)));
}

#[test]
fn reopen_keeps_writes() {
    let mut records: Vec<String> = Vec::new();
    {
        let mut kv = empty();
        records.push(kv.set(s("a"), s("1")).unwrap());
    }
    let mut kv = KvStore::open(records).unwrap();
    assert_eq!(kv.get(s("a")).unwrap(), Some(s("1")));
}

#[test]
fn reopen_replays_removes_and_escapes() {
    let mut records: Vec<String> = Vec::new();
    let mut kv = empty();
    records.push(kv.set(s("k\"q"), s("line\nbreak \\ tab\t")).unwrap());
    records.push(kv.set(s("gone"), s("x")).unwrap());
    records.push(kv.remove(s("gone")).unwrap());
    records.push(kv.set(s("é"), s("ü")).unwrap());
    for r in &records {
        assert!(!r.contains('\n'));
    }
    let mut again = KvStore::open(records).unwrap();
    assert_eq!(again.get(s("k\"q")).unwrap(), Some(s("line\nbreak \\ tab\t")));
    assert_eq!(again.get(s("gone")).unwrap(), None);
    assert_eq!(again.get(s("é")).unwrap(), Some(s("ü")));
}

#[test]
fn malformed_trailing_line_is_corruption() {
    let mut records: Vec<String> = Vec::new();
    let mut kv = empty();
    records.push(kv.set(s("a"), s("1")).unwrap());
    records.push(s("{\"Set\":[\"a\""));
    assert!(matches!(KvStore::open(records), Err(Errors::LogCorrupted)));
}

#[test]
fn overwrite_keeps_both_records() {
    let mut records: Vec<String> = Vec::new();
    let mut kv = empty();
    records.push(kv.set(s("a"), s("1")).unwrap());
    records.push(kv.set(s("a"), s("2")).unwrap());
    assert_eq!(kv.get(s("a")).unwrap(), Some(s("2")));
    assert_eq!(records, vec![s("{\"Set\":[\"a\",\"1\"]}"), s("{\"Set\":[\"a\",\"2\"]}")]);
    let mut again = KvStore::open(records).unwrap();
    assert_eq!(again.get(s("a")).unwrap(), Some(s("2")));
}

#[test]
fn encode_writes_the_record_format() {
    assert_eq!(encode(&Operation::Put(s("a"), s("1"))).unwrap(), "{\"Set\":[\"a\",\"1\"]}");
    assert_eq!(encode(&Operation::Rm(s("a"))).unwrap(), "{\"Rm\":[\"a\"]}");
    assert_eq!(encode(&Operation::Rm(s("q\"b"))).unwrap(), "{\"Rm\":[\"q\\\"b\"]}");
    assert_eq!(encode(&Operation::Put(s(""), s(""))).unwrap(), "{\"Set\":[\"\",\"\"]}");
}

#[test]
fn decode_reads_records() {
    assert_eq!(decode("{\"Set\":[\"a\",\"1\"]}").unwrap(), Operation::Put(s("a"), s("1")));
    assert_eq!(decode("{\"Rm\":[\"a\"]}").unwrap(), Operation::Rm(s("a")));
    assert_eq!(decode("{\"Rm\":[\"q\\\"b\"]}").unwrap(), Operation::Rm(s("q\"b")));
    assert_eq!(decode("{\"Set\":[\"\\u00e9\",\"x\"]}").unwrap(), Operation::Put(s("é"), s("x")));
}

#[test]
fn decode_rejects_what_is_not_a_record() {
    for line in [
        "",
        "}",
        "garbage",
        "{\"Set\":[\"a\"]}",
        "{\"Set\":[\"a\",\"b\",\"c\"]}",
        "{\"Rm\":[\"a\",\"b\"]}",
        "{\"Rm\":[]}",
        "{\"Put\":[\"a\",\"b\"]}",
        "{\"Set\":[\"a\",1]}",
        "{\"Set\":[\"a\",\"b\"]",
        "{\"Set\":}",
    ] {
        assert!(matches!(decode(line), Err(Errors::LogCorrupted)), "{line}");
    }
}

#[test]
fn error_messages() {
    assert_eq!(Errors::KeyNotFound.message(), "Key not found");
    assert_eq!(Errors::LogCorrupted.message(), "Unable to read log file");
}

#[test]
fn discard_last_takes_back_a_write() {
    let mut kv = empty();
    kv.set(s("a"), s("1")).unwrap();
    kv.set(s("a"), s("2")).unwrap();
    kv.discard_last();
    assert_eq!(kv.get(s("a")).unwrap(), Some(s("1")));
    kv.remove(s("a")).unwrap();
    kv.discard_last();
    assert_eq!(kv.get(s("a")).unwrap(), Some(s("1")));
    kv.discard_last();
    assert_eq!(kv.get(s("a")).unwrap(), None);
    kv.discard_last();
    assert_eq!(kv.get(s("a")).unwrap(), None);
}

#[test]
fn records_hold_no_newline() {
    let mut kv = empty();
    let rec = kv.set(s("a\nb"), s("\r\n\u{1}")).unwrap();
    assert!(!rec.contains('\n'));
    assert_eq!(rec, "{\"Set\":[\"a\\nb\",\"\\r\\n\\u0001\"]}");
}
