use std::collections::HashMap;

use laindb::{
    encode_key, mode_to_int, parse_command, Command, KeyError, Mode, ReadStep, Session, SliceCall,
};

/// An in-memory stand-in for the native engine that counts the native calls.
struct StandIn {
    entries: HashMap<Vec<u8>, Vec<u8>>,
    lookups: usize,
    releases: usize,
}

impl StandIn {
    fn new() -> StandIn {
        StandIn { entries: HashMap::new(), lookups: 0, releases: 0 }
    }

    fn put(&mut self, s: &mut Session, key: &str, value: &[u8]) -> Result<(), KeyError> {
        let k = s.put(key, value)?;
        self.entries.insert(k, value.to_vec());
        Ok(())
    }

    fn erase(&mut self, s: &mut Session, key: &str) -> Result<(), KeyError> {
        let k = s.erase(key)?;
        self.entries.remove(&k);
        Ok(())
    }

    /// Runs a read to its end, answering each call the way the engine would.
    fn get(&mut self, s: &Session, key: &str) -> Result<Option<Vec<u8>>, KeyError> {
        let (mut read, mut step) = s.read(key);
        let mut slice: Option<Vec<u8>> = None;
        loop {
            step = match step {
                ReadStep::Done(r) => return r,
                ReadStep::Call(SliceCall::Lookup(k)) => {
                    assert_eq!(k.last(), Some(&0));
                    self.lookups += 1;
                    slice = self.entries.get(&k).cloned();
                    read.on_lookup(slice.is_some())
                }
                ReadStep::Call(SliceCall::Length) => read.on_length(slice.as_ref().unwrap().len()),
                ReadStep::Call(SliceCall::Copy(n)) => {
                    read.on_copied(slice.as_ref().unwrap()[..n].to_vec())
                }
                ReadStep::Call(SliceCall::Release) => {
                    assert!(slice.take().is_some());
                    self.releases += 1;
                    read.on_released()
                }
            };
        }
    }
}

fn open(name: &str, mode: Mode) -> Session {
    let (s, call) = Session::open(name, mode).unwrap();
    let mut expected = name.as_bytes().to_vec();
    expected.push(0);
    assert_eq!(call.name, expected);
    assert_eq!(call.code, mode_to_int(mode));
    s
}

#[test]
fn it_works() {
    assert_eq!(2 + 2, 4);
}

#[test]
fn scenario_t1() {
    let mut s = open("t1", Mode::Create);
    let mut db = StandIn::new();
    assert_eq!(db.get(&s, "a"), Ok(None));
    assert_eq!(db.put(&mut s, "a", &[1]), Ok(()));
    assert_eq!(db.get(&s, "a"), Ok(Some(vec![1])));
    assert_eq!(db.put(&mut s, "a", &[2]), Ok(()));
    assert_eq!(db.get(&s, "a"), Ok(Some(vec![2])));
    assert_eq!(db.erase(&mut s, "a"), Ok(()));
    assert_eq!(db.get(&s, "a"), Ok(None));
    assert!(s.close());
}

#[test]
fn round_trip_arbitrary_bytes() {
    let mut s = open("db", Mode::New);
    let mut db = StandIn::new();
    let value = vec![0u8, 255, 0, 7, 0];
    db.put(&mut s, "key with spaces", &value).unwrap();
    assert_eq!(db.get(&s, "key with spaces"), Ok(Some(value)));
    db.put(&mut s, "empty", &[]).unwrap();
    assert_eq!(db.get(&s, "empty"), Ok(Some(vec![])));
}

#[test]
fn miss_is_not_an_empty_value() {
    let s = open("db", Mode::New);
    let mut db = StandIn::new();
    assert_eq!(db.get(&s, "never"), Ok(None));
    assert_eq!(db.releases, 0);
}

#[test]
fn overwrite_keeps_the_last_value() {
    let mut s = open("db", Mode::Open);
    let mut db = StandIn::new();
    db.put(&mut s, "k", b"first").unwrap();
    db.put(&mut s, "k", b"second").unwrap();
    assert_eq!(db.get(&s, "k"), Ok(Some(b"second".to_vec())));
}

#[test]
fn erase_absent_key_twice() {
    let mut s = open("db", Mode::Create);
    let mut db = StandIn::new();
    assert_eq!(db.erase(&mut s, "absent"), Ok(()));
    assert_eq!(db.erase(&mut s, "absent"), Ok(()));
    assert_eq!(db.get(&s, "absent"), Ok(None));
}

#[test]
fn erase_after_put_leaves_a_miss() {
    let mut s = open("db", Mode::Create);
    let mut db = StandIn::new();
    db.put(&mut s, "k", &[9, 9]).unwrap();
    db.erase(&mut s, "k").unwrap();
    assert_eq!(db.get(&s, "k"), Ok(None));
}

#[test]
fn invalid_key_makes_no_native_call() {
    let mut s = open("db", Mode::Create);
    let mut db = StandIn::new();
    assert_eq!(db.get(&s, "a\0b"), Err(KeyError::InvalidKey));
    assert_eq!(db.put(&mut s, "a\0b", &[1]), Err(KeyError::InvalidKey));
    assert_eq!(db.erase(&mut s, "\0"), Err(KeyError::InvalidKey));
    assert_eq!(db.lookups, 0);
    assert!(db.entries.is_empty());
    match s.read("x\0") {
        (_, ReadStep::Done(Err(KeyError::InvalidKey))) => {}
        _ => panic!("an invalid key must end the read at once"),
    }
}

#[test]
fn one_release_per_hit() {
    let mut s = open("db", Mode::Create);
    let mut db = StandIn::new();
    db.put(&mut s, "a", &[1]).unwrap();
    db.put(&mut s, "b", &[2, 3]).unwrap();
    let n = 7;
    for i in 0..n {
        let key = if i % 2 == 0 { "a" } else { "b" };
        assert!(db.get(&s, key).unwrap().is_some());
    }
    assert_eq!(db.releases, n);
    assert_eq!(db.get(&s, "missing"), Ok(None));
    assert_eq!(db.releases, n);
    assert_eq!(db.lookups, n + 1);
}

#[test]
fn read_steps_in_order() {
    let s = open("db", Mode::Create);
    let (mut read, step) = s.read("k");
    match step {
        ReadStep::Call(SliceCall::Lookup(k)) => assert_eq!(k, vec![b'k', 0]),
        _ => panic!("a read starts with the lookup"),
    }
    assert!(matches!(read.on_lookup(true), ReadStep::Call(SliceCall::Length)));
    assert!(matches!(read.on_length(3), ReadStep::Call(SliceCall::Copy(3))));
    assert!(matches!(read.on_copied(vec![4, 5, 6]), ReadStep::Call(SliceCall::Release)));
    match read.on_released() {
        ReadStep::Done(Ok(Some(d))) => assert_eq!(d, vec![4, 5, 6]),
        _ => panic!("the read ends with the copy"),
    }
}

#[test]
fn handle_released_once() {
    let mut s = open("db", Mode::Create);
    assert!(s.close());
    assert!(!s.close());
    assert!(!s.close());
}

#[test]
fn open_rejects_name_with_nul() {
    assert!(matches!(Session::open("a\0", Mode::Create), Err(KeyError::InvalidKey)));
}

#[test]
fn mode_codes() {
    assert_eq!(mode_to_int(Mode::Open), 1);
    assert_eq!(mode_to_int(Mode::New), 2);
    assert_eq!(mode_to_int(Mode::Create), 3);
}

#[test]
fn key_encoding() {
    assert_eq!(encode_key("ab"), Ok(vec![97, 98, 0]));
    assert_eq!(encode_key(""), Ok(vec![0]));
    assert_eq!(encode_key("é"), Ok(vec![0xc3, 0xa9, 0]));
    assert_eq!(encode_key("a\0"), Err(KeyError::InvalidKey));
    assert_eq!(encode_key("\0b"), Err(KeyError::InvalidKey));
}

fn words(line: &str) -> Vec<String> {
    line.split_whitespace().map(|w| w.to_string()).collect()
}

#[test]
fn commands() {
    assert!(matches!(parse_command(&words("GET k")), Command::Get(k) if k == "k"));
    assert!(
        matches!(parse_command(&words("PUT k v")), Command::Put(k, v) if k == "k" && v == "v")
    );
    assert!(matches!(parse_command(&words("  DEL   k ")), Command::Del(k) if k == "k"));
    assert!(matches!(parse_command(&words("EXIT")), Command::Exit));
    assert!(matches!(parse_command(&words("GET")), Command::Unknown));
    assert!(matches!(parse_command(&words("PUT k")), Command::Unknown));
    assert!(matches!(parse_command(&words("get k")), Command::Unknown));
    assert!(matches!(parse_command(&words("")), Command::Unknown));
}
