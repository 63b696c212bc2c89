use base64::prelude::BASE64_STANDARD;
use base64::Engine;
use depot::cipher::{decrypt, decrypt_with, encrypt, encrypt_with, NONCE_LEN, ROUNDS, TAG_LEN};
use depot::record::{open_record, read_found, seal_record, Record};
use depot::cli::{parse_args, usage, value_from_input, USAGE};
use depot::{Depot, Error, ErrorKind};

fn fresh_store(name: &str) -> Depot {
    Depot::new(&format!("/tmp/depot_{}.db", name)).unwrap()
}

#[test]
fn plain_value_round_trips() {
    let mut store = fresh_store("plain_round_trip");
    store.stow("note", "buy milk", None).unwrap();
    assert_eq!(store.fetch("note", None).unwrap(), "buy milk");
    assert_eq!(store.fetch("note", Some("ignored")).unwrap(), "buy milk");
}

#[test]
fn sealed_value_round_trips() {
    let mut store = fresh_store("sealed_round_trip");
    store.stow("token", "s3cr\u{e9}t \u{1f511}", Some("hunter2")).unwrap();
    assert_eq!(store.fetch("token", Some("hunter2")).unwrap(), "s3cr\u{e9}t \u{1f511}");
}

#[test]
fn wrong_password_is_bad_password() {
    let mut store = fresh_store("wrong_password");
    store.stow("k", "testing123", Some("goodpassword")).unwrap();
    let bad = store.fetch("k", Some("badpassword")).unwrap_err();
    assert_eq!(bad.kind(), ErrorKind::BadPassword);
    let none = store.fetch("k", None).unwrap_err();
    assert_eq!(none.kind(), ErrorKind::NeedPassword);
}

#[test]
fn dropped_keys_are_not_found() {
    let mut store = fresh_store("dropped");
    store.stow("p", "plain", None).unwrap();
    store.stow("s", "sealed", Some("pw")).unwrap();
    store.drop("p").unwrap();
    store.drop("s").unwrap();
    assert_eq!(store.fetch("p", None).unwrap_err().kind(), ErrorKind::NotFound);
    assert_eq!(store.fetch("s", Some("pw")).unwrap_err().kind(), ErrorKind::NotFound);
    assert_eq!(store.fetch("s", None).unwrap_err().kind(), ErrorKind::NotFound);
}

#[test]
fn dropping_a_missing_key_is_no_error() {
    let mut store = fresh_store("drop_missing");
    assert!(store.drop("absent").is_ok());
}

#[test]
fn missing_key_on_fresh_store() {
    let store = fresh_store("fresh");
    assert_eq!(store.fetch("neverstowed", None).unwrap_err().kind(), ErrorKind::NotFound);
}

#[test]
fn salt_survives_reopening() {
    let path = "/tmp/depot_reopen.db";
    {
        let mut store = Depot::new(path).unwrap();
        store.stow("k", "kept", Some("pw")).unwrap();
    }
    let store = Depot::new(path).unwrap();
    assert_eq!(store.fetch("k", Some("pw")).unwrap(), "kept");
}

#[test]
fn nonces_differ_between_seals() {
    let salt = [7u8; 32];
    let (c1, n1) = encrypt(b"pw", &salt, b"same").unwrap();
    let (c2, n2) = encrypt(b"pw", &salt, b"same").unwrap();
    assert_eq!(n1.len(), NONCE_LEN);
    assert_eq!(c1.len(), 4 + TAG_LEN);
    assert_ne!(n1, n2);
    assert_ne!(c1, c2);
}

#[test]
fn sealed_records_hold_distinct_nonces() {
    let salt = [1u8; 32];
    let a = seal_record("same", &salt, Some("pw")).unwrap();
    let b = seal_record("same", &salt, Some("pw")).unwrap();
    match (a, b) {
        (Record::Sealed { nonce: n1, .. }, Record::Sealed { nonce: n2, .. }) => assert_ne!(n1, n2),
        _ => panic!("expected sealed records"),
    }
}

#[test]
fn overwrite_switches_between_plain_and_sealed() {
    let mut store = fresh_store("overwrite");
    store.stow("k", "first", None).unwrap();
    store.stow("k", "second", Some("pw")).unwrap();
    assert_eq!(store.fetch("k", None).unwrap_err().kind(), ErrorKind::NeedPassword);
    assert_eq!(store.fetch("k", Some("pw")).unwrap(), "second");
    store.stow("k", "third", None).unwrap();
    assert_eq!(store.fetch("k", None).unwrap(), "third");
}

#[test]
fn other_keys_are_untouched() {
    let mut store = fresh_store("others");
    store.stow("a", "one", None).unwrap();
    store.stow("b", "two", Some("pw")).unwrap();
    store.drop("a").unwrap();
    assert_eq!(store.fetch("b", Some("pw")).unwrap(), "two");
}

#[test]
fn sealed_record_is_base64_of_ciphertext() {
    let salt = [3u8; 32];
    match seal_record("hello", &salt, Some("pw")).unwrap() {
        Record::Sealed { data, nonce } => {
            assert_ne!(data, "hello");
            let c = BASE64_STANDARD.decode(&data).unwrap();
            assert_eq!(c.len(), 5 + TAG_LEN);
            assert_eq!(decrypt(b"pw", &salt, &nonce, &c).unwrap(), b"hello".to_vec());
        }
        Record::Plain(_) => panic!("expected a sealed record"),
    }
}

#[test]
fn plain_record_is_verbatim() {
    match seal_record("hello", &[0u8; 32], None).unwrap() {
        Record::Plain(v) => assert_eq!(v, "hello"),
        Record::Sealed { .. } => panic!("expected a plain record"),
    }
}

#[test]
fn another_salt_does_not_unseal() {
    let (c, n) = encrypt(b"pw", &[1u8; 32], b"data").unwrap();
    let err = decrypt(b"pw", &[2u8; 32], &n, &c).unwrap_err();
    assert_eq!(err.kind(), ErrorKind::BadPassword);
}

#[test]
fn short_nonce_is_bad_password() {
    let (c, _) = encrypt(b"pw", &[1u8; 32], b"data").unwrap();
    let err = decrypt(b"pw", &[1u8; 32], &[0u8; 5], &c).unwrap_err();
    assert_eq!(err.kind(), ErrorKind::BadPassword);
}

#[test]
fn damaged_base64_is_malformed() {
    let rec = Record::Sealed { data: String::from("not base64!"), nonce: vec![0u8; 12] };
    let err = open_record(rec, &[0u8; 32], Some("pw")).unwrap_err();
    assert_eq!(err.kind(), ErrorKind::Base64);
}

#[test]
fn invalid_utf8_plaintext_is_malformed() {
    let salt = [9u8; 32];
    let (c, n) = encrypt(b"pw", &salt, &[0xff, 0xfe]).unwrap();
    let rec = Record::Sealed { data: BASE64_STANDARD.encode(&c), nonce: n };
    let err = open_record(rec, &salt, Some("pw")).unwrap_err();
    assert_eq!(err.kind(), ErrorKind::Utf8);
}

#[test]
fn sealed_record_without_password_needs_one() {
    let rec = Record::Sealed { data: String::from("AAAA"), nonce: vec![0u8; 12] };
    let err = open_record(rec, &[0u8; 32], None).unwrap_err();
    assert_eq!(err.kind(), ErrorKind::NeedPassword);
}

#[test]
fn unusable_path_is_io_error() {
    let err = Depot::new("/tmp/no_such_dir/inner/store.db").err().unwrap();
    assert_eq!(err.kind(), ErrorKind::Io);
}

#[test]
fn unreadable_salt_is_storage_error() {
    let path = "/tmp/depot_bad_salt.db";
    let conn = rusqlite::Connection::open(path).unwrap();
    conn.execute_batch(
        "create table if not exists salt (data blob not null);
        delete from salt;
        insert into salt (data) values (x'0102030405');",
    )
    .unwrap();
    let err = Depot::new(path).err().unwrap();
    assert_eq!(err.kind(), ErrorKind::Storage);
    let rows: i64 = conn.query_row("select count(*) from salt", (), |r| r.get(0)).unwrap();
    assert_eq!(rows, 1);
}

#[test]
fn reopening_keeps_one_salt_row() {
    let path = "/tmp/depot_one_salt.db";
    Depot::new(path).unwrap();
    Depot::new(path).unwrap();
    let conn = rusqlite::Connection::open(path).unwrap();
    let rows: i64 = conn.query_row("select count(*) from salt", (), |r| r.get(0)).unwrap();
    assert_eq!(rows, 1);
}

#[test]
fn no_row_reads_as_not_found() {
    let err = read_found(None, &[0u8; 32], Some("pw")).unwrap_err();
    assert_eq!(err.kind(), ErrorKind::NotFound);
    let v = read_found(Some((String::from("v"), None)), &[0u8; 32], Some("pw")).unwrap();
    assert_eq!(v, "v");
}

#[test]
fn rows_and_records_correspond() {
    match Record::from_row(String::from("abc"), Some(vec![1u8; 12])) {
        Record::Sealed { data, nonce } => {
            assert_eq!(data, "abc");
            assert_eq!(nonce, vec![1u8; 12]);
        }
        Record::Plain(_) => panic!("expected a sealed record"),
    }
    assert_eq!(Record::Plain(String::from("x")).into_row(), (String::from("x"), None));
}

#[test]
fn empty_input_value_is_refused() {
    assert!(value_from_input("").is_err());
}

#[test]
fn input_value_is_trimmed() {
    assert_eq!(value_from_input("  testing123 \n").unwrap(), "testing123");
}

#[test]
fn blank_input_value_is_refused() {
    let err = value_from_input(" \t\n").unwrap_err();
    assert_eq!(err.kind(), ErrorKind::Other);
}

#[test]
fn arguments_give_action_key_and_options() {
    let args: Vec<String> = vec![String::from("-sn"), String::from("stow"), String::from("k")];
    let (action, key, secret, newline) = parse_args(&args).unwrap();
    assert_eq!((action, key, secret, newline), ("stow", "k", true, false));
}

#[test]
fn help_wins_anywhere() {
    let args: Vec<String> = vec![String::from("fetch"), String::from("-?")];
    assert_eq!(parse_args(&args).unwrap().0, "help");
    let args: Vec<String> = vec![String::from("help")];
    assert_eq!(parse_args(&args).unwrap().0, "help");
}

#[test]
fn argument_errors() {
    let none: Vec<String> = vec![];
    assert!(matches!(parse_args(&none), Err(Error::AnyErr(m)) if m == "no action specified"));
    let one: Vec<String> = vec![String::from("fetch")];
    assert!(matches!(parse_args(&one), Err(Error::AnyErr(m)) if m == "no key specified"));
    let three: Vec<String> = vec![String::from("fetch"), String::from("a"), String::from("b")];
    assert!(matches!(parse_args(&three), Err(Error::AnyErr(m)) if m == "one key at a time"));
}

#[test]
fn usage_starts_with_synopsis() {
    assert!(usage().starts_with("Usage: depot [-nsh?] <action> <key>\n\nActions:"));
    assert_eq!(usage(), USAGE);
}

#[test]
fn failed_open_is_io_error_with_its_message() {
    let err = Depot::from_connection(Err(String::from("cannot open"))).err().unwrap();
    assert!(matches!(err, Error::IoErr(m) if m == "cannot open"));
}

#[test]
fn failed_salt_read_is_storage_error_with_its_message() {
    let conn = rusqlite::Connection::open_in_memory().unwrap();
    let err = Depot::open_with(conn, Err(String::from("boom"))).err().unwrap();
    assert!(matches!(err, Error::SqlErr(m) if m == "boom"));
}

#[test]
fn stored_salt_is_kept() {
    let path = "/tmp/depot_kept_salt.db";
    let conn = rusqlite::Connection::open(path).unwrap();
    conn.execute_batch(depot::depot::SCHEMA).unwrap();
    let mut store = Depot::open_with(conn, Ok(Some(vec![7u8; 32]))).unwrap();
    store.stow("k", "kept salt", Some("pw")).unwrap();
    let check = rusqlite::Connection::open(path).unwrap();
    let (val, nonce): (String, Vec<u8>) = check
        .query_row(depot::depot::SELECT_RECORD, ("k",), |r| Ok((r.get(0)?, r.get(1)?)))
        .unwrap();
    let c = BASE64_STANDARD.decode(val).unwrap();
    assert_eq!(decrypt(b"pw", &[7u8; 32], &nonce, &c).unwrap(), b"kept salt".to_vec());
}

#[test]
fn round_count_matters() {
    let salt = [5u8; 32];
    let (c, n) = encrypt_with(b"pw", &salt, b"data", 10).unwrap();
    assert_eq!(decrypt_with(b"pw", &salt, &n, &c, 10).unwrap(), b"data".to_vec());
    assert_eq!(decrypt_with(b"pw", &salt, &n, &c, 11).unwrap_err().kind(), ErrorKind::BadPassword);
    let (c, n) = encrypt(b"pw", &salt, b"data").unwrap();
    assert_eq!(decrypt_with(b"pw", &salt, &n, &c, ROUNDS).unwrap(), b"data".to_vec());
}

#[test]
fn trimming_twice_changes_nothing() {
    let once = value_from_input("\t x y \n").unwrap();
    assert_eq!(once, "x y");
    assert_eq!(value_from_input(&once).unwrap(), once);
}
