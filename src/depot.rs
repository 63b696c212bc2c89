//! The store: an SQLite file with one table of records and one row of salt.

use vstd::prelude::*;
use vstd::utf8::encode_utf8;

use rand::RngCore;
use rusqlite::OptionalExtension;

use crate::cipher::MAX_PLAINTEXT;
use crate::error::{outcome, Error};
use crate::record::{
    found_spec, holds_value, nonce_view, password_view, read_found, row_view, seal_record, RecordView,
};

verus! {

/// The layout of a store: a record table whose keys are unique and never
/// null, whose nonces are unique where present, and whose rows carry the
/// time of their last write; and a table for the salt.
pub const SCHEMA: &'static str = "create table if not exists storage (
    modified   int  default (strftime('%s', 'now')),
    key        text unique not null,
    val        text not null,
    nonce      blob unique
);

create table if not exists salt (
    data blob not null
);";

/// Reads the salt.
pub const SELECT_SALT: &'static str = "select data from salt";

/// Writes the salt; takes the salt's bytes.
pub const INSERT_SALT: &'static str = "insert into salt (data) values (?1)";

/// Writes a record, or overwrites the value and nonce of the record of the
/// same key and renews its time of writing; takes key, value text and nonce.
pub const UPSERT_RECORD: &'static str = "insert into storage (key, val, nonce)
values (?1, ?2, ?3)
on conflict (key) do
update set
    modified = (strftime('%s', 'now')),
    val = ?2,
    nonce = ?3";

/// Reads the value text and nonce of a record; takes the key.
pub const SELECT_RECORD: &'static str = "select val, nonce from storage where key = ?1";

/// Deletes the record of a key, if any; takes the key.
pub const DELETE_RECORD: &'static str = "delete from storage where key = ?1";

/// An argument bound to a statement, as a plain value.
pub enum SqlArg {
    Text(Seq<char>),
    Blob(Seq<u8>),
    Null,
}

/// A statement and the arguments bound to it.
pub type Sent = (Seq<char>, Seq<SqlArg>);

/// The statements that have been executed through a connection handle, in
/// order, each with its arguments. Reading through the handle adds none.
pub uninterp spec fn sent(db: rusqlite::Connection) -> Seq<Sent>;

/// A nonce column as an argument.
pub open spec fn nonce_arg(nonce: Option<Seq<u8>>) -> SqlArg {
    match nonce {
        Some(n) => SqlArg::Blob(n),
        None => SqlArg::Null,
    }
}

/// The write of `row` under `key`.
pub open spec fn upsert_of(key: Seq<char>, row: RecordView) -> Sent {
    (UPSERT_RECORD@, seq![SqlArg::Text(key), SqlArg::Text(row.0), nonce_arg(row.1)])
}

/// The creation of the layout.
pub open spec fn schema_of() -> Sent {
    (SCHEMA@, Seq::<SqlArg>::empty())
}

/// The write of a salt.
pub open spec fn salt_insert_of(salt: Seq<u8>) -> Sent {
    (INSERT_SALT@, seq![SqlArg::Blob(salt)])
}

/// The deletion of the record of `key`.
pub open spec fn delete_of(key: Seq<char>) -> Sent {
    (DELETE_RECORD@, seq![SqlArg::Text(key)])
}

/// Relies on rusqlite::Connection::open: opens the file, creating it when
/// absent.
#[verifier::external_body]
fn open_db(path: &str) -> (r: Result<rusqlite::Connection, String>)
{
    match rusqlite::Connection::open(path) {
        Ok(c) => Ok(c),
        Err(e) => Err(e.to_string()),
    }
}

/// Relies on rusqlite::Connection::execute_batch: executes `sql`.
#[verifier::external_body]
fn run_batch(db: &mut rusqlite::Connection, sql: &str) -> (r: Result<(), String>)
    ensures
        sent(*final(db)) == sent(*old(db)).push((sql@, Seq::<SqlArg>::empty())),
{
    match db.execute_batch(sql) {
        Ok(()) => Ok(()),
        Err(e) => Err(e.to_string()),
    }
}

/// Relies on rusqlite::Connection::execute: executes `sql` with one blob
/// bound.
#[verifier::external_body]
fn run_blob(db: &mut rusqlite::Connection, sql: &str, blob: &[u8]) -> (r: Result<usize, String>)
    ensures
        sent(*final(db)) == sent(*old(db)).push((sql@, seq![SqlArg::Blob(blob@)])),
{
    match db.execute(sql, (blob,)) {
        Ok(n) => Ok(n),
        Err(e) => Err(e.to_string()),
    }
}

/// Relies on rusqlite::Connection::execute: executes `sql` with one text
/// bound.
#[verifier::external_body]
fn run_text(db: &mut rusqlite::Connection, sql: &str, text: &str) -> (r: Result<usize, String>)
    ensures
        sent(*final(db)) == sent(*old(db)).push((sql@, seq![SqlArg::Text(text@)])),
{
    match db.execute(sql, (text,)) {
        Ok(n) => Ok(n),
        Err(e) => Err(e.to_string()),
    }
}

/// Relies on rusqlite::Connection::execute: executes `sql` with two texts
/// and a blob or null bound.
#[verifier::external_body]
fn run_row(db: &mut rusqlite::Connection, sql: &str, a: &str, b: &str, c: &Option<Vec<u8>>) -> (r:
    Result<usize, String>)
    ensures
        sent(*final(db)) == sent(*old(db)).push(
            (
                sql@,
                seq![
                    SqlArg::Text(a@),
                    SqlArg::Text(b@),
                    match c {
                        Some(v) => SqlArg::Blob(v@),
                        None => SqlArg::Null,
                    },
                ],
            ),
        ),
{
    match db.execute(sql, (a, b, c)) {
        Ok(n) => Ok(n),
        Err(e) => Err(e.to_string()),
    }
}

/// Relies on rusqlite::Connection::query_row, OptionalExtension::optional
/// and the conversion of a blob to `[u8; 32]`: the first column of the
/// first row as 32 bytes, `None` when there is no row, an error when the
/// query fails or the blob has another size.
#[verifier::external_body]
fn query_blob32(db: &rusqlite::Connection, sql: &str) -> (r: Result<Option<Vec<u8>>, String>)
    ensures
        r matches Ok(Some(s)) ==> s@.len() == 32,
{
    match db.query_row(sql, (), |row| row.get::<usize, [u8; 32]>(0)).optional() {
        Ok(found) => Ok(found.map(|s| s.to_vec())),
        Err(e) => Err(e.to_string()),
    }
}

/// Relies on rusqlite::Connection::query_row and OptionalExtension::optional:
/// the first row's text and blob (or null) columns with one text bound,
/// `None` when there is no row.
#[verifier::external_body]
fn query_row_by_text(db: &rusqlite::Connection, sql: &str, text: &str) -> (r: Result<
    Option<(String, Option<Vec<u8>>)>,
    String,
>)
{
    match db.query_row(sql, (text,), |row| Ok((row.get(0)?, row.get(1)?))).optional() {
        Ok(found) => Ok(found),
        Err(e) => Err(e.to_string()),
    }
}

/// Relies on rand::thread_rng and RngCore::fill_bytes: 32 random bytes.
#[verifier::external_body]
fn random_salt() -> (r: Vec<u8>)
    ensures
        r@.len() == 32,
{
    let mut salt = [0u8; 32];
    rand::thread_rng().fill_bytes(&mut salt);
    salt.to_vec()
}

/// A key-value store in an SQLite file, with a salt of its own for the
/// values sealed under a password.
pub struct Depot {
    db: rusqlite::Connection,
    salt: Vec<u8>,
}

impl Depot {
    /// The store's salt.
    pub closed spec fn salt(&self) -> Seq<u8> {
        self.salt@
    }

    /// The statements that the store has executed on its file.
    pub closed spec fn log(&self) -> Seq<Sent> {
        sent(self.db)
    }

    pub open spec fn wf(&self) -> bool {
        self.salt().len() == 32
    }

    /// Opens the store in the file at `path`, as `from_connection` says of
    /// what opening the file gave.
    pub fn new(path: &str) -> (r: Result<Depot, Error>)
        ensures
            match r {
                Ok(d) => d.wf(),
                Err(e) => e is IoErr || e is SqlErr,
            },
    {
        Depot::from_connection(open_db(path))
    }

    /// The store over what opening its file gave. A file that could not be
    /// opened is an I/O failure. Otherwise the layout is created where it is
    /// missing, the salt is read, and the store is made as `open_with` says;
    /// any failure from then on is a storage failure.
    pub fn from_connection(opened: Result<rusqlite::Connection, String>) -> (r: Result<Depot, Error>)
        ensures
            opened matches Err(m) ==> r matches Err(Error::IoErr(m2)) && m2 == m,
            opened is Ok ==> (r matches Err(e) ==> e is SqlErr),
            r matches Ok(d) ==> d.wf() && (d.log() == sent(opened->Ok_0).push(schema_of()) || d.log()
                == sent(opened->Ok_0).push(schema_of()).push(salt_insert_of(d.salt()))),
    {
        let mut conn = match opened {
            Ok(c) => c,
            Err(m) => return Err(Error::IoErr(m)),
        };
        if let Err(m) = run_batch(&mut conn, SCHEMA) {
            return Err(Error::SqlErr(m));
        }
        let stored = query_blob32(&conn, SELECT_SALT);
        Depot::open_with(conn, stored)
    }

    /// The store over `conn`, given what reading its salt gave: a stored
    /// salt is kept as it is and nothing is written; without one a fresh
    /// salt is drawn and written; a failed read is a storage failure.
    pub fn open_with(conn: rusqlite::Connection, stored: Result<Option<Vec<u8>>, String>) -> (r:
        Result<Depot, Error>)
        requires
            stored matches Ok(Some(s)) ==> s@.len() == 32,
        ensures
            stored matches Ok(Some(s)) ==> r matches Ok(d) && d.salt() == s@ && d.log() == sent(
                conn,
            ),
            stored matches Err(m) ==> r matches Err(Error::SqlErr(m2)) && m2 == m,
            stored matches Ok(None) ==> match r {
                Ok(d) => d.wf() && d.log() == sent(conn).push(salt_insert_of(d.salt())),
                Err(e) => e is SqlErr,
            },
            r matches Ok(d) ==> d.wf(),
    {
        match stored {
            Ok(Some(s)) => Ok(Depot { db: conn, salt: s }),
            Ok(None) => {
                let mut d = Depot { db: conn, salt: Vec::new() };
                match d.init(random_salt()) {
                    Ok(()) => Ok(d),
                    Err(e) => Err(e),
                }
            },
            Err(m) => Err(Error::SqlErr(m)),
        }
    }

    /// Makes `salt` the store's salt and writes it to the salt table.
    fn init(&mut self, salt: Vec<u8>) -> (r: Result<(), Error>)
        requires
            salt@.len() == 32,
        ensures
            final(self).salt() == salt@,
            final(self).log() == old(self).log().push(salt_insert_of(salt@)),
            final(self).wf(),
            r matches Err(e) ==> e is SqlErr,
    {
        self.salt = salt;
        match run_blob(&mut self.db, INSERT_SALT, self.salt.as_slice()) {
            Ok(_) => Ok(()),
            Err(m) => Err(Error::SqlErr(m)),
        }
    }

    /// Stores `val` under `key`, replacing any earlier record of the key:
    /// sends one write of a row that holds `val`, verbatim without a
    /// password, sealed under `password` with a fresh nonce otherwise. A
    /// value too long to seal gives `BadPassword` and sends nothing; any
    /// other failure is the engine's.
    pub fn stow(&mut self, key: &str, val: &str, password: Option<&str>) -> (r: Result<(), Error>)
        ensures
            final(self).salt() == old(self).salt(),
            password is Some && encode_utf8(val@).len() > MAX_PLAINTEXT ==> (r matches Err(
                Error::BadPassword,
            ) && final(self).log() == old(self).log()),
            password is None || encode_utf8(val@).len() <= MAX_PLAINTEXT ==> exists|row: RecordView|
                #[trigger] holds_value(row, old(self).salt(), val@, password_view(password))
                    && final(self).log() == old(self).log().push(upsert_of(key@, row)),
            r matches Err(e) ==> e is SqlErr || (e is BadPassword && password is Some && encode_utf8(
                val@,
            ).len() > MAX_PLAINTEXT),
    {
        let ghost before = self.log();
        let rec = match seal_record(val, self.salt.as_slice(), password) {
            Ok(rec) => rec,
            Err(e) => return Err(e),
        };
        let ghost row = rec@;
        let (data, nonce) = rec.into_row();
        let res = run_row(&mut self.db, UPSERT_RECORD, key, data.as_str(), &nonce);
        assert(row == (data@, nonce_view(nonce)));
        assert(holds_value(row, self.salt(), val@, password_view(password)));
        assert(upsert_of(key@, row).1 =~= seq![SqlArg::Text(key@), SqlArg::Text(data@), match nonce {
            Some(v) => SqlArg::Blob(v@),
            None => SqlArg::Null,
        }]);
        assert(self.log() == before.push(upsert_of(key@, row)));
        match res {
            Ok(_) => Ok(()),
            Err(m) => Err(Error::SqlErr(m)),
        }
    }

    /// The value stored under `key`, unsealed with `password` when it is
    /// sealed: what `read_found` makes of the row that the lookup found, or
    /// `SqlErr` when the lookup fails.
    pub fn fetch(&self, key: &str, password: Option<&str>) -> (r: Result<String, Error>)
        ensures
            (r matches Err(Error::SqlErr(_))) || exists|row: Option<RecordView>| outcome(r)
                == #[trigger] found_spec(row, self.salt(), password_view(password)),
            r matches Err(e) ==> e is SqlErr || e is NotFound || e is NeedPassword || password is Some,
    {
        let found = match query_row_by_text(&self.db, SELECT_RECORD, key) {
            Ok(f) => f,
            Err(m) => return Err(Error::SqlErr(m)),
        };
        let ghost row = row_view(found);
        let r = read_found(found, self.salt.as_slice(), password);
        assert(outcome(r) == found_spec(row, self.salt(), password_view(password)));
        r
    }

    /// Removes the record of `key`: sends one deletion of it. Removing a
    /// key that has none is no error.
    pub fn drop(&mut self, key: &str) -> (r: Result<(), Error>)
        ensures
            final(self).salt() == old(self).salt(),
            final(self).log() == old(self).log().push(delete_of(key@)),
            r matches Err(e) ==> e is SqlErr,
    {
        match run_text(&mut self.db, DELETE_RECORD, key) {
            Ok(_) => Ok(()),
            Err(m) => Err(Error::SqlErr(m)),
        }
    }
}

} // verus!
