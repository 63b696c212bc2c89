//! A stored record, plain or sealed, and how it is written and read back.

use vstd::prelude::*;
use vstd::utf8::{decode_utf8, encode_utf8, valid_utf8};

use base64::prelude::BASE64_STANDARD;
use base64::Engine;

use crate::cipher::{decrypt, encrypt, gcm_open, gcm_seal, key_for, opened, MAX_PLAINTEXT, NONCE_LEN};
use crate::error::{Error, ErrorKind};

verus! {

/// A record as a plain value: the text kept in the value column, and the
/// nonce, present exactly when the text is a sealed value.
pub type RecordView = (Seq<char>, Option<Seq<u8>>);

/// The text that standard base64 (with padding) makes of some bytes.
pub uninterp spec fn base64_text(bytes: Seq<u8>) -> Seq<char>;

/// The bytes that standard base64 (with padding) decodes a text to, if it
/// is well formed.
pub uninterp spec fn base64_bytes(text: Seq<char>) -> Option<Seq<u8>>;

/// Relies on base64's Engine::encode with the STANDARD engine; its decode
/// gives the bytes back.
#[verifier::external_body]
fn to_base64(bytes: &[u8]) -> (r: String)
    ensures
        r@ == base64_text(bytes@),
        base64_bytes(r@) == Some(bytes@),
{
    BASE64_STANDARD.encode(bytes)
}

/// Relies on base64's Engine::decode with the STANDARD engine.
#[verifier::external_body]
fn from_base64(text: &str) -> (r: Result<Vec<u8>, base64::DecodeError>)
    ensures
        match r {
            Ok(b) => base64_bytes(text@) == Some(b@),
            Err(_) => base64_bytes(text@) is None,
        },
{
    BASE64_STANDARD.decode(text)
}

/// Relies on String::from_utf8: it succeeds exactly on valid UTF-8, and
/// then holds the characters that the bytes encode.
#[verifier::external_body]
fn utf8_string(bytes: Vec<u8>) -> (r: Result<String, std::string::FromUtf8Error>)
    ensures
        r is Ok <==> valid_utf8(bytes@),
        r matches Ok(s) ==> s@ == decode_utf8(bytes@),
{
    String::from_utf8(bytes)
}

/// One record of the store: a value kept verbatim, or a sealed value in
/// base64 with the nonce it was sealed with.
pub enum Record {
    Plain(String),
    Sealed { data: String, nonce: Vec<u8> },
}

impl View for Record {
    type V = RecordView;

    open spec fn view(&self) -> RecordView {
        match self {
            Record::Plain(v) => (v@, None),
            Record::Sealed { data, nonce } => (data@, Some(nonce@)),
        }
    }
}

/// A nonce column as a plain value.
pub open spec fn nonce_view(nonce: Option<Vec<u8>>) -> Option<Seq<u8>> {
    match nonce {
        Some(n) => Some(n@),
        None => None,
    }
}

impl Record {
    /// The record that a row of value text and nonce column stands for: a
    /// row with a nonce is sealed.
    pub fn from_row(val: String, nonce: Option<Vec<u8>>) -> (r: Record)
        ensures
            r@ == (val@, nonce_view(nonce)),
    {
        match nonce {
            None => Record::Plain(val),
            Some(n) => Record::Sealed { data: val, nonce: n },
        }
    }

    /// The value text and nonce column that stand for this record.
    pub fn into_row(self) -> (r: (String, Option<Vec<u8>>))
        ensures
            (r.0@, nonce_view(r.1)) == self@,
    {
        match self {
            Record::Plain(v) => (v, None),
            Record::Sealed { data, nonce } => (data, Some(nonce)),
        }
    }
}

/// A password as a plain value.
pub open spec fn password_view(password: Option<&str>) -> Option<Seq<char>> {
    match password {
        Some(p) => Some(p@),
        None => None,
    }
}

/// What reading a record with an optional password gives.
pub open spec fn read_spec(rec: RecordView, salt: Seq<u8>, password: Option<Seq<char>>) -> Result<
    Seq<char>,
    ErrorKind,
> {
    match rec.1 {
        None => Ok(rec.0),
        Some(nonce) => match password {
            None => Err(ErrorKind::NeedPassword),
            Some(p) => match base64_bytes(rec.0) {
                None => Err(ErrorKind::Base64),
                Some(c) => match opened(encode_utf8(p), salt, nonce, c) {
                    None => Err(ErrorKind::BadPassword),
                    Some(b) => if valid_utf8(b) {
                        Ok(decode_utf8(b))
                    } else {
                        Err(ErrorKind::Utf8)
                    },
                },
            },
        },
    }
}

/// `rec` is what writing `val`, sealed under `password` when there is one,
/// leaves in the store. A sealed record holds a 12-byte nonce and the base64
/// text of the ciphertext; the facts that decoding and unsealing them give
/// `val` back come with it.
pub open spec fn holds_value(
    rec: RecordView,
    salt: Seq<u8>,
    val: Seq<char>,
    password: Option<Seq<char>>,
) -> bool {
    match password {
        None => rec == (val, None::<Seq<u8>>),
        Some(p) => match rec.1 {
            None => false,
            Some(n) => {
                let k = key_for(encode_utf8(p), salt);
                let c = gcm_seal(k, n, encode_utf8(val));
                &&& n.len() == NONCE_LEN
                &&& rec.0 == base64_text(c)
                &&& base64_bytes(base64_text(c)) == Some(c)
                &&& gcm_open(k, n, c) == Some(encode_utf8(val))
            },
        },
    }
}

/// Makes the record that holds `val`: verbatim without a password, sealed
/// under it with a fresh nonce otherwise. Sealing fails only on a value too
/// long for AES-GCM.
pub fn seal_record(val: &str, salt: &[u8], password: Option<&str>) -> (r: Result<Record, Error>)
    ensures
        match r {
            Ok(rec) => holds_value(rec@, salt@, val@, password_view(password)),
            Err(e) => e is BadPassword && password is Some && encode_utf8(val@).len()
                > MAX_PLAINTEXT,
        },
        password is None ==> r is Ok,
        encode_utf8(val@).len() <= MAX_PLAINTEXT ==> r is Ok,
        password is Some && encode_utf8(val@).len() > MAX_PLAINTEXT ==> r matches Err(
            Error::BadPassword,
        ),
{
    match password {
        None => Ok(Record::Plain(val.to_owned())),
        Some(p) => match encrypt(p.as_bytes(), salt, val.as_bytes()) {
            Ok((c, n)) => {
                let data = to_base64(c.as_slice());
                Ok(Record::Sealed { data, nonce: n })
            },
            Err(e) => Err(e),
        },
    }
}

/// Reads a record: a plain value whatever the password; a sealed value only
/// with a password, through base64, unsealing and UTF-8 in turn.
pub fn open_record(rec: Record, salt: &[u8], password: Option<&str>) -> (r: Result<String, Error>)
    ensures
        crate::error::outcome(r) == read_spec(rec@, salt@, password_view(password)),
{
    match rec {
        Record::Plain(v) => Ok(v),
        Record::Sealed { data, nonce } => match password {
            None => Err(Error::NeedPassword),
            Some(p) => {
                let bytes = match from_base64(data.as_str()) {
                    Ok(b) => b,
                    Err(e) => return Err(Error::B64Err(e)),
                };
                let plain = match decrypt(p.as_bytes(), salt, nonce.as_slice(), bytes.as_slice()) {
                    Ok(b) => b,
                    Err(e) => return Err(e),
                };
                match utf8_string(plain) {
                    Ok(s) => Ok(s),
                    Err(e) => Err(Error::Utf8Err(e)),
                }
            },
        },
    }
}

/// A looked-up row as a plain value.
pub open spec fn row_view(found: Option<(String, Option<Vec<u8>>)>) -> Option<RecordView> {
    match found {
        Some((v, n)) => Some((v@, nonce_view(n))),
        None => None,
    }
}

/// What a lookup that found `found` gives: `NotFound` for no row, else what
/// reading the row's record gives.
pub open spec fn found_spec(found: Option<RecordView>, salt: Seq<u8>, password: Option<Seq<char>>) -> Result<
    Seq<char>,
    ErrorKind,
> {
    match found {
        None => Err(ErrorKind::NotFound),
        Some(rec) => read_spec(rec, salt, password),
    }
}

/// Reads the row that a lookup found, if any.
pub fn read_found(found: Option<(String, Option<Vec<u8>>)>, salt: &[u8], password: Option<&str>) -> (r:
    Result<String, Error>)
    ensures
        crate::error::outcome(r) == found_spec(row_view(found), salt@, password_view(password)),
{
    match found {
        None => Err(Error::NotFound),
        Some((val, nonce)) => open_record(Record::from_row(val, nonce), salt, password),
    }
}

} // verus!
