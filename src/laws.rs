//! What holds of a record from the moment it is written to the moment it is
//! read: `Depot::stow` writes the row of what `seal_record` makes, and
//! `Depot::fetch` reads the row it finds through `read_found`.

use vstd::prelude::*;
use vstd::utf8::{encode_utf8_decode_utf8, encode_utf8_valid_utf8};

use crate::error::ErrorKind;
use crate::record::{found_spec, holds_value, RecordView};

verus! {

/// A record that holds a value written without a password reads back,
/// without one, as that value exactly.
pub proof fn plain_round_trip(rec: RecordView, salt: Seq<u8>, val: Seq<char>)
    requires
        holds_value(rec, salt, val, None),
    ensures
        found_spec(Some(rec), salt, None) == Ok::<Seq<char>, ErrorKind>(val),
{
}

/// A record that holds a value sealed under a password reads back, with the
/// same password and the same salt, as that value exactly.
pub proof fn sealed_round_trip(rec: RecordView, salt: Seq<u8>, val: Seq<char>, password: Seq<char>)
    requires
        holds_value(rec, salt, val, Some(password)),
    ensures
        found_spec(Some(rec), salt, Some(password)) == Ok::<Seq<char>, ErrorKind>(val),
{
    encode_utf8_valid_utf8(val);
    encode_utf8_decode_utf8(val);
}

/// A record that holds a value sealed under a password is refused, with
/// `NeedPassword`, to a read without one.
pub proof fn sealed_needs_password(
    rec: RecordView,
    salt: Seq<u8>,
    val: Seq<char>,
    password: Seq<char>,
)
    requires
        holds_value(rec, salt, val, Some(password)),
    ensures
        found_spec(Some(rec), salt, None) == Err::<Seq<char>, ErrorKind>(ErrorKind::NeedPassword),
{
}

/// A lookup that finds no row reads as `NotFound`, with or without a
/// password: whatever record a dropped key had is out of the way.
pub proof fn absent_not_found(salt: Seq<u8>, password: Option<Seq<char>>)
    ensures
        found_spec(None, salt, password) == Err::<Seq<char>, ErrorKind>(ErrorKind::NotFound),
{
}

} // verus!
