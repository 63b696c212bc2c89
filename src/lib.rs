//! A key-value store kept in an SQLite file, in which each value may be
//! sealed under a password of its own.

pub mod cipher;
pub mod cli;
pub mod depot;
pub mod error;
pub mod laws;
pub mod outside;
pub mod record;

pub use depot::Depot;
pub use error::{Error, ErrorKind};
