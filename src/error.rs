use vstd::prelude::*;

verus! {

/// Everything that can go wrong in the store.
#[derive(Debug)]
pub enum Error {
    /// A failure described by its message.
    AnyErr(String),
    /// A sealed value that is not valid base64.
    B64Err(base64::DecodeError),
    /// Sealing failed, or unsealing did not authenticate.
    BadPassword,
    /// The file system refused an operation; the message says why.
    IoErr(String),
    /// A sealed value was asked for without a password.
    NeedPassword,
    /// No record holds the key.
    NotFound,
    /// The database engine failed; the message says why.
    SqlErr(String),
    /// An unsealed value that is not valid UTF-8.
    Utf8Err(std::string::FromUtf8Error),
}

/// The kind of an `Error`, without what it carries.
#[derive(Clone, Copy, Debug, PartialEq, Eq, Structural)]
pub enum ErrorKind {
    Other,
    Base64,
    BadPassword,
    Io,
    NeedPassword,
    NotFound,
    Storage,
    Utf8,
}

impl Error {
    pub open spec fn spec_kind(&self) -> ErrorKind {
        match self {
            Error::AnyErr(_) => ErrorKind::Other,
            Error::B64Err(_) => ErrorKind::Base64,
            Error::BadPassword => ErrorKind::BadPassword,
            Error::IoErr(_) => ErrorKind::Io,
            Error::NeedPassword => ErrorKind::NeedPassword,
            Error::NotFound => ErrorKind::NotFound,
            Error::SqlErr(_) => ErrorKind::Storage,
            Error::Utf8Err(_) => ErrorKind::Utf8,
        }
    }

    /// The kind of this error.
    #[verifier::when_used_as_spec(spec_kind)]
    pub fn kind(&self) -> (r: ErrorKind)
        ensures
            r == self.spec_kind(),
    {
        match self {
            Error::AnyErr(_) => ErrorKind::Other,
            Error::B64Err(_) => ErrorKind::Base64,
            Error::BadPassword => ErrorKind::BadPassword,
            Error::IoErr(_) => ErrorKind::Io,
            Error::NeedPassword => ErrorKind::NeedPassword,
            Error::NotFound => ErrorKind::NotFound,
            Error::SqlErr(_) => ErrorKind::Storage,
            Error::Utf8Err(_) => ErrorKind::Utf8,
        }
    }
}

/// What a computation returning a string came to, as a plain value.
pub open spec fn outcome(r: Result<String, Error>) -> Result<Seq<char>, ErrorKind> {
    match r {
        Ok(s) => Ok(s@),
        Err(e) => Err(e.spec_kind()),
    }
}

} // verus!
