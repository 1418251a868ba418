use vstd::prelude::*;

verus! {

#[verifier::external_type_specification]
#[verifier::external_body]
pub struct ExIoError(std::io::Error);

#[verifier::external_type_specification]
#[verifier::external_body]
pub struct ExJsonError(serde_json::Error);

/// What can go wrong with a store.
#[derive(Debug)]
pub enum Errors {
    /// `remove` was asked for a key that the store does not hold.
    KeyNotFound,
    /// The log could not be opened or read, or one of its lines is not a record.
    LogCorrupted,
    /// A filesystem operation on the log failed.
    IOError(std::io::Error),
    /// A record could not be serialized.
    Serde(serde_json::Error),
}

impl From<serde_json::Error> for Errors {
    fn from(cause: serde_json::Error) -> (r: Errors)
        ensures
            r == Errors::Serde(cause),
    {
        Errors::Serde(cause)
    }
}

impl vstd::std_specs::convert::FromSpecImpl<serde_json::Error> for Errors {
    open spec fn obeys_from_spec() -> bool {
        true
    }

    open spec fn from_spec(cause: serde_json::Error) -> Errors {
        Errors::Serde(cause)
    }
}

impl From<std::io::Error> for Errors {
    fn from(cause: std::io::Error) -> (r: Errors)
        ensures
            r == Errors::IOError(cause),
    {
        Errors::IOError(cause)
    }
}

impl vstd::std_specs::convert::FromSpecImpl<std::io::Error> for Errors {
    open spec fn obeys_from_spec() -> bool {
        true
    }

    open spec fn from_spec(cause: std::io::Error) -> Errors {
        Errors::IOError(cause)
    }
}

impl Errors {
    /// A short description of the error.
    pub fn message(&self) -> (r: String)
        ensures
            self is KeyNotFound ==> r@ == "Key not found"@,
            self is LogCorrupted ==> r@ == "Unable to read log file"@,
    {
        match self {
            Errors::KeyNotFound => String::from_str("Key not found"),
            Errors::LogCorrupted => String::from_str("Unable to read log file"),
            Errors::IOError(_) => String::from_str("I/O error on the log"),
            Errors::Serde(_) => String::from_str("record could not be serialized"),
        }
    }
}

} // verus!
