//! A worked example: an aggregated error type with the conversions that its annotations
//! ask for, written out.
//!
//! `MainError` is declared with two annotated variants. `Network(String)` declares the
//! source `NetworkError`; its payload is plain text, so the conversion renders the source
//! value as text. `Database(DatabaseError)` declares the source `DatabaseError`; its
//! payload is a named type, so the conversion wraps the source value as it is.

use vstd::prelude::*;
use vstd::std_specs::convert::FromSpecImpl;
use vstd::string::*;

verus! {

/// A failure of the network.
#[derive(Debug)]
pub enum NetworkError {
    Timeout(String),
}

/// A failure of the database.
#[derive(Debug)]
pub enum DatabaseError {
    ConnectionFailed(String),
}

/// Any failure of the program.
#[derive(Debug)]
pub enum MainError {
    Network(String),
    Database(DatabaseError),
}

impl NetworkError {
    /// The text that this error is rendered as: the text it carries.
    pub open spec fn spec_to_string(&self) -> String {
        match self {
            NetworkError::Timeout(text) => *text,
        }
    }

    /// Renders this error as text.
    pub fn to_string(&self) -> (r: String)
        ensures
            r == self.spec_to_string(),
    {
        match self {
            NetworkError::Timeout(text) => text.clone(),
        }
    }
}

impl DatabaseError {
    /// The text that this error is rendered as: the text it carries.
    pub open spec fn spec_to_string(&self) -> String {
        match self {
            DatabaseError::ConnectionFailed(text) => *text,
        }
    }

    /// Renders this error as text.
    pub fn to_string(&self) -> (r: String)
        ensures
            r == self.spec_to_string(),
    {
        match self {
            DatabaseError::ConnectionFailed(text) => text.clone(),
        }
    }
}

impl From<NetworkError> for MainError {
    /// Renders the network error as text and wraps the text.
    fn from(err: NetworkError) -> (r: MainError) {
        MainError::Network(err.to_string())
    }
}

impl FromSpecImpl<NetworkError> for MainError {
    open spec fn obeys_from_spec() -> bool {
        true
    }

    open spec fn from_spec(err: NetworkError) -> MainError {
        MainError::Network(err.spec_to_string())
    }
}

impl From<DatabaseError> for MainError {
    /// Wraps the database error as it is.
    fn from(err: DatabaseError) -> (r: MainError) {
        MainError::Database(err)
    }
}

impl FromSpecImpl<DatabaseError> for MainError {
    open spec fn obeys_from_spec() -> bool {
        true
    }

    open spec fn from_spec(err: DatabaseError) -> MainError {
        MainError::Database(err)
    }
}

/// A request that times out: it fails with the network's error, converted into the
/// program's.
pub fn network_request() -> (r: Result<(), MainError>)
    ensures
        r matches Err(MainError::Network(text)) && text@ == "Network timeout"@,
{
    Err(MainError::from(NetworkError::Timeout(String::from_str("Network timeout"))))
}

} // verus!
