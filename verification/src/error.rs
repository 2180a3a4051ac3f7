use vstd::prelude::*;

verus! {

/// Errors raised while establishing or requesting a connection.
///
/// `NoAddress` is reserved for asking for a client before any address was
/// ever set; the current control flow never raises it (callers block
/// instead). `FailedToEstablishConnection` covers every failed connect
/// attempt, whatever the underlying cause.
#[derive(Clone, Copy, Debug, PartialEq, Eq, Structural)]
pub enum PersistentMongoConnectionError {
    NoAddress,
    FailedToEstablishConnection,
}

/// Top-level error of the library.
#[derive(Clone, Copy, Debug, PartialEq, Eq, Structural)]
pub enum PersistentMongoError {
    ConnectionError(PersistentMongoConnectionError),
}

impl PersistentMongoConnectionError {
    /// The numeric code of this error variant.
    pub open spec fn code_spec(&self) -> usize {
        match self {
            PersistentMongoConnectionError::NoAddress => 0,
            PersistentMongoConnectionError::FailedToEstablishConnection => 1,
        }
    }

    /// Numeric code, distinct per variant.
    pub fn code(&self) -> (code: usize)
        ensures
            code == self.code_spec(),
    {
        match self {
            PersistentMongoConnectionError::NoAddress => 0,
            PersistentMongoConnectionError::FailedToEstablishConnection => 1,
        }
    }

    /// Human-readable description; present for every variant, currently empty.
    pub fn description(&self) -> (text: Option<&'static str>)
        ensures
            text matches Some(t) && t@.len() == 0,
    {
        proof {
            reveal_strlit("");
        }
        Some("")
    }

    /// Known causes; present for every variant, currently empty.
    pub fn causes(&self) -> (text: Option<&'static str>)
        ensures
            text matches Some(t) && t@.len() == 0,
    {
        proof {
            reveal_strlit("");
        }
        Some("")
    }

    /// Suggested solutions; present for every variant, currently empty.
    pub fn solutions(&self) -> (text: Option<&'static str>)
        ensures
            text matches Some(t) && t@.len() == 0,
    {
        proof {
            reveal_strlit("");
        }
        Some("")
    }

    /// Documentation link; currently empty.
    pub fn docs(&self) -> (text: &'static str)
        ensures
            text@.len() == 0,
    {
        proof {
            reveal_strlit("");
        }
        ""
    }
}

} // verus!
