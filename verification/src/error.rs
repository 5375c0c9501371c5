use vstd::prelude::*;

verus! {

/// The failure surface of this crate: one structured error carrying a
/// human-readable message.  Errors of the dispatched operation itself are not
/// represented here; they are propagated by the caller unchanged.
#[derive(Clone, Debug, PartialEq, Eq)]
pub enum Error {
    /// The identity string matched no registered configuration.  The message
    /// lists every registered canonical name, comma-separated.
    ConfigNotFound(String),
    /// The secret string failed key derivation for the selected scheme.  The
    /// message is the derivation failure, surfaced verbatim.
    InvalidSecret(String),
}

impl Error {
    /// The message carried by the error, whichever variant it is.
    pub open spec fn spec_message(self) -> Seq<char> {
        match self {
            Error::ConfigNotFound(m) => m@,
            Error::InvalidSecret(m) => m@,
        }
    }

    /// Returns the human-readable message, for display by the caller.
    pub fn message(&self) -> (r: &String)
        ensures
            r@ == self.spec_message(),
    {
        match self {
            Error::ConfigNotFound(m) => m,
            Error::InvalidSecret(m) => m,
        }
    }
}

} // verus!
