use vstd::prelude::*;

verus! {

/// Failure taxonomy of the driver core.
#[derive(Clone, Debug, PartialEq, Eq)]
pub enum Error {
    /// Transport-level failure; fatal to the connection.
    Connection(String),
    /// Malformed or out-of-order server message; fatal.
    Protocol(String),
    /// A cache-eviction protocol exchange failed; the connection must be
    /// treated as fatally degraded.
    CacheEviction(String),
    /// An interceptor vetoed the call; no work was performed.
    InterceptorVeto(String),
    /// The server failed the statement itself (bad SQL, a violated
    /// constraint); local to that statement, not to the connection.
    Server(String),
    /// Operation on an already-finished or already-taken transaction;
    /// local and recoverable.
    TransactionState,
    /// A value did not match the expected shape during row projection.
    Decode(String),
}

impl Error {
    /// Fatal errors end the connection's useful life; the others are
    /// local conditions reported to the caller.
    pub fn is_fatal(&self) -> (r: bool)
        ensures
            r == (self is Connection || self is Protocol || self is CacheEviction),
    {
        match self {
            Error::Connection(_) => true,
            Error::Protocol(_) => true,
            Error::CacheEviction(_) => true,
            _ => false,
        }
    }

    /// The text carried by this error.
    pub open spec fn spec_message(&self) -> Seq<char> {
        match *self {
            Error::Connection(ref m) => m@,
            Error::Protocol(ref m) => m@,
            Error::CacheEviction(ref m) => m@,
            Error::InterceptorVeto(ref m) => m@,
            Error::Server(ref m) => m@,
            Error::TransactionState => "the tx is done!"@,
            Error::Decode(ref m) => m@,
        }
    }

    /// Render the error's text.
    pub fn message(&self) -> (r: String)
        ensures
            r@ == self.spec_message(),
    {
        match self {
            Error::Connection(m) => m.clone(),
            Error::Protocol(m) => m.clone(),
            Error::CacheEviction(m) => m.clone(),
            Error::InterceptorVeto(m) => m.clone(),
            Error::Server(m) => m.clone(),
            Error::TransactionState => "the tx is done!".to_owned(),
            Error::Decode(m) => m.clone(),
        }
    }
}

} // verus!
