use vstd::prelude::*;

verus! {

/// The failures this library reports. The first two arise while the binder is
/// constructed and should stop server startup; the last one arises per
/// request and is meant to be translated by the handler into a
/// service-unavailable style response.
#[derive(Clone, Copy, Debug, PartialEq, Eq, Structural)]
pub enum BinderError {
    /// The backend connection parameters could not be parsed into valid
    /// connection info.
    ConnectionConfigError,
    /// The pool could not be constructed around the connection manager.
    PoolInitError,
    /// No connection became available before the pool's acquire timeout
    /// elapsed.
    PoolExhaustedError,
}

impl BinderError {
    /// What `message` returns for each failure.
    pub open spec fn spec_message(self) -> Seq<char> {
        match self {
            BinderError::ConnectionConfigError => "malformed backend connection parameters"@,
            BinderError::PoolInitError => "could not initialize the connection pool"@,
            BinderError::PoolExhaustedError => "no pooled connection became available in time"@,
        }
    }

    /// A short description of the failure, for operator-facing logs.
    pub fn message(&self) -> (r: &'static str)
        ensures
            r@ == self.spec_message(),
    {
        match self {
            BinderError::ConnectionConfigError => "malformed backend connection parameters",
            BinderError::PoolInitError => "could not initialize the connection pool",
            BinderError::PoolExhaustedError => "no pooled connection became available in time",
        }
    }
}

} // verus!
