//! The adapted error surface: what a caller of an adapted operation can see.
//!
//! The engine reports errors as a numeric code plus a message; the session
//! code [`ERROR_EAGAIN`] is not a failure but the engine's would-block
//! signal, which the retry machinery consumes and never surfaces.

use vstd::prelude::*;
use vstd::string::StringExecFns;

verus! {

/// The engine's "try again" session code: the operation would block because
/// the transport is not ready, and must be re-attempted once it is.
pub const ERROR_EAGAIN: i32 = -37;

/// Where an engine error code originates: the session layer proper, or the
/// SFTP subsystem riding on it.
#[derive(Clone, Copy, Debug, PartialEq, Eq)]
pub enum ErrorCode {
    Session(i32),
    Sftp(i32),
}

/// What the adaptation logic reads of an engine-reported error: the engine's
/// error code and its message text.
#[derive(Clone, Debug, PartialEq, Eq)]
pub struct EngineError {
    pub code: ErrorCode,
    pub message: String,
}

impl EngineError {
    /// An engine error is a would-block signal exactly when it carries the
    /// session-layer "try again" code.
    pub open spec fn spec_is_would_block(&self) -> bool {
        self.code == ErrorCode::Session(ERROR_EAGAIN)
    }

    pub fn is_would_block(&self) -> (r: bool)
        ensures
            r == self.spec_is_would_block(),
    {
        match self.code {
            ErrorCode::Session(c) => c == ERROR_EAGAIN,
            ErrorCode::Sftp(_) => false,
        }
    }
}

/// One adapted operation fails with exactly one of these: an engine-reported
/// protocol error, a transport I/O error, or a usage error synthesized by a
/// composite operation for a condition the engine does not model.
#[derive(Clone, Debug, PartialEq, Eq)]
pub enum Error {
    Ssh2(EngineError),
    Io(String),
    Other(String),
}

/// Message of the usage error synthesized when the agent holds no identities.
pub open spec fn no_identities_msg() -> Seq<char> {
    "no identities found in the ssh agent"@
}

/// Message of the usage error synthesized when every agent identity was
/// tried and none authenticated.
pub open spec fn all_identities_failed_msg() -> Seq<char> {
    "all identities cannot authenticated"@
}

impl Error {
    /// The usage error for an agent with an empty identity list.
    pub fn no_identities() -> (e: Error)
        ensures
            e matches Error::Other(m) && m@ == no_identities_msg(),
    {
        Error::Other(String::from_str("no identities found in the ssh agent"))
    }

    /// The usage error for an agent none of whose identities authenticated.
    pub fn all_identities_failed() -> (e: Error)
        ensures
            e matches Error::Other(m) && m@ == all_identities_failed_msg(),
    {
        Error::Other(String::from_str("all identities cannot authenticated"))
    }
}

impl core::convert::From<EngineError> for Error {
    /// An engine error surfaces verbatim as the engine variant.
    fn from(err: EngineError) -> (e: Self) {
        Error::Ssh2(err)
    }
}

impl vstd::std_specs::convert::FromSpecImpl<EngineError> for Error {
    open spec fn obeys_from_spec() -> bool {
        true
    }

    open spec fn from_spec(err: EngineError) -> Self {
        Error::Ssh2(err)
    }
}

} // verus!
