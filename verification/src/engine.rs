//! The engine boundary: the opaque engine session type and the trusted
//! wrappers around the engine calls that session setup makes, together with
//! [`get_session`], which builds and configures a fresh engine instance.
//!
//! Everything here touches the engine before it is bound to a transport:
//! creating the instance, switching it to non-blocking mode, and applying
//! the construction-time configuration. Binding the instance to a socket and
//! driving protocol operations over it belong to the transport layer.

use vstd::prelude::*;

use crate::error::{EngineError, Error, ErrorCode};
use crate::session::{ConfigStep, SessionConfiguration};

verus! {

/// The engine's session handle, opaque to verification: created and
/// configured here, bound to a transport and driven elsewhere.
#[verifier::external_type_specification]
#[verifier::external_body]
pub struct ExSession(ssh2::Session);

/// Relies on ssh2::Session::new: initializes the engine library on first
/// use and returns a fresh session instance, not yet associated with any
/// transport, or the engine's error (read out through ssh2::Error::code and
/// ssh2::Error::message).
#[verifier::external_body]
fn engine_new() -> Result<ssh2::Session, EngineError> {
    match ssh2::Session::new() {
        Ok(s) => Ok(s),
        Err(e) => Err(EngineError {
            code: match e.code() {
                ssh2::ErrorCode::Session(c) => ErrorCode::Session(c),
                ssh2::ErrorCode::SFTP(c) => ErrorCode::Sftp(c),
            },
            message: e.message().to_string(),
        }),
    }
}

/// Relies on ssh2::Session::set_blocking: sets or clears the engine's
/// blocking mode.
#[verifier::external_body]
fn engine_set_blocking(sess: &ssh2::Session, blocking: bool) {
    sess.set_blocking(blocking);
}

/// Relies on ssh2::Session::set_banner: stores the banner to send to the
/// remote host when the handshake starts, or returns the engine's error
/// (read out through ssh2::Error::code and ssh2::Error::message).
#[verifier::external_body]
fn engine_set_banner(sess: &ssh2::Session, banner: &str) -> Result<(), EngineError> {
    match sess.set_banner(banner) {
        Ok(()) => Ok(()),
        Err(e) => Err(EngineError {
            code: match e.code() {
                ssh2::ErrorCode::Session(c) => ErrorCode::Session(c),
                ssh2::ErrorCode::SFTP(c) => ErrorCode::Sftp(c),
            },
            message: e.message().to_string(),
        }),
    }
}

/// Relies on ssh2::Session::set_allow_sigpipe: sets whether the engine lets
/// SIGPIPE through. The engine accepts this flag for every input.
#[verifier::external_body]
fn engine_set_allow_sigpipe(sess: &ssh2::Session, block: bool) {
    sess.set_allow_sigpipe(block);
}

/// Relies on ssh2::Session::set_compress: sets whether the engine negotiates
/// compression. The engine accepts this flag for every input.
#[verifier::external_body]
fn engine_set_compress(sess: &ssh2::Session, compress: bool) {
    sess.set_compress(compress);
}

/// Relies on ssh2::Session::set_timeout: sets the timeout, in milliseconds,
/// for the engine's blocking calls; zero means no timeout.
#[verifier::external_body]
fn engine_set_timeout(sess: &ssh2::Session, timeout_ms: u32) {
    sess.set_timeout(timeout_ms);
}

/// Relies on ssh2::Session::set_keepalive: configures keepalive probes with
/// the given want-reply flag and interval in seconds.
#[verifier::external_body]
fn engine_set_keepalive(sess: &ssh2::Session, want_reply: bool, interval: u32) {
    sess.set_keepalive(want_reply, interval);
}

/// Builds the engine instance for a new session: creates it, switches it to
/// non-blocking mode, and applies the configuration's steps in their fixed
/// order. Fails only with an engine error, when the engine cannot be
/// initialized or rejects a configured value.
pub fn get_session(configuration: Option<SessionConfiguration>) -> (r: Result<
    ssh2::Session,
    Error,
>)
    ensures
        r matches Err(e) ==> e is Ssh2,
{
    let session = match engine_new() {
        Ok(s) => s,
        Err(e) => {
            return Err(Error::Ssh2(e));
        },
    };
    engine_set_blocking(&session, false);
    let mut steps = match configuration {
        Option::Some(c) => c.configuration_steps(),
        Option::None => Vec::new(),
    };
    while steps.len() > 0
        decreases steps@.len(),
    {
        let step = steps.remove(0);
        match step {
            ConfigStep::SetBanner(b) => {
                match engine_set_banner(&session, b.as_str()) {
                    Ok(()) => (),
                    Err(e) => {
                        return Err(Error::Ssh2(e));
                    },
                }
            },
            ConfigStep::SetAllowSigpipe(v) => engine_set_allow_sigpipe(&session, v),
            ConfigStep::SetCompress(v) => engine_set_compress(&session, v),
            ConfigStep::SetTimeout(ms) => engine_set_timeout(&session, ms),
            ConfigStep::SetKeepalive(w, iv) => engine_set_keepalive(&session, w, iv),
        }
    }
    Ok(session)
}

} // verus!
