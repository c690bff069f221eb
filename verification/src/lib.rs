//! Adapter core for driving a blocking-style SSH protocol engine from
//! cooperative, non-blocking code.
//!
//! The engine reports "would block" when the transport is not ready; the
//! retry machinery in [`session_stream`] decides, for each attempt outcome,
//! whether to resolve, suspend until the transport is ready in a hinted
//! direction, or fail. [`session`] holds the construction-time configuration
//! and the composite authentication decisions; [`error`] models the adapted
//! error surface; [`engine`] builds and configures a fresh engine instance
//! at the trusted boundary to the engine library itself.

pub mod engine;
pub mod error;
pub mod session;
pub mod session_stream;

pub use engine::get_session;
pub use error::{EngineError, Error};
pub use session::{ConfigStep, SessionConfiguration, SessionKeepaliveConfiguration};
pub use session_stream::{AttemptOutcome, BlockDirections, RetryDecision};
