//! The error taxonomy of the core.
//!
//! Two recoverable classes exist: transport/decode failures, and the two
//! authentication-negotiation failures, which form the "not found" class.
//! Protocol-shape violations (a non-Supported OPTIONS reply, an unexpected
//! handshake opcode, an AUTHENTICATE body without a name) are contract
//! violations, excluded by preconditions rather than reported as values.

use vstd::prelude::*;

verus! {

/// An error surfaced to the caller of a handshake or request operation.
#[derive(Debug)]
pub enum Error {
    /// A failure writing to, reading from, or decoding a frame off the
    /// transport. Carries a diagnostic message.
    Io(String),
    /// The configured authenticator offers no protocol name, so no token
    /// exchange could even be attempted ("not found" class).
    AuthenticatorNotProvided,
    /// The configured authenticator's name differs from the one the server
    /// advertised ("not found" class, carrying both names for diagnostics).
    AuthenticatorMismatch {
        /// The authenticator class name the server advertised.
        server: String,
        /// The name the configured authenticator offered.
        client: String,
    },
}

impl Error {
    /// Whether this error belongs to the "not found" class: an
    /// authentication-negotiation failure rather than an I/O failure.
    pub open spec fn is_not_found(&self) -> bool {
        match *self {
            Error::Io(_) => false,
            Error::AuthenticatorNotProvided => true,
            Error::AuthenticatorMismatch { .. } => true,
        }
    }

    /// Executable counterpart of [`Error::is_not_found`].
    pub fn not_found(&self) -> (r: bool)
        ensures
            r == self.is_not_found(),
    {
        match self {
            Error::Io(_) => false,
            Error::AuthenticatorNotProvided => true,
            Error::AuthenticatorMismatch { .. } => true,
        }
    }
}

} // verus!
