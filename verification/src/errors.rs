//! Classified failures of one issuance run. Every failure is fatal for the
//! run and carries the detail needed for diagnostics; nothing is retried
//! except inside the polling primitive.

use vstd::prelude::*;

verus! {

use crate::status::AuthorizationStatus;

/// Why an issuance run ended without a certificate.
#[derive(Debug)]
pub enum IssuanceError {
    /// Configuration named a challenge kind outside the recognized set.
    UnknownChallenge { input: String },
    /// A configured domain holds a character that cannot stand unescaped in
    /// the new-order payload (a quote, a backslash, or a control character).
    InvalidDomain { domain: String },
    /// An authorization was fetched in a status from which it can no longer
    /// succeed (anything but `pending` or `valid`).
    AuthorizationNotViable { domain: String, status: AuthorizationStatus },
    /// An authorization offered no challenge of the configured kind, so no
    /// proof could ever be submitted for it.
    NoMatchingChallenge { domain: String },
    /// A polled resource reported a terminal failure status before the
    /// awaited state was reached.
    PollFailed,
    /// The awaited state was not reached within the configured number of
    /// fetches.
    PollTimeout,
    /// The order reached `valid` but carried no certificate URL.
    MissingCertificateUrl,
    /// A collaborator (transport, hook, key or storage) reported a failure.
    Collaborator { detail: String },
    /// The driver handed the orchestrator an event its state cannot accept.
    UnexpectedEvent,
}

} // verus!
