//! Core of an ACME (Automatic Certificate Management Environment) client:
//! the challenge-type registry, the deferred-nonce signed-request builder,
//! the bounded poll-until-ready primitive, and the issuance orchestrator,
//! modelled as an event-driven state machine so that every protocol decision
//! is verified. Network transport, JWS signing, CSR generation and storage
//! are collaborators driven from outside the library.

pub mod challenge;
pub mod encode;
pub mod errors;
pub mod orchestrator;
pub mod payload;
pub mod poll;
pub mod signer;
pub mod status;
pub mod text;
pub mod transcript;
