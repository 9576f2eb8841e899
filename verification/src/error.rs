//! The one error this crate can raise.

use vstd::prelude::*;

verus! {

/// The single error kind originating in this crate: the before-signing hook
/// ran but no signing-operation config had been placed in the configuration
/// store by the upstream signing-setup stage. This is an assembly defect of
/// the pipeline, never a user-input or transient fault, so it is neither
/// retried nor recovered from.
#[derive(Debug, Clone, Copy, PartialEq, Eq, Structural)]
pub enum PresigningError {
    MissingSigningConfig,
}

impl PresigningError {
    /// A human-readable description of the error.
    pub fn message(&self) -> (m: &'static str)
        ensures
            m@ == "presigning requires a signing operation config to be present in the configuration store"@,
    {
        "presigning requires a signing operation config to be present in the configuration store"
    }
}

} // verus!
