//! The error taxonomy. Every failure aborts the whole call; nothing is
//! retried and no partial write survives.

use vstd::prelude::*;

verus! {

/// A terminal, named failure of one call.
#[derive(Clone, Copy, Debug, PartialEq, Eq, Structural)]
pub enum AbsentError {
    /// `start_slot >= end_slot` was supplied to `initialize` or
    /// `update_context`.
    InvalidContextWindow,
    /// The caller does not match the record's controlling identity.
    Unauthorized,
    /// The supplied verifier identity differs from the configuration's
    /// recorded verifier.
    InvalidVerifier,
    /// The verifier identity matches but no valid signature was
    /// presented for this call.
    VerifierMustSign,
    /// A configuration record already occupies the derived address.
    DuplicateConfiguration,
    /// A claim record already occupies the derived address: this
    /// (config, user, window, forbidden-program) tuple was redeemed.
    AlreadyClaimed,
}

impl AbsentError {
    /// A human-readable description of the failure.
    pub fn message(&self) -> (r: &'static str)
        ensures
            *self == AbsentError::InvalidContextWindow ==> r@ == "Invalid context window"@,
            *self == AbsentError::Unauthorized ==> r@ == "Unauthorized"@,
            *self == AbsentError::InvalidVerifier ==> r@ == "Invalid verifier"@,
            *self == AbsentError::VerifierMustSign ==> r@ == "Verifier must sign"@,
            *self == AbsentError::DuplicateConfiguration ==> r@ == "Duplicate configuration"@,
            *self == AbsentError::AlreadyClaimed ==> r@ == "Already claimed"@,
    {
        match self {
            AbsentError::InvalidContextWindow => "Invalid context window",
            AbsentError::Unauthorized => "Unauthorized",
            AbsentError::InvalidVerifier => "Invalid verifier",
            AbsentError::VerifierMustSign => "Verifier must sign",
            AbsentError::DuplicateConfiguration => "Duplicate configuration",
            AbsentError::AlreadyClaimed => "Already claimed",
        }
    }
}

} // verus!
