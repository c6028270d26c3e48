//! The ways in which a registry operation can fail.

use vstd::prelude::*;

verus! {

/// Why an operation was aborted. Every error aborts the whole operation: the
/// registry and its store are left exactly as they were before the call.
#[derive(Clone, Copy, Debug, PartialEq, Eq, Structural)]
pub enum RegistryError {
    /// A record was inserted under an identifier that the store already holds.
    DuplicateIdentifier,
    /// The identifier named by the caller, or carried by a bearer unit, is not
    /// in the store.
    UnknownIdentifier,
    /// The caller does not hold the capability that the operation asks for.
    Unauthorized,
    /// The holder refused the unit that was offered to it.
    DepositRejected,
}

impl RegistryError {
    /// A short, stable name of the error.
    pub fn name(&self) -> (s: &'static str)
        ensures
            s@ == match *self {
                RegistryError::DuplicateIdentifier => "duplicate identifier"@,
                RegistryError::UnknownIdentifier => "unknown identifier"@,
                RegistryError::Unauthorized => "unauthorized"@,
                RegistryError::DepositRejected => "deposit rejected"@,
            },
    {
        match self {
            RegistryError::DuplicateIdentifier => "duplicate identifier",
            RegistryError::UnknownIdentifier => "unknown identifier",
            RegistryError::Unauthorized => "unauthorized",
            RegistryError::DepositRejected => "deposit rejected",
        }
    }
}

} // verus!
