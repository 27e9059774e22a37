//! The failure taxonomy of the registry.

use vstd::prelude::*;

verus! {

/// A record category with its own identifier sequence and store.
#[derive(Clone, Copy, Debug, PartialEq, Eq)]
pub enum EntityKind {
    Patient,
    Doctor,
    MedicalTest,
}

/// Why a registry operation failed.
///
/// Every failure aborts the whole invocation; the registry never commits a
/// partial effect alongside one of these.
#[derive(Clone, Copy, Debug, PartialEq, Eq)]
pub enum RegistryError {
    /// The one-time administrator binding was already made.
    AlreadyInitialized,
    /// A lookup missed: no record of the given kind has the identifier.
    NotRegistered(EntityKind),
    /// The referenced record of the given kind exists but is disabled.
    Inactive(EntityKind),
}

impl RegistryError {
    /// The human-readable text of this failure, naming the taxonomy case
    /// and the entity kind it fired on.
    pub open spec fn message_spec(&self) -> Seq<char> {
        match self {
            RegistryError::AlreadyInitialized => "Contract already initialized"@,
            RegistryError::NotRegistered(EntityKind::Patient) => "Patient not registered"@,
            RegistryError::NotRegistered(EntityKind::Doctor) => "Doctor not registered"@,
            RegistryError::NotRegistered(EntityKind::MedicalTest) => "Medical test not registered"@,
            RegistryError::Inactive(EntityKind::Patient) => "Patient is inactive"@,
            RegistryError::Inactive(EntityKind::Doctor) => "Doctor is inactive"@,
            RegistryError::Inactive(EntityKind::MedicalTest) => "Medical test is inactive"@,
        }
    }

    /// The human-readable message carried by an aborted invocation.
    pub fn message(&self) -> (r: String)
        ensures
            r@ == self.message_spec(),
    {
        match self {
            RegistryError::AlreadyInitialized => "Contract already initialized".to_string(),
            RegistryError::NotRegistered(EntityKind::Patient) => "Patient not registered".to_string(),
            RegistryError::NotRegistered(EntityKind::Doctor) => "Doctor not registered".to_string(),
            RegistryError::NotRegistered(EntityKind::MedicalTest) => {
                "Medical test not registered".to_string()
            },
            RegistryError::Inactive(EntityKind::Patient) => "Patient is inactive".to_string(),
            RegistryError::Inactive(EntityKind::Doctor) => "Doctor is inactive".to_string(),
            RegistryError::Inactive(EntityKind::MedicalTest) => {
                "Medical test is inactive".to_string()
            },
        }
    }
}

} // verus!
