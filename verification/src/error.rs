use vstd::prelude::*;

verus! {

/// Why a handler refused to act. No error is caught inside the module: each
/// one short-circuits its handler, and the host rolls the transaction back,
/// so a failed call leaves no observable change.
#[derive(Debug, PartialEq, Eq)]
pub enum ContractError {
    /// A record that should exist is absent; carries the entity's name.
    /// Signals that the module was driven before initialization.
    NotFound { entity: String },
    /// The caller is not the recorded owner.
    Unauthorized,
}

impl ContractError {
    /// The error every handler raises when the persistent record is missing.
    pub open spec fn is_not_found_state(&self) -> bool {
        match *self {
            ContractError::NotFound { entity } => entity@ == "State"@,
            ContractError::Unauthorized => false,
        }
    }

    /// The `NotFound` error for the persistent record.
    pub fn not_found_state() -> (e: ContractError)
        ensures
            e.is_not_found_state(),
    {
        ContractError::NotFound { entity: "State".to_owned() }
    }
}

} // verus!
