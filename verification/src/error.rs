//! Why an operation of the registry was refused.

use vstd::prelude::*;

verus! {

/// The reasons for which the registry refuses an operation.
#[derive(Clone, Copy, Debug, PartialEq, Eq, Hash, Structural)]
pub enum RegistryError {
    /// No entity has the identifier that the operation names.
    NotFound,
    /// The caller neither owns the entity nor is an administrator.
    Unauthorized,
    /// The caller hands in work to a hackathon without having registered for it.
    NotRegistered,
    /// The operation refers to another entity that does not exist.
    InvalidReference,
}

} // verus!
