//! Error kinds raised by construction and by the mutation handlers.

use vstd::prelude::*;

verus! {

/// The error a construction attempt can fail with.
#[derive(Clone, Copy, Debug, PartialEq, Eq, Structural)]
pub enum ConstructorError {
    /// The initial multiply factor was zero.
    InvalidMultiplyFactor,
}

/// The errors a mutation or an authorization probe can fail with.
#[derive(Clone, Copy, Debug, PartialEq, Eq, Structural)]
pub enum CommonError {
    /// The caller is not the stored owner.
    Unauthorized,
    /// A zero percentage bonus was supplied.
    ZeroValue,
    /// A zero multiply factor was supplied.
    InvalidMultiplyFactor,
}

} // verus!
