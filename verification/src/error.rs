//! Failures of the record store's operations.

use vstd::prelude::*;

verus! {

/// Why an operation was refused. Every failure leaves the store unchanged.
#[derive(Clone, Copy, Debug, PartialEq, Eq, Structural)]
pub enum ContractError {
    /// An update was attempted by an identity other than the stored deployer.
    Unauthorized,
    /// An update or a read was attempted before any record was created.
    NotFound,
}

} // verus!
