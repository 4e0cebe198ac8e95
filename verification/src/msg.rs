//! The structured messages the operations take and return.
//!
//! The host serialises these to and from its binary envelope at its own
//! boundary; the library's contracts speak only of their logical shape.

use vstd::prelude::*;

verus! {

/// The identity invoking an operation, as supplied by the host and trusted
/// as authentic.
#[derive(Debug)]
pub struct MessageInfo {
    pub sender: String,
}

/// Payload of the create operation.
#[derive(Debug)]
pub struct InstantiateMsg {
    pub name: String,
}

/// The update-class messages; replacing the stored name is the sole variant.
#[derive(Debug)]
pub enum ExecuteMsg {
    Update { new_name: String },
}

/// The queries; reading the stored name is the sole variant.
#[derive(Debug)]
pub enum QueryMsg {
    GetName {},
}

/// Structured answer to `QueryMsg::GetName`.
#[derive(Debug)]
pub struct GetNameResponse {
    pub name: String,
}

} // verus!
