//! The persisted record and its mathematical model.

use vstd::prelude::*;

verus! {

/// The single persisted record: a name and the identity that deployed it.
///
/// `deployer` is set once, when the record is created, and is never mutated
/// afterwards; it is the only identity allowed to replace `name`.
#[derive(Debug)]
pub struct State {
    pub name: String,
    pub deployer: String,
}

/// The model of a record: its two strings as character sequences.
pub ghost struct StateModel {
    pub name: Seq<char>,
    pub deployer: Seq<char>,
}

impl View for State {
    type V = StateModel;

    open spec fn view(&self) -> StateModel {
        StateModel { name: self.name@, deployer: self.deployer@ }
    }
}

} // verus!
