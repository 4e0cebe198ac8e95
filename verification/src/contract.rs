//! The three operations of the record store, their contracts, and the laws
//! that hold of them.
//!
//! Each operation's effect on the store is pinned to a spec-level transition
//! (`spec_instantiate`, `spec_update`, `spec_read`) over the store's model,
//! and the laws at the end of this module are proved over those transitions.

use vstd::prelude::*;

use crate::error::ContractError;
use crate::msg::{ExecuteMsg, GetNameResponse, InstantiateMsg, MessageInfo, QueryMsg};
use crate::response::Response;
use crate::state::{State, StateModel};
use crate::store::{Store, StoreModel};

verus! {

/// The contract identifier recorded in the version tag at creation.
pub open spec fn spec_contract_name() -> Seq<char> {
    "crates.io:smart-test"@
}

/// The semantic version recorded in the version tag at creation.
pub open spec fn spec_contract_version() -> Seq<char> {
    "0.1.0"@
}

/// The store after a create: the record holds the given name with the
/// caller as deployer, and the version tag is recorded. Any prior record is
/// overwritten; a create does not depend on the prior store at all.
pub open spec fn spec_instantiate(caller: Seq<char>, name: Seq<char>) -> StoreModel {
    StoreModel {
        record: Some(StateModel { name: name, deployer: caller }),
        version: Some((spec_contract_name(), spec_contract_version())),
    }
}

/// Whether an update attempt by `caller` succeeds, and with which error it
/// fails otherwise: `NotFound` before any create, `Unauthorized` for every
/// caller other than the stored deployer.
pub open spec fn spec_update_result(s: StoreModel, caller: Seq<char>) -> Result<(), ContractError> {
    match s.record {
        Some(st) => if st.deployer == caller {
            Ok(())
        } else {
            Err(ContractError::Unauthorized)
        },
        None => Err(ContractError::NotFound),
    }
}

/// The store after an update attempt: on success only the record's name is
/// replaced; on failure the store is exactly as it was.
pub open spec fn spec_update(s: StoreModel, caller: Seq<char>, new_name: Seq<char>) -> StoreModel {
    match s.record {
        Some(st) => if st.deployer == caller {
            StoreModel {
                record: Some(StateModel { name: new_name, deployer: st.deployer }),
                version: s.version,
            }
        } else {
            s
        },
        None => s,
    }
}

/// What a read returns: the stored name, or `NotFound` before any create.
pub open spec fn spec_read(s: StoreModel) -> Result<Seq<char>, ContractError> {
    match s.record {
        Some(st) => Ok(st.name),
        None => Err(ContractError::NotFound),
    }
}

/// Creates the record: writes `{name, deployer: caller}` into the slot,
/// overwriting any prior record, records the version tag, and acknowledges
/// with the method, the creator and the name.
pub fn instantiate(store: &mut Store, info: MessageInfo, msg: InstantiateMsg) -> (r: Result<
    Response,
    ContractError,
>)
    ensures
        final(store)@ == spec_instantiate(info.sender@, msg.name@),
        r matches Ok(resp) && ({
            &&& resp.msgs().len() == 0
            &&& resp.attrs().len() == 3
            &&& resp.attrs()[0] == ("method"@, "create"@)
            &&& resp.attrs()[1] == ("creator"@, info.sender@)
            &&& resp.attrs()[2] == ("name"@, msg.name@)
        }),
{
    let state = State { name: msg.name.clone(), deployer: info.sender.clone() };
    store.set_contract_version("crates.io:smart-test".to_string(), "0.1.0".to_string());
    store.save(state);
    Ok(
        Response::new()
            .add_attribute("method", "create".to_string())
            .add_attribute("creator", info.sender)
            .add_attribute("name", msg.name),
    )
}

/// Dispatches an update-class message to the operation it names.
pub fn execute(store: &mut Store, info: MessageInfo, msg: ExecuteMsg) -> (r: Result<
    Response,
    ContractError,
>)
    ensures
        match msg {
            ExecuteMsg::Update { new_name } => {
                &&& final(store)@ == spec_update(old(store)@, info.sender@, new_name@)
                &&& match spec_update_result(old(store)@, info.sender@) {
                    Ok(_) => r matches Ok(resp) && ({
                        &&& resp.msgs().len() == 0
                        &&& resp.attrs().len() == 2
                        &&& resp.attrs()[0] == ("method"@, "update"@)
                        &&& resp.attrs()[1] == ("new_name"@, new_name@)
                    }),
                    Err(e) => r == Err::<Response, ContractError>(e),
                }
            },
        },
{
    match msg {
        ExecuteMsg::Update { new_name } => try_update(store, info, new_name),
    }
}

/// Replaces the record's name, provided the caller is the stored deployer.
/// The load, the authorization check and the write act on the one slot as a
/// unit: on any failure the store is left exactly as it was.
pub fn try_update(store: &mut Store, info: MessageInfo, new_name: String) -> (r: Result<
    Response,
    ContractError,
>)
    ensures
        final(store)@ == spec_update(old(store)@, info.sender@, new_name@),
        match spec_update_result(old(store)@, info.sender@) {
            Ok(_) => r matches Ok(resp) && ({
                &&& resp.msgs().len() == 0
                &&& resp.attrs().len() == 2
                &&& resp.attrs()[0] == ("method"@, "update"@)
                &&& resp.attrs()[1] == ("new_name"@, new_name@)
            }),
            Err(e) => r == Err::<Response, ContractError>(e),
        },
{
    let state = match store.load() {
        Ok(state) => state,
        Err(e) => {
            return Err(e);
        },
    };
    if info.sender != state.deployer {
        return Err(ContractError::Unauthorized);
    }
    let updated = State { name: new_name.clone(), deployer: state.deployer.clone() };
    store.save(updated);
    Ok(
        Response::new()
            .add_attribute("method", "update".to_string())
            .add_attribute("new_name", new_name),
    )
}

/// Answers a query; no authorization is required to read.
pub fn query(store: &Store, msg: QueryMsg) -> (r: Result<GetNameResponse, ContractError>)
    ensures
        match msg {
            QueryMsg::GetName {  } => match spec_read(store@) {
                Ok(name) => r matches Ok(resp) && resp.name@ == name,
                Err(e) => r == Err::<GetNameResponse, ContractError>(e),
            },
        },
{
    match msg {
        QueryMsg::GetName {  } => query_name(store),
    }
}

/// Reads the stored name; fails with `NotFound` before any create.
fn query_name(store: &Store) -> (r: Result<GetNameResponse, ContractError>)
    ensures
        match spec_read(store@) {
            Ok(name) => r matches Ok(resp) && resp.name@ == name,
            Err(e) => r == Err::<GetNameResponse, ContractError>(e),
        },
{
    let state = match store.load() {
        Ok(state) => state,
        Err(e) => {
            return Err(e);
        },
    };
    Ok(GetNameResponse { name: state.name.clone() })
}

/// Law: reading right after a create returns exactly the created name,
/// whoever created it.
pub proof fn lemma_create_then_read(caller: Seq<char>, name: Seq<char>)
    ensures
        spec_read(spec_instantiate(caller, name)) == Ok::<Seq<char>, ContractError>(name),
{
}

/// Law: an update by the identity that created the record succeeds, and a
/// read afterwards returns the new name.
pub proof fn lemma_owner_update_then_read(caller: Seq<char>, name: Seq<char>, new_name: Seq<char>)
    ensures
        spec_update_result(spec_instantiate(caller, name), caller) == Ok::<(), ContractError>(()),
        spec_read(spec_update(spec_instantiate(caller, name), caller, new_name))
            == Ok::<Seq<char>, ContractError>(new_name),
{
}

/// Law: an update by any identity other than the creator fails with
/// `Unauthorized`, leaves the store exactly as created, and a read
/// afterwards still returns the created name.
pub proof fn lemma_unauthorized_update_rejected(
    caller: Seq<char>,
    name: Seq<char>,
    other: Seq<char>,
    new_name: Seq<char>,
)
    requires
        other != caller,
    ensures
        spec_update_result(spec_instantiate(caller, name), other)
            == Err::<(), ContractError>(ContractError::Unauthorized),
        spec_update(spec_instantiate(caller, name), other, new_name)
            == spec_instantiate(caller, name),
        spec_read(spec_update(spec_instantiate(caller, name), other, new_name))
            == Ok::<Seq<char>, ContractError>(name),
{
}

/// Law: an update attempt that does not succeed is a no-op on the store,
/// whatever state the store is in.
pub proof fn lemma_failed_update_is_noop(s: StoreModel, caller: Seq<char>, new_name: Seq<char>)
    requires
        spec_update_result(s, caller) is Err,
    ensures
        spec_update(s, caller, new_name) == s,
{
}

/// The stored deployer, when a record is present.
pub open spec fn spec_owner(s: StoreModel) -> Option<Seq<char>> {
    match s.record {
        Some(st) => Some(st.deployer),
        None => None,
    }
}

/// The store after a sequence of update attempts, each a (caller, new name)
/// pair, applied in order.
pub open spec fn spec_apply_updates(s: StoreModel, calls: Seq<(Seq<char>, Seq<char>)>) -> StoreModel
    decreases calls.len(),
{
    if calls.len() == 0 {
        s
    } else {
        spec_apply_updates(spec_update(s, calls[0].0, calls[0].1), calls.drop_first())
    }
}

/// Law: no sequence of update attempts — by whatever callers, successful or
/// failed — ever changes the stored deployer. In particular the deployer is
/// immutable under every sequence of successful updates by the creator.
pub proof fn lemma_owner_immutable(s: StoreModel, calls: Seq<(Seq<char>, Seq<char>)>)
    ensures
        spec_owner(spec_apply_updates(s, calls)) == spec_owner(s),
    decreases calls.len(),
{
    if calls.len() == 0 {
    } else {
        lemma_owner_immutable(spec_update(s, calls[0].0, calls[0].1), calls.drop_first());
    }
}

/// Law: a read of a store in which no record was ever created fails with
/// `NotFound`.
pub proof fn lemma_read_before_create(s: StoreModel)
    requires
        s.record is None,
    ensures
        spec_read(s) == Err::<Seq<char>, ContractError>(ContractError::NotFound),
{
}

} // verus!
