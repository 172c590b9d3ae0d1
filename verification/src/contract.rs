//! The handlers of the registry: one initialization, six commands, one query.
//!
//! Each command is proved to do to the storage what its namesake in
//! [`crate::model`] does to the registry's view, and to answer as that step
//! says: it succeeds exactly where the step is accepted, and fails with the
//! step's refusal everywhere else. The caller's address is taken as the
//! host authenticated it.

use crate::address::{texts, Address, MAX_KEY_PART_BYTES};
use crate::error::{ContractError, ErrorKind};
use crate::model::{RegistryView, Step};
use crate::msg::{ExecuteMsg, HealthDID, InstantiateMsg, QueryMsg};
use crate::response::{method_response, method_view, response_view};
use crate::storage::{
    delegates_has, delegates_save, index_has, index_load, index_save, records_load, records_save,
    Store,
};
use vstd::prelude::*;

verus! {

/// Whether a handler's reply is the one that the step's result asks for:
/// on acceptance a response that names the handler, on refusal an error of
/// the step's kind.
pub open spec fn answers(
    reply: Result<cosmwasm_std::Response, ContractError>,
    expected: Result<(), ErrorKind>,
    method: Seq<char>,
) -> bool {
    match reply {
        Ok(response) => expected is Ok && response_view(response) == method_view(method),
        Err(error) => expected == Err::<(), ErrorKind>(error.kind()),
    }
}

/// Whether a handler carried a step out: the storage is left as the step
/// leaves the registry, the handler succeeds exactly where the step is
/// accepted, and the reply is the one the step asks for.
pub open spec fn carried_out(
    step: Step,
    after: RegistryView,
    reply: Result<cosmwasm_std::Response, ContractError>,
    method: Seq<char>,
) -> bool {
    &&& after == step.state
    &&& reply is Ok <==> step.result is Ok
    &&& answers(reply, step.result, method)
}

/// What a command does to the registry when `sender` sends it.
pub open spec fn step_of(state: RegistryView, sender: Seq<char>, msg: ExecuteMsg) -> Step {
    match msg {
        ExecuteMsg::RegisterDID { health_did, uri } => state.register(health_did@, uri@, sender),
        ExecuteMsg::UpdateDIDData { health_did, uri } => state.update_data(
            health_did@,
            uri@,
            sender,
        ),
        ExecuteMsg::AddAltData { health_did, uris } => state.add_alt_data(
            health_did@,
            texts(uris@),
            sender,
        ),
        ExecuteMsg::AddDelegateAddress { peer_address, health_did } => state.add_delegate(
            peer_address@,
            health_did@,
            sender,
        ),
        ExecuteMsg::RemoveDelegateAddress { peer_address, health_did } => state.remove_delegate(
            peer_address@,
            health_did@,
            sender,
        ),
        ExecuteMsg::TransferOwnership { new_address, health_did } => state.transfer_ownership(
            new_address@,
            health_did@,
            sender,
        ),
    }
}

/// The identifier that a command is about.
pub open spec fn identifier_of(msg: ExecuteMsg) -> Seq<char> {
    match msg {
        ExecuteMsg::RegisterDID { health_did, .. } => health_did@,
        ExecuteMsg::UpdateDIDData { health_did, .. } => health_did@,
        ExecuteMsg::AddAltData { health_did, .. } => health_did@,
        ExecuteMsg::AddDelegateAddress { health_did, .. } => health_did@,
        ExecuteMsg::RemoveDelegateAddress { health_did, .. } => health_did@,
        ExecuteMsg::TransferOwnership { health_did, .. } => health_did@,
    }
}

/// The name under which the handler of a command answers.
pub open spec fn method_of(msg: ExecuteMsg) -> Seq<char> {
    match msg {
        ExecuteMsg::RegisterDID { .. } => "register_did"@,
        ExecuteMsg::UpdateDIDData { .. } => "update_did_data"@,
        ExecuteMsg::AddAltData { .. } => "add_alt_data"@,
        ExecuteMsg::AddDelegateAddress { .. } => "add_delegate_address"@,
        ExecuteMsg::RemoveDelegateAddress { .. } => "remove_delegate_address"@,
        ExecuteMsg::TransferOwnership { .. } => "transfer_ownership"@,
    }
}

/// Whether the storage can key what the command asks it to key: an owner
/// must not name a delegate of more than `MAX_KEY_PART_BYTES` bytes.
pub open spec fn keyable(state: RegistryView, sender: Seq<char>, msg: ExecuteMsg) -> bool {
    match msg {
        ExecuteMsg::AddDelegateAddress { peer_address, health_did } => state.authorize(
            health_did@,
            sender,
        ) is Ok ==> peer_address.byte_len() <= MAX_KEY_PART_BYTES,
        ExecuteMsg::RemoveDelegateAddress { peer_address, health_did } => state.authorize(
            health_did@,
            sender,
        ) is Ok ==> peer_address.byte_len() <= MAX_KEY_PART_BYTES,
        _ => true,
    }
}

/// Sets the registry up. There is nothing to set up: the reply names the
/// handler and the storage is not touched.
pub fn instantiate(_msg: InstantiateMsg) -> (reply: Result<
    cosmwasm_std::Response,
    cosmwasm_std::StdError,
>)
    ensures
        reply matches Ok(response) && response_view(response) == method_view("instantiate"@),
{
    Ok(method_response("instantiate"))
}

/// Hands a command of `sender` to its handler.
pub fn execute(store: &mut Store, sender: &Address, msg: ExecuteMsg) -> (reply: Result<
    cosmwasm_std::Response,
    ContractError,
>)
    requires
        keyable(old(store)@, sender@, msg),
    ensures
        carried_out(
            step_of(old(store)@, sender@, msg),
            final(store)@,
            reply,
            method_of(msg),
        ),
{
    match msg {
        ExecuteMsg::RegisterDID { health_did, uri } => try_register_did(
            store,
            sender,
            health_did,
            uri,
        ),
        ExecuteMsg::UpdateDIDData { health_did, uri } => try_update_did_data(
            store,
            sender,
            health_did,
            uri,
        ),
        ExecuteMsg::AddAltData { health_did, uris } => try_add_alt_data(
            store,
            sender,
            health_did,
            uris,
        ),
        ExecuteMsg::AddDelegateAddress { peer_address, health_did } => try_add_delegate_address(
            store,
            sender,
            peer_address,
            health_did,
        ),
        ExecuteMsg::RemoveDelegateAddress {
            peer_address,
            health_did,
        } => try_remove_delegate_address(store, sender, peer_address, health_did),
        ExecuteMsg::TransferOwnership { new_address, health_did } => try_transfer_ownership(
            store,
            sender,
            new_address,
            health_did,
        ),
    }
}

/// Hands a command of `sender` to its handler, unless the storage cannot
/// key what the command asks for.
///
/// `None` says that the owner of the identifier named a delegate that is
/// too long to be keyed. Nothing was changed then, and no handler ran.
/// Every other command is answered as [`execute`] answers it.
pub fn try_execute(store: &mut Store, sender: &Address, msg: ExecuteMsg) -> (reply: Option<
    Result<cosmwasm_std::Response, ContractError>,
>)
    ensures
        match reply {
            Some(reply) => {
                &&& keyable(old(store)@, sender@, msg)
                &&& carried_out(
            step_of(old(store)@, sender@, msg),
            final(store)@,
            reply,
            method_of(msg),
        )
            },
            None => !keyable(old(store)@, sender@, msg) && final(store)@ == old(store)@,
        },
{
    let unkeyable: Option<&String> = match &msg {
        ExecuteMsg::AddDelegateAddress { peer_address, health_did } => {
            if peer_address.fits_key_part() {
                None
            } else {
                Some(health_did)
            }
        },
        ExecuteMsg::RemoveDelegateAddress { peer_address, health_did } => {
            if peer_address.fits_key_part() {
                None
            } else {
                Some(health_did)
            }
        },
        _ => None,
    };
    match unkeyable {
        Some(health_did) => match authorize(store, sender, health_did.as_str()) {
            Ok(_) => None,
            Err(error) => Some(Err(error)),
        },
        None => Some(execute(store, sender, msg)),
    }
}

/// The reply of a handler whose last step answered with `saved`: a
/// response that names the handler after `Ok`, the error itself, wrapped,
/// after `Err`.
pub fn written(saved: Result<(), cosmwasm_std::StdError>, method: &str) -> (reply: Result<
    cosmwasm_std::Response,
    ContractError,
>)
    ensures
        match saved {
            Ok(_) => reply matches Ok(response) && response_view(response) == method_view(
                method@,
            ),
            Err(error) => reply == Err::<cosmwasm_std::Response, ContractError>(
                ContractError::Std(error),
            ),
        },
{
    match saved {
        Ok(()) => Ok(method_response(method)),
        Err(error) => Err(ContractError::Std(error)),
    }
}

/// The owner check: the index must name `sender` as the owner of the
/// identifier.
///
/// Returns the owner, `Unauthorized` where the index names another address,
/// and the storage's error where it names none that can be read.
pub fn authorize(store: &Store, sender: &Address, health_did: &str) -> (checked: Result<
    Address,
    ContractError,
>)
    ensures
        match checked {
            Ok(owner) => store@.authorize(health_did@, sender@) == Ok::<Seq<char>, ErrorKind>(
                owner@,
            ),
            Err(error) => store@.authorize(health_did@, sender@) == Err::<Seq<char>, ErrorKind>(
                error.kind(),
            ),
        },
{
    owner_check(index_load(store, health_did), sender)
}

/// What the owner check makes of what the index returned for an
/// identifier: the owner where it is the sender, `Unauthorized` where it is
/// another address, the storage's error where the index returned one.
pub fn owner_check(loaded: Result<String, cosmwasm_std::StdError>, sender: &Address) -> (checked:
    Result<Address, ContractError>)
    ensures
        match loaded {
            Ok(text) => if text@ == sender@ {
                checked matches Ok(owner) && owner@ == sender@
            } else {
                checked == Err::<Address, ContractError>(ContractError::Unauthorized {  })
            },
            Err(error) => checked == Err::<Address, ContractError>(ContractError::Std(error)),
        },
{
    let owner = match loaded {
        Ok(text) => Address::unchecked(text.as_str()),
        Err(error) => {
            return Err(ContractError::Std(error));
        },
    };
    if owner != *sender {
        return Err(ContractError::Unauthorized {  });
    }
    Ok(owner)
}

/// Registers `health_did` with `uri` as its content pointer and `sender`
/// as its owner.
pub fn try_register_did(
    store: &mut Store,
    sender: &Address,
    health_did: String,
    uri: String,
) -> (reply: Result<cosmwasm_std::Response, ContractError>)
    ensures
        carried_out(
            old(store)@.register(health_did@, uri@, sender@),
            final(store)@,
            reply,
            "register_did"@,
        ),
        reply is Ok <==> !old(store)@.did_index.contains_key(health_did@),
{
    if index_has(store, health_did.as_str()) {
        return Err(ContractError::DidAlreadyExists {  });
    }
    let owner_text = sender.clone().into_string();
    match index_save(store, health_did.as_str(), &owner_text) {
        Ok(()) => {},
        Err(error) => {
            return Err(ContractError::Std(error));
        },
    }
    let new_did = HealthDID::new(sender.clone(), health_did, uri);
    let fields = new_did.into_fields();
    written(records_save(store, sender.as_str(), &fields), "register_did")
}

/// Replaces the content pointer of `health_did`, for its owner.
pub fn try_update_did_data(
    store: &mut Store,
    sender: &Address,
    health_did: String,
    uri: String,
) -> (reply: Result<cosmwasm_std::Response, ContractError>)
    ensures
        carried_out(
            old(store)@.update_data(health_did@, uri@, sender@),
            final(store)@,
            reply,
            "update_did_data"@,
        ),
{
    let owner = match authorize(store, sender, health_did.as_str()) {
        Ok(owner) => owner,
        Err(error) => {
            return Err(error);
        },
    };
    let mut did = match records_load(store, owner.as_str()) {
        Ok(fields) => HealthDID::from_fields(fields),
        Err(error) => {
            return Err(ContractError::Std(error));
        },
    };
    did.ipfs_uri = uri;
    let fields = did.into_fields();
    written(records_save(store, owner.as_str(), &fields), "update_did_data")
}

/// Appends `uris` to the supplemental pointers of `health_did`, for its
/// owner. Nothing is removed, reordered or deduplicated.
pub fn try_add_alt_data(
    store: &mut Store,
    sender: &Address,
    health_did: String,
    uris: Vec<String>,
) -> (reply: Result<cosmwasm_std::Response, ContractError>)
    ensures
        carried_out(
            old(store)@.add_alt_data(health_did@, texts(uris@), sender@),
            final(store)@,
            reply,
            "add_alt_data"@,
        ),
{
    let owner = match authorize(store, sender, health_did.as_str()) {
        Ok(owner) => owner,
        Err(error) => {
            return Err(error);
        },
    };
    let mut did = match records_load(store, owner.as_str()) {
        Ok(fields) => HealthDID::from_fields(fields),
        Err(error) => {
            return Err(ContractError::Std(error));
        },
    };
    let ghost before = did@;
    let mut uris = uris;
    let ghost added = uris@;
    did.alt_ipfs_uris.append(&mut uris);
    assert(texts(did.alt_ipfs_uris@) =~= before.alt_ipfs_uris + texts(added));
    let fields = did.into_fields();
    written(records_save(store, owner.as_str(), &fields), "add_alt_data")
}

/// Marks `peer_address` as an active delegate of `health_did`, for its
/// owner. The mark is set whether or not one was there.
///
/// The storage cannot key an address of more than `MAX_KEY_PART_BYTES`
/// bytes, so the owner must not name one.
pub fn try_add_delegate_address(
    store: &mut Store,
    sender: &Address,
    peer_address: Address,
    health_did: String,
) -> (reply: Result<cosmwasm_std::Response, ContractError>)
    requires
        old(store)@.authorize(health_did@, sender@) is Ok ==> peer_address.byte_len()
            <= MAX_KEY_PART_BYTES,
    ensures
        carried_out(
            old(store)@.add_delegate(peer_address@, health_did@, sender@),
            final(store)@,
            reply,
            "add_delegate_address"@,
        ),
{
    match authorize(store, sender, health_did.as_str()) {
        Ok(_) => {},
        Err(error) => {
            return Err(error);
        },
    }
    written(delegates_save(store, peer_address.as_str(), health_did.as_str(), true), "add_delegate_address")
}

/// Marks `peer_address` as an inactive delegate of `health_did`, for its
/// owner. The entry must exist; it is kept, with its flag cleared.
///
/// The storage cannot key an address of more than `MAX_KEY_PART_BYTES`
/// bytes, so the owner must not name one.
pub fn try_remove_delegate_address(
    store: &mut Store,
    sender: &Address,
    peer_address: Address,
    health_did: String,
) -> (reply: Result<cosmwasm_std::Response, ContractError>)
    requires
        old(store)@.authorize(health_did@, sender@) is Ok ==> peer_address.byte_len()
            <= MAX_KEY_PART_BYTES,
    ensures
        carried_out(
            old(store)@.remove_delegate(peer_address@, health_did@, sender@),
            final(store)@,
            reply,
            "remove_delegate_address"@,
        ),
{
    match authorize(store, sender, health_did.as_str()) {
        Ok(_) => {},
        Err(error) => {
            return Err(error);
        },
    }
    if !delegates_has(store, peer_address.as_str(), health_did.as_str()) {
        return Err(ContractError::NotDelegateAddress {  });
    }
    written(delegates_save(store, peer_address.as_str(), health_did.as_str(), false), "remove_delegate_address")
}

/// Hands `health_did` over from its owner, the sender, to `new_address`.
///
/// The index is rewritten, then the record moves from the sender's slot to
/// the slot of `new_address` with its owner changed. The sender's slot is
/// left as it was, and what the slot of `new_address` held is overwritten.
pub fn try_transfer_ownership(
    store: &mut Store,
    sender: &Address,
    new_address: Address,
    health_did: String,
) -> (reply: Result<cosmwasm_std::Response, ContractError>)
    ensures
        carried_out(
            old(store)@.transfer_ownership(new_address@, health_did@, sender@),
            final(store)@,
            reply,
            "transfer_ownership"@,
        ),
{
    match authorize(store, sender, health_did.as_str()) {
        Ok(_) => {},
        Err(error) => {
            return Err(error);
        },
    }
    if new_address == *sender {
        return Err(ContractError::CannotTransferToSelf {  });
    }
    let new_text = new_address.clone().into_string();
    match index_save(store, health_did.as_str(), &new_text) {
        Ok(()) => {},
        Err(error) => {
            return Err(ContractError::Std(error));
        },
    }
    let mut did = match records_load(store, sender.as_str()) {
        Ok(fields) => HealthDID::from_fields(fields),
        Err(error) => {
            return Err(ContractError::Std(error));
        },
    };
    did.owner = new_address.clone();
    let fields = did.into_fields();
    written(records_save(store, new_address.as_str(), &fields), "transfer_ownership")
}

/// Answers a question about the registry. The storage is only read.
pub fn query(store: &Store, msg: QueryMsg) -> (found: Result<HealthDID, cosmwasm_std::StdError>)
    ensures
        match found {
            Ok(did) => store@.lookup(msg->health_did@) == Some(did@),
            Err(_) => store@.lookup(msg->health_did@) is None,
        },
{
    match msg {
        QueryMsg::GetHealthDID { health_did } => query_health_did(store, health_did),
    }
}

/// The record that `health_did` resolves to, through its owner.
///
/// Fails with the storage's error where the index has no readable owner
/// for the identifier, or the owner's slot no readable record.
pub fn query_health_did(store: &Store, health_did: String) -> (found: Result<
    HealthDID,
    cosmwasm_std::StdError,
>)
    ensures
        match found {
            Ok(did) => store@.lookup(health_did@) == Some(did@),
            Err(_) => store@.lookup(health_did@) is None,
        },
{
    let owner = match index_load(store, health_did.as_str()) {
        Ok(owner) => owner,
        Err(error) => {
            return Err(error);
        },
    };
    let did = match records_load(store, owner.as_str()) {
        Ok(fields) => HealthDID::from_fields(fields),
        Err(error) => {
            return Err(error);
        },
    };
    Ok(did)
}

} // verus!
