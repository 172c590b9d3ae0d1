//! What holds of the registry whatever it contains.
//!
//! The laws are stated over [`crate::model`], the functions in which the
//! handlers' contracts are written, so each holds of the handlers too.

use crate::contract::{identifier_of, step_of};
use crate::error::ErrorKind;
use crate::model::RegistryView;
use crate::msg::{ExecuteMsg, HealthDIDView};
use vstd::prelude::*;

verus! {

/// An identifier can be registered once. A registration of an identifier
/// that was just registered, by whomever and with whatever pointer, is
/// refused with `DidAlreadyExists` and changes nothing.
pub proof fn lemma_second_registration_refused(
    state: RegistryView,
    identifier: Seq<char>,
    first_uri: Seq<char>,
    first_sender: Seq<char>,
    second_uri: Seq<char>,
    second_sender: Seq<char>,
)
    ensures
        ({
            let first = state.register(identifier, first_uri, first_sender);
            first.state.register(identifier, second_uri, second_sender) == first.state.refuse(
                ErrorKind::DidAlreadyExists,
            )
        }),
{
}

/// An identifier that was registered resolves to a fresh record: owned by
/// the sender, with the given pointer, no supplemental pointers, no
/// delegates, the initial reputation and no flag set.
pub proof fn lemma_registration_resolves(
    state: RegistryView,
    identifier: Seq<char>,
    uri: Seq<char>,
    sender: Seq<char>,
)
    requires
        state.register(identifier, uri, sender).result is Ok,
    ensures
        state.register(identifier, uri, sender).state.lookup(identifier) == Some(
            HealthDIDView::fresh(sender, identifier, uri),
        ),
{
}

/// An address has one slot. A registration fills the sender's slot whatever
/// it held, so every other identifier that the index gives to the sender
/// resolves to the new record from then on.
pub proof fn lemma_registration_overwrites_slot(
    state: RegistryView,
    identifier: Seq<char>,
    uri: Seq<char>,
    sender: Seq<char>,
    other: Seq<char>,
)
    requires
        state.register(identifier, uri, sender).result is Ok,
        state.owner_of(other) == Some(sender),
    ensures
        state.register(identifier, uri, sender).state.lookup(other) == Some(
            HealthDIDView::fresh(sender, identifier, uri),
        ),
{
}

/// An update by the owner is what the identifier resolves to afterwards: the
/// record as it was, with the new pointer.
pub proof fn lemma_update_resolves(
    state: RegistryView,
    identifier: Seq<char>,
    uri: Seq<char>,
    sender: Seq<char>,
)
    requires
        state.update_data(identifier, uri, sender).result is Ok,
    ensures
        state.lookup(identifier) is Some,
        state.update_data(identifier, uri, sender).state.lookup(identifier) == Some(
            HealthDIDView { ipfs_uri: uri, ..state.lookup(identifier)->0 },
        ),
{
}

/// Only the indexed owner changes anything about an identifier. Every
/// command but registration, sent by another address than the one the
/// index names, is refused with `Unauthorized` and changes nothing.
pub proof fn lemma_stranger_is_refused(
    state: RegistryView,
    owner: Seq<char>,
    sender: Seq<char>,
    msg: ExecuteMsg,
)
    requires
        !(msg is RegisterDID),
        sender != owner,
        state.owner_of(identifier_of(msg)) == Some(owner),
    ensures
        step_of(state, sender, msg) == state.refuse(ErrorKind::Unauthorized),
{
}

/// Supplemental pointers accumulate in the order they are given: adding
/// `first` and then `second` leaves the registry as adding `first + second`
/// at once does, with both behind what the record held before.
pub proof fn lemma_alt_data_accumulates(
    state: RegistryView,
    identifier: Seq<char>,
    first: Seq<Seq<char>>,
    second: Seq<Seq<char>>,
    sender: Seq<char>,
)
    requires
        state.add_alt_data(identifier, first, sender).result is Ok,
    ensures
        ({
            let once = state.add_alt_data(identifier, first, sender).state;
            let twice = once.add_alt_data(identifier, second, sender);
            &&& twice.result is Ok
            &&& twice.state == state.add_alt_data(identifier, first + second, sender).state
            &&& twice.state.lookup(identifier) == Some(
                HealthDIDView {
                    alt_ipfs_uris: state.lookup(identifier)->0.alt_ipfs_uris + first + second,
                    ..state.lookup(identifier)->0
                },
            )
        }),
{
    let record = state.lookup(identifier)->0;
    let once = state.add_alt_data(identifier, first, sender).state;
    let twice = once.add_alt_data(identifier, second, sender);
    let at_once = state.add_alt_data(identifier, first + second, sender).state;
    assert((record.alt_ipfs_uris + first) + second =~= record.alt_ipfs_uris + (first + second));
    assert(twice.state.owner_records =~= at_once.owner_records);
}

/// An owner cannot transfer an identifier to itself: the command is
/// refused with `CannotTransferToSelf` and changes nothing.
pub proof fn lemma_no_transfer_to_self(
    state: RegistryView,
    identifier: Seq<char>,
    sender: Seq<char>,
)
    requires
        state.owner_of(identifier) == Some(sender),
    ensures
        state.transfer_ownership(sender, identifier, sender) == state.refuse(
            ErrorKind::CannotTransferToSelf,
        ),
{
}

/// A transfer moves the authority with the record. After a transfer from
/// `sender` to `new_owner`, an update by `sender` is refused with
/// `Unauthorized` and changes nothing; an update by `new_owner` is
/// accepted, and the identifier then resolves to the record that `sender`
/// held, owned by `new_owner` and with the new pointer.
pub proof fn lemma_transfer_moves_authority(
    state: RegistryView,
    new_owner: Seq<char>,
    identifier: Seq<char>,
    sender: Seq<char>,
    uri: Seq<char>,
)
    requires
        state.transfer_ownership(new_owner, identifier, sender).result is Ok,
    ensures
        ({
            let moved = state.transfer_ownership(new_owner, identifier, sender).state;
            &&& moved.update_data(identifier, uri, sender) == moved.refuse(
                ErrorKind::Unauthorized,
            )
            &&& moved.update_data(identifier, uri, new_owner).result is Ok
            &&& moved.update_data(identifier, uri, new_owner).state.lookup(identifier) == Some(
                HealthDIDView { owner: new_owner, ipfs_uri: uri, ..state.record_of(sender)->0 },
            )
        }),
{
}

/// A transfer fills the new owner's slot whatever it held: with the record
/// from the old owner's slot, owned by the new owner.
pub proof fn lemma_transfer_overwrites_new_slot(
    state: RegistryView,
    new_owner: Seq<char>,
    identifier: Seq<char>,
    sender: Seq<char>,
)
    requires
        state.transfer_ownership(new_owner, identifier, sender).result is Ok,
    ensures
        state.record_of(sender) is Some,
        state.transfer_ownership(new_owner, identifier, sender).state.record_of(new_owner)
            == Some(HealthDIDView { owner: new_owner, ..state.record_of(sender)->0 }),
        state.transfer_ownership(new_owner, identifier, sender).state.owner_of(identifier)
            == Some(new_owner),
{
}

/// A transfer leaves the old owner's slot as it was.
pub proof fn lemma_transfer_keeps_old_slot(
    state: RegistryView,
    new_owner: Seq<char>,
    identifier: Seq<char>,
    sender: Seq<char>,
)
    requires
        state.transfer_ownership(new_owner, identifier, sender).result is Ok,
    ensures
        state.transfer_ownership(new_owner, identifier, sender).state.record_of(sender)
            == state.record_of(sender),
{
}

/// A delegate that was never added cannot be removed: the owner's command
/// is refused with `NotDelegateAddress` and changes nothing.
pub proof fn lemma_unknown_delegate_not_removed(
    state: RegistryView,
    peer: Seq<char>,
    identifier: Seq<char>,
    sender: Seq<char>,
)
    requires
        state.owner_of(identifier) == Some(sender),
        !state.delegate_table.contains_key((peer, identifier)),
    ensures
        state.remove_delegate(peer, identifier, sender) == state.refuse(
            ErrorKind::NotDelegateAddress,
        ),
{
}

/// A delegate that was added can be removed: the command is accepted, and
/// the entry stays in the table with its flag cleared.
pub proof fn lemma_added_delegate_is_removed(
    state: RegistryView,
    peer: Seq<char>,
    identifier: Seq<char>,
    sender: Seq<char>,
)
    requires
        state.add_delegate(peer, identifier, sender).result is Ok,
    ensures
        ({
            let added = state.add_delegate(peer, identifier, sender).state;
            let removed = added.remove_delegate(peer, identifier, sender);
            &&& added.delegate_table.contains_key((peer, identifier))
            &&& added.delegate_table[(peer, identifier)] == Some(true)
            &&& removed.result is Ok
            &&& removed.state.delegate_table.contains_key((peer, identifier))
            &&& removed.state.delegate_table[(peer, identifier)] == Some(false)
        }),
{
}

/// Adding a delegate twice is the same as adding it once.
pub proof fn lemma_add_delegate_idempotent(
    state: RegistryView,
    peer: Seq<char>,
    identifier: Seq<char>,
    sender: Seq<char>,
)
    ensures
        ({
            let once = state.add_delegate(peer, identifier, sender);
            once.state.add_delegate(peer, identifier, sender) == once
        }),
{
    let once = state.add_delegate(peer, identifier, sender);
    let twice = once.state.add_delegate(peer, identifier, sender);
    assert(twice.state.delegate_table =~= once.state.delegate_table);
}

/// Whether every identifier in the index resolves to a record: the index
/// names a readable owner for it, and the owner's slot holds a readable
/// record.
pub open spec fn every_identifier_resolves(state: RegistryView) -> bool {
    forall|identifier: Seq<char>| #[trigger]
        state.did_index.contains_key(identifier) ==> state.lookup(identifier) is Some
}

/// A registry in which every identifier resolves stays one: after any
/// command of any sender, accepted or refused, every identifier in the
/// index still resolves to a record. In such a registry no transfer is
/// refused for want of a record, so no refusal changes anything.
pub proof fn lemma_every_identifier_stays_resolvable(
    state: RegistryView,
    sender: Seq<char>,
    msg: ExecuteMsg,
)
    requires
        every_identifier_resolves(state),
    ensures
        every_identifier_resolves(step_of(state, sender, msg).state),
        step_of(state, sender, msg).result is Err ==> step_of(state, sender, msg).state == state,
{
    let after = step_of(state, sender, msg).state;
    assert forall|identifier: Seq<char>| #[trigger]
        after.did_index.contains_key(identifier) implies after.lookup(identifier) is Some by {
        if state.did_index.contains_key(identifier) {
            assert(state.lookup(identifier) is Some);
        }
        if state.did_index.contains_key(identifier_of(msg)) {
            assert(state.lookup(identifier_of(msg)) is Some);
        }
    }
    if state.did_index.contains_key(identifier_of(msg)) {
        assert(state.lookup(identifier_of(msg)) is Some);
    }
}

/// The empty registry is one in which every identifier resolves.
pub proof fn lemma_empty_registry_resolves()
    ensures
        every_identifier_resolves(
            RegistryView {
                did_index: Map::empty(),
                owner_records: Map::empty(),
                delegate_table: Map::empty(),
            },
        ),
{
}

/// No command removes an entry: every key of the three partitions is still
/// a key after the command, whether it was accepted or refused.
pub proof fn lemma_nothing_is_removed(state: RegistryView, sender: Seq<char>, msg: ExecuteMsg)
    ensures
        ({
            let after = step_of(state, sender, msg).state;
            &&& state.did_index.dom().subset_of(after.did_index.dom())
            &&& state.owner_records.dom().subset_of(after.owner_records.dom())
            &&& state.delegate_table.dom().subset_of(after.delegate_table.dom())
        }),
{
}

/// A refused command changes nothing, with one exception: a transfer by
/// the owner to another address whose own slot holds no readable record
/// is refused after the index was rewritten.
pub proof fn lemma_refusal_changes_nothing(state: RegistryView, sender: Seq<char>, msg: ExecuteMsg)
    requires
        step_of(state, sender, msg).result is Err,
        !(msg matches ExecuteMsg::TransferOwnership { new_address, health_did }
            && state.owner_of(health_did@) == Some(sender) && new_address@ != sender
            && state.record_of(sender) is None),
    ensures
        step_of(state, sender, msg).state == state,
{
}

/// The index entry of an identifier is written at its registration and
/// rewritten by a transfer only: every other command leaves the index as
/// it was.
pub proof fn lemma_index_changes_by_registration_and_transfer(
    state: RegistryView,
    sender: Seq<char>,
    msg: ExecuteMsg,
)
    requires
        !(msg is RegisterDID),
        !(msg is TransferOwnership),
    ensures
        step_of(state, sender, msg).state.did_index == state.did_index,
{
}

/// The delegate table grants nothing: what a command other than the
/// removal of a delegate answers does not depend on the table.
pub proof fn lemma_delegates_grant_nothing(
    state: RegistryView,
    table: Map<(Seq<char>, Seq<char>), Option<bool>>,
    sender: Seq<char>,
    msg: ExecuteMsg,
)
    requires
        !(msg is RemoveDelegateAddress),
    ensures
        step_of(RegistryView { delegate_table: table, ..state }, sender, msg).result == step_of(
            state,
            sender,
            msg,
        ).result,
{
}

} // verus!
