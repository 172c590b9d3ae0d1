//! The three partitions of the host's storage in which the registry lives.
//!
//! The storage belongs to the host and is reached through `cw_storage_plus`.
//! Nothing in this file is proved: each function states what the call in its
//! body does, and the rest of the crate is verified against these statements.
//!
//! A partition is described as a map from its keys to what is stored under
//! them: `Some(value)` where the stored bytes decode as a value of the
//! partition's type, `None` where bytes are present but do not decode. A key
//! under which nothing is stored is not in the map.

use crate::address::MAX_KEY_PART_BYTES;
use crate::model::RegistryView;
use crate::msg::{fields_view, HealthDIDView, RecordFields};
use vstd::prelude::*;
use vstd::string::StringSliceAdditionalSpecFns;

verus! {

/// The namespace of the partition that maps an identifier to its owner.
pub const DID_OWNER_ADDRESS_REGISTRY: &'static str = "did_owner_address_registry";

/// The namespace of the partition that maps an owner to a record.
pub const ADDRESS_DID_MAPPING: &'static str = "address_did_mapping";

/// The namespace of the partition that maps an address and an identifier to
/// a delegate flag.
pub const DELEGATE_ADDRESSES: &'static str = "delegate_addresses";

/// Exclusive access to the host's storage for the time of one call.
///
/// Verus cannot look inside: the storage is a trait object of
/// `cosmwasm_std::Storage`. What it holds is named by [`did_index`],
/// [`owner_records`] and [`delegate_table`].
#[verifier::external_body]
pub struct Store<'a> {
    storage: &'a mut dyn cosmwasm_std::Storage,
}

/// The entries of the partition `did_owner_address_registry`: for each
/// identifier stored there, the text of the owner's address.
pub uninterp spec fn did_index(store: Store) -> Map<Seq<char>, Option<Seq<char>>>;

/// The entries of the partition `address_did_mapping`: for each address
/// stored there, the record in its slot.
pub uninterp spec fn owner_records(store: Store) -> Map<Seq<char>, Option<HealthDIDView>>;

/// The entries of the partition `delegate_addresses`: for each pair of an
/// address and an identifier stored there, the delegate flag.
pub uninterp spec fn delegate_table(store: Store) -> Map<
    (Seq<char>, Seq<char>),
    Option<bool>,
>;

impl<'a> View for Store<'a> {
    type V = RegistryView;

    open spec fn view(&self) -> RegistryView {
        RegistryView {
            did_index: did_index(*self),
            owner_records: owner_records(*self),
            delegate_table: delegate_table(*self),
        }
    }
}

impl<'a> Store<'a> {
    /// Wraps a storage of the host. Nothing is claimed of what it holds.
    ///
    /// The statements of this file hold for a storage that returns under
    /// each key what was last set there, as `cosmwasm_std::Storage` asks of
    /// its implementations.
    #[verifier::external_body]
    pub fn new<S: cosmwasm_std::Storage>(storage: &'a mut S) -> (store: Store<'a>) {
        Store { storage }
    }
}

/// `cw_storage_plus::Map::has` on the index partition.
///
/// Claims that it answers whether any bytes are stored under the
/// identifier, decodable or not.
#[verifier::external_body]
pub(crate) fn index_has(store: &Store, identifier: &str) -> (present: bool)
    ensures
        present == did_index(*store).contains_key(identifier@),
{
    cw_storage_plus::Map::<&str, String>::new(DID_OWNER_ADDRESS_REGISTRY).has(
        store.storage,
        identifier,
    )
}

/// `cw_storage_plus::Map::load` on the index partition.
///
/// Claims that it returns the stored owner where an entry is present and
/// decodes, and an error where the entry is absent or does not decode.
#[verifier::external_body]
pub(crate) fn index_load(store: &Store, identifier: &str) -> (loaded: Result<
    String,
    cosmwasm_std::StdError,
>)
    ensures
        match loaded {
            Ok(owner) => did_index(*store).contains_key(identifier@) && did_index(
                *store,
            )[identifier@] == Some(owner@),
            Err(_) => !did_index(*store).contains_key(identifier@) || did_index(
                *store,
            )[identifier@] is None,
        },
{
    cw_storage_plus::Map::<&str, String>::new(DID_OWNER_ADDRESS_REGISTRY).load(
        store.storage,
        identifier,
    )
}

/// `cw_storage_plus::Map::save` on the index partition.
///
/// Claims that the call returns `Ok`, that the entry of the identifier then
/// decodes to the given owner, and that no other entry of any partition
/// changes. The call fails only where the value cannot be encoded, and the
/// encoder of `serde_json_wasm` has no failing path for a string.
#[verifier::external_body]
pub(crate) fn index_save(store: &mut Store, identifier: &str, owner: &String) -> (saved: Result<
    (),
    cosmwasm_std::StdError,
>)
    ensures
        saved is Ok,
        did_index(*final(store)) == did_index(*old(store)).insert(identifier@, Some(owner@)),
        owner_records(*final(store)) == owner_records(*old(store)),
        delegate_table(*final(store)) == delegate_table(*old(store)),
{
    cw_storage_plus::Map::<&str, String>::new(DID_OWNER_ADDRESS_REGISTRY).save(
        store.storage,
        identifier,
        owner,
    )
}

/// `cw_storage_plus::Map::load` on the record partition.
///
/// Claims that it returns the stored fields where the owner's slot is
/// filled and decodes, and an error where it is empty or does not decode.
#[verifier::external_body]
pub(crate) fn records_load(store: &Store, owner: &str) -> (loaded: Result<
    RecordFields,
    cosmwasm_std::StdError,
>)
    ensures
        match loaded {
            Ok(fields) => owner_records(*store).contains_key(owner@) && owner_records(
                *store,
            )[owner@] == Some(fields_view(fields)),
            Err(_) => !owner_records(*store).contains_key(owner@) || owner_records(
                *store,
            )[owner@] is None,
        },
{
    cw_storage_plus::Map::<&str, RecordFields>::new(ADDRESS_DID_MAPPING).load(
        store.storage,
        owner,
    )
}

/// `cw_storage_plus::Map::save` on the record partition.
///
/// Claims that the call returns `Ok`, that the owner's slot then decodes to
/// the given fields, and that no other entry of any partition changes. The
/// call fails only where the value cannot be encoded, and the encoder of
/// `serde_json_wasm` has no failing path for a tuple of strings, sequences
/// of strings, a small integer and flags.
#[verifier::external_body]
pub(crate) fn records_save(store: &mut Store, owner: &str, fields: &RecordFields) -> (saved:
    Result<(), cosmwasm_std::StdError>)
    ensures
        did_index(*final(store)) == did_index(*old(store)),
        saved is Ok,
        owner_records(*final(store)) == owner_records(*old(store)).insert(
            owner@,
            Some(fields_view(*fields)),
        ),
        delegate_table(*final(store)) == delegate_table(*old(store)),
{
    cw_storage_plus::Map::<&str, RecordFields>::new(ADDRESS_DID_MAPPING).save(
        store.storage,
        owner,
        fields,
    )
}

/// `cw_storage_plus::Map::has` on the delegate partition.
///
/// Claims that it answers whether any bytes are stored under the pair. The
/// first part of a composite key is written with a length of two bytes, and
/// the call panics on a longer one.
#[verifier::external_body]
pub(crate) fn delegates_has(store: &Store, peer: &str, identifier: &str) -> (present: bool)
    requires
        peer.spec_bytes().len() <= MAX_KEY_PART_BYTES,
    ensures
        present == delegate_table(*store).contains_key((peer@, identifier@)),
{
    cw_storage_plus::Map::<(&str, &str), bool>::new(DELEGATE_ADDRESSES).has(
        store.storage,
        (peer, identifier),
    )
}

/// `cw_storage_plus::Map::save` on the delegate partition.
///
/// Claims that the call returns `Ok`, that the entry of the pair then
/// decodes to the given flag, and that no other entry of any partition
/// changes. The call fails only where the value cannot be encoded, and the
/// encoder of `serde_json_wasm` has no failing path for a flag. The call
/// panics on a first key part of more than `0xFFFF` bytes.
#[verifier::external_body]
pub(crate) fn delegates_save(store: &mut Store, peer: &str, identifier: &str, active: bool) -> (saved:
    Result<(), cosmwasm_std::StdError>)
    requires
        peer.spec_bytes().len() <= MAX_KEY_PART_BYTES,
    ensures
        did_index(*final(store)) == did_index(*old(store)),
        owner_records(*final(store)) == owner_records(*old(store)),
        saved is Ok,
        delegate_table(*final(store)) == delegate_table(*old(store)).insert(
            (peer@, identifier@),
            Some(active),
        ),
{
    cw_storage_plus::Map::<(&str, &str), bool>::new(DELEGATE_ADDRESSES).save(
        store.storage,
        (peer, identifier),
        &active,
    )
}

} // verus!
