//! The record of an identifier and the messages that the registry accepts.

use crate::address::{address_texts, into_texts, texts, unchecked_all, Address};
use vstd::prelude::*;

verus! {

/// The reputation score of a record at its creation.
pub const INITIAL_REPUTATION: u8 = 10;

/// The record that an identifier names.
#[derive(Clone, Debug, PartialEq)]
pub struct HealthDID {
    /// The address that controls the record.
    pub owner: Address,
    /// Delegates listed on the record itself; empty at creation.
    pub delegate_addresses: Vec<Address>,
    /// The identifier, fixed at creation.
    pub health_did: String,
    /// The primary content pointer.
    pub ipfs_uri: String,
    /// Supplemental content pointers, in the order they were added.
    pub alt_ipfs_uris: Vec<String>,
    /// The reputation score.
    pub reputation_score: u8,
    pub has_world_id: bool,
    pub has_polygon_id: bool,
    pub has_social_id: bool,
}

/// What a [`HealthDID`] holds, as mathematical values.
pub struct HealthDIDView {
    pub owner: Seq<char>,
    pub delegate_addresses: Seq<Seq<char>>,
    pub health_did: Seq<char>,
    pub ipfs_uri: Seq<char>,
    pub alt_ipfs_uris: Seq<Seq<char>>,
    pub reputation_score: u8,
    pub has_world_id: bool,
    pub has_polygon_id: bool,
    pub has_social_id: bool,
}

/// The fields of a record in the order of their declaration, as the plain
/// values that are written to storage.
pub type RecordFields = (String, Vec<String>, String, String, Vec<String>, u8, bool, bool, bool);

/// The record that a tuple of fields stands for.
pub open spec fn fields_view(fields: RecordFields) -> HealthDIDView {
    HealthDIDView {
        owner: fields.0@,
        delegate_addresses: texts(fields.1@),
        health_did: fields.2@,
        ipfs_uri: fields.3@,
        alt_ipfs_uris: texts(fields.4@),
        reputation_score: fields.5,
        has_world_id: fields.6,
        has_polygon_id: fields.7,
        has_social_id: fields.8,
    }
}

impl HealthDIDView {
    /// The record of a newly registered identifier: no supplemental
    /// pointers, no delegates, the initial reputation and no flag set.
    pub open spec fn fresh(
        owner: Seq<char>,
        health_did: Seq<char>,
        ipfs_uri: Seq<char>,
    ) -> HealthDIDView {
        HealthDIDView {
            owner,
            delegate_addresses: Seq::empty(),
            health_did,
            ipfs_uri,
            alt_ipfs_uris: Seq::empty(),
            reputation_score: INITIAL_REPUTATION,
            has_world_id: false,
            has_polygon_id: false,
            has_social_id: false,
        }
    }
}

impl View for HealthDID {
    type V = HealthDIDView;

    open spec fn view(&self) -> HealthDIDView {
        HealthDIDView {
            owner: self.owner@,
            delegate_addresses: address_texts(self.delegate_addresses@),
            health_did: self.health_did@,
            ipfs_uri: self.ipfs_uri@,
            alt_ipfs_uris: texts(self.alt_ipfs_uris@),
            reputation_score: self.reputation_score,
            has_world_id: self.has_world_id,
            has_polygon_id: self.has_polygon_id,
            has_social_id: self.has_social_id,
        }
    }
}

impl HealthDID {
    /// The record of a newly registered identifier.
    pub fn new(owner: Address, health_did: String, ipfs_uri: String) -> (record: HealthDID)
        ensures
            record@ == HealthDIDView::fresh(owner@, health_did@, ipfs_uri@),
    {
        let record = HealthDID {
            owner,
            delegate_addresses: Vec::new(),
            health_did,
            ipfs_uri,
            alt_ipfs_uris: Vec::new(),
            reputation_score: INITIAL_REPUTATION,
            has_world_id: false,
            has_polygon_id: false,
            has_social_id: false,
        };
        assert(record@.delegate_addresses =~= Seq::empty());
        assert(record@.alt_ipfs_uris =~= Seq::empty());
        record
    }

    /// The fields of the record as plain values.
    pub fn into_fields(self) -> (fields: RecordFields)
        ensures
            fields_view(fields) == self@,
    {
        (
            self.owner.into_string(),
            into_texts(self.delegate_addresses),
            self.health_did,
            self.ipfs_uri,
            self.alt_ipfs_uris,
            self.reputation_score,
            self.has_world_id,
            self.has_polygon_id,
            self.has_social_id,
        )
    }

    /// The record that the plain values stand for.
    pub fn from_fields(fields: RecordFields) -> (record: HealthDID)
        ensures
            record@ == fields_view(fields),
    {
        HealthDID {
            owner: Address::unchecked(fields.0.as_str()),
            delegate_addresses: unchecked_all(fields.1),
            health_did: fields.2,
            ipfs_uri: fields.3,
            alt_ipfs_uris: fields.4,
            reputation_score: fields.5,
            has_world_id: fields.6,
            has_polygon_id: fields.7,
            has_social_id: fields.8,
        }
    }
}

/// The message that sets the registry up. It carries nothing.
#[derive(Clone, Debug, PartialEq)]
pub struct InstantiateMsg {}

/// The commands that change the registry.
#[derive(Clone, Debug, PartialEq)]
pub enum ExecuteMsg {
    RegisterDID { health_did: String, uri: String },
    UpdateDIDData { health_did: String, uri: String },
    AddAltData { health_did: String, uris: Vec<String> },
    AddDelegateAddress { peer_address: Address, health_did: String },
    RemoveDelegateAddress { peer_address: Address, health_did: String },
    TransferOwnership { new_address: Address, health_did: String },
}

/// The questions that the registry answers.
#[derive(Clone, Debug, PartialEq)]
pub enum QueryMsg {
    GetHealthDID { health_did: String },
}

} // verus!
