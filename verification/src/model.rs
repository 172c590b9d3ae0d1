//! The registry as a mathematical value, and what each command does to it.
//!
//! The handlers of [`crate::contract`] are proved to do to the storage what
//! the functions of this file do to a [`RegistryView`].

use crate::error::ErrorKind;
use crate::msg::HealthDIDView;
use vstd::prelude::*;

verus! {

/// What the three partitions hold.
///
/// Each maps a key to `Some(value)` where the stored entry can be read and
/// to `None` where an entry is present but cannot be read.
pub struct RegistryView {
    /// Identifier to owner.
    pub did_index: Map<Seq<char>, Option<Seq<char>>>,
    /// Owner to record.
    pub owner_records: Map<Seq<char>, Option<HealthDIDView>>,
    /// Address and identifier to delegate flag.
    pub delegate_table: Map<(Seq<char>, Seq<char>), Option<bool>>,
}

/// The registry after a command, and whether the command was accepted.
///
/// The host discards the state of a refused command. It is stated all the
/// same, because one refusal comes after a write.
pub struct Step {
    pub state: RegistryView,
    pub result: Result<(), ErrorKind>,
}

impl RegistryView {
    /// The owner that the index names for the identifier, where it names a
    /// readable one.
    pub open spec fn owner_of(self, identifier: Seq<char>) -> Option<Seq<char>> {
        if self.did_index.contains_key(identifier) {
            self.did_index[identifier]
        } else {
            None
        }
    }

    /// The record in the slot of the address, where it holds a readable one.
    pub open spec fn record_of(self, owner: Seq<char>) -> Option<HealthDIDView> {
        if self.owner_records.contains_key(owner) {
            self.owner_records[owner]
        } else {
            None
        }
    }

    /// The record that the identifier resolves to: from the identifier to
    /// its owner, from the owner to the record in its slot.
    pub open spec fn lookup(self, identifier: Seq<char>) -> Option<HealthDIDView> {
        match self.owner_of(identifier) {
            Some(owner) => self.record_of(owner),
            None => None,
        }
    }

    /// The owner check that every command but registration starts with.
    pub open spec fn authorize(self, identifier: Seq<char>, sender: Seq<char>) -> Result<
        Seq<char>,
        ErrorKind,
    > {
        match self.owner_of(identifier) {
            None => Err(ErrorKind::Std),
            Some(owner) => if owner == sender {
                Ok(owner)
            } else {
                Err(ErrorKind::Unauthorized)
            },
        }
    }

    /// The registry with the index naming `owner` for the identifier.
    pub open spec fn indexed(self, identifier: Seq<char>, owner: Seq<char>) -> RegistryView {
        RegistryView { did_index: self.did_index.insert(identifier, Some(owner)), ..self }
    }

    /// The command is refused and nothing changes.
    pub open spec fn refuse(self, kind: ErrorKind) -> Step {
        Step { state: self, result: Err(kind) }
    }

    /// The command is accepted and leaves the registry as `state`.
    pub open spec fn accept(state: RegistryView) -> Step {
        Step { state, result: Ok(()) }
    }

    /// Registration of an identifier by `sender`.
    ///
    /// Refused where the index has any entry for the identifier. Otherwise
    /// the index names `sender` as owner and the slot of `sender` holds a
    /// fresh record, whatever it held before.
    pub open spec fn register(
        self,
        identifier: Seq<char>,
        uri: Seq<char>,
        sender: Seq<char>,
    ) -> Step {
        if self.did_index.contains_key(identifier) {
            self.refuse(ErrorKind::DidAlreadyExists)
        } else {
            let indexed = self.indexed(identifier, sender);
            Self::accept(
                RegistryView {
                    owner_records: indexed.owner_records.insert(
                        sender,
                        Some(HealthDIDView::fresh(sender, identifier, uri)),
                    ),
                    ..indexed
                },
            )
        }
    }

    /// The owner's record after a change by the owner, or the refusal.
    pub open spec fn change_record(
        self,
        identifier: Seq<char>,
        sender: Seq<char>,
        change: spec_fn(HealthDIDView) -> HealthDIDView,
    ) -> Step {
        match self.authorize(identifier, sender) {
            Err(kind) => self.refuse(kind),
            Ok(owner) => match self.record_of(owner) {
                None => self.refuse(ErrorKind::Std),
                Some(record) => Self::accept(
                    RegistryView {
                        owner_records: self.owner_records.insert(owner, Some(change(record))),
                        ..self
                    },
                ),
            },
        }
    }

    /// Replacement of the primary content pointer by the owner.
    pub open spec fn update_data(
        self,
        identifier: Seq<char>,
        uri: Seq<char>,
        sender: Seq<char>,
    ) -> Step {
        self.change_record(
            identifier,
            sender,
            |record: HealthDIDView| HealthDIDView { ipfs_uri: uri, ..record },
        )
    }

    /// Addition of supplemental pointers by the owner, behind those that
    /// the record holds already.
    pub open spec fn add_alt_data(
        self,
        identifier: Seq<char>,
        uris: Seq<Seq<char>>,
        sender: Seq<char>,
    ) -> Step {
        self.change_record(
            identifier,
            sender,
            |record: HealthDIDView|
                HealthDIDView { alt_ipfs_uris: record.alt_ipfs_uris + uris, ..record },
        )
    }

    /// Marking of `peer` as an active delegate for the identifier.
    pub open spec fn add_delegate(
        self,
        peer: Seq<char>,
        identifier: Seq<char>,
        sender: Seq<char>,
    ) -> Step {
        match self.authorize(identifier, sender) {
            Err(kind) => self.refuse(kind),
            Ok(_) => Self::accept(
                RegistryView {
                    delegate_table: self.delegate_table.insert((peer, identifier), Some(true)),
                    ..self
                },
            ),
        }
    }

    /// Marking of `peer` as an inactive delegate for the identifier.
    ///
    /// Refused where the table has no entry for the pair. The entry stays.
    pub open spec fn remove_delegate(
        self,
        peer: Seq<char>,
        identifier: Seq<char>,
        sender: Seq<char>,
    ) -> Step {
        match self.authorize(identifier, sender) {
            Err(kind) => self.refuse(kind),
            Ok(_) => if !self.delegate_table.contains_key((peer, identifier)) {
                self.refuse(ErrorKind::NotDelegateAddress)
            } else {
                Self::accept(
                    RegistryView {
                        delegate_table: self.delegate_table.insert(
                            (peer, identifier),
                            Some(false),
                        ),
                        ..self
                    },
                )
            },
        }
    }

    /// Transfer of the identifier from `sender` to `new_owner`.
    ///
    /// The index is rewritten first. The record is then read from the slot
    /// of `sender` and written, with its owner changed, to the slot of
    /// `new_owner`. The slot of `sender` keeps what it held. Where the slot
    /// of `sender` holds no readable record the command is refused with the
    /// index already rewritten.
    pub open spec fn transfer_ownership(
        self,
        new_owner: Seq<char>,
        identifier: Seq<char>,
        sender: Seq<char>,
    ) -> Step {
        match self.authorize(identifier, sender) {
            Err(kind) => self.refuse(kind),
            Ok(_) => if new_owner == sender {
                self.refuse(ErrorKind::CannotTransferToSelf)
            } else {
                let indexed = self.indexed(identifier, new_owner);
                match self.record_of(sender) {
                    None => indexed.refuse(ErrorKind::Std),
                    Some(record) => Self::accept(
                        RegistryView {
                            owner_records: indexed.owner_records.insert(
                                new_owner,
                                Some(HealthDIDView { owner: new_owner, ..record }),
                            ),
                            ..indexed
                        },
                    ),
                }
            },
        }
    }
}

} // verus!
