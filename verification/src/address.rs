//! Addresses: opaque tokens that are compared for equality and nothing else.

use vstd::prelude::*;
use vstd::std_specs::cmp::PartialEqSpecImpl;

verus! {

/// The longest text, in bytes, that the storage accepts as the first part of
/// a composite key.
pub const MAX_KEY_PART_BYTES: usize = 0xFFFF;

/// The address of an account, as the host wrote it.
///
/// Nothing is checked of the text: the host authenticates callers, and the
/// registry only asks whether two addresses are the same.
#[derive(Debug)]
pub struct Address {
    text: String,
}

impl View for Address {
    type V = Seq<char>;

    closed spec fn view(&self) -> Seq<char> {
        self.text@
    }
}

impl Address {
    /// The number of bytes of the address as it is stored.
    pub open spec fn byte_len(&self) -> nat {
        vstd::utf8::encode_utf8(self@).len()
    }

    /// The address with the given text.
    pub fn unchecked(text: &str) -> (address: Address)
        ensures
            address@ == text@,
    {
        Address { text: text.to_owned() }
    }

    /// The text of the address.
    pub fn as_str(&self) -> (text: &str)
        ensures
            text@ == self@,
    {
        self.text.as_str()
    }

    /// The text of the address, owned.
    pub fn into_string(self) -> (text: String)
        ensures
            text@ == self@,
    {
        self.text
    }

    /// Whether the address is short enough to lead a composite key.
    pub fn fits_key_part(&self) -> (fits: bool)
        ensures
            fits == (self.byte_len() <= MAX_KEY_PART_BYTES),
    {
        self.text.as_str().as_bytes().len() <= MAX_KEY_PART_BYTES
    }
}

/// The texts of a sequence of strings.
pub open spec fn texts(strings: Seq<String>) -> Seq<Seq<char>> {
    Seq::new(strings.len(), |i: int| strings[i]@)
}

/// The texts of a sequence of addresses.
pub open spec fn address_texts(addresses: Seq<Address>) -> Seq<Seq<char>> {
    Seq::new(addresses.len(), |i: int| addresses[i]@)
}

/// The texts of the addresses, in their order.
pub fn into_texts(addresses: Vec<Address>) -> (strings: Vec<String>)
    ensures
        texts(strings@) == address_texts(addresses@),
{
    let mut strings: Vec<String> = Vec::new();
    let mut i: usize = 0;
    while i < addresses.len()
        invariant
            i <= addresses@.len(),
            strings@.len() == i,
            forall|j: int| 0 <= j < i ==> (#[trigger] strings@[j])@ == addresses@[j]@,
        decreases addresses@.len() - i,
    {
        strings.push(addresses[i].text.clone());
        i += 1;
    }
    assert(texts(strings@) =~= address_texts(addresses@));
    strings
}

/// The addresses with the given texts, in their order.
pub fn unchecked_all(strings: Vec<String>) -> (addresses: Vec<Address>)
    ensures
        address_texts(addresses@) == texts(strings@),
{
    let mut addresses: Vec<Address> = Vec::new();
    let mut i: usize = 0;
    while i < strings.len()
        invariant
            i <= strings@.len(),
            addresses@.len() == i,
            forall|j: int| 0 <= j < i ==> (#[trigger] addresses@[j])@ == strings@[j]@,
        decreases strings@.len() - i,
    {
        addresses.push(Address { text: strings[i].clone() });
        i += 1;
    }
    assert(address_texts(addresses@) =~= texts(strings@));
    addresses
}

impl Clone for Address {
    fn clone(&self) -> (copy: Address)
        ensures
            copy@ == self@,
    {
        Address { text: self.text.clone() }
    }
}

impl PartialEq for Address {
    fn eq(&self, other: &Address) -> (same: bool) {
        self.text == other.text
    }
}

impl Eq for Address {

}

impl PartialEqSpecImpl for Address {
    open spec fn obeys_eq_spec() -> bool {
        true
    }

    open spec fn eq_spec(&self, other: &Address) -> bool {
        self@ == other@
    }
}

} // verus!
