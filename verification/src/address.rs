//! Identities of the parties to an escrow.

use vstd::prelude::*;
use vstd::string::StringExecFns;

verus! {

/// An identity on the ledger: an account or a contract, held as its textual key.
///
/// The escrow never looks inside a key. It only asks whether two keys are the
/// same, and two addresses are the same party exactly when their keys are equal.
#[derive(Debug, PartialEq, Eq)]
pub struct Address {
    key: String,
}

impl View for Address {
    type V = Seq<char>;

    closed spec fn view(&self) -> Seq<char> {
        self.key@
    }
}

impl Address {
    /// The address with the given key.
    pub fn new(key: String) -> (address: Address)
        ensures
            address@ == key@,
    {
        Address { key }
    }

    /// The address with the given key, copied from a string slice.
    pub fn from_str(key: &str) -> (address: Address)
        ensures
            address@ == key@,
    {
        Address { key: String::from_str(key) }
    }

    /// The key of this address.
    pub fn as_str(&self) -> (key: &str)
        ensures
            key@ == self@,
    {
        self.key.as_str()
    }

    /// Whether `self` and `other` name the same party.
    pub fn same_as(&self, other: &Address) -> (same: bool)
        ensures
            same == (self@ == other@),
    {
        self.key == other.key
    }
}

impl Clone for Address {
    fn clone(&self) -> (copy: Address)
        ensures
            copy == *self,
    {
        Address { key: self.key.clone() }
    }
}

} // verus!
