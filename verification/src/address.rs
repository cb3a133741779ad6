//! Account addresses, as far as the airdrop module tells them apart.

use vstd::prelude::*;

verus! {

/// Mathematical model of an [`Address`].
pub enum AddressView {
    /// The airdrop module's own account.
    Airdrop,
    /// Any other account, by the characters of its canonical encoding.
    Other(Seq<char>),
}

/// An account address.
///
/// The airdrop module only ever asks two things of an address: whether it is
/// the module's own, and whether two addresses are the same account.
#[derive(Debug, PartialEq, Eq)]
pub enum Address {
    /// The airdrop module's own internal account.
    Airdrop,
    /// Any other account, named by its canonical encoding.
    Other(String),
}

impl View for Address {
    type V = AddressView;

    open spec fn view(&self) -> AddressView {
        match self {
            Address::Airdrop => AddressView::Airdrop,
            Address::Other(s) => AddressView::Other(s@),
        }
    }
}

impl Address {
    /// Whether `self` and `other` name the same account.
    pub fn same(&self, other: &Address) -> (b: bool)
        ensures
            b == (self@ == other@),
    {
        match (self, other) {
            (Address::Airdrop, Address::Airdrop) => true,
            (Address::Other(a), Address::Other(b)) => *a == *b,
            _ => false,
        }
    }
}

impl Clone for Address {
    fn clone(&self) -> (r: Address)
        ensures
            r@ == self@,
    {
        match self {
            Address::Airdrop => Address::Airdrop,
            Address::Other(s) => Address::Other(s.clone()),
        }
    }
}

/// The airdrop module's internal address.
pub fn airdrop_address() -> (a: Address)
    ensures
        a@ == AddressView::Airdrop,
{
    Address::Airdrop
}

} // verus!
