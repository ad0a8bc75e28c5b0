//! What an operation asks of the registry's host: currency to move and
//! ownership units to issue or to hand over. The host carries these out; if
//! one of them fails, the whole operation has not happened.

use vstd::prelude::*;
use crate::address::Address;

verus! {

/// Native currency to move from one address to another.
#[derive(Clone, Copy, Debug, PartialEq, Eq)]
pub struct CurrencyTransfer {
    pub from: Address,
    pub to: Address,
    pub amount: u64,
}

/// Ownership units to create and hand to a holder.
#[derive(Debug, PartialEq, Eq)]
pub struct IssueUnit {
    /// The ownership unit.
    pub mint: Address,
    /// Who receives the units.
    pub to: Address,
    /// In whose name the units are issued.
    pub authority: Address,
    pub amount: u64,
    /// The seeds by which the program signs for `authority`.
    pub signer_seeds: Vec<Vec<u8>>,
}

/// `IssueUnit` as a mathematical value.
pub struct IssueUnitView {
    pub mint: Address,
    pub to: Address,
    pub authority: Address,
    pub amount: u64,
    pub signer_seeds: Seq<Seq<u8>>,
}

impl View for IssueUnit {
    type V = IssueUnitView;

    open spec fn view(&self) -> IssueUnitView {
        IssueUnitView {
            mint: self.mint,
            to: self.to,
            authority: self.authority,
            amount: self.amount,
            signer_seeds: self.signer_seeds.deep_view(),
        }
    }
}

/// Ownership units to move from one holder to another.
#[derive(Clone, Copy, Debug, PartialEq, Eq)]
pub struct TransferUnit {
    /// The ownership unit.
    pub mint: Address,
    pub from: Address,
    pub to: Address,
    /// Who authorises the move.
    pub authority: Address,
    pub amount: u64,
}

} // verus!
