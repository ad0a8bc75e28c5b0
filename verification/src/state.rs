//! The records that the registry keeps: the protocol configuration and one
//! record for each registered boat.

use vstd::prelude::*;
use crate::address::{boat_seeds, verifies, verify_boat_address, Address};

verus! {

/// Most bytes that a boat's name may take.
pub const MAX_NAME_LEN: usize = 50;

/// Most bytes that a boat's description may take.
pub const MAX_DESCRIPTION_LEN: usize = 200;

/// Most bytes that a registration number may take.
pub const MAX_REGISTRATION_LEN: usize = 30;

/// Most bytes that a manufacturer's name may take.
pub const MAX_MANUFACTURER_LEN: usize = 50;

/// A boat must have been built after this year.
pub const MIN_YEAR_EXCLUSIVE: u16 = 1900;

/// The last year in which a boat may have been built.
pub const MAX_YEAR: u16 = 2030;

/// The greatest length of a boat, in feet.
pub const MAX_LENGTH_FEET: u32 = 1000;

/// The schema version that new configuration records carry.
pub const CONFIG_VERSION: u8 = 1;

/// Number of bytes that `text` takes when stored: the length of its UTF-8
/// encoding.
pub open spec fn byte_len(text: Seq<char>) -> nat {
    vstd::utf8::encode_utf8(text).len()
}

/// Counts the bytes that `text` takes when stored.
pub fn stored_len(text: &str) -> (len: usize)
    ensures
        len == byte_len(text@),
{
    text.as_bytes().len()
}

/// The protocol's configuration, one for each governing authority.
#[derive(Clone, Copy, Debug, PartialEq, Eq)]
pub struct Config {
    /// Nonce that fixes the record's derived address.
    pub bump: u8,
    /// Who may govern this configuration.
    pub authority: Address,
    pub is_active: bool,
    pub is_paused: bool,
    /// Fee rate in basis points.
    pub fee_bps: u16,
    /// Where collected fees go.
    pub treasury: Address,
    /// Schema version.
    pub version: u8,
}

impl Config {
    /// Bytes of storage that a configuration record takes.
    pub const LEN: usize = 1 + 32 + 1 + 1 + 2 + 32 + 1;

    /// Mutating operations go ahead only while the protocol is active and
    /// not paused.
    pub open spec fn operational(self) -> bool {
        self.is_active && !self.is_paused
    }

    /// Tells whether the protocol is active and not paused.
    pub fn is_operational(&self) -> (yes: bool)
        ensures
            yes == self.operational(),
    {
        self.is_active && !self.is_paused
    }
}

/// The kind of a boat.
#[derive(Debug, PartialEq, Eq)]
pub enum BoatType {
    Sailboat,
    Motorboat,
    Yacht,
    Catamaran,
    Other(String),
}

/// A kind of boat as a mathematical value.
pub enum BoatTypeView {
    Sailboat,
    Motorboat,
    Yacht,
    Catamaran,
    Other(Seq<char>),
}

impl View for BoatType {
    type V = BoatTypeView;

    open spec fn view(&self) -> BoatTypeView {
        match self {
            BoatType::Sailboat => BoatTypeView::Sailboat,
            BoatType::Motorboat => BoatTypeView::Motorboat,
            BoatType::Yacht => BoatTypeView::Yacht,
            BoatType::Catamaran => BoatTypeView::Catamaran,
            BoatType::Other(kind) => BoatTypeView::Other(kind@),
        }
    }
}

impl Clone for BoatType {
    fn clone(&self) -> (copy: BoatType)
        ensures
            copy == *self,
    {
        match self {
            BoatType::Sailboat => BoatType::Sailboat,
            BoatType::Motorboat => BoatType::Motorboat,
            BoatType::Yacht => BoatType::Yacht,
            BoatType::Catamaran => BoatType::Catamaran,
            BoatType::Other(kind) => BoatType::Other(kind.clone()),
        }
    }
}

/// The record of one registered boat.
#[derive(Debug, PartialEq, Eq)]
pub struct BoatNFT {
    /// Nonce that fixes the record's derived address.
    pub bump: u8,
    /// The boat's ownership unit.
    pub mint: Address,
    /// Who holds the boat's ownership unit.
    pub owner: Address,
    pub name: String,
    pub boat_type: BoatType,
    pub description: String,
    pub registration_number: String,
    pub year_built: u16,
    /// Length in feet.
    pub length: u32,
    pub manufacturer: String,
    /// Unix seconds.
    pub last_maintenance_date: i64,
    pub is_for_sale: bool,
    /// Unix seconds.
    pub created_at: i64,
}

/// A boat's record as a mathematical value.
pub struct BoatNFTView {
    pub bump: u8,
    pub mint: Address,
    pub owner: Address,
    pub name: Seq<char>,
    pub boat_type: BoatTypeView,
    pub description: Seq<char>,
    pub registration_number: Seq<char>,
    pub year_built: u16,
    pub length: u32,
    pub manufacturer: Seq<char>,
    pub last_maintenance_date: i64,
    pub is_for_sale: bool,
    pub created_at: i64,
}

impl BoatNFTView {
    /// What holds of every record that the registry has written: the texts
    /// fit their storage, and year and length are within their ranges.
    pub open spec fn well_formed(self) -> bool {
        &&& byte_len(self.name) <= MAX_NAME_LEN
        &&& byte_len(self.description) <= MAX_DESCRIPTION_LEN
        &&& byte_len(self.registration_number) <= MAX_REGISTRATION_LEN
        &&& byte_len(self.manufacturer) <= MAX_MANUFACTURER_LEN
        &&& MIN_YEAR_EXCLUSIVE < self.year_built <= MAX_YEAR
        &&& 0 < self.length <= MAX_LENGTH_FEET
    }

    /// `address` is the record's address: the one that the record's
    /// ownership unit and nonce give under the program `program_id`.
    pub open spec fn lies_at(self, program_id: Address, address: Address) -> bool {
        verifies(boat_seeds(self.mint@), self.bump, program_id@, address@)
    }
}

impl View for BoatNFT {
    type V = BoatNFTView;

    open spec fn view(&self) -> BoatNFTView {
        BoatNFTView {
            bump: self.bump,
            mint: self.mint,
            owner: self.owner,
            name: self.name@,
            boat_type: self.boat_type@,
            description: self.description@,
            registration_number: self.registration_number@,
            year_built: self.year_built,
            length: self.length,
            manufacturer: self.manufacturer@,
            last_maintenance_date: self.last_maintenance_date,
            is_for_sale: self.is_for_sale,
            created_at: self.created_at,
        }
    }
}

impl BoatNFT {
    /// Bytes of storage that a boat's record takes.
    pub const LEN: usize = 1 + 32 + 32 + (4 + 50) + (1 + 4 + 30) + (4 + 200) + (4 + 30) + 2 + 4
        + (4 + 50) + 8 + 1 + 8;

    /// Tells whether `address` is the record's address, by the nonce that
    /// the record keeps. A record presented at any other address is not the
    /// boat's record.
    pub fn lies_at(&self, program_id: &Address, address: &Address) -> (verified: bool)
        ensures
            verified == self@.lies_at(*program_id, *address),
    {
        verify_boat_address(program_id, &self.mint, self.bump, address)
    }
}

impl Clone for BoatNFT {
    fn clone(&self) -> (copy: BoatNFT)
        ensures
            copy == *self,
    {
        BoatNFT {
            bump: self.bump,
            mint: self.mint,
            owner: self.owner,
            name: self.name.clone(),
            boat_type: self.boat_type.clone(),
            description: self.description.clone(),
            registration_number: self.registration_number.clone(),
            year_built: self.year_built,
            length: self.length,
            manufacturer: self.manufacturer.clone(),
            last_maintenance_date: self.last_maintenance_date,
            is_for_sale: self.is_for_sale,
            created_at: self.created_at,
        }
    }
}

/// What the unit ledger says of one holder and one ownership unit.
#[derive(Clone, Copy, Debug, PartialEq, Eq)]
pub struct TokenAccount {
    /// The ownership unit that the account counts.
    pub mint: Address,
    /// Whose units the account counts.
    pub owner: Address,
    /// How many units the holder has.
    pub amount: u64,
}

} // verus!
