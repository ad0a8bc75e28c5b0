//! The registry's operations: setting up the configuration, registering a
//! boat, updating its metadata and handing its ownership on.
//!
//! Each operation decides on plain values. What it needs from the host (the
//! caller whose signature the host has checked, the records and balances it
//! has loaded, the time) comes in a context; what the host is to do comes
//! back as effects and events.

use vstd::prelude::*;
use vstd::string::StringExecFns;
use crate::address::{
    boat_seeds, build_mint_signer_seeds, config_seeds, derive_boat_address,
    derive_config_address, derive_mint_address, mint_seeds, mint_signer_seeds, program_address,
    same_address_is_same_bytes, verifies, Address,
};
use crate::effects::{CurrencyTransfer, IssueUnit, IssueUnitView, TransferUnit};
use crate::error::ErrorCode;
use crate::events::{
    events_view, BoatMinted, BoatMintedView, Event, EventView, FeeCollected, MetadataUpdated,
    MetadataUpdatedView, OwnershipTransferred,
};
use crate::fee::{compute_fee, fee_charged};
use crate::state::{
    byte_len, stored_len, BoatNFT, BoatNFTView, BoatType, BoatTypeView, Config, TokenAccount,
    CONFIG_VERSION, MAX_DESCRIPTION_LEN, MAX_LENGTH_FEET, MAX_MANUFACTURER_LEN, MAX_NAME_LEN,
    MAX_REGISTRATION_LEN, MAX_YEAR, MIN_YEAR_EXCLUSIVE,
};
use crate::text::{bool_text, bool_to_text, decimal, i64_to_text};

verus! {

/// Nonces of the addresses that setting up a configuration derives.
#[derive(Clone, Copy, Debug, PartialEq, Eq)]
pub struct InitializeConfigBumps {
    pub config: u8,
}

/// What setting up a configuration works on.
#[derive(Clone, Copy, Debug, PartialEq, Eq)]
pub struct InitializeConfig {
    /// Address at which the host creates the configuration record.
    pub config: Address,
    /// The caller, who is to govern the configuration.
    pub authority: Address,
    pub bumps: InitializeConfigBumps,
}

impl InitializeConfig {
    /// The record's address and nonce are those that `authority` derives
    /// under the program `program_id`.
    pub open spec fn resolved(self, program_id: Address) -> bool {
        program_address(config_seeds(self.authority@), program_id@) == Some(
            (self.config@, self.bumps.config),
        )
    }

    /// The record's address is recognised by its nonce.
    pub open spec fn verified(self, program_id: Address) -> bool {
        verifies(config_seeds(self.authority@), self.bumps.config, program_id@, self.config@)
    }

    /// Derives the address of the configuration record of `authority`.
    /// There is a context exactly where an address can be derived.
    pub fn resolve(program_id: &Address, authority: Address) -> (ctx: Option<InitializeConfig>)
        ensures
            match ctx {
                Some(ctx) => {
                    &&& ctx.authority == authority
                    &&& ctx.resolved(*program_id)
                    &&& ctx.verified(*program_id)
                },
                None => program_address(config_seeds(authority@), program_id@) is None,
            },
    {
        match derive_config_address(program_id, &authority) {
            Some((config, bump)) => Some(
                InitializeConfig {
                    config,
                    authority,
                    bumps: InitializeConfigBumps { config: bump },
                },
            ),
            None => None,
        }
    }
}

/// Sets up the protocol's configuration for the caller: active, not paused,
/// with the given fee rate and treasury.
pub fn initialize_config(ctx: &InitializeConfig, fee_bps: u16, treasury: Address) -> (config:
    Config)
    ensures
        config == (Config {
            bump: ctx.bumps.config,
            authority: ctx.authority,
            is_active: true,
            is_paused: false,
            fee_bps,
            treasury,
            version: CONFIG_VERSION,
        }),
{
    Config {
        bump: ctx.bumps.config,
        authority: ctx.authority,
        is_active: true,
        is_paused: false,
        fee_bps,
        treasury,
        version: CONFIG_VERSION,
    }
}

/// Nonces of the addresses that a registration derives.
#[derive(Clone, Copy, Debug, PartialEq, Eq)]
pub struct MintBoatNftBumps {
    pub boat_nft: u8,
    pub mint: u8,
}

/// What a registration works on.
#[derive(Clone, Copy, Debug, PartialEq, Eq)]
pub struct MintBoatNft {
    /// The protocol's configuration.
    pub config: Config,
    /// Address at which the host creates the boat's record.
    pub boat_nft: Address,
    /// Address at which the host creates the boat's ownership unit.
    pub mint: Address,
    /// The caller, who registers the boat, pays the fee and receives the
    /// ownership unit.
    pub owner: Address,
    /// The address that the caller names as the treasury.
    pub treasury_account: Address,
    pub bumps: MintBoatNftBumps,
    /// The host's current time, in Unix seconds.
    pub unix_timestamp: i64,
}

/// The addresses that a registration by `owner` under `registration_number`
/// derives, each with its nonce: first the ownership unit, from the owner and
/// the number, then the record, from the unit. `None` where one of the two
/// cannot be derived.
pub open spec fn mint_addresses(
    program_id: Seq<u8>,
    owner: Seq<u8>,
    registration_number: Seq<char>,
) -> Option<((Seq<u8>, u8), (Seq<u8>, u8))> {
    match program_address(mint_seeds(owner, registration_number), program_id) {
        Some(mint) => match program_address(boat_seeds(mint.0), program_id) {
            Some(boat_nft) => Some((mint, boat_nft)),
            None => None,
        },
        None => None,
    }
}

impl MintBoatNft {
    /// The addresses and nonces of unit and record are those that the
    /// caller and `registration_number` derive under the program
    /// `program_id`.
    pub open spec fn resolved(self, program_id: Address, registration_number: Seq<char>) -> bool {
        mint_addresses(program_id@, self.owner@, registration_number) == Some(
            ((self.mint@, self.bumps.mint), (self.boat_nft@, self.bumps.boat_nft)),
        )
    }

    /// The addresses of unit and record are recognised by their nonces.
    pub open spec fn verified(self, program_id: Address, registration_number: Seq<char>) -> bool {
        &&& verifies(
            mint_seeds(self.owner@, registration_number),
            self.bumps.mint,
            program_id@,
            self.mint@,
        )
        &&& verifies(boat_seeds(self.mint@), self.bumps.boat_nft, program_id@, self.boat_nft@)
    }

    /// Derives the addresses of the ownership unit and of the record of the
    /// boat that `owner` registers under `registration_number`. There is a
    /// context exactly where both can be derived.
    pub fn resolve(
        program_id: &Address,
        config: Config,
        owner: Address,
        treasury_account: Address,
        registration_number: &str,
        unix_timestamp: i64,
    ) -> (ctx: Option<MintBoatNft>)
        ensures
            match ctx {
                Some(ctx) => {
                    &&& ctx.config == config
                    &&& ctx.owner == owner
                    &&& ctx.treasury_account == treasury_account
                    &&& ctx.unix_timestamp == unix_timestamp
                    &&& ctx.resolved(*program_id, registration_number@)
                    &&& ctx.verified(*program_id, registration_number@)
                },
                None => mint_addresses(program_id@, owner@, registration_number@) is None,
            },
    {
        let found = derive_mint_address(program_id, &owner, registration_number);
        let (mint, mint_bump) = match found {
            Some(found) => found,
            None => { return None; },
        };
        let (boat_nft, boat_nft_bump) = match derive_boat_address(program_id, &mint) {
            Some(found) => found,
            None => { return None; },
        };
        Some(
            MintBoatNft {
                config,
                boat_nft,
                mint,
                owner,
                treasury_account,
                bumps: MintBoatNftBumps { boat_nft: boat_nft_bump, mint: mint_bump },
                unix_timestamp,
            },
        )
    }
}

/// What a registration that went through leaves to be done and to be told.
#[derive(Debug, PartialEq, Eq)]
pub struct Minted {
    /// The record to create at the context's record address.
    pub boat_nft: BoatNFT,
    /// The fee to move from the caller to the treasury, where one is owed.
    pub fee_transfer: Option<CurrencyTransfer>,
    /// The single ownership unit to issue to the caller.
    pub issue: IssueUnit,
    /// The events, in the order of their emission.
    pub events: Vec<Event>,
}

/// `Minted` as a mathematical value.
pub struct MintedView {
    pub boat_nft: BoatNFTView,
    pub fee_transfer: Option<CurrencyTransfer>,
    pub issue: IssueUnitView,
    pub events: Seq<EventView>,
}

impl View for Minted {
    type V = MintedView;

    open spec fn view(&self) -> MintedView {
        MintedView {
            boat_nft: self.boat_nft@,
            fee_transfer: self.fee_transfer,
            issue: self.issue@,
            events: events_view(self.events@),
        }
    }
}

/// Why a registration is refused, if it is: the first of the checks, in
/// this order, that the inputs fail.
pub open spec fn mint_rejection(
    ctx: MintBoatNft,
    name: Seq<char>,
    description: Seq<char>,
    registration_number: Seq<char>,
    year_built: u16,
    length: u32,
    manufacturer: Seq<char>,
    price: u64,
) -> Option<ErrorCode> {
    if !ctx.config.operational() {
        Some(ErrorCode::ConfigInactive)
    } else if byte_len(name) > MAX_NAME_LEN {
        Some(ErrorCode::NameTooLong)
    } else if byte_len(description) > MAX_DESCRIPTION_LEN {
        Some(ErrorCode::DescriptionTooLong)
    } else if byte_len(registration_number) > MAX_REGISTRATION_LEN {
        Some(ErrorCode::RegistrationTooLong)
    } else if byte_len(manufacturer) > MAX_MANUFACTURER_LEN {
        Some(ErrorCode::ManufacturerTooLong)
    } else if !(MIN_YEAR_EXCLUSIVE < year_built <= MAX_YEAR) {
        Some(ErrorCode::InvalidYear)
    } else if !(0 < length <= MAX_LENGTH_FEET) {
        Some(ErrorCode::InvalidLength)
    } else if price == 0 {
        Some(ErrorCode::InvalidAmount)
    } else if ctx.treasury_account != ctx.config.treasury {
        Some(ErrorCode::InvalidTreasury)
    } else {
        None
    }
}

/// The record that a registration creates.
pub open spec fn minted_record(
    ctx: MintBoatNft,
    name: Seq<char>,
    boat_type: BoatTypeView,
    description: Seq<char>,
    registration_number: Seq<char>,
    year_built: u16,
    length: u32,
    manufacturer: Seq<char>,
) -> BoatNFTView {
    BoatNFTView {
        bump: ctx.bumps.boat_nft,
        mint: ctx.mint,
        owner: ctx.owner,
        name,
        boat_type,
        description,
        registration_number,
        year_built,
        length,
        manufacturer,
        last_maintenance_date: ctx.unix_timestamp,
        is_for_sale: false,
        created_at: ctx.unix_timestamp,
    }
}

/// The fee that a registration moves: the fee charged on the price, from the
/// caller to the treasury, and nothing where the fee is zero.
pub open spec fn mint_fee_transfer(ctx: MintBoatNft, price: u64) -> Option<CurrencyTransfer> {
    let fee = fee_charged(price, ctx.config.fee_bps);
    if fee > 0 {
        Some(CurrencyTransfer { from: ctx.owner, to: ctx.treasury_account, amount: fee })
    } else {
        None
    }
}

/// The issue of a registration: one ownership unit to the caller, in the
/// unit's own name.
pub open spec fn mint_issue(ctx: MintBoatNft, registration_number: Seq<char>) -> IssueUnitView {
    IssueUnitView {
        mint: ctx.mint,
        to: ctx.owner,
        authority: ctx.mint,
        amount: 1,
        signer_seeds: mint_signer_seeds(ctx.owner@, registration_number, ctx.bumps.mint),
    }
}

/// The events of a registration: that the fee was collected, where one was,
/// and then that the boat was registered.
pub open spec fn mint_events(
    ctx: MintBoatNft,
    name: Seq<char>,
    boat_type: BoatTypeView,
    registration_number: Seq<char>,
    price: u64,
) -> Seq<EventView> {
    let fee = fee_charged(price, ctx.config.fee_bps);
    let minted = EventView::BoatMinted(
        BoatMintedView {
            mint: ctx.mint,
            owner: ctx.owner,
            name,
            boat_type,
            registration_number,
            price,
            fee,
        },
    );
    if fee > 0 {
        seq![
            EventView::FeeCollected(FeeCollected { mint: ctx.mint, payer: ctx.owner, amount: fee }),
            minted,
        ]
    } else {
        seq![minted]
    }
}

/// What a registration comes to: the reason for which it is refused, or the
/// record, the effects and the events.
pub open spec fn mint_outcome(
    ctx: MintBoatNft,
    name: Seq<char>,
    boat_type: BoatTypeView,
    description: Seq<char>,
    registration_number: Seq<char>,
    year_built: u16,
    length: u32,
    manufacturer: Seq<char>,
    price: u64,
) -> Result<MintedView, ErrorCode> {
    match mint_rejection(
        ctx,
        name,
        description,
        registration_number,
        year_built,
        length,
        manufacturer,
        price,
    ) {
        Some(error) => Err(error),
        None => Ok(
            MintedView {
                boat_nft: minted_record(
                    ctx,
                    name,
                    boat_type,
                    description,
                    registration_number,
                    year_built,
                    length,
                    manufacturer,
                ),
                fee_transfer: mint_fee_transfer(ctx, price),
                issue: mint_issue(ctx, registration_number),
                events: mint_events(ctx, name, boat_type, registration_number, price),
            },
        ),
    }
}

/// The record of a registration is recognised at its address: where the
/// context's record address is recognised by its nonce, so is the address of
/// the record that the registration creates, by the nonce that the record
/// keeps.
pub proof fn law_minted_record_lies_at_its_address(
    program_id: Address,
    ctx: MintBoatNft,
    name: Seq<char>,
    boat_type: BoatTypeView,
    description: Seq<char>,
    registration_number: Seq<char>,
    year_built: u16,
    length: u32,
    manufacturer: Seq<char>,
    price: u64,
    minted: MintedView,
)
    requires
        ctx.verified(program_id, registration_number),
        mint_outcome(
            ctx,
            name,
            boat_type,
            description,
            registration_number,
            year_built,
            length,
            manufacturer,
            price,
        ) == Ok::<MintedView, ErrorCode>(minted),
    ensures
        minted.boat_nft.lies_at(program_id, ctx.boat_nft),
{
}

/// Registers a boat for the caller.
///
/// The inputs are checked in a fixed order and the first failure is the
/// error. Where all pass, the fee on `price` is owed to the treasury if it is
/// not zero, one ownership unit goes to the caller, and the record is
/// created, not for sale, with the host's time as its creation and last
/// maintenance date. The price itself is moved nowhere.
pub fn mint_boat_nft(
    ctx: &MintBoatNft,
    name: String,
    boat_type: BoatType,
    description: String,
    registration_number: String,
    year_built: u16,
    length: u32,
    manufacturer: String,
    price: u64,
) -> (outcome: Result<Minted, ErrorCode>)
    ensures
        match outcome {
            Ok(minted) => mint_outcome(
                *ctx,
                name@,
                boat_type@,
                description@,
                registration_number@,
                year_built,
                length,
                manufacturer@,
                price,
            ) == Ok::<MintedView, ErrorCode>(minted@),
            Err(error) => mint_outcome(
                *ctx,
                name@,
                boat_type@,
                description@,
                registration_number@,
                year_built,
                length,
                manufacturer@,
                price,
            ) == Err::<MintedView, ErrorCode>(error),
        },
        outcome is Ok ==> outcome.unwrap()@.boat_nft.well_formed(),
{
    if !ctx.config.is_operational() {
        return Err(ErrorCode::ConfigInactive);
    }
    if stored_len(name.as_str()) > MAX_NAME_LEN {
        return Err(ErrorCode::NameTooLong);
    }
    if stored_len(description.as_str()) > MAX_DESCRIPTION_LEN {
        return Err(ErrorCode::DescriptionTooLong);
    }
    if stored_len(registration_number.as_str()) > MAX_REGISTRATION_LEN {
        return Err(ErrorCode::RegistrationTooLong);
    }
    if stored_len(manufacturer.as_str()) > MAX_MANUFACTURER_LEN {
        return Err(ErrorCode::ManufacturerTooLong);
    }
    if !(year_built > MIN_YEAR_EXCLUSIVE && year_built <= MAX_YEAR) {
        return Err(ErrorCode::InvalidYear);
    }
    if !(length > 0 && length <= MAX_LENGTH_FEET) {
        return Err(ErrorCode::InvalidLength);
    }
    if !(price > 0) {
        return Err(ErrorCode::InvalidAmount);
    }
    let fee: u64 = match compute_fee(price, ctx.config.fee_bps) {
        Ok(fee) => fee,
        Err(error) => { return Err(error); },
    };
    proof {
        same_address_is_same_bytes(ctx.treasury_account, ctx.config.treasury);
    }
    if !(ctx.treasury_account == ctx.config.treasury) {
        return Err(ErrorCode::InvalidTreasury);
    }
    let mut events: Vec<Event> = Vec::new();
    let fee_transfer = if fee > 0 {
        events.push(
            Event::FeeCollected(FeeCollected { mint: ctx.mint, payer: ctx.owner, amount: fee }),
        );
        Some(CurrencyTransfer { from: ctx.owner, to: ctx.treasury_account, amount: fee })
    } else {
        None
    };
    let issue = IssueUnit {
        mint: ctx.mint,
        to: ctx.owner,
        authority: ctx.mint,
        amount: 1,
        signer_seeds: build_mint_signer_seeds(
            &ctx.owner,
            registration_number.as_str(),
            ctx.bumps.mint,
        ),
    };
    let boat_nft = BoatNFT {
        bump: ctx.bumps.boat_nft,
        mint: ctx.mint,
        owner: ctx.owner,
        name: name.clone(),
        boat_type: boat_type.clone(),
        description,
        registration_number: registration_number.clone(),
        year_built,
        length,
        manufacturer,
        last_maintenance_date: ctx.unix_timestamp,
        is_for_sale: false,
        created_at: ctx.unix_timestamp,
    };
    events.push(
        Event::BoatMinted(
            BoatMinted {
                mint: ctx.mint,
                owner: ctx.owner,
                name,
                boat_type,
                registration_number,
                price,
                fee,
            },
        ),
    );
    let minted = Minted { boat_nft, fee_transfer, issue, events };
    assert(minted@.events =~= mint_events(*ctx, name@, boat_type@, registration_number@, price));
    Ok(minted)
}

/// What an update of a boat's metadata works on.
#[derive(Debug, PartialEq, Eq)]
pub struct UpdateBoatMetadata {
    /// The protocol's configuration.
    pub config: Config,
    /// The boat's record, which the update overwrites in place.
    pub boat_nft: BoatNFT,
    /// The holding of ownership units that the caller presents.
    pub owner_token_account: TokenAccount,
    /// The caller.
    pub owner: Address,
}

/// A text that may be absent, as a mathematical value.
pub open spec fn text_view(text: Option<String>) -> Option<Seq<char>> {
    match text {
        Some(text) => Some(text@),
        None => None,
    }
}

/// Why an update is refused, if it is: the first of the checks, in this
/// order, that the inputs fail. The protocol must be in operation; the
/// caller must be the record's owner; the holding must be of the record's
/// ownership unit, must be the caller's, and must be of exactly one unit; a
/// new description must fit.
pub open spec fn update_rejection(
    config: Config,
    boat_nft: BoatNFTView,
    holding: TokenAccount,
    caller: Address,
    new_description: Option<Seq<char>>,
) -> Option<ErrorCode> {
    if !config.operational() {
        Some(ErrorCode::ConfigInactive)
    } else if boat_nft.owner != caller {
        Some(ErrorCode::Unauthorized)
    } else if holding.mint != boat_nft.mint {
        Some(ErrorCode::InvalidMint)
    } else if holding.owner != caller {
        Some(ErrorCode::Unauthorized)
    } else if holding.amount != 1 {
        Some(ErrorCode::InsufficientFunds)
    } else if new_description is Some && byte_len(new_description->0) > MAX_DESCRIPTION_LEN {
        Some(ErrorCode::DescriptionTooLong)
    } else {
        None
    }
}

/// The record after an update: each field for which a new value is given
/// holds it, and every other field is as it was.
pub open spec fn updated_record(
    boat_nft: BoatNFTView,
    new_description: Option<Seq<char>>,
    new_maintenance_date: Option<i64>,
    new_is_for_sale: Option<bool>,
) -> BoatNFTView {
    BoatNFTView {
        description: match new_description {
            Some(description) => description,
            None => boat_nft.description,
        },
        last_maintenance_date: match new_maintenance_date {
            Some(date) => date,
            None => boat_nft.last_maintenance_date,
        },
        is_for_sale: match new_is_for_sale {
            Some(flag) => flag,
            None => boat_nft.is_for_sale,
        },
        ..boat_nft
    }
}

/// The event that tells of one overwritten field.
pub open spec fn metadata_event(
    mint: Address,
    field: Seq<char>,
    new_value: Seq<char>,
) -> EventView {
    EventView::MetadataUpdated(MetadataUpdatedView { mint, field, new_value })
}

/// The events of an update: one for each field for which a new value is
/// given, with the new value as text; the description first, then the
/// maintenance date, then the sale flag.
pub open spec fn update_events(
    mint: Address,
    new_description: Option<Seq<char>>,
    new_maintenance_date: Option<i64>,
    new_is_for_sale: Option<bool>,
) -> Seq<EventView> {
    let for_description = match new_description {
        Some(description) => seq![metadata_event(mint, "description"@, description)],
        None => seq![],
    };
    let for_date = match new_maintenance_date {
        Some(date) => seq![metadata_event(mint, "last_maintenance_date"@, decimal(date as int))],
        None => seq![],
    };
    let for_flag = match new_is_for_sale {
        Some(flag) => seq![metadata_event(mint, "is_for_sale"@, bool_text(flag))],
        None => seq![],
    };
    for_description + for_date + for_flag
}

/// What an update comes to: the reason for which it is refused, or the new
/// record and the events.
pub open spec fn update_outcome(
    config: Config,
    boat_nft: BoatNFTView,
    holding: TokenAccount,
    caller: Address,
    new_description: Option<Seq<char>>,
    new_maintenance_date: Option<i64>,
    new_is_for_sale: Option<bool>,
) -> Result<(BoatNFTView, Seq<EventView>), ErrorCode> {
    match update_rejection(config, boat_nft, holding, caller, new_description) {
        Some(error) => Err(error),
        None => Ok(
            (
                updated_record(boat_nft, new_description, new_maintenance_date, new_is_for_sale),
                update_events(
                    boat_nft.mint,
                    new_description,
                    new_maintenance_date,
                    new_is_for_sale,
                ),
            ),
        ),
    }
}

/// While the protocol is in operation, an update by anyone but the record's
/// owner is refused as unauthorized, whatever holding the caller presents and
/// whatever the new values are.
pub proof fn law_update_by_non_owner_is_unauthorized(
    config: Config,
    boat_nft: BoatNFTView,
    holding: TokenAccount,
    caller: Address,
    new_description: Option<Seq<char>>,
    new_maintenance_date: Option<i64>,
    new_is_for_sale: Option<bool>,
)
    requires
        config.operational(),
        boat_nft.owner != caller,
    ensures
        update_outcome(
            config,
            boat_nft,
            holding,
            caller,
            new_description,
            new_maintenance_date,
            new_is_for_sale,
        ) == Err::<(BoatNFTView, Seq<EventView>), ErrorCode>(ErrorCode::Unauthorized),
{
}

/// An update goes through only for the record's owner, who presents a
/// holding of their own of exactly one unit of the boat's ownership unit,
/// and only while the protocol is in operation.
pub proof fn law_only_the_owner_updates(
    config: Config,
    boat_nft: BoatNFTView,
    holding: TokenAccount,
    caller: Address,
    new_description: Option<Seq<char>>,
    new_maintenance_date: Option<i64>,
    new_is_for_sale: Option<bool>,
)
    requires
        update_outcome(
            config,
            boat_nft,
            holding,
            caller,
            new_description,
            new_maintenance_date,
            new_is_for_sale,
        ) is Ok,
    ensures
        config.operational(),
        caller == boat_nft.owner,
        holding == (TokenAccount { mint: boat_nft.mint, owner: caller, amount: 1 }),
{
}

/// Overwrites the description, the last maintenance date and the sale flag
/// of a boat's record, each only where a new value is given, and returns one
/// event for each field overwritten.
///
/// Only the record's owner, holding the boat's single ownership unit, may do
/// so, and only while the protocol is in operation. A refused update leaves
/// the context as it was.
pub fn update_boat_metadata(
    ctx: &mut UpdateBoatMetadata,
    new_description: Option<String>,
    new_maintenance_date: Option<i64>,
    new_is_for_sale: Option<bool>,
) -> (outcome: Result<Vec<Event>, ErrorCode>)
    ensures
        final(ctx).config == old(ctx).config,
        final(ctx).owner_token_account == old(ctx).owner_token_account,
        final(ctx).owner == old(ctx).owner,
        match outcome {
            Ok(events) => update_outcome(
                old(ctx).config,
                old(ctx).boat_nft@,
                old(ctx).owner_token_account,
                old(ctx).owner,
                text_view(new_description),
                new_maintenance_date,
                new_is_for_sale,
            ) == Ok::<(BoatNFTView, Seq<EventView>), ErrorCode>(
                (final(ctx).boat_nft@, events_view(events@)),
            ),
            Err(error) => {
                &&& update_outcome(
                    old(ctx).config,
                    old(ctx).boat_nft@,
                    old(ctx).owner_token_account,
                    old(ctx).owner,
                    text_view(new_description),
                    new_maintenance_date,
                    new_is_for_sale,
                ) == Err::<(BoatNFTView, Seq<EventView>), ErrorCode>(error)
                &&& *final(ctx) == *old(ctx)
            },
        },
        old(ctx).boat_nft@.well_formed() ==> final(ctx).boat_nft@.well_formed(),
{
    proof {
        same_address_is_same_bytes(ctx.boat_nft.owner, ctx.owner);
        same_address_is_same_bytes(ctx.owner_token_account.mint, ctx.boat_nft.mint);
        same_address_is_same_bytes(ctx.owner_token_account.owner, ctx.owner);
    }
    if !ctx.config.is_operational() {
        return Err(ErrorCode::ConfigInactive);
    }
    if !(ctx.boat_nft.owner == ctx.owner) {
        return Err(ErrorCode::Unauthorized);
    }
    if !(ctx.owner_token_account.mint == ctx.boat_nft.mint) {
        return Err(ErrorCode::InvalidMint);
    }
    if !(ctx.owner_token_account.owner == ctx.owner) {
        return Err(ErrorCode::Unauthorized);
    }
    if ctx.owner_token_account.amount != 1 {
        return Err(ErrorCode::InsufficientFunds);
    }
    if let Some(description) = &new_description {
        if stored_len(description.as_str()) > MAX_DESCRIPTION_LEN {
            return Err(ErrorCode::DescriptionTooLong);
        }
    }
    let mint = ctx.boat_nft.mint;
    let mut events: Vec<Event> = Vec::new();
    if let Some(description) = new_description {
        ctx.boat_nft.description = description.clone();
        events.push(
            Event::MetadataUpdated(
                MetadataUpdated {
                    mint,
                    field: String::from_str("description"),
                    new_value: description,
                },
            ),
        );
    }
    if let Some(maintenance_date) = new_maintenance_date {
        ctx.boat_nft.last_maintenance_date = maintenance_date;
        events.push(
            Event::MetadataUpdated(
                MetadataUpdated {
                    mint,
                    field: String::from_str("last_maintenance_date"),
                    new_value: i64_to_text(maintenance_date),
                },
            ),
        );
    }
    if let Some(is_for_sale) = new_is_for_sale {
        ctx.boat_nft.is_for_sale = is_for_sale;
        events.push(
            Event::MetadataUpdated(
                MetadataUpdated {
                    mint,
                    field: String::from_str("is_for_sale"),
                    new_value: bool_to_text(is_for_sale),
                },
            ),
        );
    }
    assert(events_view(events@) =~= update_events(
        mint,
        text_view(new_description),
        new_maintenance_date,
        new_is_for_sale,
    ));
    Ok(events)
}

/// What a transfer of ownership works on.
#[derive(Debug, PartialEq, Eq)]
pub struct TransferBoatOwnership {
    /// The protocol's configuration.
    pub config: Config,
    /// The boat's record, which the transfer overwrites in place.
    pub boat_nft: BoatNFT,
    /// The ownership unit that is to change hands.
    pub mint: Address,
    /// The holding from which the unit goes, as the unit ledger has it.
    pub from_token_account: TokenAccount,
    /// The caller, who hands the boat on.
    pub from_owner: Address,
    /// Who receives the boat.
    pub to_owner: Address,
}

/// What a transfer that went through leaves to be done and to be told.
#[derive(Debug, PartialEq, Eq)]
pub struct Transferred {
    /// The single ownership unit to move to the new owner.
    pub unit_transfer: TransferUnit,
    /// The events, in the order of their emission.
    pub events: Vec<Event>,
}

/// `Transferred` as a mathematical value.
pub struct TransferredView {
    pub unit_transfer: TransferUnit,
    pub events: Seq<EventView>,
}

impl View for Transferred {
    type V = TransferredView;

    open spec fn view(&self) -> TransferredView {
        TransferredView { unit_transfer: self.unit_transfer, events: events_view(self.events@) }
    }
}

/// Why a transfer is refused, if it is: the first of the checks, in this
/// order, that the inputs fail. The protocol must be in operation; the
/// holding must be the caller's, and must be of exactly one unit; the holding
/// and the record must both be of the ownership unit that is to change hands.
pub open spec fn transfer_rejection(
    config: Config,
    boat_nft: BoatNFTView,
    mint: Address,
    holding: TokenAccount,
    caller: Address,
) -> Option<ErrorCode> {
    if !config.operational() {
        Some(ErrorCode::ConfigInactive)
    } else if holding.owner != caller {
        Some(ErrorCode::Unauthorized)
    } else if holding.amount != 1 {
        Some(ErrorCode::InsufficientFunds)
    } else if holding.mint != mint {
        Some(ErrorCode::InvalidMint)
    } else if boat_nft.mint != mint {
        Some(ErrorCode::InvalidMint)
    } else {
        None
    }
}

/// The record after a transfer: the new owner holds it and it is not for
/// sale; every other field is as it was.
pub open spec fn transferred_record(boat_nft: BoatNFTView, to_owner: Address) -> BoatNFTView {
    BoatNFTView { owner: to_owner, is_for_sale: false, ..boat_nft }
}

/// What a transfer comes to: the reason for which it is refused, or the new
/// record, the unit to move and the event.
pub open spec fn transfer_outcome(
    config: Config,
    boat_nft: BoatNFTView,
    mint: Address,
    holding: TokenAccount,
    from_owner: Address,
    to_owner: Address,
) -> Result<(BoatNFTView, TransferredView), ErrorCode> {
    match transfer_rejection(config, boat_nft, mint, holding, from_owner) {
        Some(error) => Err(error),
        None => Ok(
            (
                transferred_record(boat_nft, to_owner),
                TransferredView {
                    unit_transfer: TransferUnit {
                        mint,
                        from: from_owner,
                        to: to_owner,
                        authority: from_owner,
                        amount: 1,
                    },
                    events: seq![
                        EventView::OwnershipTransferred(
                            OwnershipTransferred { mint, from: from_owner, to: to_owner },
                        ),
                    ],
                },
            ),
        ),
    }
}

/// A transfer goes through only while the protocol is in operation, and only
/// for a caller who presents a holding of their own of exactly one unit of
/// the ownership unit to which the record belongs.
pub proof fn law_only_the_holder_transfers(
    config: Config,
    boat_nft: BoatNFTView,
    mint: Address,
    holding: TokenAccount,
    from_owner: Address,
    to_owner: Address,
)
    requires
        transfer_outcome(config, boat_nft, mint, holding, from_owner, to_owner) is Ok,
    ensures
        config.operational(),
        holding == (TokenAccount { mint: boat_nft.mint, owner: from_owner, amount: 1 }),
        mint == boat_nft.mint,
{
}

/// While the protocol is inactive or paused no operation changes anything:
/// a registration, an update and a transfer are each refused as inactive,
/// whoever calls, whatever they hold and whatever they ask for.
pub proof fn law_no_operation_while_not_in_operation(
    mint_ctx: MintBoatNft,
    name: Seq<char>,
    boat_type: BoatTypeView,
    description: Seq<char>,
    registration_number: Seq<char>,
    year_built: u16,
    length: u32,
    manufacturer: Seq<char>,
    price: u64,
    config: Config,
    boat_nft: BoatNFTView,
    holding: TokenAccount,
    caller: Address,
    new_description: Option<Seq<char>>,
    new_maintenance_date: Option<i64>,
    new_is_for_sale: Option<bool>,
    mint: Address,
    to_owner: Address,
)
    requires
        !mint_ctx.config.operational(),
        !config.operational(),
    ensures
        mint_outcome(
            mint_ctx,
            name,
            boat_type,
            description,
            registration_number,
            year_built,
            length,
            manufacturer,
            price,
        ) == Err::<MintedView, ErrorCode>(ErrorCode::ConfigInactive),
        update_outcome(
            config,
            boat_nft,
            holding,
            caller,
            new_description,
            new_maintenance_date,
            new_is_for_sale,
        ) == Err::<(BoatNFTView, Seq<EventView>), ErrorCode>(ErrorCode::ConfigInactive),
        transfer_outcome(config, boat_nft, mint, holding, caller, to_owner) == Err::<
            (BoatNFTView, TransferredView),
            ErrorCode,
        >(ErrorCode::ConfigInactive),
{
}

/// Hands a boat on: the caller, who holds the boat's single ownership unit,
/// gives it to a new owner. The record names the new owner and is no longer
/// for sale. No fee is charged.
///
/// The protocol must be in operation. The context is taken as it comes: that
/// the holding is the caller's, of exactly one unit, and that holding and
/// record are both of the unit that is to change hands, is tested here and
/// not left to whoever built the context. What is not tested, because it
/// cannot be from these values, is that the holding's amount is what the
/// unit ledger says: the host must present the ledger's own holding. A
/// refused transfer leaves the context as it was.
pub fn transfer_boat_ownership(ctx: &mut TransferBoatOwnership) -> (outcome: Result<
    Transferred,
    ErrorCode,
>)
    ensures
        final(ctx).config == old(ctx).config,
        final(ctx).mint == old(ctx).mint,
        final(ctx).from_token_account == old(ctx).from_token_account,
        final(ctx).from_owner == old(ctx).from_owner,
        final(ctx).to_owner == old(ctx).to_owner,
        match outcome {
            Ok(transferred) => transfer_outcome(
                old(ctx).config,
                old(ctx).boat_nft@,
                old(ctx).mint,
                old(ctx).from_token_account,
                old(ctx).from_owner,
                old(ctx).to_owner,
            ) == Ok::<(BoatNFTView, TransferredView), ErrorCode>(
                (final(ctx).boat_nft@, transferred@),
            ),
            Err(error) => {
                &&& transfer_outcome(
                    old(ctx).config,
                    old(ctx).boat_nft@,
                    old(ctx).mint,
                    old(ctx).from_token_account,
                    old(ctx).from_owner,
                    old(ctx).to_owner,
                ) == Err::<(BoatNFTView, TransferredView), ErrorCode>(error)
                &&& *final(ctx) == *old(ctx)
            },
        },
        old(ctx).boat_nft@.well_formed() ==> final(ctx).boat_nft@.well_formed(),
{
    proof {
        same_address_is_same_bytes(ctx.from_token_account.owner, ctx.from_owner);
        same_address_is_same_bytes(ctx.from_token_account.mint, ctx.mint);
        same_address_is_same_bytes(ctx.boat_nft.mint, ctx.mint);
    }
    if !ctx.config.is_operational() {
        return Err(ErrorCode::ConfigInactive);
    }
    if !(ctx.from_token_account.owner == ctx.from_owner) {
        return Err(ErrorCode::Unauthorized);
    }
    if ctx.from_token_account.amount != 1 {
        return Err(ErrorCode::InsufficientFunds);
    }
    if !(ctx.from_token_account.mint == ctx.mint) {
        return Err(ErrorCode::InvalidMint);
    }
    if !(ctx.boat_nft.mint == ctx.mint) {
        return Err(ErrorCode::InvalidMint);
    }
    ctx.boat_nft.owner = ctx.to_owner;
    ctx.boat_nft.is_for_sale = false;
    let mut events: Vec<Event> = Vec::new();
    events.push(
        Event::OwnershipTransferred(
            OwnershipTransferred { mint: ctx.mint, from: ctx.from_owner, to: ctx.to_owner },
        ),
    );
    let transferred = Transferred {
        unit_transfer: TransferUnit {
            mint: ctx.mint,
            from: ctx.from_owner,
            to: ctx.to_owner,
            authority: ctx.from_owner,
            amount: 1,
        },
        events,
    };
    assert(transferred@.events =~= seq![
        EventView::OwnershipTransferred(
            OwnershipTransferred { mint: ctx.mint, from: ctx.from_owner, to: ctx.to_owner },
        ),
    ]);
    Ok(transferred)
}

} // verus!
