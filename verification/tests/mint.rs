use boat_registry::address::Address;
use boat_registry::effects::{CurrencyTransfer, IssueUnit};
use boat_registry::error::ErrorCode;
use boat_registry::events::{BoatMinted, Event, FeeCollected};
use boat_registry::instructions::{
    initialize_config, mint_boat_nft, InitializeConfig, InitializeConfigBumps, MintBoatNft,
    MintBoatNftBumps, Minted,
};
use boat_registry::state::{BoatNFT, BoatType, Config};

fn address(fill: u8) -> Address {
    Address::new([fill; 32])
}

fn config(fee_bps: u16) -> Config {
    Config {
        bump: 250,
        authority: address(1),
        is_active: true,
        is_paused: false,
        fee_bps,
        treasury: address(9),
        version: 1,
    }
}

fn context(fee_bps: u16) -> MintBoatNft {
    MintBoatNft {
        config: config(fee_bps),
        boat_nft: address(5),
        mint: address(4),
        owner: address(3),
        treasury_account: address(9),
        bumps: MintBoatNftBumps { boat_nft: 254, mint: 253 },
        unix_timestamp: 1_700_000_000,
    }
}

fn text(len: usize) -> String {
    "x".repeat(len)
}

/// A registration in which only these inputs differ from a valid one.
fn register(
    ctx: &MintBoatNft,
    name: usize,
    description: usize,
    registration_number: usize,
    manufacturer: usize,
    year_built: u16,
    length: u32,
    price: u64,
) -> Result<Minted, ErrorCode> {
    mint_boat_nft(
        ctx,
        text(name),
        BoatType::Yacht,
        text(description),
        text(registration_number),
        year_built,
        length,
        text(manufacturer),
        price,
    )
}

fn register_valid(ctx: &MintBoatNft) -> Result<Minted, ErrorCode> {
    mint_boat_nft(
        ctx,
        "Ocean Master 45".to_string(),
        BoatType::Yacht,
        "2021 45ft luxury yacht".to_string(),
        "PL-YT-2021-001".to_string(),
        2021,
        45,
        "Beneteau".to_string(),
        1_000_000_000,
    )
}

#[test]
fn configuration_is_set_up_active_and_unpaused() {
    let ctx = InitializeConfig {
        config: address(7),
        authority: address(1),
        bumps: InitializeConfigBumps { config: 251 },
    };
    assert_eq!(
        initialize_config(&ctx, 250, address(9)),
        Config {
            bump: 251,
            authority: address(1),
            is_active: true,
            is_paused: false,
            fee_bps: 250,
            treasury: address(9),
            version: 1,
        }
    );
    assert!(initialize_config(&ctx, 0, address(9)).is_operational());
    assert_eq!(initialize_config(&ctx, u16::MAX, address(1)).fee_bps, u16::MAX);
}

#[test]
fn storage_sizes_are_the_sums_of_their_fields() {
    assert_eq!(Config::LEN, 70);
    assert_eq!(BoatNFT::LEN, 469);
}

#[test]
fn registration_end_to_end_at_two_and_a_half_percent() {
    let ctx = context(250);
    let minted = register_valid(&ctx).unwrap();
    assert_eq!(
        minted.fee_transfer,
        Some(CurrencyTransfer { from: address(3), to: address(9), amount: 25_000_000 })
    );
    assert_eq!(
        minted.boat_nft,
        BoatNFT {
            bump: 254,
            mint: address(4),
            owner: address(3),
            name: "Ocean Master 45".to_string(),
            boat_type: BoatType::Yacht,
            description: "2021 45ft luxury yacht".to_string(),
            registration_number: "PL-YT-2021-001".to_string(),
            year_built: 2021,
            length: 45,
            manufacturer: "Beneteau".to_string(),
            last_maintenance_date: 1_700_000_000,
            is_for_sale: false,
            created_at: 1_700_000_000,
        }
    );
    assert_eq!(
        minted.events,
        vec![
            Event::FeeCollected(FeeCollected {
                mint: address(4),
                payer: address(3),
                amount: 25_000_000,
            }),
            Event::BoatMinted(BoatMinted {
                mint: address(4),
                owner: address(3),
                name: "Ocean Master 45".to_string(),
                boat_type: BoatType::Yacht,
                registration_number: "PL-YT-2021-001".to_string(),
                price: 1_000_000_000,
                fee: 25_000_000,
            }),
        ]
    );
}

#[test]
fn registration_issues_one_unit_to_the_caller() {
    let minted = register_valid(&context(250)).unwrap();
    assert_eq!(
        minted.issue,
        IssueUnit {
            mint: address(4),
            to: address(3),
            authority: address(4),
            amount: 1,
            signer_seeds: vec![
                b"mint".to_vec(),
                vec![3u8; 32],
                b"PL-YT-2021-001".to_vec(),
                vec![253u8],
            ],
        }
    );
}

#[test]
fn registration_at_rate_zero_moves_no_currency() {
    let minted = register_valid(&context(0)).unwrap();
    assert_eq!(minted.fee_transfer, None);
    assert_eq!(minted.boat_nft.owner, address(3));
    assert!(!minted.boat_nft.is_for_sale);
    assert_eq!(
        minted.events,
        vec![Event::BoatMinted(BoatMinted {
            mint: address(4),
            owner: address(3),
            name: "Ocean Master 45".to_string(),
            boat_type: BoatType::Yacht,
            registration_number: "PL-YT-2021-001".to_string(),
            price: 1_000_000_000,
            fee: 0,
        })]
    );
}

#[test]
fn registration_with_a_fee_that_rounds_to_zero_moves_no_currency() {
    let minted = register(&context(250), 5, 5, 5, 5, 2000, 30, 39).unwrap();
    assert_eq!(minted.fee_transfer, None);
    assert_eq!(minted.events.len(), 1);
    let minted = register(&context(250), 5, 5, 5, 5, 2000, 30, 40).unwrap();
    assert_eq!(
        minted.fee_transfer,
        Some(CurrencyTransfer { from: address(3), to: address(9), amount: 1 })
    );
    assert_eq!(minted.events.len(), 2);
}

#[test]
fn registration_keeps_the_kind_of_boat() {
    let kinds = [
        BoatType::Sailboat,
        BoatType::Motorboat,
        BoatType::Yacht,
        BoatType::Catamaran,
        BoatType::Other("Trimaran".to_string()),
    ];
    for kind in kinds {
        let minted = mint_boat_nft(
            &context(0),
            text(5),
            kind.clone(),
            text(5),
            text(5),
            2000,
            30,
            text(5),
            1,
        )
        .unwrap();
        assert_eq!(minted.boat_nft.boat_type, kind);
        assert_eq!(minted.events.len(), 1);
        match &minted.events[0] {
            Event::BoatMinted(event) => assert_eq!(event.boat_type, kind),
            other => panic!("unexpected event {:?}", other),
        }
    }
}

#[test]
fn registration_is_refused_while_the_protocol_is_not_in_operation() {
    let mut ctx = context(250);
    ctx.config.is_active = false;
    assert_eq!(register_valid(&ctx), Err(ErrorCode::ConfigInactive));
    ctx.config.is_active = true;
    ctx.config.is_paused = true;
    assert_eq!(register_valid(&ctx), Err(ErrorCode::ConfigInactive));
    ctx.config.is_active = false;
    assert_eq!(register_valid(&ctx), Err(ErrorCode::ConfigInactive));
}

#[test]
fn registration_bounds_the_texts_by_their_bytes() {
    let ctx = context(250);
    assert!(register(&ctx, 50, 200, 30, 50, 2000, 30, 1).is_ok());
    assert!(register(&ctx, 0, 0, 0, 0, 2000, 30, 1).is_ok());
    assert_eq!(register(&ctx, 51, 5, 5, 5, 2000, 30, 1), Err(ErrorCode::NameTooLong));
    assert_eq!(register(&ctx, 5, 201, 5, 5, 2000, 30, 1), Err(ErrorCode::DescriptionTooLong));
    assert_eq!(register(&ctx, 5, 5, 31, 5, 2000, 30, 1), Err(ErrorCode::RegistrationTooLong));
    assert_eq!(register(&ctx, 5, 5, 5, 51, 2000, 30, 1), Err(ErrorCode::ManufacturerTooLong));
}

#[test]
fn registration_counts_bytes_and_not_characters() {
    let ctx = context(250);
    let twenty_five = "é".repeat(25);
    let twenty_six = "é".repeat(26);
    assert_eq!(twenty_six.chars().count(), 26);
    let ok = mint_boat_nft(
        &ctx,
        twenty_five,
        BoatType::Sailboat,
        text(5),
        text(5),
        2000,
        30,
        text(5),
        1,
    );
    assert!(ok.is_ok());
    let refused = mint_boat_nft(
        &ctx,
        twenty_six,
        BoatType::Sailboat,
        text(5),
        text(5),
        2000,
        30,
        text(5),
        1,
    );
    assert_eq!(refused, Err(ErrorCode::NameTooLong));
}

#[test]
fn registration_bounds_the_year() {
    let ctx = context(250);
    assert_eq!(register(&ctx, 5, 5, 5, 5, 1900, 30, 1), Err(ErrorCode::InvalidYear));
    assert!(register(&ctx, 5, 5, 5, 5, 1901, 30, 1).is_ok());
    assert!(register(&ctx, 5, 5, 5, 5, 2030, 30, 1).is_ok());
    assert_eq!(register(&ctx, 5, 5, 5, 5, 2031, 30, 1), Err(ErrorCode::InvalidYear));
    assert_eq!(register(&ctx, 5, 5, 5, 5, 0, 30, 1), Err(ErrorCode::InvalidYear));
    assert_eq!(register(&ctx, 5, 5, 5, 5, u16::MAX, 30, 1), Err(ErrorCode::InvalidYear));
}

#[test]
fn registration_bounds_the_length() {
    let ctx = context(250);
    assert_eq!(register(&ctx, 5, 5, 5, 5, 2000, 0, 1), Err(ErrorCode::InvalidLength));
    assert!(register(&ctx, 5, 5, 5, 5, 2000, 1, 1).is_ok());
    assert!(register(&ctx, 5, 5, 5, 5, 2000, 1000, 1).is_ok());
    assert_eq!(register(&ctx, 5, 5, 5, 5, 2000, 1001, 1), Err(ErrorCode::InvalidLength));
    assert_eq!(register(&ctx, 5, 5, 5, 5, 2000, u32::MAX, 1), Err(ErrorCode::InvalidLength));
}

#[test]
fn registration_needs_a_price() {
    let ctx = context(250);
    assert_eq!(register(&ctx, 5, 5, 5, 5, 2000, 30, 0), Err(ErrorCode::InvalidAmount));
    assert!(register(&ctx, 5, 5, 5, 5, 2000, 30, 1).is_ok());
    assert!(register(&ctx, 5, 5, 5, 5, 2000, 30, u64::MAX).is_ok());
}

#[test]
fn registration_needs_the_configured_treasury() {
    let mut ctx = context(250);
    ctx.treasury_account = address(8);
    assert_eq!(register_valid(&ctx), Err(ErrorCode::InvalidTreasury));
    let mut bytes = [9u8; 32];
    bytes[31] = 0;
    ctx.treasury_account = Address::new(bytes);
    assert_eq!(register_valid(&ctx), Err(ErrorCode::InvalidTreasury));
}

#[test]
fn registration_reports_the_first_check_that_fails() {
    let mut ctx = context(250);
    ctx.treasury_account = address(8);
    assert_eq!(register(&ctx, 5, 5, 5, 5, 2000, 30, 0), Err(ErrorCode::InvalidAmount));
    assert_eq!(register(&ctx, 5, 5, 5, 5, 2000, 0, 0), Err(ErrorCode::InvalidLength));
    assert_eq!(register(&ctx, 5, 5, 5, 5, 1900, 0, 0), Err(ErrorCode::InvalidYear));
    assert_eq!(register(&ctx, 5, 5, 5, 51, 1900, 0, 0), Err(ErrorCode::ManufacturerTooLong));
    assert_eq!(register(&ctx, 5, 5, 31, 51, 1900, 0, 0), Err(ErrorCode::RegistrationTooLong));
    assert_eq!(register(&ctx, 5, 201, 31, 51, 1900, 0, 0), Err(ErrorCode::DescriptionTooLong));
    assert_eq!(register(&ctx, 51, 201, 31, 51, 1900, 0, 0), Err(ErrorCode::NameTooLong));
    ctx.config.is_paused = true;
    assert_eq!(register(&ctx, 51, 201, 31, 51, 1900, 0, 0), Err(ErrorCode::ConfigInactive));
}

#[test]
fn registration_charges_the_fee_on_the_price_and_moves_no_price() {
    let mut ctx = context(10_000);
    let minted = register(&ctx, 5, 5, 5, 5, 2000, 30, 777).unwrap();
    assert_eq!(minted.fee_transfer.map(|transfer| transfer.amount), Some(777));
    ctx.config.fee_bps = 1;
    let minted = register(&ctx, 5, 5, 5, 5, 2000, 30, 1_000_000).unwrap();
    assert_eq!(
        minted.fee_transfer,
        Some(CurrencyTransfer { from: address(3), to: address(9), amount: 100 })
    );
}

#[test]
fn second_registration_under_the_same_number_meets_the_first() {
    let program = address(42);
    let first =
        MintBoatNft::resolve(&program, config(250), address(3), address(9), "PL-1", 100).unwrap();
    let second =
        MintBoatNft::resolve(&program, config(0), address(3), address(8), "PL-1", 200).unwrap();
    assert_eq!(second.mint, first.mint);
    assert_eq!(second.boat_nft, first.boat_nft);
    assert_eq!(second.bumps, first.bumps);
    let other =
        MintBoatNft::resolve(&program, config(250), address(3), address(9), "PL-2", 100).unwrap();
    assert_ne!(other.mint, first.mint);
    assert_ne!(other.boat_nft, first.boat_nft);
    let stranger =
        MintBoatNft::resolve(&program, config(250), address(6), address(9), "PL-1", 100).unwrap();
    assert_ne!(stranger.mint, first.mint);
    assert_ne!(stranger.boat_nft, first.boat_nft);
}
