use boat_registry::address::Address;
use boat_registry::error::ErrorCode;
use boat_registry::events::{Event, MetadataUpdated};
use boat_registry::instructions::{update_boat_metadata, UpdateBoatMetadata};
use boat_registry::state::{BoatNFT, BoatType, Config, TokenAccount};

fn address(fill: u8) -> Address {
    Address::new([fill; 32])
}

fn record() -> BoatNFT {
    BoatNFT {
        bump: 254,
        mint: address(4),
        owner: address(3),
        name: "Ocean Master 45".to_string(),
        boat_type: BoatType::Other("Trimaran".to_string()),
        description: "2021 45ft luxury yacht".to_string(),
        registration_number: "PL-YT-2021-001".to_string(),
        year_built: 2021,
        length: 45,
        manufacturer: "Beneteau".to_string(),
        last_maintenance_date: 1_600_000_000,
        is_for_sale: false,
        created_at: 1_600_000_000,
    }
}

fn context() -> UpdateBoatMetadata {
    UpdateBoatMetadata {
        config: Config {
            bump: 250,
            authority: address(1),
            is_active: true,
            is_paused: false,
            fee_bps: 250,
            treasury: address(9),
            version: 1,
        },
        boat_nft: record(),
        owner_token_account: TokenAccount { mint: address(4), owner: address(3), amount: 1 },
        owner: address(3),
    }
}

fn updated(field: &str, new_value: &str) -> Event {
    Event::MetadataUpdated(MetadataUpdated {
        mint: address(4),
        field: field.to_string(),
        new_value: new_value.to_string(),
    })
}

#[test]
fn update_overwrites_all_three_fields_and_tells_of_each_in_order() {
    let mut ctx = context();
    let events = update_boat_metadata(
        &mut ctx,
        Some("Recently serviced yacht".to_string()),
        Some(1_672_531_200),
        Some(true),
    );
    assert_eq!(
        events,
        Ok(vec![
            updated("description", "Recently serviced yacht"),
            updated("last_maintenance_date", "1672531200"),
            updated("is_for_sale", "true"),
        ])
    );
    let mut expected = record();
    expected.description = "Recently serviced yacht".to_string();
    expected.last_maintenance_date = 1_672_531_200;
    expected.is_for_sale = true;
    assert_eq!(ctx.boat_nft, expected);
    let mut rest = context();
    rest.boat_nft = expected;
    assert_eq!(ctx, rest);
}

#[test]
fn update_with_nothing_new_changes_nothing_and_tells_nothing() {
    let mut ctx = context();
    assert_eq!(update_boat_metadata(&mut ctx, None, None, None), Ok(vec![]));
    assert_eq!(ctx, context());
}

#[test]
fn update_overwrites_only_the_description() {
    let mut ctx = context();
    let events = update_boat_metadata(&mut ctx, Some(String::new()), None, None);
    assert_eq!(events, Ok(vec![updated("description", "")]));
    let mut expected = record();
    expected.description = String::new();
    assert_eq!(ctx.boat_nft, expected);
}

#[test]
fn update_overwrites_only_the_maintenance_date() {
    let mut ctx = context();
    let events = update_boat_metadata(&mut ctx, None, Some(-86_400), None);
    assert_eq!(events, Ok(vec![updated("last_maintenance_date", "-86400")]));
    let mut expected = record();
    expected.last_maintenance_date = -86_400;
    assert_eq!(ctx.boat_nft, expected);
}

#[test]
fn update_overwrites_only_the_sale_flag() {
    let mut ctx = context();
    ctx.boat_nft.is_for_sale = true;
    let events = update_boat_metadata(&mut ctx, None, None, Some(false));
    assert_eq!(events, Ok(vec![updated("is_for_sale", "false")]));
    assert_eq!(ctx.boat_nft, record());
}

#[test]
fn update_tells_of_a_field_even_where_the_value_is_the_old_one() {
    let mut ctx = context();
    let events = update_boat_metadata(&mut ctx, None, Some(1_600_000_000), Some(false));
    assert_eq!(
        events,
        Ok(vec![
            updated("last_maintenance_date", "1600000000"),
            updated("is_for_sale", "false"),
        ])
    );
    assert_eq!(ctx, context());
}

#[test]
fn update_by_a_non_owner_is_unauthorized_and_changes_nothing() {
    let mut ctx = context();
    ctx.owner = address(6);
    let before = UpdateBoatMetadata { boat_nft: record(), ..ctx };
    let mut ctx = UpdateBoatMetadata { boat_nft: record(), ..before };
    let outcome =
        update_boat_metadata(&mut ctx, Some("mine now".to_string()), Some(1), Some(true));
    assert_eq!(outcome, Err(ErrorCode::Unauthorized));
    assert_eq!(ctx.boat_nft, record());
    assert_eq!(ctx.owner, address(6));
    assert_eq!(ctx.owner_token_account, context().owner_token_account);
    assert_eq!(ctx.config, context().config);
}

#[test]
fn update_by_a_non_owner_with_a_holding_of_their_own_is_unauthorized() {
    let mut ctx = context();
    ctx.owner = address(6);
    ctx.owner_token_account = TokenAccount { mint: address(4), owner: address(6), amount: 1 };
    assert_eq!(
        update_boat_metadata(&mut ctx, None, None, Some(true)),
        Err(ErrorCode::Unauthorized)
    );
    ctx.owner_token_account.amount = 0;
    assert_eq!(
        update_boat_metadata(&mut ctx, None, None, Some(true)),
        Err(ErrorCode::Unauthorized)
    );
    assert_eq!(ctx.boat_nft, record());
}

#[test]
fn update_is_refused_while_the_protocol_is_not_in_operation() {
    let mut ctx = context();
    ctx.config.is_paused = true;
    assert_eq!(
        update_boat_metadata(&mut ctx, None, None, Some(true)),
        Err(ErrorCode::ConfigInactive)
    );
    ctx.config.is_paused = false;
    ctx.config.is_active = false;
    assert_eq!(
        update_boat_metadata(&mut ctx, None, None, Some(true)),
        Err(ErrorCode::ConfigInactive)
    );
    ctx.owner = address(6);
    assert_eq!(
        update_boat_metadata(&mut ctx, None, None, Some(true)),
        Err(ErrorCode::ConfigInactive)
    );
    assert_eq!(ctx.boat_nft, record());
}

#[test]
fn update_needs_a_holding_of_the_boats_own_unit() {
    let mut ctx = context();
    ctx.owner_token_account.mint = address(5);
    assert_eq!(
        update_boat_metadata(&mut ctx, None, None, Some(true)),
        Err(ErrorCode::InvalidMint)
    );
    assert_eq!(ctx.boat_nft, record());
}

#[test]
fn update_needs_the_callers_own_holding() {
    let mut ctx = context();
    ctx.owner_token_account.owner = address(6);
    assert_eq!(
        update_boat_metadata(&mut ctx, None, None, Some(true)),
        Err(ErrorCode::Unauthorized)
    );
    assert_eq!(ctx.boat_nft, record());
}

#[test]
fn update_needs_a_holding_of_exactly_one_unit() {
    let mut ctx = context();
    ctx.owner_token_account.amount = 0;
    assert_eq!(
        update_boat_metadata(&mut ctx, None, None, Some(true)),
        Err(ErrorCode::InsufficientFunds)
    );
    ctx.owner_token_account.amount = 2;
    assert_eq!(
        update_boat_metadata(&mut ctx, None, None, Some(true)),
        Err(ErrorCode::InsufficientFunds)
    );
    assert_eq!(ctx.boat_nft, record());
}

#[test]
fn update_bounds_the_description_by_its_bytes() {
    let mut ctx = context();
    let outcome = update_boat_metadata(&mut ctx, Some("x".repeat(201)), Some(5), Some(true));
    assert_eq!(outcome, Err(ErrorCode::DescriptionTooLong));
    assert_eq!(ctx, context());
    let outcome = update_boat_metadata(&mut ctx, Some("é".repeat(101)), None, None);
    assert_eq!(outcome, Err(ErrorCode::DescriptionTooLong));
    assert_eq!(ctx, context());
    let outcome = update_boat_metadata(&mut ctx, Some("x".repeat(200)), None, None);
    assert_eq!(outcome, Ok(vec![updated("description", &"x".repeat(200))]));
    assert_eq!(ctx.boat_nft.description, "x".repeat(200));
}

#[test]
fn update_reports_the_first_check_that_fails() {
    let mut ctx = context();
    ctx.owner_token_account = TokenAccount { mint: address(5), owner: address(6), amount: 0 };
    let long = Some("x".repeat(201));
    assert_eq!(
        update_boat_metadata(&mut ctx, long.clone(), None, None),
        Err(ErrorCode::InvalidMint)
    );
    ctx.owner_token_account.mint = address(4);
    assert_eq!(
        update_boat_metadata(&mut ctx, long.clone(), None, None),
        Err(ErrorCode::Unauthorized)
    );
    ctx.owner_token_account.owner = address(3);
    assert_eq!(
        update_boat_metadata(&mut ctx, long.clone(), None, None),
        Err(ErrorCode::InsufficientFunds)
    );
    ctx.owner_token_account.amount = 1;
    assert_eq!(
        update_boat_metadata(&mut ctx, long.clone(), None, None),
        Err(ErrorCode::DescriptionTooLong)
    );
    ctx.boat_nft.owner = address(7);
    ctx.owner_token_account.mint = address(5);
    assert_eq!(update_boat_metadata(&mut ctx, long, None, None), Err(ErrorCode::Unauthorized));
}
