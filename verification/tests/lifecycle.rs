use gigabrain_burn::{
    initialize_burn_config, update_burn_config, BurnConfig, ErrorCode, Identity,
    InitializeBurnConfig, UpdateBurnConfig, MAX_BURN_PERCENTAGE,
};

fn key(byte: u8) -> Identity {
    Identity::new([byte; 32])
}

fn creation() -> InitializeBurnConfig {
    InitializeBurnConfig { burn_config: None, token_mint: key(2), authority: key(1), bump: 7 }
}

fn record() -> BurnConfig {
    BurnConfig {
        authority: key(1),
        token_mint: key(2),
        profit_threshold: 1_000_000,
        burn_percentage: 500,
        min_burn_amount: 100,
        total_burned: 77,
        burn_count: 3,
        bump: 7,
    }
}

#[test]
fn creation_fails_exactly_above_the_maximum() {
    assert_eq!(MAX_BURN_PERCENTAGE, 10_000);
    for percentage in [0u16, 1, 9_999, 10_000] {
        let mut ctx = creation();
        assert_eq!(initialize_burn_config(&mut ctx, 5, percentage, 6), Ok(()));
        assert_eq!(ctx.burn_config.unwrap().burn_percentage, percentage);
    }
    for percentage in [10_001u16, 10_002, u16::MAX] {
        let mut ctx = creation();
        assert_eq!(
            initialize_burn_config(&mut ctx, 5, percentage, 6),
            Err(ErrorCode::InvalidBurnPercentage)
        );
        assert_eq!(ctx, creation());
    }
}

#[test]
fn creation_starts_the_counters_at_zero() {
    let mut ctx = creation();
    initialize_burn_config(&mut ctx, u64::MAX, 10_000, u64::MAX).unwrap();
    assert_eq!(
        ctx,
        InitializeBurnConfig {
            burn_config: Some(BurnConfig {
                authority: key(1),
                token_mint: key(2),
                profit_threshold: u64::MAX,
                burn_percentage: 10_000,
                min_burn_amount: u64::MAX,
                total_burned: 0,
                burn_count: 0,
                bump: 7,
            }),
            token_mint: key(2),
            authority: key(1),
            bump: 7,
        }
    );
}

#[test]
fn a_record_is_created_once() {
    let mut ctx = creation();
    initialize_burn_config(&mut ctx, 1, 2, 3).unwrap();
    let created = ctx;
    assert_eq!(initialize_burn_config(&mut ctx, 4, 5, 6), Err(ErrorCode::ConfigAlreadyExists));
    assert_eq!(ctx, created);
    // The record that is there is named before a bad percentage.
    assert_eq!(
        initialize_burn_config(&mut ctx, 4, 10_001, 6),
        Err(ErrorCode::ConfigAlreadyExists)
    );
    assert_eq!(ctx, created);

    let mut taken = InitializeBurnConfig { burn_config: Some(record()), ..creation() };
    assert_eq!(initialize_burn_config(&mut taken, 4, 5, 6), Err(ErrorCode::ConfigAlreadyExists));
    assert_eq!(taken.burn_config, Some(record()));
}

#[test]
fn update_without_settings_changes_nothing() {
    let mut ctx = UpdateBurnConfig { burn_config: record(), authority: key(1) };
    assert_eq!(update_burn_config(&mut ctx, None, None, None), Ok(()));
    assert_eq!(ctx, UpdateBurnConfig { burn_config: record(), authority: key(1) });
}

#[test]
fn update_replaces_only_what_is_given() {
    let mut ctx = UpdateBurnConfig { burn_config: record(), authority: key(1) };
    assert_eq!(update_burn_config(&mut ctx, Some(5), None, None), Ok(()));
    assert_eq!(ctx.burn_config, BurnConfig { profit_threshold: 5, ..record() });

    let mut ctx = UpdateBurnConfig { burn_config: record(), authority: key(1) };
    assert_eq!(update_burn_config(&mut ctx, None, Some(10_000), None), Ok(()));
    assert_eq!(ctx.burn_config, BurnConfig { burn_percentage: 10_000, ..record() });

    let mut ctx = UpdateBurnConfig { burn_config: record(), authority: key(1) };
    assert_eq!(update_burn_config(&mut ctx, None, None, Some(0)), Ok(()));
    assert_eq!(ctx.burn_config, BurnConfig { min_burn_amount: 0, ..record() });

    let mut ctx = UpdateBurnConfig { burn_config: record(), authority: key(1) };
    assert_eq!(update_burn_config(&mut ctx, Some(1), Some(2), Some(3)), Ok(()));
    assert_eq!(
        ctx.burn_config,
        BurnConfig { profit_threshold: 1, burn_percentage: 2, min_burn_amount: 3, ..record() }
    );
    assert_eq!(ctx.authority, key(1));
}

#[test]
fn update_fails_exactly_on_a_percentage_above_the_maximum() {
    for percentage in [0u16, 1, 9_999, 10_000] {
        let mut ctx = UpdateBurnConfig { burn_config: record(), authority: key(1) };
        assert_eq!(update_burn_config(&mut ctx, None, Some(percentage), None), Ok(()));
        assert_eq!(ctx.burn_config.burn_percentage, percentage);
    }
    for percentage in [10_001u16, 20_000, u16::MAX] {
        let mut ctx = UpdateBurnConfig { burn_config: record(), authority: key(1) };
        assert_eq!(
            update_burn_config(&mut ctx, Some(1), Some(percentage), Some(2)),
            Err(ErrorCode::InvalidBurnPercentage)
        );
        assert_eq!(ctx.burn_config, record());
    }
}

#[test]
fn update_is_for_the_authority_only() {
    let mut ctx = UpdateBurnConfig { burn_config: record(), authority: key(8) };
    assert_eq!(
        update_burn_config(&mut ctx, Some(1), Some(2), Some(3)),
        Err(ErrorCode::AuthorizationMismatch)
    );
    assert_eq!(ctx.burn_config, record());
    // The caller is judged before the percentage.
    assert_eq!(
        update_burn_config(&mut ctx, None, Some(10_001), None),
        Err(ErrorCode::AuthorizationMismatch)
    );
    assert_eq!(
        update_burn_config(&mut ctx, None, None, None),
        Err(ErrorCode::AuthorizationMismatch)
    );
    assert_eq!(ctx.burn_config, record());
}

#[test]
fn update_leaves_counters_and_address_alone() {
    let mut ctx = UpdateBurnConfig { burn_config: record(), authority: key(1) };
    update_burn_config(&mut ctx, Some(9), Some(9), Some(9)).unwrap();
    assert_eq!(ctx.burn_config.total_burned, 77);
    assert_eq!(ctx.burn_config.burn_count, 3);
    assert_eq!(ctx.burn_config.authority, key(1));
    assert_eq!(ctx.burn_config.token_mint, key(2));
    assert_eq!(ctx.burn_config.bump, 7);
}
