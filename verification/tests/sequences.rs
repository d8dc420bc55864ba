use gigabrain_burn::{
    execute_autonomous_burn, update_burn_config, BurnConfig, ErrorCode, ExecuteAutonomousBurn,
    Identity, LedgerError, PlaceholderVerifier, UpdateBurnConfig,
};

fn key(byte: u8) -> Identity {
    Identity::new([byte; 32])
}

fn record() -> BurnConfig {
    BurnConfig {
        authority: key(1),
        token_mint: key(2),
        profit_threshold: 1_000,
        burn_percentage: 2_500,
        min_burn_amount: 10,
        total_burned: 0,
        burn_count: 0,
        bump: 1,
    }
}

#[test]
fn counters_equal_the_sum_and_count_of_accepted_burns() {
    let mut ctx =
        ExecuteAutonomousBurn { burn_config: record(), token_account: key(3), authority: key(1) };
    // (amount, profit, ledger answer)
    let requests: [(u64, u64, Result<(), LedgerError>); 8] = [
        (250, 1_000, Ok(())),
        (249, 1_000, Ok(())),
        (9, 10, Ok(())),
        (1_000, 4_000, Ok(())),
        (5_000, 999, Ok(())),
        (700, 2_000, Err(LedgerError { code: 1 })),
        (10, 1_000, Ok(())),
        (12_345, 40_000, Ok(())),
    ];
    let mut sum = 0u64;
    let mut count = 0u64;
    for (amount, profit, ledger) in requests {
        let before = ctx.burn_config;
        let r =
            execute_autonomous_burn(&mut ctx, amount, "p", profit, &PlaceholderVerifier, ledger, 0);
        if r.is_ok() {
            sum += amount;
            count += 1;
            assert_eq!(ctx.burn_config.total_burned, before.total_burned + amount);
            assert_eq!(ctx.burn_config.burn_count, before.burn_count + 1);
        } else {
            assert_eq!(ctx.burn_config, before);
        }
        assert!(ctx.burn_config.total_burned >= before.total_burned);
        assert!(ctx.burn_config.burn_count >= before.burn_count);
    }
    assert_eq!(count, 3);
    assert_eq!(sum, 250 + 1_000 + 12_345);
    assert_eq!(ctx.burn_config.total_burned, sum);
    assert_eq!(ctx.burn_config.burn_count, count);
}

#[test]
fn update_between_burns_keeps_the_counters() {
    let mut ctx =
        ExecuteAutonomousBurn { burn_config: record(), token_account: key(3), authority: key(1) };
    execute_autonomous_burn(&mut ctx, 250, "p", 1_000, &PlaceholderVerifier, Ok(()), 0).unwrap();

    let mut update = UpdateBurnConfig { burn_config: ctx.burn_config, authority: key(1) };
    update_burn_config(&mut update, Some(0), Some(10_000), Some(0)).unwrap();
    assert_eq!(update.burn_config.total_burned, 250);
    assert_eq!(update.burn_config.burn_count, 1);

    ctx.burn_config = update.burn_config;
    assert_eq!(
        execute_autonomous_burn(&mut ctx, 250, "p", 1_000, &PlaceholderVerifier, Ok(()), 0),
        Err(ErrorCode::InsufficientBurnAmount)
    );
    execute_autonomous_burn(&mut ctx, 1_000, "p", 1_000, &PlaceholderVerifier, Ok(()), 0).unwrap();
    assert_eq!(ctx.burn_config.total_burned, 1_250);
    assert_eq!(ctx.burn_config.burn_count, 2);
}
