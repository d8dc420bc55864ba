use gigabrain_burn::{
    BurnConfig, BurnEvent, ConfigStore, ErrorCode, Identity, LedgerBurn, LedgerError,
    PaymentProofVerifier, PlaceholderVerifier,
};

struct RejectAll;

impl PaymentProofVerifier for RejectAll {
    fn verify(&self, _proof: &str) -> bool {
        false
    }
}

fn key(byte: u8) -> Identity {
    Identity::new([byte; 32])
}

/// Runs a request of `key(1)` for `key(2)` with a proof that is accepted.
fn burn(
    store: &mut ConfigStore,
    amount: u64,
    ledger: Result<(), LedgerError>,
) -> Result<BurnEvent, ErrorCode> {
    let verifier = PlaceholderVerifier;
    store.execute(&key(1), &key(2), &key(3), amount, "p", 2_000_000, &verifier, ledger, 1)
}

fn store_with_record() -> ConfigStore {
    let mut store = ConfigStore::new();
    store.create(&key(1), &key(2), 250, 1_000_000, 500, 100).unwrap();
    store
}

#[test]
fn empty_store_holds_nothing() {
    let store = ConfigStore::new();
    assert_eq!(store.read(&key(1), &key(2)), None);
}

#[test]
fn created_record_can_be_read() {
    let mut store = ConfigStore::new();
    let created = store.create(&key(1), &key(2), 250, 1_000_000, 500, 100).unwrap();
    let expected = BurnConfig {
        authority: key(1),
        token_mint: key(2),
        profit_threshold: 1_000_000,
        burn_percentage: 500,
        min_burn_amount: 100,
        total_burned: 0,
        burn_count: 0,
        bump: 250,
    };
    assert_eq!(created, expected);
    assert_eq!(store.read(&key(1), &key(2)), Some(expected));
    assert_eq!(store.read(&key(2), &key(1)), None);
    assert_eq!(store.read(&key(1), &key(3)), None);
}

#[test]
fn a_pair_is_created_once() {
    let mut store = store_with_record();
    assert_eq!(
        store.create(&key(1), &key(2), 250, 5, 5, 5),
        Err(ErrorCode::ConfigAlreadyExists)
    );
    // An existing record is named before a bad percentage.
    assert_eq!(
        store.create(&key(1), &key(2), 250, 5, 10_001, 5),
        Err(ErrorCode::ConfigAlreadyExists)
    );
    assert_eq!(store.read(&key(1), &key(2)).unwrap().profit_threshold, 1_000_000);
}

#[test]
fn refused_creation_stores_nothing() {
    let mut store = ConfigStore::new();
    assert_eq!(
        store.create(&key(1), &key(2), 250, 5, 10_001, 5),
        Err(ErrorCode::InvalidBurnPercentage)
    );
    assert_eq!(store.read(&key(1), &key(2)), None);
    assert!(store.create(&key(1), &key(2), 250, 5, 10_000, 5).is_ok());
}

#[test]
fn records_of_other_pairs_are_independent() {
    let mut store = store_with_record();
    store.create(&key(1), &key(3), 250, 10, 0, 0).unwrap();
    store.create(&key(4), &key(2), 250, 20, 10_000, 1).unwrap();

    store.update(&key(1), &key(3), Some(11), None, None).unwrap();
    store
        .execute(&key(4), &key(2), &key(9), 50, "p", 50, &PlaceholderVerifier, Ok(()), 1)
        .unwrap();

    let first = store.read(&key(1), &key(2)).unwrap();
    assert_eq!(first.profit_threshold, 1_000_000);
    assert_eq!(first.total_burned, 0);
    let second = store.read(&key(1), &key(3)).unwrap();
    assert_eq!(second.profit_threshold, 11);
    assert_eq!(second.burn_count, 0);
    let third = store.read(&key(4), &key(2)).unwrap();
    assert_eq!(third.total_burned, 50);
    assert_eq!(third.burn_count, 1);
}

#[test]
fn update_in_the_store() {
    let mut store = store_with_record();
    assert_eq!(
        store.update(&key(1), &key(2), None, Some(10_001), Some(1)),
        Err(ErrorCode::InvalidBurnPercentage)
    );
    assert_eq!(store.read(&key(1), &key(2)).unwrap().min_burn_amount, 100);
    assert_eq!(store.update(&key(1), &key(2), Some(3), Some(10_000), Some(1)), Ok(()));
    let record = store.read(&key(1), &key(2)).unwrap();
    assert_eq!(record.profit_threshold, 3);
    assert_eq!(record.burn_percentage, 10_000);
    assert_eq!(record.min_burn_amount, 1);
    assert_eq!(store.update(&key(1), &key(2), None, None, None), Ok(()));
    assert_eq!(store.read(&key(1), &key(2)), Some(record));
}

#[test]
fn missing_record_is_reported() {
    let mut store = store_with_record();
    assert_eq!(store.update(&key(7), &key(2), None, None, None), Err(ErrorCode::ConfigNotFound));
    assert_eq!(
        store.authorize(&key(7), &key(2), &key(3), 100_000, "p", 2_000_000, &PlaceholderVerifier),
        Err(ErrorCode::ConfigNotFound)
    );
    assert_eq!(
        store.settle(&key(7), &key(2), 100_000, 2_000_000, Ok(()), 1),
        Err(ErrorCode::ConfigNotFound)
    );
    assert_eq!(
        store.execute(&key(7), &key(2), &key(3), 100_000, "p", 1, &PlaceholderVerifier, Ok(()), 1),
        Err(ErrorCode::ConfigNotFound)
    );
}

#[test]
fn burn_in_two_steps() {
    let mut store = store_with_record();
    let order = store
        .authorize(&key(1), &key(2), &key(3), 100_000, "p", 2_000_000, &PlaceholderVerifier)
        .unwrap();
    assert_eq!(
        order,
        LedgerBurn { token_mint: key(2), token_account: key(3), authority: key(1), amount: 100_000 }
    );
    assert_eq!(store.read(&key(1), &key(2)).unwrap().burn_count, 0);

    let event = store.settle(&key(1), &key(2), order.amount, 2_000_000, Ok(()), 99).unwrap();
    assert_eq!(
        event,
        BurnEvent {
            authority: key(1),
            token_mint: key(2),
            amount: 100_000,
            profit_amount: 2_000_000,
            total_burned: 100_000,
            burn_count: 1,
            timestamp: 99,
        }
    );
    let record = store.read(&key(1), &key(2)).unwrap();
    assert_eq!(record.total_burned, 100_000);
    assert_eq!(record.burn_count, 1);
}

#[test]
fn refused_burn_leaves_the_store_alone() {
    let mut store = store_with_record();
    let before = store.read(&key(1), &key(2));
    assert_eq!(
        burn(&mut store, 50, Ok(())),
        Err(ErrorCode::BelowMinBurnAmount)
    );
    assert_eq!(
        store.execute(&key(1), &key(2), &key(3), 100_000, "p", 2_000_000, &RejectAll, Ok(()), 1),
        Err(ErrorCode::PaymentProofRejected)
    );
    let failure = LedgerError { code: 12 };
    assert_eq!(
        burn(&mut store, 100_000, Err(failure)),
        Err(ErrorCode::LedgerDelegateFailure(failure))
    );
    assert_eq!(
        store.settle(&key(1), &key(2), 100_000, 2_000_000, Err(failure), 1),
        Err(ErrorCode::LedgerDelegateFailure(failure))
    );
    assert_eq!(store.read(&key(1), &key(2)), before);
}

#[test]
fn burns_add_up_in_the_store() {
    let mut store = store_with_record();
    for round in 1..=5u64 {
        let event = burn(&mut store, 100_000, Ok(())).unwrap();
        assert_eq!(event.total_burned, 100_000 * round);
        assert_eq!(event.burn_count, round);
    }
    let record = store.read(&key(1), &key(2)).unwrap();
    assert_eq!(record.total_burned, 500_000);
    assert_eq!(record.burn_count, 5);
}
