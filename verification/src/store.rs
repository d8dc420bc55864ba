use vstd::prelude::*;
use crate::config::{BurnConfig, BurnConfigView, ConfigKey};
use crate::engine::{
    authorization, authorize_burn, burn_verdict, execute_autonomous_burn, execution, settle_burn,
    settlement, ExecuteAutonomousBurn, LedgerBurn,
};
use crate::error::{ErrorCode, LedgerError};
use crate::event::{BurnEvent, BurnEventView};
use crate::identity::Identity;
use crate::lifecycle::{
    creation_verdict, initialize_burn_config, percentage_setting, setting, update_burn_config,
    InitializeBurnConfig, UpdateBurnConfig,
};
use crate::payment::PaymentProofVerifier;

verus! {

/// Whether `records` holds at place `i` the record that `key` addresses.
spec fn addressed_at(records: Seq<BurnConfig>, i: int, key: ConfigKey) -> bool {
    0 <= i < records.len() && records[i]@.key() == key
}

/// No two of `records` are addressed by the same pair.
spec fn distinct_keys(records: Seq<BurnConfig>) -> bool {
    forall|i: int, j: int|
        0 <= i < j < records.len() ==> (#[trigger] records[i])@.key() != (
        #[trigger] records[j])@.key()
}

/// Each of `records` keeps its burn percentage within 100%.
spec fn all_well_formed(records: Seq<BurnConfig>) -> bool {
    forall|i: int| 0 <= i < records.len() ==> (#[trigger] records[i]).well_formed()
}

/// The records by the pair that addresses each.
spec fn index_of(records: Seq<BurnConfig>) -> Map<ConfigKey, BurnConfigView> {
    Map::new(
        |key: ConfigKey| exists|i: int| addressed_at(records, i, key),
        |key: ConfigKey| records[choose|i: int| addressed_at(records, i, key)]@,
    )
}

/// Among records with distinct pairs, the record found under a record's pair
/// is that record.
proof fn lemma_index_at(records: Seq<BurnConfig>, i: int)
    requires
        distinct_keys(records),
        0 <= i < records.len(),
    ensures
        index_of(records).contains_key(records[i]@.key()),
        index_of(records)[records[i]@.key()] == records[i]@,
{
    let key = records[i]@.key();
    assert(addressed_at(records, i, key));
    let j = choose|j: int| addressed_at(records, j, key);
    if j < i {
        assert(records[j]@.key() != records[i]@.key());
    } else if i < j {
        assert(records[i]@.key() != records[j]@.key());
    }
}

/// A record with a new pair can join: the pairs stay distinct, and the index
/// gains exactly this record.
proof fn lemma_index_push(records: Seq<BurnConfig>, record: BurnConfig)
    requires
        distinct_keys(records),
        !index_of(records).contains_key(record@.key()),
    ensures
        distinct_keys(records.push(record)),
        index_of(records.push(record)) == index_of(records).insert(record@.key(), record@),
{
    let longer = records.push(record);
    let n = records.len() as int;
    assert forall|i: int, j: int| 0 <= i < j < longer.len() implies (#[trigger] longer[i])@.key()
        != (#[trigger] longer[j])@.key() by {
        if j == n {
            assert(addressed_at(records, i, records[i]@.key()));
        } else {
            assert(records[i]@.key() != records[j]@.key());
        }
    }
    assert forall|key: ConfigKey|
        index_of(longer).contains_key(key) <==> #[trigger] index_of(records).insert(
            record@.key(),
            record@,
        ).contains_key(key) by {
        if index_of(longer).contains_key(key) {
            let i = choose|i: int| addressed_at(longer, i, key);
            if i < n {
                assert(addressed_at(records, i, key));
            }
        }
        if index_of(records).contains_key(key) {
            let i = choose|i: int| addressed_at(records, i, key);
            assert(addressed_at(longer, i, key));
        }
        if key == record@.key() {
            assert(addressed_at(longer, n, key));
        }
    }
    assert forall|key: ConfigKey| #[trigger]
        index_of(longer).contains_key(key) implies index_of(longer)[key] == index_of(
        records,
    ).insert(record@.key(), record@)[key] by {
        let i = choose|i: int| addressed_at(longer, i, key);
        lemma_index_at(longer, i);
        if i < n {
            assert(addressed_at(records, i, key));
            lemma_index_at(records, i);
        }
    }
    assert(index_of(longer) =~= index_of(records).insert(record@.key(), record@));
}

/// A record can take the place of the one with the same pair: the pairs stay
/// distinct, and the index changes at this pair only.
proof fn lemma_index_update(records: Seq<BurnConfig>, at: int, record: BurnConfig)
    requires
        distinct_keys(records),
        0 <= at < records.len(),
        record@.key() == records[at]@.key(),
    ensures
        distinct_keys(records.update(at, record)),
        index_of(records.update(at, record)) == index_of(records).insert(record@.key(), record@),
{
    let changed = records.update(at, record);
    assert forall|i: int, j: int| 0 <= i < j < changed.len() implies (#[trigger] changed[i])@.key()
        != (#[trigger] changed[j])@.key() by {
        assert(records[i]@.key() != records[j]@.key());
    }
    assert forall|key: ConfigKey|
        index_of(changed).contains_key(key) <==> #[trigger] index_of(records).insert(
            record@.key(),
            record@,
        ).contains_key(key) by {
        if index_of(changed).contains_key(key) {
            let i = choose|i: int| addressed_at(changed, i, key);
            assert(addressed_at(records, i, key));
        }
        if index_of(records).contains_key(key) {
            let i = choose|i: int| addressed_at(records, i, key);
            assert(addressed_at(changed, i, key));
        }
        if key == record@.key() {
            assert(addressed_at(changed, at, key));
        }
    }
    assert forall|key: ConfigKey| #[trigger]
        index_of(changed).contains_key(key) implies index_of(changed)[key] == index_of(
        records,
    ).insert(record@.key(), record@)[key] by {
        let i = choose|i: int| addressed_at(changed, i, key);
        lemma_index_at(changed, i);
        if i != at {
            assert(addressed_at(records, i, key));
            lemma_index_at(records, i);
            assert(records[i]@.key() != records[at]@.key());
        }
    }
    assert(index_of(changed) =~= index_of(records).insert(record@.key(), record@));
}

/// How the result `r` of a burn and the records after it follow from what
/// the record at `key` goes through, `step`: on success that record is the
/// new one and the event is its snapshot; on failure nothing has changed. No
/// other record changes either way.
pub open spec fn stored_burn_result(
    step: Result<BurnConfigView, ErrorCode>,
    before: Map<ConfigKey, BurnConfigView>,
    after: Map<ConfigKey, BurnConfigView>,
    key: ConfigKey,
    r: Result<BurnEvent, ErrorCode>,
    amount: nat,
    profit_amount: nat,
    timestamp: int,
) -> bool {
    match step {
        Ok(config) => after == before.insert(key, config) && r is Ok && r->Ok_0@
            == BurnEventView::snapshot(config, key.0, amount, profit_amount, timestamp),
        Err(refusal) => after == before && r === Err(refusal),
    }
}

/// The durable burn configurations, each addressed by its authority and its
/// token. No two records share that pair, and every record keeps its burn
/// percentage within 100%.
pub struct ConfigStore {
    records: Vec<BurnConfig>,
}

impl View for ConfigStore {
    type V = Map<ConfigKey, BurnConfigView>;

    closed spec fn view(&self) -> Map<ConfigKey, BurnConfigView> {
        index_of(self.records@)
    }
}

impl ConfigStore {
    #[verifier::type_invariant]
    spec fn sound(self) -> bool {
        distinct_keys(self.records@) && all_well_formed(self.records@)
    }

    /// A store without records.
    pub fn new() -> (store: ConfigStore)
        ensures
            store@ == Map::<ConfigKey, BurnConfigView>::empty(),
    {
        let store = ConfigStore { records: Vec::new() };
        assert(store@ =~= Map::<ConfigKey, BurnConfigView>::empty());
        store
    }

    /// The place of the record of `authority` for `token_mint`, if there is one.
    fn position(&self, authority: &Identity, token_mint: &Identity) -> (r: Option<usize>)
        ensures
            match r {
                Some(at) => {
                    &&& addressed_at(self.records@, at as int, (*authority, *token_mint))
                    &&& self.records@[at as int].well_formed()
                    &&& self@.get((*authority, *token_mint)) == Some(self.records@[at as int]@)
                },
                None => self@.get((*authority, *token_mint)) is None,
            },
    {
        proof {
            use_type_invariant(self);
        }
        let mut at: usize = 0;
        while at < self.records.len()
            invariant
                distinct_keys(self.records@),
                all_well_formed(self.records@),
                at <= self.records@.len(),
                forall|i: int|
                    0 <= i < at ==> !addressed_at(self.records@, i, (*authority, *token_mint)),
            decreases self.records@.len() - at,
        {
            if self.records[at].authority == *authority && self.records[at].token_mint
                == *token_mint {
                proof {
                    lemma_index_at(self.records@, at as int);
                }
                return Some(at);
            }
            at += 1;
        }
        None
    }

    /// Hands out the records and leaves the store empty. A vector may unwind
    /// while it grows, so it grows while the store does not hold it.
    fn take_records(&mut self) -> (records: Vec<BurnConfig>)
        ensures
            records@ == old(self).records@,
            final(self).records@ == Seq::<BurnConfig>::empty(),
    {
        let mut records: Vec<BurnConfig> = Vec::new();
        core::mem::swap(&mut self.records, &mut records);
        records
    }

    /// Puts `config` in the place of the record at `at`, which the same pair
    /// addresses.
    fn put(&mut self, at: usize, config: BurnConfig)
        requires
            at < old(self).records@.len(),
            config@.key() == old(self).records@[at as int]@.key(),
            config.well_formed(),
        ensures
            final(self)@ == old(self)@.insert(config@.key(), config@),
    {
        proof {
            use_type_invariant(&*self);
            lemma_index_update(self.records@, at as int, config);
        }
        let mut records = self.take_records();
        records[at] = config;
        self.records = records;
    }

    /// Looks up the record of `authority` for `token_mint`. Nothing is changed.
    ///
    /// The record that is found is the one that this pair addresses, and its
    /// burn percentage is at most 10000.
    pub fn read(&self, authority: &Identity, token_mint: &Identity) -> (r: Option<BurnConfig>)
        ensures
            match self@.get((*authority, *token_mint)) {
                Some(stored) => r is Some && r->Some_0@ == stored,
                None => r is None,
            },
            r matches Some(config) ==> config@.key() == (*authority, *token_mint)
                && config.well_formed(),
    {
        match self.position(authority, token_mint) {
            Some(at) => Some(self.records[at]),
            None => None,
        }
    }

    /// Creates the record of `authority` for `token_mint`.
    ///
    /// Creation fails with `ConfigAlreadyExists` when the store already holds
    /// a record for that pair, and else with `InvalidBurnPercentage` when
    /// `burn_percentage` is above 10000. Otherwise the store holds the new
    /// record from now on, and the result is a copy of it. A failed creation
    /// changes nothing, and no creation touches another record.
    pub fn create(
        &mut self,
        authority: &Identity,
        token_mint: &Identity,
        bump: u8,
        profit_threshold: u64,
        burn_percentage: u16,
        min_burn_amount: u64,
    ) -> (r: Result<BurnConfig, ErrorCode>)
        ensures
            match creation_verdict(
                old(self)@.contains_key((*authority, *token_mint)),
                burn_percentage as nat,
            ) {
                Ok(_) => {
                    &&& r is Ok
                    &&& r->Ok_0@ == BurnConfigView::created(
                        *authority,
                        *token_mint,
                        bump as nat,
                        profit_threshold as nat,
                        burn_percentage as nat,
                        min_burn_amount as nat,
                    )
                    &&& final(self)@ == old(self)@.insert((*authority, *token_mint), r->Ok_0@)
                },
                Err(refusal) => r === Err(refusal) && final(self)@ == old(self)@,
            },
    {
        let mut ctx = InitializeBurnConfig {
            burn_config: self.read(authority, token_mint),
            token_mint: *token_mint,
            authority: *authority,
            bump,
        };
        if let Err(refusal) = initialize_burn_config(
            &mut ctx,
            profit_threshold,
            burn_percentage,
            min_burn_amount,
        ) {
            return Err(refusal);
        }
        let config = ctx.burn_config.unwrap();
        proof {
            use_type_invariant(&*self);
            lemma_index_push(self.records@, config);
        }
        let mut records = self.take_records();
        records.push(config);
        self.records = records;
        Ok(config)
    }

    /// Changes the settings of the record of `authority` for `token_mint`.
    ///
    /// The update fails with `ConfigNotFound` when the store holds no record
    /// for that pair, and else with `InvalidBurnPercentage` when a burn
    /// percentage is given and is above 10000. Otherwise each setting that is
    /// given replaces the old one and each that is absent stays. A failed
    /// update changes nothing, and no update touches another record.
    pub fn update(
        &mut self,
        authority: &Identity,
        token_mint: &Identity,
        new_profit_threshold: Option<u64>,
        new_burn_percentage: Option<u16>,
        new_min_burn_amount: Option<u64>,
    ) -> (r: Result<(), ErrorCode>)
        ensures
            match old(self)@.get((*authority, *token_mint)) {
                None => r === Err(ErrorCode::ConfigNotFound) && final(self)@ == old(self)@,
                Some(config) => if new_burn_percentage matches Some(percentage) && percentage
                    > 10000 {
                    r === Err(ErrorCode::InvalidBurnPercentage) && final(self)@ == old(self)@
                } else {
                    r === Ok(()) && final(self)@ == old(self)@.insert(
                        (*authority, *token_mint),
                        config.updated(
                            setting(new_profit_threshold),
                            percentage_setting(new_burn_percentage),
                            setting(new_min_burn_amount),
                        ),
                    )
                },
            },
    {
        let at = match self.position(authority, token_mint) {
            Some(at) => at,
            None => {
                return Err(ErrorCode::ConfigNotFound);
            },
        };
        let mut ctx = UpdateBurnConfig { burn_config: self.records[at], authority: *authority };
        match update_burn_config(
            &mut ctx,
            new_profit_threshold,
            new_burn_percentage,
            new_min_burn_amount,
        ) {
            Err(refusal) => Err(refusal),
            Ok(_) => {
                self.put(at, ctx.burn_config);
                Ok(())
            },
        }
    }

    /// Decides whether a burn of `amount` from `token_account` may go to the
    /// ledger, against the record of `authority` for `token_mint`.
    ///
    /// Without such a record the request is refused with `ConfigNotFound`.
    /// Otherwise the request is decided as [`authorize_burn`] decides it, with
    /// `authority` as the caller. Nothing is changed.
    pub fn authorize<V: PaymentProofVerifier>(
        &self,
        authority: &Identity,
        token_mint: &Identity,
        token_account: &Identity,
        amount: u64,
        x402_signature: &str,
        profit_amount: u64,
        verifier: &V,
    ) -> (r: Result<LedgerBurn, ErrorCode>)
        ensures
            match self@.get((*authority, *token_mint)) {
                None => r === Err(ErrorCode::ConfigNotFound),
                Some(config) => match burn_verdict(
                    config,
                    *authority,
                    amount as nat,
                    profit_amount as nat,
                    true,
                ) {
                    Err(refusal) => r === Err(refusal),
                    Ok(_) => exists|accepted: bool| #[trigger]
                        call_ensures(V::verify, (verifier, x402_signature), accepted) && r
                            == authorization(
                            config,
                            *authority,
                            *token_account,
                            amount,
                            profit_amount as nat,
                            accepted,
                        ),
                },
            },
    {
        let at = match self.position(authority, token_mint) {
            Some(at) => at,
            None => {
                return Err(ErrorCode::ConfigNotFound);
            },
        };
        let ctx = ExecuteAutonomousBurn {
            burn_config: self.records[at],
            token_account: *token_account,
            authority: *authority,
        };
        authorize_burn(&ctx, amount, x402_signature, profit_amount, verifier)
    }

    /// Takes in the ledger delegate's answer to an authorized burn of
    /// `amount`, for the record of `authority` for `token_mint`.
    ///
    /// Without such a record the call fails with `ConfigNotFound`. Otherwise
    /// the answer is taken in as [`settle_burn`] takes it in: a failure of the
    /// ledger is passed on; a success is counted in the record, and the result
    /// is the event to emit. A failed call changes nothing, and no call
    /// touches another record.
    pub fn settle(
        &mut self,
        authority: &Identity,
        token_mint: &Identity,
        amount: u64,
        profit_amount: u64,
        ledger: Result<(), LedgerError>,
        timestamp: i64,
    ) -> (r: Result<BurnEvent, ErrorCode>)
        ensures
            match old(self)@.get((*authority, *token_mint)) {
                None => r === Err(ErrorCode::ConfigNotFound) && final(self)@ == old(self)@,
                Some(config) => stored_burn_result(
                    settlement(config, amount as nat, ledger),
                    old(self)@,
                    final(self)@,
                    (*authority, *token_mint),
                    r,
                    amount as nat,
                    profit_amount as nat,
                    timestamp as int,
                ),
            },
    {
        let at = match self.position(authority, token_mint) {
            Some(at) => at,
            None => {
                return Err(ErrorCode::ConfigNotFound);
            },
        };
        let mut config = self.records[at];
        match settle_burn(&mut config, authority, amount, profit_amount, ledger, timestamp) {
            Err(refusal) => Err(refusal),
            Ok(event) => {
                self.put(at, config);
                Ok(event)
            },
        }
    }

    /// Runs one burn request against the record of `authority` for
    /// `token_mint`, from the first check to the event.
    ///
    /// Without such a record the request is refused with `ConfigNotFound`.
    /// Otherwise it runs as [`execute_autonomous_burn`] runs it, with
    /// `authority` as the caller: `ledger` is the ledger delegate's answer
    /// to the burn that the request leads to, and it counts only once the
    /// request is authorized. A refused request changes nothing, and no
    /// request touches another record.
    pub fn execute<V: PaymentProofVerifier>(
        &mut self,
        authority: &Identity,
        token_mint: &Identity,
        token_account: &Identity,
        amount: u64,
        x402_signature: &str,
        profit_amount: u64,
        verifier: &V,
        ledger: Result<(), LedgerError>,
        timestamp: i64,
    ) -> (r: Result<BurnEvent, ErrorCode>)
        ensures
            match old(self)@.get((*authority, *token_mint)) {
                None => r === Err(ErrorCode::ConfigNotFound) && final(self)@ == old(self)@,
                Some(config) => match burn_verdict(
                    config,
                    *authority,
                    amount as nat,
                    profit_amount as nat,
                    true,
                ) {
                    Err(refusal) => r === Err(refusal) && final(self)@ == old(self)@,
                    Ok(_) => exists|accepted: bool| #[trigger]
                        call_ensures(V::verify, (verifier, x402_signature), accepted)
                            && stored_burn_result(
                            execution(
                                config,
                                *authority,
                                amount as nat,
                                profit_amount as nat,
                                accepted,
                                ledger,
                            ),
                            old(self)@,
                            final(self)@,
                            (*authority, *token_mint),
                            r,
                            amount as nat,
                            profit_amount as nat,
                            timestamp as int,
                        ),
                },
            },
    {
        let at = match self.position(authority, token_mint) {
            Some(at) => at,
            None => {
                return Err(ErrorCode::ConfigNotFound);
            },
        };
        let mut ctx = ExecuteAutonomousBurn {
            burn_config: self.records[at],
            token_account: *token_account,
            authority: *authority,
        };
        match execute_autonomous_burn(
            &mut ctx,
            amount,
            x402_signature,
            profit_amount,
            verifier,
            ledger,
            timestamp,
        ) {
            Err(refusal) => Err(refusal),
            Ok(event) => {
                self.put(at, ctx.burn_config);
                Ok(event)
            },
        }
    }
}

} // verus!
