use vstd::prelude::*;
use crate::identity::Identity;

verus! {

/// The largest burn percentage, in basis points: 10000 stands for 100%.
pub const MAX_BURN_PERCENTAGE: u16 = 10000;

/// The burn configuration of one authority for one token.
///
/// There is one such record for each pair of authority and token. Its counters
/// only ever grow: each burn adds the burned amount to `total_burned` and one
/// to `burn_count`.
#[derive(Clone, Copy, Debug, PartialEq, Eq)]
pub struct BurnConfig {
    /// The only principal that may update the record or trigger burns.
    pub authority: Identity,
    /// The token that this record governs.
    pub token_mint: Identity,
    /// The least profit for which a burn is allowed.
    pub profit_threshold: u64,
    /// The share of the profit that must be burned, in basis points.
    pub burn_percentage: u16,
    /// The least amount of a single burn.
    pub min_burn_amount: u64,
    /// The sum of all amounts burned so far.
    pub total_burned: u64,
    /// The number of burns so far.
    pub burn_count: u64,
    /// The key under which the host finds this record again.
    pub bump: u8,
}

/// The pair that addresses a record: its authority, then its token.
pub type ConfigKey = (Identity, Identity);

/// A burn configuration as a mathematical value: the numbers are unbounded.
pub struct BurnConfigView {
    pub authority: Identity,
    pub token_mint: Identity,
    pub profit_threshold: nat,
    pub burn_percentage: nat,
    pub min_burn_amount: nat,
    pub total_burned: nat,
    pub burn_count: nat,
    pub bump: nat,
}

impl View for BurnConfig {
    type V = BurnConfigView;

    open spec fn view(&self) -> BurnConfigView {
        BurnConfigView {
            authority: self.authority,
            token_mint: self.token_mint,
            profit_threshold: self.profit_threshold as nat,
            burn_percentage: self.burn_percentage as nat,
            min_burn_amount: self.min_burn_amount as nat,
            total_burned: self.total_burned as nat,
            burn_count: self.burn_count as nat,
            bump: self.bump as nat,
        }
    }
}

impl BurnConfigView {
    /// The record that creation gives: the settings as given, nothing burned yet.
    pub open spec fn created(
        authority: Identity,
        token_mint: Identity,
        bump: nat,
        profit_threshold: nat,
        burn_percentage: nat,
        min_burn_amount: nat,
    ) -> BurnConfigView {
        BurnConfigView {
            authority,
            token_mint,
            profit_threshold,
            burn_percentage,
            min_burn_amount,
            total_burned: 0,
            burn_count: 0,
            bump,
        }
    }

    /// The invariant of a record: the burn percentage is at most 100%.
    pub open spec fn well_formed(self) -> bool {
        self.burn_percentage <= 10000
    }

    /// The pair that addresses this record.
    pub open spec fn key(self) -> ConfigKey {
        (self.authority, self.token_mint)
    }

    /// The record after an update: a setting that is given replaces the old
    /// one, a setting that is absent stays.
    pub open spec fn updated(
        self,
        new_profit_threshold: Option<nat>,
        new_burn_percentage: Option<nat>,
        new_min_burn_amount: Option<nat>,
    ) -> BurnConfigView {
        BurnConfigView {
            profit_threshold: match new_profit_threshold {
                Some(threshold) => threshold,
                None => self.profit_threshold,
            },
            burn_percentage: match new_burn_percentage {
                Some(percentage) => percentage,
                None => self.burn_percentage,
            },
            min_burn_amount: match new_min_burn_amount {
                Some(min_amount) => min_amount,
                None => self.min_burn_amount,
            },
            ..self
        }
    }

    /// The record after one burn of `amount`.
    pub open spec fn with_burn(self, amount: nat) -> BurnConfigView {
        BurnConfigView {
            total_burned: self.total_burned + amount,
            burn_count: self.burn_count + 1,
            ..self
        }
    }
}

impl BurnConfig {
    /// The invariant of a record: the burn percentage is at most 100%.
    pub open spec fn well_formed(&self) -> bool {
        self@.well_formed()
    }

    /// A record is determined by its mathematical value: two records with
    /// the same view are the same record.
    pub proof fn lemma_view_determines_record(self, other: BurnConfig)
        requires
            self@ == other@,
        ensures
            self == other,
    {
    }
}

} // verus!
