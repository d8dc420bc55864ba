use vstd::prelude::*;
use crate::config::{BurnConfig, BurnConfigView};
use crate::identity::Identity;

verus! {

/// The notification of one completed burn: what was burned, for which profit,
/// and the counters of the record after the burn.
#[derive(Clone, Copy, Debug, PartialEq, Eq)]
pub struct BurnEvent {
    pub authority: Identity,
    pub token_mint: Identity,
    pub amount: u64,
    pub profit_amount: u64,
    pub total_burned: u64,
    pub burn_count: u64,
    pub timestamp: i64,
}

/// A burn event as a mathematical value.
pub struct BurnEventView {
    pub authority: Identity,
    pub token_mint: Identity,
    pub amount: nat,
    pub profit_amount: nat,
    pub total_burned: nat,
    pub burn_count: nat,
    pub timestamp: int,
}

impl View for BurnEvent {
    type V = BurnEventView;

    open spec fn view(&self) -> BurnEventView {
        BurnEventView {
            authority: self.authority,
            token_mint: self.token_mint,
            amount: self.amount as nat,
            profit_amount: self.profit_amount as nat,
            total_burned: self.total_burned as nat,
            burn_count: self.burn_count as nat,
            timestamp: self.timestamp as int,
        }
    }
}

impl BurnEventView {
    /// The event of a burn of `amount` by `authority` at `timestamp`, where
    /// `config` is the record as it is after the burn.
    pub open spec fn snapshot(
        config: BurnConfigView,
        authority: Identity,
        amount: nat,
        profit_amount: nat,
        timestamp: int,
    ) -> BurnEventView {
        BurnEventView {
            authority,
            token_mint: config.token_mint,
            amount,
            profit_amount,
            total_burned: config.total_burned,
            burn_count: config.burn_count,
            timestamp,
        }
    }
}

impl BurnEvent {
    /// An event is determined by its mathematical value: two events with the
    /// same view are the same event.
    pub proof fn lemma_view_determines_event(self, other: BurnEvent)
        requires
            self@ == other@,
        ensures
            self == other,
    {
    }

    /// Takes the snapshot of a burn that has just been counted in `config`.
    pub fn snapshot(
        config: &BurnConfig,
        authority: Identity,
        amount: u64,
        profit_amount: u64,
        timestamp: i64,
    ) -> (event: BurnEvent)
        ensures
            event@ == BurnEventView::snapshot(
                config@,
                authority,
                amount as nat,
                profit_amount as nat,
                timestamp as int,
            ),
    {
        BurnEvent {
            authority,
            token_mint: config.token_mint,
            amount,
            profit_amount,
            total_burned: config.total_burned,
            burn_count: config.burn_count,
            timestamp,
        }
    }
}

} // verus!
