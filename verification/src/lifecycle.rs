use vstd::prelude::*;
use crate::config::{BurnConfig, BurnConfigView, MAX_BURN_PERCENTAGE};
use crate::error::ErrorCode;
use crate::identity::Identity;

verus! {

/// The accounts of a creation: the place of the record, the token, the
/// authority that creates the record, and the key under which the host will
/// find the record again.
///
/// The place of the record is empty until the record is created, and holds
/// the record from then on: a record is created once and never removed.
#[derive(Clone, Copy, Debug, PartialEq, Eq)]
pub struct InitializeBurnConfig {
    pub burn_config: Option<BurnConfig>,
    pub token_mint: Identity,
    pub authority: Identity,
    pub bump: u8,
}

/// The accounts of an update: the record and the caller.
#[derive(Clone, Copy, Debug, PartialEq, Eq)]
pub struct UpdateBurnConfig {
    pub burn_config: BurnConfig,
    pub authority: Identity,
}

/// A 64-bit setting that may be absent, as a mathematical value.
pub open spec fn setting(value: Option<u64>) -> Option<nat> {
    match value {
        Some(number) => Some(number as nat),
        None => None,
    }
}

/// A burn percentage that may be absent, as a mathematical value.
pub open spec fn percentage_setting(value: Option<u16>) -> Option<nat> {
    match value {
        Some(number) => Some(number as nat),
        None => None,
    }
}

/// The verdict on a creation: the place of the record must be empty, and
/// the burn percentage at most 10000.
pub open spec fn creation_verdict(taken: bool, burn_percentage: nat) -> Result<(), ErrorCode> {
    if taken {
        Err(ErrorCode::ConfigAlreadyExists)
    } else if burn_percentage > 10000 {
        Err(ErrorCode::InvalidBurnPercentage)
    } else {
        Ok(())
    }
}

/// The verdict on an update: the caller must be the record's authority, and
/// a new burn percentage, if one is given, must be at most 10000.
pub open spec fn update_verdict(
    config: BurnConfigView,
    caller: Identity,
    new_burn_percentage: Option<nat>,
) -> Result<(), ErrorCode> {
    if caller != config.authority {
        Err(ErrorCode::AuthorizationMismatch)
    } else if new_burn_percentage matches Some(percentage) && percentage > 10000 {
        Err(ErrorCode::InvalidBurnPercentage)
    } else {
        Ok(())
    }
}

/// Creates the record of `ctx.authority` for `ctx.token_mint`.
///
/// Creation fails with `ConfigAlreadyExists` when the record exists already,
/// and else with `InvalidBurnPercentage` when `burn_percentage` is above
/// 10000. Otherwise `ctx.burn_config` holds the new record: the settings as
/// given, and counters of zero. A failed creation changes nothing.
pub fn initialize_burn_config(
    ctx: &mut InitializeBurnConfig,
    profit_threshold: u64,
    burn_percentage: u16,
    min_burn_amount: u64,
) -> (r: Result<(), ErrorCode>)
    ensures
        final(ctx).token_mint == old(ctx).token_mint,
        final(ctx).authority == old(ctx).authority,
        final(ctx).bump == old(ctx).bump,
        match creation_verdict(old(ctx).burn_config is Some, burn_percentage as nat) {
            Ok(_) => {
                &&& r === Ok(())
                &&& final(ctx).burn_config is Some
                &&& final(ctx).burn_config->Some_0@ == BurnConfigView::created(
                    old(ctx).authority,
                    old(ctx).token_mint,
                    old(ctx).bump as nat,
                    profit_threshold as nat,
                    burn_percentage as nat,
                    min_burn_amount as nat,
                )
                &&& final(ctx).burn_config->Some_0.well_formed()
            },
            Err(refusal) => r === Err(refusal) && *final(ctx) == *old(ctx),
        },
        old(ctx).burn_config is None ==> (r is Err <==> burn_percentage > 10000),
{
    if ctx.burn_config.is_some() {
        return Err(ErrorCode::ConfigAlreadyExists);
    }
    if burn_percentage > MAX_BURN_PERCENTAGE {
        return Err(ErrorCode::InvalidBurnPercentage);
    }
    ctx.burn_config = Some(
        BurnConfig {
            authority: ctx.authority,
            token_mint: ctx.token_mint,
            profit_threshold,
            burn_percentage,
            min_burn_amount,
            total_burned: 0,
            burn_count: 0,
            bump: ctx.bump,
        },
    );
    Ok(())
}

/// Changes the settings of a record.
///
/// Only the record's authority may do so. Each setting that is given replaces
/// the old one; each that is absent stays as it is. A new burn percentage
/// above 10000 is refused. A call that fails changes no setting at all, and a
/// call with every setting absent changes nothing either.
pub fn update_burn_config(
    ctx: &mut UpdateBurnConfig,
    new_profit_threshold: Option<u64>,
    new_burn_percentage: Option<u16>,
    new_min_burn_amount: Option<u64>,
) -> (r: Result<(), ErrorCode>)
    ensures
        final(ctx).authority == old(ctx).authority,
        match update_verdict(
            old(ctx).burn_config@,
            old(ctx).authority,
            percentage_setting(new_burn_percentage),
        ) {
            Ok(_) => r === Ok(()) && final(ctx).burn_config@ == old(
                ctx,
            ).burn_config@.updated(
                setting(new_profit_threshold),
                percentage_setting(new_burn_percentage),
                setting(new_min_burn_amount),
            ),
            Err(refusal) => r === Err(refusal) && *final(ctx) == *old(ctx),
        },
        old(ctx).authority == old(ctx).burn_config.authority ==> (r is Err <==> (
        new_burn_percentage matches Some(percentage) && percentage > 10000)),
        new_profit_threshold is None && new_burn_percentage is None && new_min_burn_amount is None
            ==> *final(ctx) == *old(ctx),
        old(ctx).burn_config.well_formed() ==> final(ctx).burn_config.well_formed(),
{
    if ctx.authority != ctx.burn_config.authority {
        return Err(ErrorCode::AuthorizationMismatch);
    }
    if let Some(percentage) = new_burn_percentage {
        if percentage > MAX_BURN_PERCENTAGE {
            return Err(ErrorCode::InvalidBurnPercentage);
        }
        ctx.burn_config.burn_percentage = percentage;
    }
    if let Some(threshold) = new_profit_threshold {
        ctx.burn_config.profit_threshold = threshold;
    }
    if let Some(min_amount) = new_min_burn_amount {
        ctx.burn_config.min_burn_amount = min_amount;
    }
    Ok(())
}

} // verus!
