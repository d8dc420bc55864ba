use vstd::prelude::*;
use crate::config::{BurnConfig, BurnConfigView};
use crate::error::{ErrorCode, LedgerError};
use crate::event::{BurnEvent, BurnEventView};
use crate::identity::Identity;
use crate::payment::PaymentProofVerifier;

verus! {

/// The accounts of one burn request: the record, the token account that the
/// tokens are taken from, and the caller.
#[derive(Clone, Copy, Debug, PartialEq, Eq)]
pub struct ExecuteAutonomousBurn {
    pub burn_config: BurnConfig,
    pub token_account: Identity,
    pub authority: Identity,
}

/// The burn that the ledger delegate is asked to perform.
#[derive(Clone, Copy, Debug, PartialEq, Eq)]
pub struct LedgerBurn {
    pub token_mint: Identity,
    pub token_account: Identity,
    pub authority: Identity,
    pub amount: u64,
}

/// The amount that must at least be burned for a profit: the share
/// `burn_percentage`, in basis points, of `profit_amount`, rounded down.
pub open spec fn expected_burn_of(profit_amount: nat, burn_percentage: nat) -> nat {
    (profit_amount * burn_percentage) / 10000
}

/// The verdict on a burn request: the first check that fails, in this order,
/// or `Ok` when none does.
pub open spec fn burn_verdict(
    config: BurnConfigView,
    caller: Identity,
    amount: nat,
    profit_amount: nat,
    proof_accepted: bool,
) -> Result<(), ErrorCode> {
    if caller != config.authority {
        Err(ErrorCode::AuthorizationMismatch)
    } else if amount < config.min_burn_amount {
        Err(ErrorCode::BelowMinBurnAmount)
    } else if profit_amount < config.profit_threshold {
        Err(ErrorCode::ProfitThresholdNotMet)
    } else if expected_burn_of(profit_amount, config.burn_percentage) > u64::MAX {
        Err(ErrorCode::ArithmeticOverflow)
    } else if amount < expected_burn_of(profit_amount, config.burn_percentage) {
        Err(ErrorCode::InsufficientBurnAmount)
    } else if !proof_accepted {
        Err(ErrorCode::PaymentProofRejected)
    } else {
        Ok(())
    }
}

/// The answer to a burn request for a given verdict on its payment proof:
/// the burn to hand to the ledger delegate, or the refusal.
pub open spec fn authorization(
    config: BurnConfigView,
    caller: Identity,
    token_account: Identity,
    amount: u64,
    profit_amount: nat,
    proof_accepted: bool,
) -> Result<LedgerBurn, ErrorCode> {
    match burn_verdict(config, caller, amount as nat, profit_amount, proof_accepted) {
        Ok(_) => Ok(
            LedgerBurn { token_mint: config.token_mint, token_account, authority: caller, amount },
        ),
        Err(refusal) => Err(refusal),
    }
}

/// What becomes of the record once the ledger delegate has answered an
/// authorized burn: its failure is passed on, its success is counted.
pub open spec fn settlement(
    config: BurnConfigView,
    amount: nat,
    ledger: Result<(), LedgerError>,
) -> Result<BurnConfigView, ErrorCode> {
    match ledger {
        Err(failure) => Err(ErrorCode::LedgerDelegateFailure(failure)),
        Ok(_) => if config.total_burned + amount <= u64::MAX && config.burn_count + 1 <= u64::MAX {
            Ok(config.with_burn(amount))
        } else {
            Err(ErrorCode::ArithmeticOverflow)
        },
    }
}

/// A whole burn request: the verdict first, then the settlement. The ledger's
/// answer counts only when the verdict is `Ok`.
pub open spec fn execution(
    config: BurnConfigView,
    caller: Identity,
    amount: nat,
    profit_amount: nat,
    proof_accepted: bool,
    ledger: Result<(), LedgerError>,
) -> Result<BurnConfigView, ErrorCode> {
    match burn_verdict(config, caller, amount, profit_amount, proof_accepted) {
        Err(refusal) => Err(refusal),
        Ok(_) => settlement(config, amount, ledger),
    }
}

/// How the result `r` of a burn and the record after it follow from what the
/// record goes through, `step`: on success the record is the new one and the
/// event is its snapshot; on failure the record is the old one.
pub open spec fn burn_result(
    step: Result<BurnConfigView, ErrorCode>,
    before: BurnConfigView,
    after: BurnConfigView,
    r: Result<BurnEvent, ErrorCode>,
    caller: Identity,
    amount: nat,
    profit_amount: nat,
    timestamp: int,
) -> bool {
    match step {
        Ok(config) => after == config && r is Ok && r->Ok_0@ == BurnEventView::snapshot(
            config,
            caller,
            amount,
            profit_amount,
            timestamp,
        ),
        Err(refusal) => after == before && r === Err(refusal),
    }
}

/// The product of a 64-bit and a 16-bit number fits in 128 bits.
proof fn lemma_product_fits(profit_amount: u64, burn_percentage: u16)
    ensures
        profit_amount * burn_percentage <= 0xffff_ffff_ffff_ffff * 0xffff,
{
    assert(profit_amount * burn_percentage <= 0xffff_ffff_ffff_ffff * 0xffff) by (nonlinear_arith)
        requires
            0 <= profit_amount <= 0xffff_ffff_ffff_ffff,
            0 <= burn_percentage <= 0xffff,
    ;
}

/// With a burn percentage of at most 10000 the expected burn is at most the
/// profit, so for a 64-bit profit it fits in 64 bits.
pub proof fn lemma_expected_burn_at_most_profit(profit_amount: nat, burn_percentage: nat)
    requires
        burn_percentage <= 10000,
    ensures
        expected_burn_of(profit_amount, burn_percentage) <= profit_amount,
{
    assert(profit_amount * burn_percentage <= profit_amount * 10000) by (nonlinear_arith)
        requires
            burn_percentage <= 10000,
    ;
}

/// Computes the amount that must at least be burned for `profit_amount`.
///
/// The product is taken in 128 bits, so it never wraps. With a burn
/// percentage of at most 10000 the result is at most the profit and always
/// fits; with a larger one it may not fit in 64 bits, and then the function
/// fails rather than cut the number short.
pub fn expected_burn(profit_amount: u64, burn_percentage: u16) -> (r: Result<u64, ErrorCode>)
    ensures
        match r {
            Ok(share) => share == expected_burn_of(profit_amount as nat, burn_percentage as nat),
            Err(refusal) => refusal == ErrorCode::ArithmeticOverflow && expected_burn_of(
                profit_amount as nat,
                burn_percentage as nat,
            ) > u64::MAX,
        },
        burn_percentage <= 10000 ==> r is Ok,
{
    proof {
        lemma_product_fits(profit_amount, burn_percentage);
        if burn_percentage <= 10000 {
            lemma_expected_burn_at_most_profit(profit_amount as nat, burn_percentage as nat);
        }
    }
    let product: u128 = (profit_amount as u128) * (burn_percentage as u128);
    let share: u128 = product / 10000;
    if share > u64::MAX as u128 {
        Err(ErrorCode::ArithmeticOverflow)
    } else {
        Ok(share as u64)
    }
}

/// Decides on a burn request whose payment proof has already been judged.
///
/// The checks run in a fixed order and the first one that fails gives the
/// error: the caller must be the record's authority; `amount` must reach the
/// record's minimum; `profit_amount` must reach the record's threshold;
/// `amount` must reach the expected burn for that profit; the proof must have
/// been accepted. Nothing is changed. On success the result is the burn to
/// hand to the ledger delegate.
pub fn decide_burn(
    ctx: &ExecuteAutonomousBurn,
    amount: u64,
    profit_amount: u64,
    proof_accepted: bool,
) -> (r: Result<LedgerBurn, ErrorCode>)
    ensures
        r == authorization(
            ctx.burn_config@,
            ctx.authority,
            ctx.token_account,
            amount,
            profit_amount as nat,
            proof_accepted,
        ),
{
    if ctx.authority != ctx.burn_config.authority {
        return Err(ErrorCode::AuthorizationMismatch);
    }
    if amount < ctx.burn_config.min_burn_amount {
        return Err(ErrorCode::BelowMinBurnAmount);
    }
    if profit_amount < ctx.burn_config.profit_threshold {
        return Err(ErrorCode::ProfitThresholdNotMet);
    }
    let expected = match expected_burn(profit_amount, ctx.burn_config.burn_percentage) {
        Ok(share) => share,
        Err(refusal) => {
            return Err(refusal);
        },
    };
    if amount < expected {
        return Err(ErrorCode::InsufficientBurnAmount);
    }
    if !proof_accepted {
        return Err(ErrorCode::PaymentProofRejected);
    }
    Ok(
        LedgerBurn {
            token_mint: ctx.burn_config.token_mint,
            token_account: ctx.token_account,
            authority: ctx.authority,
            amount,
        },
    )
}

/// Decides whether a burn of `amount` may go to the ledger.
///
/// The request is first held against the record, as [`decide_burn`] does. A
/// request that fails there is refused with that error and the verifier is
/// not asked. Otherwise the verifier is asked about `x402_signature`, once:
/// if it accepts, the result is the burn to hand to the ledger delegate; if
/// it rejects, the request is refused with `PaymentProofRejected`.
pub fn authorize_burn<V: PaymentProofVerifier>(
    ctx: &ExecuteAutonomousBurn,
    amount: u64,
    x402_signature: &str,
    profit_amount: u64,
    verifier: &V,
) -> (r: Result<LedgerBurn, ErrorCode>)
    ensures
        match burn_verdict(
            ctx.burn_config@,
            ctx.authority,
            amount as nat,
            profit_amount as nat,
            true,
        ) {
            Err(refusal) => r === Err(refusal),
            Ok(_) => exists|accepted: bool| #[trigger]
                call_ensures(V::verify, (verifier, x402_signature), accepted) && r
                    == authorization(
                    ctx.burn_config@,
                    ctx.authority,
                    ctx.token_account,
                    amount,
                    profit_amount as nat,
                    accepted,
                ),
        },
{
    match decide_burn(ctx, amount, profit_amount, true) {
        Err(refusal) => Err(refusal),
        Ok(order) => {
            if verifier.verify(x402_signature) {
                Ok(order)
            } else {
                Err(ErrorCode::PaymentProofRejected)
            }
        },
    }
}

/// Takes in the ledger delegate's answer to an authorized burn of `amount`
/// by `authority`.
///
/// A failure of the ledger is passed on as it came and the record stays as it
/// is. A success adds `amount` to `total_burned` and one to `burn_count`,
/// both together or, if either would not fit in 64 bits, neither. The result
/// is then the event to emit, with the counters as they are after the burn.
pub fn settle_burn(
    config: &mut BurnConfig,
    authority: &Identity,
    amount: u64,
    profit_amount: u64,
    ledger: Result<(), LedgerError>,
    timestamp: i64,
) -> (r: Result<BurnEvent, ErrorCode>)
    ensures
        burn_result(
            settlement(old(config)@, amount as nat, ledger),
            old(config)@,
            final(config)@,
            r,
            *authority,
            amount as nat,
            profit_amount as nat,
            timestamp as int,
        ),
        r is Err ==> *final(config) == *old(config),
        old(config).well_formed() ==> final(config).well_formed(),
{
    if let Err(failure) = ledger {
        return Err(ErrorCode::LedgerDelegateFailure(failure));
    }
    let total_burned = match config.total_burned.checked_add(amount) {
        Some(sum) => sum,
        None => {
            return Err(ErrorCode::ArithmeticOverflow);
        },
    };
    let burn_count = match config.burn_count.checked_add(1) {
        Some(sum) => sum,
        None => {
            return Err(ErrorCode::ArithmeticOverflow);
        },
    };
    config.total_burned = total_burned;
    config.burn_count = burn_count;
    Ok(BurnEvent::snapshot(config, *authority, amount, profit_amount, timestamp))
}

/// Runs one burn request from the first check to the event.
///
/// `ledger` is the ledger delegate's answer to the burn that this request
/// leads to, and `timestamp` the time of the burn; both are read only once
/// the request is authorized. The request is refused with the error of
/// [`authorize_burn`] when a check fails or the proof is rejected, and with
/// the error of [`settle_burn`] when the ledger fails or a counter would
/// overflow. A refused request leaves the accounts as they are.
pub fn execute_autonomous_burn<V: PaymentProofVerifier>(
    ctx: &mut ExecuteAutonomousBurn,
    amount: u64,
    x402_signature: &str,
    profit_amount: u64,
    verifier: &V,
    ledger: Result<(), LedgerError>,
    timestamp: i64,
) -> (r: Result<BurnEvent, ErrorCode>)
    ensures
        final(ctx).token_account == old(ctx).token_account,
        final(ctx).authority == old(ctx).authority,
        match burn_verdict(
            old(ctx).burn_config@,
            old(ctx).authority,
            amount as nat,
            profit_amount as nat,
            true,
        ) {
            Err(refusal) => r === Err(refusal),
            Ok(_) => exists|accepted: bool| #[trigger]
                call_ensures(V::verify, (verifier, x402_signature), accepted) && burn_result(
                    execution(
                        old(ctx).burn_config@,
                        old(ctx).authority,
                        amount as nat,
                        profit_amount as nat,
                        accepted,
                        ledger,
                    ),
                    old(ctx).burn_config@,
                    final(ctx).burn_config@,
                    r,
                    old(ctx).authority,
                    amount as nat,
                    profit_amount as nat,
                    timestamp as int,
                ),
        },
        r is Err ==> *final(ctx) == *old(ctx),
        old(ctx).burn_config.well_formed() ==> final(ctx).burn_config.well_formed(),
{
    match authorize_burn(ctx, amount, x402_signature, profit_amount, verifier) {
        Err(refusal) => Err(refusal),
        Ok(order) => settle_burn(
            &mut ctx.burn_config,
            &order.authority,
            order.amount,
            profit_amount,
            ledger,
            timestamp,
        ),
    }
}

} // verus!
