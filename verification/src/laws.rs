use vstd::prelude::*;
use crate::config::BurnConfigView;
use crate::engine::{burn_verdict, execution, expected_burn_of};
use crate::error::{ErrorCode, LedgerError};
use crate::identity::Identity;
use crate::lifecycle::{creation_verdict, update_verdict};

verus! {

/// One burn request as the engine sees it: what the caller asks for, and what
/// the payment proof verifier and the ledger delegate answer.
pub struct BurnRequest {
    pub caller: Identity,
    pub amount: nat,
    pub profit_amount: nat,
    pub proof_accepted: bool,
    pub ledger: Result<(), LedgerError>,
}

/// The sum of the amounts of `requests`.
pub open spec fn total_amount(requests: Seq<BurnRequest>) -> nat
    decreases requests.len(),
{
    if requests.len() == 0 {
        0
    } else {
        total_amount(requests.drop_last()) + requests.last().amount
    }
}

/// `history` is what a record goes through when `requests` are executed one
/// after the other and each of them succeeds: it starts with the record
/// before the first request, and each request turns one entry into the next.
pub open spec fn successful_run(history: Seq<BurnConfigView>, requests: Seq<BurnRequest>) -> bool {
    &&& history.len() == requests.len() + 1
    &&& forall|i: int|
        0 <= i < requests.len() ==> execution(
            #[trigger] history[i],
            requests[i].caller,
            requests[i].amount,
            requests[i].profit_amount,
            requests[i].proof_accepted,
            requests[i].ledger,
        ) === Ok(history[i + 1])
}

/// An authorized request is never below the minimum amount, the profit
/// threshold or the expected burn.
pub proof fn lemma_authorized_burn_meets_all_bounds(
    config: BurnConfigView,
    caller: Identity,
    amount: nat,
    profit_amount: nat,
    proof_accepted: bool,
)
    requires
        burn_verdict(config, caller, amount, profit_amount, proof_accepted) is Ok,
    ensures
        caller == config.authority,
        amount >= config.min_burn_amount,
        profit_amount >= config.profit_threshold,
        amount >= expected_burn_of(profit_amount, config.burn_percentage),
        proof_accepted,
{
}

/// A successful burn adds exactly its amount to `total_burned` and exactly
/// one to `burn_count`, and changes nothing else.
pub proof fn lemma_successful_burn_counts_once(
    config: BurnConfigView,
    request: BurnRequest,
    after: BurnConfigView,
)
    requires
        execution(
            config,
            request.caller,
            request.amount,
            request.profit_amount,
            request.proof_accepted,
            request.ledger,
        ) === Ok(after),
    ensures
        after == config.with_burn(request.amount),
        after.total_burned == config.total_burned + request.amount,
        after.burn_count == config.burn_count + 1,
        after.well_formed() == config.well_formed(),
{
}

/// Over any run of successful burns the counters never go down: a later
/// `total_burned` is at least an earlier one, and `burn_count` grows by the
/// number of burns between the two.
pub proof fn lemma_counters_never_decrease(
    history: Seq<BurnConfigView>,
    requests: Seq<BurnRequest>,
    earlier: int,
    later: int,
)
    requires
        successful_run(history, requests),
        0 <= earlier <= later < history.len(),
    ensures
        history[earlier].total_burned <= history[later].total_burned,
        history[earlier].burn_count + (later - earlier) == history[later].burn_count,
    decreases later - earlier,
{
    if earlier < later {
        lemma_counters_never_decrease(history, requests, earlier, later - 1);
        lemma_successful_burn_counts_once(history[later - 1], requests[later - 1], history[later]);
    }
}

/// After any run of successful burns `total_burned` has grown by the sum of
/// the amounts, and `burn_count` by the number of burns.
pub proof fn lemma_counters_sum_accepted_burns(
    history: Seq<BurnConfigView>,
    requests: Seq<BurnRequest>,
)
    requires
        successful_run(history, requests),
    ensures
        history.last().total_burned == history[0].total_burned + total_amount(requests),
        history.last().burn_count == history[0].burn_count + requests.len(),
    decreases requests.len(),
{
    if requests.len() > 0 {
        let n = requests.len() as int;
        let shorter_history = history.drop_last();
        let shorter_requests = requests.drop_last();
        assert(successful_run(shorter_history, shorter_requests)) by {
            assert forall|i: int| 0 <= i < shorter_requests.len() implies execution(
                #[trigger] shorter_history[i],
                shorter_requests[i].caller,
                shorter_requests[i].amount,
                shorter_requests[i].profit_amount,
                shorter_requests[i].proof_accepted,
                shorter_requests[i].ledger,
            ) === Ok(shorter_history[i + 1]) by {
                assert(shorter_history[i] == history[i]);
                assert(shorter_history[i + 1] == history[i + 1]);
                assert(shorter_requests[i] == requests[i]);
            }
        }
        lemma_counters_sum_accepted_burns(shorter_history, shorter_requests);
        assert(shorter_history.last() == history[n - 1]);
        assert(shorter_history[0] == history[0]);
        lemma_successful_burn_counts_once(history[n - 1], requests[n - 1], history[n]);
    }
}

/// Where no record exists yet, creation fails exactly when the burn
/// percentage is above 10000. A record that is created has a burn percentage
/// of at most 10000 and counters of zero.
pub proof fn lemma_creation_fails_only_on_percentage(
    authority: Identity,
    token_mint: Identity,
    bump: nat,
    profit_threshold: nat,
    burn_percentage: nat,
    min_burn_amount: nat,
)
    ensures
        creation_verdict(false, burn_percentage) is Err <==> burn_percentage > 10000,
        creation_verdict(false, burn_percentage) is Ok ==> BurnConfigView::created(
            authority,
            token_mint,
            bump,
            profit_threshold,
            burn_percentage,
            min_burn_amount,
        ).well_formed(),
        BurnConfigView::created(
            authority,
            token_mint,
            bump,
            profit_threshold,
            burn_percentage,
            min_burn_amount,
        ).total_burned == 0,
        BurnConfigView::created(
            authority,
            token_mint,
            bump,
            profit_threshold,
            burn_percentage,
            min_burn_amount,
        ).burn_count == 0,
{
}

/// For the record's authority an update fails exactly when a burn percentage
/// is given and is above 10000.
pub proof fn lemma_update_fails_only_on_percentage(
    config: BurnConfigView,
    new_burn_percentage: Option<nat>,
)
    ensures
        update_verdict(config, config.authority, new_burn_percentage) is Err <==> (
        new_burn_percentage matches Some(percentage) && percentage > 10000),
{
}

/// An update that succeeds keeps the burn percentage at most 10000.
pub proof fn lemma_update_keeps_percentage_valid(
    config: BurnConfigView,
    caller: Identity,
    new_profit_threshold: Option<nat>,
    new_burn_percentage: Option<nat>,
    new_min_burn_amount: Option<nat>,
)
    requires
        config.well_formed(),
        update_verdict(config, caller, new_burn_percentage) is Ok,
    ensures
        config.updated(
            new_profit_threshold,
            new_burn_percentage,
            new_min_burn_amount,
        ).well_formed(),
{
}

/// An update with every setting absent gives the record back as it was, and
/// an update never touches the counters or the addressing pair.
pub proof fn lemma_update_keeps_counters(
    config: BurnConfigView,
    new_profit_threshold: Option<nat>,
    new_burn_percentage: Option<nat>,
    new_min_burn_amount: Option<nat>,
)
    ensures
        config.updated(None, None, None) == config,
        config.updated(
            new_profit_threshold,
            new_burn_percentage,
            new_min_burn_amount,
        ).total_burned == config.total_burned,
        config.updated(new_profit_threshold, new_burn_percentage, new_min_burn_amount).burn_count
            == config.burn_count,
        config.updated(new_profit_threshold, new_burn_percentage, new_min_burn_amount).key()
            == config.key(),
{
}

} // verus!
