//! Turning a bankroll into the orders for the two sides of a market, and
//! keeping account of their submission.

use crate::error::{refused_with, AppError};
use crate::ladder::{ladder_orders, ladder_rejection, spec_order, LadderOrder, MIN_SHARES};
use crate::ratio::Ratio;
use crate::types::{
    order_request_rejection, LimitOrderBotRequest, MarketData, OrderMode, OrderResult,
};
use vstd::prelude::*;
use vstd::string::StringExecFns;

verus! {

/// The lowest price of a ladder: one cent, in millionths of a dollar.
pub const LADDER_MIN_PRICE: i64 = 10_000;

/// The highest price of a ladder: ninety-nine cents, in millionths of a
/// dollar.
pub const LADDER_MAX_PRICE: i64 = 990_000;

/// The number of ladder levels of a request that names none.
pub const DEFAULT_PRICE_LEVELS: usize = 5;

/// An order to be sent: buy `size` shares of `token_id` at `price`.
#[derive(Debug)]
pub struct OrderInstruction {
    pub token_id: String,
    pub side: String,
    pub price: Ratio,
    pub size: Ratio,
}

/// What each side may spend: half the bankroll, rounded down to the unit.
pub open spec fn side_budget(bankroll: int) -> int {
    bankroll / 2
}

/// The size of a single order that spends `budget` at `price`:
/// `max(budget / price, MIN_SHARES)`. At a price of zero a positive budget
/// buys without bound, and no other budget buys anything.
pub open spec fn spec_straddle_size(budget: int, price: int) -> Ratio {
    if price > 0 && budget >= MIN_SHARES * price {
        Ratio { num: budget as i128, den: price as i128 }
    } else if price < 0 && budget <= MIN_SHARES * price {
        Ratio { num: (-budget) as i128, den: (-price) as i128 }
    } else if price == 0 && budget > 0 {
        Ratio { num: budget as i128, den: 0 }
    } else {
        Ratio { num: MIN_SHARES, den: 1 }
    }
}

/// The number of ladder levels that a request means.
pub open spec fn spec_levels(price_levels: Option<usize>) -> usize {
    match price_levels {
        Some(levels) => levels,
        None => DEFAULT_PRICE_LEVELS,
    }
}

/// Why no orders are planned, if none are. The rules are tried in this
/// order: the request's own, the market's two sides, the ladder's.
pub open spec fn plan_rejection(request: LimitOrderBotRequest, market: MarketData) -> Option<
    Seq<char>,
> {
    match order_request_rejection(request.wallet_private_key@, request.bankroll_usd as int) {
        Some(reason) => Some(reason),
        None => if market.outcomes@.len() < 2 {
            Some("Market must have at least 2 outcomes"@)
        } else {
            match request.mode {
                OrderMode::Simple => None,
                OrderMode::Ladder => ladder_rejection(
                    side_budget(request.bankroll_usd as int),
                    spec_levels(request.price_levels) as int,
                    LADDER_MIN_PRICE as int,
                    LADDER_MAX_PRICE as int,
                ),
            }
        },
    }
}

/// `instruction` buys `size` shares of `token_id` at `price`.
pub open spec fn is_buy(instruction: OrderInstruction, token_id: Seq<char>, price: Ratio, size: Ratio)
    -> bool {
    &&& instruction.token_id@ == token_id
    &&& instruction.side@ == "buy"@
    &&& instruction.price == price
    &&& instruction.size == size
}

/// `plan` is the straddle for `request` in `market`: one order on the first
/// outcome and one on the second, each at the outcome's price.
pub open spec fn is_straddle(
    plan: Seq<OrderInstruction>,
    request: LimitOrderBotRequest,
    market: MarketData,
) -> bool {
    let budget = side_budget(request.bankroll_usd as int);
    &&& plan.len() == 2
    &&& forall|side: int|
        0 <= side < 2 ==> is_buy(
            #[trigger] plan[side],
            market.outcomes@[side].id@,
            Ratio { num: market.outcomes@[side].price as i128, den: 1 },
            spec_straddle_size(budget, market.outcomes@[side].price as int),
        )
}

/// `plan` is the pair of ladders for `request` in `market`: the ladder on
/// the first outcome, lowest price first, then the same ladder on the
/// second.
pub open spec fn is_ladder_pair(
    plan: Seq<OrderInstruction>,
    request: LimitOrderBotRequest,
    market: MarketData,
) -> bool {
    let budget = side_budget(request.bankroll_usd as int);
    let levels = spec_levels(request.price_levels) as int;
    &&& plan.len() == 2 * levels
    &&& forall|k: int|
        0 <= k < 2 * levels ==> {
            let rung = spec_order(
                budget,
                LADDER_MIN_PRICE as int,
                LADDER_MAX_PRICE as int,
                levels,
                k % levels,
            );
            is_buy(#[trigger] plan[k], market.outcomes@[k / levels].id@, rung.price, rung.size)
        }
}

/// The size of a single order that spends `budget` at `price`.
pub fn straddle_size(budget: i64, price: i64) -> (size: Ratio)
    ensures
        size == spec_straddle_size(budget as int, price as int),
        size.wf(),
        (Ratio { num: MIN_SHARES, den: 1 }).le(size),
{
    if price > 0 && budget as i128 >= MIN_SHARES * (price as i128) {
        Ratio { num: budget as i128, den: price as i128 }
    } else if price < 0 && budget as i128 <= MIN_SHARES * (price as i128) {
        Ratio { num: -(budget as i128), den: -(price as i128) }
    } else if price == 0 && budget > 0 {
        Ratio { num: budget as i128, den: 0 }
    } else {
        Ratio { num: MIN_SHARES, den: 1 }
    }
}

fn push_ladder(plan: &mut Vec<OrderInstruction>, token_id: &String, rungs: &Vec<LadderOrder>)
    ensures
        final(plan)@.len() == old(plan)@.len() + rungs@.len(),
        forall|k: int| 0 <= k < old(plan)@.len() ==> final(plan)@[k] == old(plan)@[k],
        forall|k: int|
            0 <= k < rungs@.len() ==> is_buy(
                #[trigger] final(plan)@[old(plan)@.len() + k],
                token_id@,
                rungs@[k].price,
                rungs@[k].size,
            ),
{
    let ghost before = plan@;
    let mut k: usize = 0;
    while k < rungs.len()
        invariant
            k <= rungs.len(),
            plan@.len() == before.len() + k,
            forall|j: int| 0 <= j < before.len() ==> plan@[j] == before[j],
            forall|j: int|
                0 <= j < k ==> is_buy(
                    #[trigger] plan@[before.len() + j],
                    token_id@,
                    rungs@[j].price,
                    rungs@[j].size,
                ),
        decreases rungs.len() - k,
    {
        plan.push(
            OrderInstruction {
                token_id: token_id.clone(),
                side: String::from_str("buy"),
                price: rungs[k].price,
                size: rungs[k].size,
            },
        );
        k = k + 1;
    }
}

/// The orders for `request` in `market`, in the order in which they are to
/// be sent.
///
/// A straddle is one order on each of the first two outcomes at its price.
/// A ladder request gets the same ladder, from one cent to ninety-nine, on
/// each of the two. Refused is a request without a key or with a bankroll
/// that is not positive, a market with fewer than two outcomes, and a ladder
/// that [`ladder_orders`] refuses.
pub fn plan_orders(request: &LimitOrderBotRequest, market: &MarketData) -> (result: Result<
    Vec<OrderInstruction>,
    AppError,
>)
    ensures
        match plan_rejection(*request, *market) {
            Some(reason) => refused_with(result, reason),
            None => result matches Ok(plan) && match request.mode {
                OrderMode::Simple => is_straddle(plan@, *request, *market),
                OrderMode::Ladder => is_ladder_pair(plan@, *request, *market),
            },
        },
{
    match request.validate() {
        Ok(_) => {},
        Err(error) => {
            return Err(error);
        },
    }
    match market.require_pair() {
        Ok(_) => {},
        Err(error) => {
            return Err(error);
        },
    }
    let budget: i64 = request.bankroll_usd / 2;
    let mut plan: Vec<OrderInstruction> = Vec::new();
    match request.mode {
        OrderMode::Simple => {
            let mut side: usize = 0;
            while side < 2
                invariant
                    side <= 2,
                    market.outcomes@.len() >= 2,
                    budget == side_budget(request.bankroll_usd as int),
                    plan@.len() == side,
                    forall|s: int|
                        0 <= s < side ==> is_buy(
                            #[trigger] plan@[s],
                            market.outcomes@[s].id@,
                            Ratio { num: market.outcomes@[s].price as i128, den: 1 },
                            spec_straddle_size(budget as int, market.outcomes@[s].price as int),
                        ),
                decreases 2 - side,
            {
                let outcome = &market.outcomes[side];
                plan.push(
                    OrderInstruction {
                        token_id: outcome.id.clone(),
                        side: String::from_str("buy"),
                        price: Ratio { num: outcome.price as i128, den: 1 },
                        size: straddle_size(budget, outcome.price),
                    },
                );
                side = side + 1;
            }
            Ok(plan)
        },
        OrderMode::Ladder => {
            let levels: usize = match request.price_levels {
                Some(levels) => levels,
                None => DEFAULT_PRICE_LEVELS,
            };
            let rungs: Vec<LadderOrder> = match ladder_orders(
                budget,
                levels,
                LADDER_MIN_PRICE,
                LADDER_MAX_PRICE,
            ) {
                Ok(rungs) => rungs,
                Err(error) => {
                    return Err(error);
                },
            };
            push_ladder(&mut plan, &market.outcomes[0].id, &rungs);
            push_ladder(&mut plan, &market.outcomes[1].id, &rungs);
            assert forall|k: int| 0 <= k < 2 * levels implies {
                let rung = spec_order(
                    budget as int,
                    LADDER_MIN_PRICE as int,
                    LADDER_MAX_PRICE as int,
                    levels as int,
                    k % (levels as int),
                );
                is_buy(
                    #[trigger] plan@[k],
                    market.outcomes@[k / (levels as int)].id@,
                    rung.price,
                    rung.size,
                )
            } by {
                if k < levels {
                    assert(k % (levels as int) == k && k / (levels as int) == 0)
                        by (nonlinear_arith)
                        requires
                            0 <= k < levels,
                    ;
                    assert(plan@[0 + k] == plan@[k]);
                } else {
                    let j = k - levels;
                    assert(k % (levels as int) == j && k / (levels as int) == 1)
                        by (nonlinear_arith)
                        requires
                            0 <= j < levels,
                            k == j + levels,
                    ;
                    assert(plan@[levels + j] == plan@[k]);
                }
            }
            Ok(plan)
        },
    }
}

/// What follows the submission of one order of a plan.
#[derive(Debug)]
pub enum SubmissionStep {
    /// Send the order at index `next` of the plan.
    Submit { submitted: Vec<OrderResult>, next: usize },
    /// Nothing is left to send, or an order failed: report `orders`, the
    /// answers so far, and the failure if there was one.
    Report { orders: Vec<OrderResult>, failure: Option<AppError> },
}

/// What follows when the venue answered the order at index
/// `submitted.len()` of a plan of `planned` orders with `outcome`.
pub open spec fn spec_after_submission(
    planned: int,
    submitted: Seq<OrderResult>,
    outcome: Result<OrderResult, AppError>,
) -> (Seq<OrderResult>, Option<int>, Option<AppError>) {
    match outcome {
        Ok(order) => if submitted.len() + 1 < planned {
            (submitted.push(order), Some(submitted.len() as int + 1), None)
        } else {
            (submitted.push(order), None, None)
        },
        Err(error) => (submitted, None, Some(error)),
    }
}

/// The step after the first order: send it, or report at once where the plan
/// is empty.
pub fn begin_submission(planned: usize) -> (step: SubmissionStep)
    ensures
        planned > 0 ==> (step matches SubmissionStep::Submit { submitted, next }
            && submitted@.len() == 0 && next == 0),
        planned == 0 ==> (step matches SubmissionStep::Report { orders, failure } && orders@.len()
            == 0 && failure is None),
{
    if planned > 0 {
        SubmissionStep::Submit { submitted: Vec::new(), next: 0 }
    } else {
        SubmissionStep::Report { orders: Vec::new(), failure: None }
    }
}

/// Takes the venue's answer to the order at index `submitted.len()`: an
/// accepted order is kept and the next one is sent, in the order of the
/// plan; a failure ends the run, and the orders accepted before it are
/// reported with it.
pub fn after_submission(
    planned: usize,
    submitted: Vec<OrderResult>,
    outcome: Result<OrderResult, AppError>,
) -> (step: SubmissionStep)
    ensures
        ({
            let (orders, next, failure) = spec_after_submission(
                planned as int,
                submitted@,
                outcome,
            );
            match step {
                SubmissionStep::Submit { submitted: kept, next: index } => kept@ == orders && next
                    == Some(index as int),
                SubmissionStep::Report { orders: kept, failure: reason } => kept@ == orders && next
                    is None && reason == failure,
            }
        }),
{
    let mut submitted = submitted;
    match outcome {
        Ok(order) => {
            submitted.push(order);
            if submitted.len() < planned {
                let next: usize = submitted.len();
                SubmissionStep::Submit { submitted, next }
            } else {
                SubmissionStep::Report { orders: submitted, failure: None }
            }
        },
        Err(error) => SubmissionStep::Report { orders: submitted, failure: Some(error) },
    }
}

} // verus!
