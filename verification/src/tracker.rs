//! From what a wallet holds to the positions of one market and the verdict
//! on their pair.

use crate::error::{refused_with, AppError};
use crate::pair::{calculate_pair_status, spec_pair_status};
use crate::ratio::Ratio;
use crate::types::{spec_unrealized_pnl, MarketData, Outcome, PairStatus, Position};
use vstd::prelude::*;
use vstd::string::StringExecFns;

verus! {

/// A holding as the venue reports it.
#[derive(Debug)]
pub struct PositionData {
    pub token_id: String,
    pub outcome: String,
    pub shares: i64,
    pub avg_price: i64,
    pub current_price: i64,
}

/// The positions of one market with the verdict on their pair.
#[derive(Debug)]
pub struct PositionAssessment {
    pub positions: Vec<Position>,
    pub pair_status: PairStatus,
    pub profit_lock: Option<u128>,
    pub break_even: Option<Ratio>,
}

/// `id` is one of `ids`.
pub open spec fn is_listed(ids: Seq<String>, id: Seq<char>) -> bool {
    exists|k: int| 0 <= k < ids.len() && (#[trigger] ids[k])@ == id
}

/// Those of the first `n` holdings whose token is one of `ids`, in their
/// order.
pub open spec fn listed_among(held: Seq<PositionData>, ids: Seq<String>, n: int) -> Seq<
    PositionData,
>
    decreases n,
{
    if n <= 0 {
        Seq::empty()
    } else if is_listed(ids, held[n - 1].token_id@) {
        listed_among(held, ids, n - 1).push(held[n - 1])
    } else {
        listed_among(held, ids, n - 1)
    }
}

/// The name of the first of `outcomes`, from `from` on, whose id is
/// `token_id`; `Unknown` where there is none.
pub open spec fn spec_outcome_name(outcomes: Seq<Outcome>, token_id: Seq<char>, from: int) -> Seq<
    char,
>
    decreases outcomes.len() - from,
{
    if from < 0 || from >= outcomes.len() {
        "Unknown"@
    } else if outcomes[from].id@ == token_id {
        outcomes[from].name@
    } else {
        spec_outcome_name(outcomes, token_id, from + 1)
    }
}

/// `position` is the holding `held` in a market with `outcomes`: the same
/// token and amounts, the label of the outcome that the token stands for,
/// and the unrealized profit `(current - average) * shares`.
pub open spec fn is_position_of(position: Position, outcomes: Seq<Outcome>, held: PositionData)
    -> bool {
    &&& position.token_id@ == held.token_id@
    &&& position.outcome@ == spec_outcome_name(outcomes, held.token_id@, 0)
    &&& position.shares == held.shares
    &&& position.avg_price == held.avg_price
    &&& position.current_price == held.current_price
    &&& position.unrealized_pnl == spec_unrealized_pnl(
        held.shares as int,
        held.avg_price as int,
        held.current_price as int,
    )
}

/// Whether `id` is one of `ids`.
pub fn contains_id(ids: &Vec<String>, id: &String) -> (found: bool)
    ensures
        found == is_listed(ids@, id@),
{
    let mut k: usize = 0;
    while k < ids.len()
        invariant
            k <= ids.len(),
            forall|j: int| 0 <= j < k ==> (#[trigger] ids@[j])@ != id@,
        decreases ids.len() - k,
    {
        if ids[k] == *id {
            return true;
        }
        k = k + 1;
    }
    false
}

/// The holdings whose token is one of `token_ids`, in their order.
pub fn filter_positions(held: &Vec<PositionData>, token_ids: &Vec<String>) -> (kept: Vec<
    PositionData,
>)
    ensures
        kept@ == listed_among(held@, token_ids@, held@.len() as int),
{
    let mut kept: Vec<PositionData> = Vec::new();
    let mut i: usize = 0;
    while i < held.len()
        invariant
            i <= held.len(),
            kept@ == listed_among(held@, token_ids@, i as int),
        decreases held.len() - i,
    {
        let item = &held[i];
        if contains_id(token_ids, &item.token_id) {
            kept.push(
                PositionData {
                    token_id: item.token_id.clone(),
                    outcome: item.outcome.clone(),
                    shares: item.shares,
                    avg_price: item.avg_price,
                    current_price: item.current_price,
                },
            );
        }
        i = i + 1;
    }
    kept
}

/// The label of the outcome that `token_id` stands for, `Unknown` where the
/// market has no such outcome.
pub fn outcome_name(outcomes: &Vec<Outcome>, token_id: &String) -> (name: String)
    ensures
        name@ == spec_outcome_name(outcomes@, token_id@, 0),
{
    let mut i: usize = 0;
    while i < outcomes.len()
        invariant
            i <= outcomes.len(),
            spec_outcome_name(outcomes@, token_id@, 0) == spec_outcome_name(
                outcomes@,
                token_id@,
                i as int,
            ),
        decreases outcomes.len() - i,
    {
        if outcomes[i].id == *token_id {
            return outcomes[i].name.clone();
        }
        i = i + 1;
    }
    String::from_str("Unknown")
}

/// The positions that the holdings `held` make in `market`, one for each and
/// in their order.
pub fn build_positions(market: &MarketData, held: &Vec<PositionData>) -> (positions: Vec<Position>)
    ensures
        positions@.len() == held@.len(),
        forall|i: int|
            0 <= i < held@.len() ==> is_position_of(
                #[trigger] positions@[i],
                market.outcomes@,
                held@[i],
            ),
{
    let mut positions: Vec<Position> = Vec::new();
    let mut i: usize = 0;
    while i < held.len()
        invariant
            i <= held.len(),
            positions@.len() == i,
            forall|k: int|
                0 <= k < i ==> is_position_of(
                    #[trigger] positions@[k],
                    market.outcomes@,
                    held@[k],
                ),
        decreases held.len() - i,
    {
        let item = &held[i];
        let label: String = outcome_name(&market.outcomes, &item.token_id);
        let position = Position::new(
            item.token_id.clone(),
            label,
            item.shares,
            item.avg_price,
            item.current_price,
        );
        positions.push(position);
        i = i + 1;
    }
    positions
}

/// The tokens of a market's outcomes, in their order. A market that lacks
/// one of the two sides is refused.
pub fn token_ids(market: &MarketData) -> (result: Result<Vec<String>, AppError>)
    ensures
        market.outcomes@.len() < 2 ==> refused_with(
            result,
            "Market must have at least 2 outcomes"@,
        ),
        market.outcomes@.len() >= 2 ==> (result matches Ok(ids) && ids@.len()
            == market.outcomes@.len() && forall|i: int|
            0 <= i < ids@.len() ==> (#[trigger] ids@[i])@ == market.outcomes@[i].id@),
{
    if market.outcomes.len() < 2 {
        return Err(
            AppError::Validation(String::from_str("Market must have at least 2 outcomes")),
        );
    }
    let mut ids: Vec<String> = Vec::new();
    let mut i: usize = 0;
    while i < market.outcomes.len()
        invariant
            i <= market.outcomes.len(),
            ids@.len() == i,
            forall|k: int| 0 <= k < i ==> (#[trigger] ids@[k])@ == market.outcomes@[k].id@,
        decreases market.outcomes.len() - i,
    {
        ids.push(market.outcomes[i].id.clone());
        i = i + 1;
    }
    Ok(ids)
}

/// The positions that `held` make in `market`, and where their pair stands.
pub fn assess_positions(market: &MarketData, held: &Vec<PositionData>) -> (assessment:
    PositionAssessment)
    ensures
        assessment.positions@.len() == held@.len(),
        forall|i: int|
            0 <= i < held@.len() ==> is_position_of(
                #[trigger] assessment.positions@[i],
                market.outcomes@,
                held@[i],
            ),
        (assessment.pair_status, assessment.profit_lock, assessment.break_even)
            == spec_pair_status(assessment.positions@),
{
    let positions: Vec<Position> = build_positions(market, held);
    let (pair_status, profit_lock, break_even) = calculate_pair_status(&positions);
    PositionAssessment { positions, pair_status, profit_lock, break_even }
}

} // verus!
