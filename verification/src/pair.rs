//! Pairing the two opposite positions of a market and judging where the pair
//! stands.
//!
//! The sides are told apart by their outcome labels: the "Up" side is the
//! first position whose label holds the text `Up`, the "Down" side the first
//! whose label holds `Down`. A label that holds both, or a venue that names
//! its outcomes otherwise, is not recognised as anything better: the rule
//! follows the labels and nothing else.

use crate::ratio::Ratio;
use crate::text::{contains_text, text_contains};
use crate::types::{PairStatus, Position};
use vstd::prelude::*;

verus! {

/// The label text that marks the rising side.
pub open spec fn up_label() -> Seq<char> {
    "Up"@
}

/// The label text that marks the falling side.
pub open spec fn down_label() -> Seq<char> {
    "Down"@
}

/// The index of the first position at or after `from` whose outcome label
/// holds `label`.
pub open spec fn first_with_label(positions: Seq<Position>, label: Seq<char>, from: int) -> Option<
    int,
>
    decreases positions.len() - from,
{
    if from < 0 || from >= positions.len() {
        None
    } else if contains_text(positions[from].outcome@, label) {
        Some(from)
    } else {
        first_with_label(positions, label, from + 1)
    }
}

/// The verdict on two positions that form a pair, by the sum of their
/// unrealized profits.
pub open spec fn paired_verdict(up: Position, down: Position) -> (
    PairStatus,
    Option<u128>,
    Option<Ratio>,
) {
    let total = up.unrealized_pnl + down.unrealized_pnl;
    if total > 0 {
        (PairStatus::ProfitLocked, Some(total as u128), None)
    } else if total == 0 {
        (PairStatus::BreakEven, None, Some(Ratio { num: 0, den: 1 }))
    } else {
        (
            PairStatus::AtRisk,
            None,
            Some(Ratio { num: (up.avg_price + down.avg_price) as i128, den: 2 }),
        )
    }
}

/// The verdict on a set of positions: the status, the locked profit and the
/// break-even price.
pub open spec fn spec_pair_status(positions: Seq<Position>) -> (
    PairStatus,
    Option<u128>,
    Option<Ratio>,
) {
    if positions.len() < 2 {
        (PairStatus::NoPosition, None, None)
    } else {
        match (
            first_with_label(positions, up_label(), 0),
            first_with_label(positions, down_label(), 0),
        ) {
            (Some(u), Some(d)) => paired_verdict(positions[u], positions[d]),
            _ => (PairStatus::NoPosition, None, None),
        }
    }
}

/// The figures that come with a verdict are those of its status: a locked
/// profit, which is positive, with `ProfitLocked` and no other status; a
/// break-even price with `AtRisk` and `BreakEven` and no other, and it is
/// zero with `BreakEven`.
pub open spec fn figures_follow_status(verdict: (PairStatus, Option<u128>, Option<Ratio>)) -> bool {
    let (status, profit_lock, break_even) = verdict;
    &&& profit_lock is Some <==> status == PairStatus::ProfitLocked
    &&& break_even is Some <==> (status == PairStatus::AtRisk || status == PairStatus::BreakEven)
    &&& profit_lock matches Some(p) ==> p > 0
    &&& break_even matches Some(b) ==> b.wf() && !b.is_unbounded()
    &&& status == PairStatus::BreakEven ==> break_even == Some(Ratio { num: 0, den: 1 })
}

/// What `first_with_label` finds is the least index that carries the label.
pub proof fn lemma_first_with_label(positions: Seq<Position>, label: Seq<char>, from: int)
    requires
        0 <= from,
    ensures
        match first_with_label(positions, label, from) {
            Some(i) => from <= i < positions.len() && contains_text(positions[i].outcome@, label)
                && forall|j: int| from <= j < i ==> !contains_text(
                    #[trigger] positions[j].outcome@,
                    label,
                ),
            None => forall|j: int|
                from <= j < positions.len() ==> !contains_text(
                    #[trigger] positions[j].outcome@,
                    label,
                ),
        },
    decreases positions.len() - from,
{
    if from < positions.len() && !contains_text(positions[from].outcome@, label) {
        lemma_first_with_label(positions, label, from + 1);
    }
}

/// Every set of positions gets one verdict, and the verdict decides which
/// figures come with it: a locked profit with `ProfitLocked` and no other, a
/// break-even price with `AtRisk` and `BreakEven` and no other.
pub proof fn lemma_verdict_figures(positions: Seq<Position>)
    ensures
        figures_follow_status(spec_pair_status(positions)),
{
}

/// The verdict rests on the labels, the unrealized profits and the average
/// prices, position by position, and on nothing else: two sets that agree on
/// those get the same verdict.
pub proof fn lemma_verdict_is_a_function_of_what_it_reads(a: Seq<Position>, b: Seq<Position>)
    requires
        a.len() == b.len(),
        forall|i: int|
            0 <= i < a.len() ==> {
                &&& (#[trigger] a[i]).outcome@ == b[i].outcome@
                &&& a[i].unrealized_pnl == b[i].unrealized_pnl
                &&& a[i].avg_price == b[i].avg_price
            },
    ensures
        spec_pair_status(a) == spec_pair_status(b),
{
    lemma_same_labels_same_first(a, b, up_label(), 0);
    lemma_same_labels_same_first(a, b, down_label(), 0);
    lemma_first_with_label(a, up_label(), 0);
    lemma_first_with_label(a, down_label(), 0);
}

proof fn lemma_same_labels_same_first(
    a: Seq<Position>,
    b: Seq<Position>,
    label: Seq<char>,
    from: int,
)
    requires
        0 <= from,
        a.len() == b.len(),
        forall|i: int| 0 <= i < a.len() ==> (#[trigger] a[i]).outcome@ == b[i].outcome@,
    ensures
        first_with_label(a, label, from) == first_with_label(b, label, from),
    decreases a.len() - from,
{
    if from < a.len() {
        assert(a[from].outcome@ == b[from].outcome@);
        if !contains_text(a[from].outcome@, label) {
            lemma_same_labels_same_first(a, b, label, from + 1);
        }
    }
}

/// The index of the first position whose outcome label holds `label`.
pub fn find_side(positions: &Vec<Position>, label: &str) -> (found: Option<usize>)
    ensures
        match found {
            Some(i) => first_with_label(positions@, label@, 0) == Some(i as int),
            None => first_with_label(positions@, label@, 0) is None,
        },
{
    let n: usize = positions.len();
    let mut i: usize = 0;
    while i < n
        invariant
            i <= n,
            n == positions@.len(),
            first_with_label(positions@, label@, 0) == first_with_label(
                positions@,
                label@,
                i as int,
            ),
        decreases n - i,
    {
        if text_contains(positions[i].outcome.as_str(), label) {
            return Some(i);
        }
        i = i + 1;
    }
    None
}

/// The verdict on two positions that form a pair.
pub fn judge_pair(up: &Position, down: &Position) -> (verdict: (
    PairStatus,
    Option<u128>,
    Option<Ratio>,
))
    ensures
        verdict == paired_verdict(*up, *down),
{
    let a: i128 = up.unrealized_pnl;
    let b: i128 = down.unrealized_pnl;
    let break_even = Ratio { num: up.avg_price as i128 + down.avg_price as i128, den: 2 };
    if a >= 0 && b >= 0 {
        let total: u128 = a as u128 + b as u128;
        if total > 0 {
            (PairStatus::ProfitLocked, Some(total), None)
        } else {
            (PairStatus::BreakEven, None, Some(Ratio { num: 0, den: 1 }))
        }
    } else if a < 0 && b < 0 {
        (PairStatus::AtRisk, None, Some(break_even))
    } else {
        let total: i128 = a + b;
        if total > 0 {
            (PairStatus::ProfitLocked, Some(total as u128), None)
        } else if total == 0 {
            (PairStatus::BreakEven, None, Some(Ratio { num: 0, den: 1 }))
        } else {
            (PairStatus::AtRisk, None, Some(break_even))
        }
    }
}

/// Where the pair among `positions` stands: the status, the profit that is
/// locked in (with `ProfitLocked` only) and the break-even price (with
/// `AtRisk` and `BreakEven` only).
///
/// Fewer than two positions, or no position for one of the two sides, is
/// `NoPosition` without figures.
pub fn calculate_pair_status(positions: &Vec<Position>) -> (verdict: (
    PairStatus,
    Option<u128>,
    Option<Ratio>,
))
    ensures
        verdict == spec_pair_status(positions@),
        figures_follow_status(verdict),
{
    if positions.len() < 2 {
        return (PairStatus::NoPosition, None, None);
    }
    let up = find_side(positions, "Up");
    let down = find_side(positions, "Down");
    match (up, down) {
        (Some(u), Some(d)) => {
            proof {
                lemma_first_with_label(positions@, up_label(), 0);
                lemma_first_with_label(positions@, down_label(), 0);
            }
            judge_pair(&positions[u], &positions[d])
        },
        _ => (PairStatus::NoPosition, None, None),
    }
}

} // verus!
