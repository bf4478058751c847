//! Ladder order sizing: a bankroll spread over evenly spaced price levels,
//! with a weight that halves from each level to the next higher one.

use crate::error::{refused_with, AppError};
use crate::ratio::Ratio;
use vstd::arithmetic::power2::{
    lemma2_to64, lemma2_to64_rest, lemma_pow2_pos, lemma_pow2_strictly_increases,
    lemma_pow2_unfold, pow2,
};
use vstd::prelude::*;
use vstd::string::StringExecFns;

verus! {

/// The smallest order the venue accepts, in whole shares.
pub const MIN_SHARES: i128 = 5;

/// The most levels a ladder may have. With it every product below fits in
/// 128 bits whatever 64-bit amounts are given.
pub const MAX_PRICE_LEVELS: usize = 48;

/// One rung of a ladder: buy `size` shares at `price`.
///
/// `price` is in the unit of the prices given, `size` in whole shares.
#[derive(Clone, Copy, Debug, PartialEq, Eq)]
pub struct LadderOrder {
    pub price: Ratio,
    pub size: Ratio,
}

/// The weight of level `i`: `2^(levels - i)`, so the lowest price weighs most.
pub open spec fn level_weight(levels: int, i: int) -> int {
    pow2((levels - i) as nat) as int
}

/// What every weighted share of the bankroll is divided by: `2^levels - 1`.
///
/// The weights of levels `0..levels` add up to twice this, see
/// [`lemma_weights_sum_to_twice_normalizer`].
pub open spec fn weight_normalizer(levels: int) -> int {
    pow2(levels as nat) - 1
}

/// Numerator of the price of level `i` over the denominator `levels - 1`:
/// the price is `min + (max - min) * i / (levels - 1)`.
pub open spec fn price_num(min_price: int, max_price: int, levels: int, i: int) -> int {
    min_price * (levels - 1) + (max_price - min_price) * i
}

/// Numerator of `allocation / price` at level `i`, where the allocation is
/// `bankroll * weight / normalizer`.
pub open spec fn raw_size_num(bankroll: int, levels: int, i: int) -> int {
    bankroll * level_weight(levels, i) * (levels - 1)
}

/// Denominator of `allocation / price` at level `i`.
pub open spec fn raw_size_den(min_price: int, max_price: int, levels: int, i: int) -> int {
    weight_normalizer(levels) * price_num(min_price, max_price, levels, i)
}

/// Whether `allocation / price` at level `i` reaches the minimum order. A
/// price of zero makes it unbounded; below zero it is negative.
pub open spec fn raw_size_applies(
    bankroll: int,
    min_price: int,
    max_price: int,
    levels: int,
    i: int,
) -> bool {
    &&& price_num(min_price, max_price, levels, i) >= 0
    &&& raw_size_num(bankroll, levels, i) >= MIN_SHARES * raw_size_den(
        min_price,
        max_price,
        levels,
        i,
    )
}

/// The order at level `i`: the interpolated price and
/// `max(allocation / price, MIN_SHARES)`.
pub open spec fn spec_order(
    bankroll: int,
    min_price: int,
    max_price: int,
    levels: int,
    i: int,
) -> LadderOrder {
    LadderOrder {
        price: Ratio {
            num: price_num(min_price, max_price, levels, i) as i128,
            den: (levels - 1) as i128,
        },
        size: if raw_size_applies(bankroll, min_price, max_price, levels, i) {
            Ratio {
                num: raw_size_num(bankroll, levels, i) as i128,
                den: raw_size_den(min_price, max_price, levels, i) as i128,
            }
        } else {
            Ratio { num: MIN_SHARES, den: 1 }
        },
    }
}

/// The whole ladder: the orders of levels `0..levels`, lowest price first.
pub open spec fn spec_ladder(bankroll: int, min_price: int, max_price: int, levels: int) -> Seq<
    LadderOrder,
> {
    Seq::new(levels as nat, |i: int| spec_order(bankroll, min_price, max_price, levels, i))
}

/// Why a ladder is refused, if it is. The rules are tried in this order.
pub open spec fn ladder_rejection(
    bankroll: int,
    levels: int,
    min_price: int,
    max_price: int,
) -> Option<Seq<char>> {
    if bankroll <= 0 {
        Some("Bankroll must be greater than 0"@)
    } else if levels < 2 {
        Some("Price levels must be at least 2"@)
    } else if levels > MAX_PRICE_LEVELS {
        Some("Price levels must be at most 48"@)
    } else if min_price >= max_price {
        Some("Minimum price must be below maximum price"@)
    } else {
        None
    }
}

/// What every ladder is: its prices are finite and rise strictly from each
/// order to the next, and no order is smaller than the minimum.
pub open spec fn is_rising_ladder(orders: Seq<LadderOrder>) -> bool {
    &&& forall|i: int|
        0 <= i < orders.len() ==> {
            let o = #[trigger] orders[i];
            &&& o.price.wf()
            &&& !o.price.is_unbounded()
            &&& o.size.wf()
            &&& (Ratio { num: MIN_SHARES, den: 1 }).le(o.size)
        }
    &&& forall|i: int, j: int|
        0 <= i < j < orders.len() ==> (#[trigger] orders[i]).price.lt((#[trigger] orders[j]).price)
}

/// The weights fall strictly from each level to every higher one.
pub proof fn lemma_weight_strictly_decreasing(levels: int, i: int, j: int)
    requires
        0 <= i < j <= levels,
    ensures
        level_weight(levels, i) > level_weight(levels, j),
{
    lemma_pow2_strictly_increases((levels - j) as nat, (levels - i) as nat);
}

/// The sum of the weights of levels `0..n`.
pub open spec fn weight_sum(levels: int, n: int) -> int
    decreases n,
{
    if n <= 0 {
        0
    } else {
        weight_sum(levels, n - 1) + level_weight(levels, n - 1)
    }
}

proof fn lemma_weight_sum_prefix(levels: int, n: int)
    requires
        0 <= n <= levels,
    ensures
        weight_sum(levels, n) == 2 * pow2(levels as nat) - 2 * pow2((levels - n) as nat),
    decreases n,
{
    if n > 0 {
        lemma_weight_sum_prefix(levels, n - 1);
        lemma_pow2_unfold((levels - n + 1) as nat);
    }
}

/// All the weights together are twice the normalizer, not the normalizer: a
/// ladder allocates two bankrolls before the minimum order is applied.
pub proof fn lemma_weights_sum_to_twice_normalizer(levels: int)
    requires
        levels >= 0,
    ensures
        weight_sum(levels, levels) == 2 * weight_normalizer(levels),
{
    lemma_weight_sum_prefix(levels, levels);
    lemma2_to64();
}

proof fn lemma_weight_bounds(levels: int, i: int)
    requires
        0 <= i < levels <= MAX_PRICE_LEVELS,
    ensures
        2 <= level_weight(levels, i) <= 0x1_0000_0000_0000,
        1 <= weight_normalizer(levels) < 0x1_0000_0000_0000,
{
    lemma2_to64();
    lemma2_to64_rest();
    if levels - i > 1 {
        lemma_pow2_strictly_increases(1, (levels - i) as nat);
    }
    if levels - i < 48 {
        lemma_pow2_strictly_increases((levels - i) as nat, 48);
    }
    if levels < 48 {
        lemma_pow2_strictly_increases(levels as nat, 48);
    }
    lemma_pow2_strictly_increases(0, levels as nat);
}

proof fn lemma_price_num_bounds(min_price: int, max_price: int, levels: int, i: int)
    requires
        i64::MIN <= min_price < max_price <= i64::MAX,
        0 <= i < levels <= MAX_PRICE_LEVELS,
    ensures
        -0x1000_0000_0000_0000_0000 < price_num(min_price, max_price, levels, i)
            < 0x1000_0000_0000_0000_0000,
{
    assert(-0x8000_0000_0000_0000 * 47 <= min_price * (levels - 1) <= 0x8000_0000_0000_0000 * 47)
        by (nonlinear_arith)
        requires
            -0x8000_0000_0000_0000 <= min_price < 0x8000_0000_0000_0000,
            0 <= levels - 1 <= 47,
    ;
    assert(0 <= (max_price - min_price) * i <= 0x1_0000_0000_0000_0000 * 47) by (nonlinear_arith)
        requires
            0 < max_price - min_price < 0x1_0000_0000_0000_0000,
            0 <= i <= 47,
    ;
}

proof fn lemma_raw_size_bounds(bankroll: int, min_price: int, max_price: int, levels: int, i: int)
    requires
        0 < bankroll <= i64::MAX,
        i64::MIN <= min_price < max_price <= i64::MAX,
        0 <= i < levels <= MAX_PRICE_LEVELS,
        2 <= levels,
    ensures
        0 < bankroll * level_weight(levels, i) <= 0x8000_0000_0000_0000 * 0x1_0000_0000_0000,
        0 < raw_size_num(bankroll, levels, i) <= 0x8000_0000_0000_0000 * 0x1_0000_0000_0000 * 47,
        -0x1000_0000_0000_0000_0000 * 0x1_0000_0000_0000 < raw_size_den(
            min_price,
            max_price,
            levels,
            i,
        ) < 0x1000_0000_0000_0000_0000 * 0x1_0000_0000_0000,
        (price_num(min_price, max_price, levels, i) > 0) == (raw_size_den(
            min_price,
            max_price,
            levels,
            i,
        ) > 0),
        (price_num(min_price, max_price, levels, i) == 0) == (raw_size_den(
            min_price,
            max_price,
            levels,
            i,
        ) == 0),
{
    lemma_weight_bounds(levels, i);
    lemma_price_num_bounds(min_price, max_price, levels, i);
    let w = level_weight(levels, i);
    let n = weight_normalizer(levels);
    let p = price_num(min_price, max_price, levels, i);
    assert(0 < bankroll * w <= 0x8000_0000_0000_0000 * 0x1_0000_0000_0000) by (nonlinear_arith)
        requires
            0 < bankroll < 0x8000_0000_0000_0000,
            2 <= w <= 0x1_0000_0000_0000,
    ;
    let bw = bankroll * w;
    assert(0 < bw * (levels - 1) <= 0x8000_0000_0000_0000 * 0x1_0000_0000_0000 * 47)
        by (nonlinear_arith)
        requires
            0 < bw <= 0x8000_0000_0000_0000 * 0x1_0000_0000_0000,
            1 <= levels - 1 <= 47,
    ;
    assert(-0x1000_0000_0000_0000_0000 * 0x1_0000_0000_0000 < n * p
        < 0x1000_0000_0000_0000_0000 * 0x1_0000_0000_0000 && ((p > 0) == (n * p > 0)) && ((p == 0)
        == (n * p == 0))) by (nonlinear_arith)
        requires
            1 <= n < 0x1_0000_0000_0000,
            -0x1000_0000_0000_0000_0000 < p < 0x1000_0000_0000_0000_0000,
    ;
}

/// What holds of every ladder that is not refused: it has one order for
/// each level, its prices rise strictly from `min_price` at the first level
/// to `max_price` at the last, and no order is smaller than the minimum.
pub proof fn lemma_ladder_shape(bankroll: i64, levels: usize, min_price: i64, max_price: i64)
    requires
        ladder_rejection(bankroll as int, levels as int, min_price as int, max_price as int)
            is None,
    ensures
        ({
            let ladder = spec_ladder(
                bankroll as int,
                min_price as int,
                max_price as int,
                levels as int,
            );
            &&& ladder.len() == levels
            &&& is_rising_ladder(ladder)
            &&& ladder[0].price == Ratio {
                num: (min_price * (levels - 1)) as i128,
                den: (levels - 1) as i128,
            }
            &&& ladder[levels - 1].price == Ratio {
                num: (max_price * (levels - 1)) as i128,
                den: (levels - 1) as i128,
            }
        }),
{
    let b = bankroll as int;
    let lo = min_price as int;
    let hi = max_price as int;
    let n = levels as int;
    let ladder = spec_ladder(b, lo, hi, n);
    assert forall|i: int| 0 <= i < n implies {
        let o = #[trigger] ladder[i];
        &&& o.price.wf()
        &&& !o.price.is_unbounded()
        &&& o.size.wf()
        &&& (Ratio { num: MIN_SHARES, den: 1 }).le(o.size)
    } by {
        lemma_price_num_bounds(lo, hi, n, i);
        lemma_raw_size_bounds(b, lo, hi, n, i);
    }
    assert forall|i: int, j: int| 0 <= i < j < n implies (#[trigger] ladder[i]).price.lt(
        (#[trigger] ladder[j]).price,
    ) by {
        lemma_price_num_bounds(lo, hi, n, i);
        lemma_price_num_bounds(lo, hi, n, j);
        let pi = price_num(lo, hi, n, i);
        let pj = price_num(lo, hi, n, j);
        assert((hi - lo) * i < (hi - lo) * j) by (nonlinear_arith)
            requires
                hi - lo > 0,
                i < j,
        ;
        assert(pi * (n - 1) < pj * (n - 1)) by (nonlinear_arith)
            requires
                pi < pj,
                n - 1 > 0,
        ;
    }
    assert(lo * (n - 1) + (hi - lo) * (n - 1) == hi * (n - 1)) by (nonlinear_arith);
    assert((hi - lo) * 0 == 0);
}

/// `2^n`.
pub fn pow2_i128(n: usize) -> (r: i128)
    requires
        n <= MAX_PRICE_LEVELS,
    ensures
        r == pow2(n as nat),
        1 <= r <= 0x1_0000_0000_0000,
{
    let mut r: i128 = 1;
    let mut k: usize = 0;
    proof {
        lemma2_to64();
        lemma2_to64_rest();
    }
    while k < n
        invariant
            k <= n <= MAX_PRICE_LEVELS,
            r == pow2(k as nat),
            1 <= r,
            pow2(48) == 0x1_0000_0000_0000,
        decreases n - k,
    {
        proof {
            lemma_pow2_unfold((k + 1) as nat);
            if k + 1 < 48 {
                lemma_pow2_strictly_increases((k + 1) as nat, 48);
            }
        }
        r = r * 2;
        k = k + 1;
    }
    proof {
        lemma_pow2_pos(n as nat);
        if n < 48 {
            lemma_pow2_strictly_increases(n as nat, 48);
        }
    }
    r
}

/// The weight of level `i` of a ladder of `levels` levels.
pub fn ladder_weight(levels: usize, i: usize) -> (w: i128)
    requires
        i <= levels <= MAX_PRICE_LEVELS,
    ensures
        w == level_weight(levels as int, i as int),
{
    pow2_i128(levels - i)
}

/// The order at level `i` of a ladder whose inputs were accepted.
pub fn ladder_order_at(
    bankroll: i64,
    levels: usize,
    min_price: i64,
    max_price: i64,
    i: usize,
) -> (order: LadderOrder)
    requires
        ladder_rejection(bankroll as int, levels as int, min_price as int, max_price as int)
            is None,
        i < levels,
    ensures
        order == spec_order(
            bankroll as int,
            min_price as int,
            max_price as int,
            levels as int,
            i as int,
        ),
{
    proof {
        lemma_weight_bounds(levels as int, i as int);
        lemma_price_num_bounds(min_price as int, max_price as int, levels as int, i as int);
        lemma_raw_size_bounds(
            bankroll as int,
            min_price as int,
            max_price as int,
            levels as int,
            i as int,
        );
    }
    let steps: i128 = (levels - 1) as i128;
    let span: i128 = max_price as i128 - min_price as i128;
    assert(-0x8000_0000_0000_0000 * 47 <= min_price * steps <= 0x8000_0000_0000_0000 * 47)
        by (nonlinear_arith)
        requires
            -0x8000_0000_0000_0000 <= min_price < 0x8000_0000_0000_0000,
            0 <= steps <= 47,
    ;
    assert(0 <= span * i <= 0x1_0000_0000_0000_0000 * 47) by (nonlinear_arith)
        requires
            0 < span < 0x1_0000_0000_0000_0000,
            0 <= i <= 47,
    ;
    let p_num: i128 = min_price as i128 * steps + span * (i as i128);
    let price = Ratio { num: p_num, den: steps };
    let weight: i128 = ladder_weight(levels, i);
    let normalizer: i128 = pow2_i128(levels) - 1;
    let weighted: i128 = bankroll as i128 * weight;
    let size_num: i128 = weighted * steps;
    let size_den: i128 = normalizer * p_num;
    let size = if p_num >= 0 && size_num >= MIN_SHARES * size_den {
        Ratio { num: size_num, den: size_den }
    } else {
        Ratio { num: MIN_SHARES, den: 1 }
    };
    LadderOrder { price, size }
}

/// The ladder for `bankroll` over `levels` prices from `min_price` to
/// `max_price`, lowest price first.
///
/// Refused with a validation error, by the first rule that fails: the
/// bankroll is not positive, there are fewer than two levels or more than
/// [`MAX_PRICE_LEVELS`], or `min_price` is not below `max_price`.
pub fn ladder_orders(bankroll: i64, levels: usize, min_price: i64, max_price: i64) -> (result:
    Result<Vec<LadderOrder>, AppError>)
    ensures
        match ladder_rejection(bankroll as int, levels as int, min_price as int, max_price as int) {
            Some(reason) => refused_with(result, reason),
            None => result matches Ok(orders) && orders@ == spec_ladder(
                bankroll as int,
                min_price as int,
                max_price as int,
                levels as int,
            ) && orders@.len() == levels && is_rising_ladder(orders@),
        },
{
    if bankroll <= 0 {
        return Err(AppError::Validation(String::from_str("Bankroll must be greater than 0")));
    }
    if levels < 2 {
        return Err(AppError::Validation(String::from_str("Price levels must be at least 2")));
    }
    if levels > MAX_PRICE_LEVELS {
        return Err(AppError::Validation(String::from_str("Price levels must be at most 48")));
    }
    if min_price >= max_price {
        return Err(
            AppError::Validation(String::from_str("Minimum price must be below maximum price")),
        );
    }
    let mut orders: Vec<LadderOrder> = Vec::new();
    let mut i: usize = 0;
    while i < levels
        invariant
            i <= levels,
            ladder_rejection(bankroll as int, levels as int, min_price as int, max_price as int)
                is None,
            orders@.len() == i,
            forall|k: int|
                0 <= k < i ==> #[trigger] orders@[k] == spec_order(
                    bankroll as int,
                    min_price as int,
                    max_price as int,
                    levels as int,
                    k,
                ),
        decreases levels - i,
    {
        let order = ladder_order_at(bankroll, levels, min_price, max_price, i);
        orders.push(order);
        i = i + 1;
    }
    proof {
        lemma_ladder_shape(bankroll, levels, min_price, max_price);
        assert(orders@ =~= spec_ladder(
            bankroll as int,
            min_price as int,
            max_price as int,
            levels as int,
        ));
    }
    Ok(orders)
}

} // verus!
