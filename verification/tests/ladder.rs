use predict_os_be::error::AppError;
use predict_os_be::ladder::{
    ladder_order_at, ladder_orders, ladder_weight, pow2_i128, LadderOrder, MAX_PRICE_LEVELS,
    MIN_SHARES,
};
use predict_os_be::polymarket::PolymarketClient;
use predict_os_be::ratio::Ratio;

fn value(r: Ratio) -> f64 {
    r.num as f64 / r.den as f64
}

fn less(a: Ratio, b: Ratio) -> bool {
    a.num * b.den < b.num * a.den
}

fn validation_text<T: std::fmt::Debug>(result: Result<T, AppError>) -> String {
    match result {
        Err(AppError::Validation(text)) => text,
        other => panic!("expected a validation error, got {:?}", other),
    }
}

#[test]
fn ladder_of_three_levels_between_one_and_ninety_nine_cents() {
    // 100 dollars, prices in millionths of a dollar.
    let orders = ladder_orders(100_000_000, 3, 10_000, 990_000).unwrap();
    assert_eq!(orders.len(), 3);
    assert_eq!(orders[0].price, Ratio { num: 20_000, den: 2 });
    assert_eq!(orders[1].price, Ratio { num: 1_000_000, den: 2 });
    assert_eq!(orders[2].price, Ratio { num: 1_980_000, den: 2 });
    assert!((value(orders[0].price) / 1e6 - 0.01).abs() < 1e-12);
    assert!((value(orders[1].price) / 1e6 - 0.5).abs() < 1e-12);
    assert!((value(orders[2].price) / 1e6 - 0.99).abs() < 1e-12);
    // weights 8, 4, 2 over the normalizer 2^3 - 1 = 7.
    assert_eq!(orders[0].size, Ratio { num: 100_000_000 * 8 * 2, den: 7 * 20_000 });
    assert_eq!(orders[1].size, Ratio { num: 100_000_000 * 4 * 2, den: 7 * 1_000_000 });
    assert_eq!(orders[2].size, Ratio { num: 100_000_000 * 2 * 2, den: 7 * 1_980_000 });
    assert!((value(orders[0].size) - (100.0 * 8.0 / 7.0) / 0.01).abs() < 1e-6);
    assert!((value(orders[1].size) - (100.0 * 4.0 / 7.0) / 0.5).abs() < 1e-9);
    assert!((value(orders[2].size) - (100.0 * 2.0 / 7.0) / 0.99).abs() < 1e-9);
}

#[test]
fn ladder_weights_are_eight_four_two_and_sum_to_twice_the_normalizer() {
    let weights: Vec<i128> = (0..3).map(|i| ladder_weight(3, i)).collect();
    assert_eq!(weights, vec![8, 4, 2]);
    let sum: i128 = weights.iter().sum();
    assert_eq!(sum, 14);
    let normalizer = pow2_i128(3) - 1;
    assert_eq!(normalizer, 7);
    assert_eq!(sum, 2 * normalizer);
}

#[test]
fn ladder_weights_fall_with_the_level() {
    for levels in 2..=MAX_PRICE_LEVELS {
        for i in 0..levels {
            assert!(ladder_weight(levels, i) > ladder_weight(levels, i + 1));
            assert_eq!(ladder_weight(levels, i), 1i128 << (levels - i));
        }
    }
}

#[test]
fn ladder_small_allocations_are_raised_to_the_minimum() {
    // one dollar over five levels: the upper levels cannot buy five shares.
    let orders = ladder_orders(1_000_000, 5, 10_000, 990_000).unwrap();
    assert_eq!(orders.len(), 5);
    assert!(value(orders[0].size) > 5.0);
    assert_eq!(orders[4].size, Ratio { num: MIN_SHARES, den: 1 });
    for order in &orders {
        assert!(value(order.size) >= 5.0);
    }
}

#[test]
fn ladder_prices_rise_and_sizes_reach_the_minimum() {
    for levels in [2usize, 3, 5, 17, 48] {
        for (bankroll, lo, hi) in [
            (1i64, 0i64, 1i64),
            (100_000_000, 10_000, 990_000),
            (i64::MAX, i64::MIN, i64::MAX),
            (7, -5, 5),
            (i64::MAX, i64::MAX - 1, i64::MAX),
        ] {
            let orders = ladder_orders(bankroll, levels, lo, hi).unwrap();
            assert_eq!(orders.len(), levels);
            for pair in orders.windows(2) {
                assert!(less(pair[0].price, pair[1].price));
            }
            for order in &orders {
                assert!(order.price.den > 0);
                assert!(order.size.den >= 0);
                if order.size.den == 0 {
                    assert!(order.size.num > 0);
                } else {
                    assert!(order.size.num >= MIN_SHARES * order.size.den);
                }
            }
            assert_eq!(orders[0].price.num, lo as i128 * (levels as i128 - 1));
            assert_eq!(orders[levels - 1].price.num, hi as i128 * (levels as i128 - 1));
        }
    }
}

#[test]
fn ladder_price_of_zero_buys_without_bound() {
    let orders = ladder_orders(10, 2, 0, 4).unwrap();
    assert_eq!(orders[0].price, Ratio { num: 0, den: 1 });
    assert_eq!(orders[0].size, Ratio { num: 10 * 4, den: 0 });
    assert_eq!(value(orders[0].size), f64::INFINITY);
}

#[test]
fn ladder_negative_price_gets_the_minimum() {
    let orders = ladder_orders(10, 2, -4, 4).unwrap();
    assert_eq!(orders[0].price, Ratio { num: -4, den: 1 });
    assert_eq!(orders[0].size, Ratio { num: 5, den: 1 });
}

#[test]
fn ladder_refuses_a_bankroll_that_is_not_positive() {
    assert_eq!(
        validation_text(ladder_orders(0, 3, 10_000, 990_000)),
        "Bankroll must be greater than 0"
    );
    assert_eq!(
        validation_text(ladder_orders(-1, 1, 5, 1)),
        "Bankroll must be greater than 0"
    );
}

#[test]
fn ladder_refuses_fewer_than_two_levels() {
    assert_eq!(
        validation_text(ladder_orders(100, 1, 10_000, 990_000)),
        "Price levels must be at least 2"
    );
    assert_eq!(
        validation_text(ladder_orders(100, 0, 10_000, 990_000)),
        "Price levels must be at least 2"
    );
}

#[test]
fn ladder_refuses_more_levels_than_fit() {
    assert!(ladder_orders(100, 48, 10_000, 990_000).is_ok());
    assert_eq!(
        validation_text(ladder_orders(100, 49, 10_000, 990_000)),
        "Price levels must be at most 48"
    );
}

#[test]
fn ladder_refuses_prices_out_of_order() {
    assert_eq!(
        validation_text(ladder_orders(100, 3, 990_000, 10_000)),
        "Minimum price must be below maximum price"
    );
    assert_eq!(
        validation_text(ladder_orders(100, 3, 5, 5)),
        "Minimum price must be below maximum price"
    );
}

#[test]
fn ladder_order_at_agrees_with_the_whole_ladder() {
    let orders = ladder_orders(250_000_000, 6, 10_000, 990_000).unwrap();
    for (i, order) in orders.iter().enumerate() {
        let single: LadderOrder = ladder_order_at(250_000_000, 6, 10_000, 990_000, i);
        assert_eq!(*order, single);
    }
}

#[test]
fn client_ladder_is_the_ladder() {
    let client = PolymarketClient::new(None);
    let a = client.calculate_ladder_orders(100_000_000, 3, 10_000, 990_000).unwrap();
    let b = ladder_orders(100_000_000, 3, 10_000, 990_000).unwrap();
    assert_eq!(a, b);
    assert_eq!(
        validation_text(client.calculate_ladder_orders(100, 1, 1, 2)),
        "Price levels must be at least 2"
    );
}

#[test]
fn power_of_two_values() {
    assert_eq!(pow2_i128(0), 1);
    assert_eq!(pow2_i128(10), 1024);
    assert_eq!(pow2_i128(48), 1i128 << 48);
}
