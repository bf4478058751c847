use predict_os_be::error::AppError;
use predict_os_be::polymarket::{
    default_market_slug, next_window_start, resolve_market_slug, window_start, PolymarketClient,
    WINDOW_SECONDS,
};
use predict_os_be::ratio::Ratio;
use predict_os_be::types::OrderStatus;

#[test]
fn window_start_is_the_quarter_hour_before() {
    assert_eq!(window_start(1_704_067_200), 1_704_067_200); // 2024-01-01 00:00:00
    assert_eq!(window_start(1_704_067_201), 1_704_067_200);
    assert_eq!(window_start(1_704_068_099), 1_704_067_200); // 00:14:59
    assert_eq!(window_start(1_704_068_100), 1_704_068_100); // 00:15:00
    assert_eq!(window_start(0), 0);
    assert_eq!(window_start(899), 0);
}

#[test]
fn window_start_before_1970() {
    assert_eq!(window_start(-1), -900);
    assert_eq!(window_start(-900), -900);
    assert_eq!(window_start(-901), -1800);
    assert_eq!(window_start(i64::MIN + 900) % 900, 0);
    assert!(window_start(i64::MIN + 900) <= i64::MIN + 900);
}

#[test]
fn next_window_start_is_a_quarter_hour_later() {
    assert_eq!(next_window_start(1_704_067_200), 1_704_068_100);
    assert_eq!(next_window_start(1_704_068_099), 1_704_068_100);
    assert_eq!(next_window_start(-1), 0);
    assert_eq!(WINDOW_SECONDS, 900);
}

#[test]
fn default_slug_names_the_minute() {
    assert_eq!(
        default_market_slug(1_704_067_200),
        Some("15min-up-down-20240101-0000".to_string())
    );
    assert_eq!(
        default_market_slug(1_718_889_300), // 2024-06-20 13:15:00 UTC
        Some("15min-up-down-20240620-1315".to_string())
    );
    assert_eq!(default_market_slug(i64::MAX), None);
}

#[test]
fn market_slug_of_a_request() {
    assert_eq!(
        resolve_market_slug(Some("my-market".to_string()), i64::MAX).unwrap(),
        "my-market"
    );
    assert_eq!(
        resolve_market_slug(None, 1_704_068_100).unwrap(),
        "15min-up-down-20240101-0015"
    );
    match resolve_market_slug(None, i64::MAX) {
        Err(AppError::Internal(text)) => assert_eq!(text, "Market window is outside the calendar"),
        other => panic!("expected an internal error, got {:?}", other),
    }
}

#[test]
fn current_window_is_a_quarter_hour_that_holds_now() {
    let client = PolymarketClient::new(None);
    let before = std::time::SystemTime::now()
        .duration_since(std::time::UNIX_EPOCH)
        .unwrap()
        .as_secs() as i64;
    let start = client.calculate_15min_market_timestamp();
    let next = client.calculate_next_15min_market_timestamp();
    assert_eq!(start % 900, 0);
    assert_eq!(next % 900, 0);
    assert!(start <= before + 1);
    assert!(before - start < 900 + 1);
    assert!(next == start + 900 || next == start + 1800);
    assert!(default_market_slug(start).is_some());
}

#[test]
fn placed_order_is_pending() {
    let client = PolymarketClient::new(Some("k".to_string()));
    let order = client
        .place_order(
            "0xkey",
            "token-1",
            "buy",
            Ratio { num: 10_000, den: 1 },
            Ratio { num: 5, den: 1 },
        )
        .unwrap();
    assert_eq!(order.token_id, "token-1");
    assert_eq!(order.outcome, "Unknown");
    assert_eq!(order.side, "buy");
    assert_eq!(order.price, Ratio { num: 10_000, den: 1 });
    assert_eq!(order.size, Ratio { num: 5, den: 1 });
    assert_eq!(order.order_id, None);
    assert_eq!(order.status, OrderStatus::Pending);
}

#[test]
fn venue_addresses() {
    let client = PolymarketClient::new(Some("k".to_string()));
    assert_eq!(client.authorization(), Some("Bearer k".to_string()));
    assert_eq!(PolymarketClient::new(None).authorization(), None);
    assert_eq!(
        client.market_endpoint("15min-up-down-20240101-0000"),
        "https://gamma-api.polymarket.com/markets/15min-up-down-20240101-0000"
    );
    assert_eq!(client.positions_endpoint(), "https://data-api.polymarket.com/positions");
}
