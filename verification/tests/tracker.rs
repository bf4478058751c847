use predict_os_be::error::AppError;
use predict_os_be::ratio::Ratio;
use predict_os_be::tracker::{
    assess_positions, build_positions, contains_id, filter_positions, outcome_name, token_ids,
    PositionData,
};
use predict_os_be::types::{MarketData, Outcome, PairStatus, Platform};

fn outcome(id: &str, name: &str, price: i64) -> Outcome {
    Outcome { id: id.to_string(), name: name.to_string(), price, volume: None }
}

fn market(outcomes: Vec<Outcome>) -> MarketData {
    MarketData {
        id: "m1".to_string(),
        question: "Up or down?".to_string(),
        slug: Some("15min-up-down-20240101-0000".to_string()),
        ticker: None,
        platform: Platform::Polymarket,
        outcomes,
        volume: Some(1_000_000),
        liquidity: None,
    }
}

fn held(token: &str, shares: i64, avg: i64, current: i64) -> PositionData {
    PositionData {
        token_id: token.to_string(),
        outcome: "as the venue names it".to_string(),
        shares,
        avg_price: avg,
        current_price: current,
    }
}

#[test]
fn tracker_keeps_the_holdings_of_the_market_in_order() {
    let all = vec![held("c", 1, 1, 1), held("a", 2, 2, 2), held("x", 3, 3, 3), held("b", 4, 4, 4)];
    let ids = vec!["a".to_string(), "b".to_string(), "c".to_string()];
    let kept = filter_positions(&all, &ids);
    let tokens: Vec<&str> = kept.iter().map(|p| p.token_id.as_str()).collect();
    assert_eq!(tokens, vec!["c", "a", "b"]);
    assert_eq!(kept[1].shares, 2);
    assert_eq!(kept[2].outcome, "as the venue names it");
    assert!(filter_positions(&all, &vec![]).is_empty());
    assert!(filter_positions(&vec![], &ids).is_empty());
}

#[test]
fn tracker_contains_id() {
    let ids = vec!["a".to_string(), "b".to_string()];
    assert!(contains_id(&ids, &"b".to_string()));
    assert!(!contains_id(&ids, &"B".to_string()));
    assert!(!contains_id(&vec![], &"a".to_string()));
}

#[test]
fn tracker_names_the_outcome_of_a_token() {
    let outcomes = vec![outcome("1", "Up", 1), outcome("2", "Down", 1), outcome("1", "Again", 1)];
    assert_eq!(outcome_name(&outcomes, &"1".to_string()), "Up");
    assert_eq!(outcome_name(&outcomes, &"2".to_string()), "Down");
    assert_eq!(outcome_name(&outcomes, &"3".to_string()), "Unknown");
    assert_eq!(outcome_name(&vec![], &"1".to_string()), "Unknown");
}

#[test]
fn tracker_builds_positions_with_their_profit() {
    let m = market(vec![outcome("1", "Up", 600_000), outcome("2", "Down", 300_000)]);
    let positions = build_positions(
        &m,
        &vec![held("2", 10_000_000, 550_000, 300_000), held("9", 1, 2, 5)],
    );
    assert_eq!(positions.len(), 2);
    assert_eq!(positions[0].token_id, "2");
    assert_eq!(positions[0].outcome, "Down");
    assert_eq!(positions[0].shares, 10_000_000);
    assert_eq!(positions[0].avg_price, 550_000);
    assert_eq!(positions[0].current_price, 300_000);
    assert_eq!(positions[0].unrealized_pnl, -2_500_000_000_000);
    assert_eq!(positions[1].outcome, "Unknown");
    assert_eq!(positions[1].unrealized_pnl, 3);
}

#[test]
fn tracker_token_ids_need_two_outcomes() {
    let m = market(vec![outcome("1", "Up", 1), outcome("2", "Down", 1), outcome("3", "Flat", 1)]);
    assert_eq!(token_ids(&m).unwrap(), vec!["1", "2", "3"]);
    for outcomes in [vec![], vec![outcome("1", "Up", 1)]] {
        match token_ids(&market(outcomes)) {
            Err(AppError::Validation(text)) => {
                assert_eq!(text, "Market must have at least 2 outcomes")
            }
            other => panic!("expected a validation error, got {:?}", other),
        }
    }
}

#[test]
fn tracker_assesses_the_pair() {
    let m = market(vec![outcome("1", "Up", 600_000), outcome("2", "Down", 300_000)]);
    let assessment = assess_positions(
        &m,
        &vec![held("1", 10_000_000, 400_000, 600_000), held("2", 10_000_000, 550_000, 300_000)],
    );
    assert_eq!(assessment.positions.len(), 2);
    assert_eq!(assessment.pair_status, PairStatus::AtRisk);
    assert_eq!(assessment.profit_lock, None);
    assert_eq!(assessment.break_even, Some(Ratio { num: 950_000, den: 2 }));
    let lone = assess_positions(&m, &vec![held("1", 10_000_000, 400_000, 600_000)]);
    assert_eq!(lone.pair_status, PairStatus::NoPosition);
    assert_eq!(lone.profit_lock, None);
    assert_eq!(lone.break_even, None);
    // tokens the market does not know are labelled Unknown and pair with nothing
    let strangers = assess_positions(&m, &vec![held("8", 1, 1, 2), held("9", 1, 1, 2)]);
    assert_eq!(strangers.pair_status, PairStatus::NoPosition);
}
