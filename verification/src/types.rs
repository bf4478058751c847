//! The data that crosses the library's boundary.
//!
//! Amounts (prices, volumes, bankrolls, share counts) are integers in the
//! caller's unit; the library never rounds.

use crate::error::{refused_with, AppError};
use crate::ratio::Ratio;
use vstd::prelude::*;
use vstd::string::StringExecFns;

verus! {

/// What an analysis advises.
#[derive(Clone, Copy, Debug, PartialEq, Eq, Structural)]
pub enum Recommendation {
    BuyYes,
    BuyNo,
    NoTrade,
}

/// Where a market is listed.
#[derive(Clone, Copy, Debug, PartialEq, Eq, Structural)]
pub enum Platform {
    Polymarket,
    Kalshi,
}

/// One side of a market.
#[derive(Debug)]
pub struct Outcome {
    pub id: String,
    pub name: String,
    pub price: i64,
    pub volume: Option<i64>,
}

/// A point-in-time read of a market. The order of `outcomes` matters: the
/// first two are the sides of the pair.
#[derive(Debug)]
pub struct MarketData {
    pub id: String,
    pub question: String,
    pub slug: Option<String>,
    pub ticker: Option<String>,
    pub platform: Platform,
    pub outcomes: Vec<Outcome>,
    pub volume: Option<i64>,
    pub liquidity: Option<i64>,
}

/// A request for an analysis of the market behind `url`.
#[derive(Debug)]
pub struct AnalyzeEventMarketsRequest {
    pub url: String,
    pub question: Option<String>,
    pub model: Option<String>,
}

/// A request for researched background on `query`.
#[derive(Debug)]
pub struct PolyfactualResearchRequest {
    pub query: String,
}

/// A request for the positions a wallet holds in a market.
#[derive(Debug)]
pub struct PositionTrackerRequest {
    pub wallet_address: String,
    pub market_slug: Option<String>,
}

/// How a bankroll is turned into orders.
#[derive(Clone, Copy, Debug, PartialEq, Eq, Structural)]
pub enum OrderMode {
    /// One order on each side at the current price.
    Simple,
    /// A ladder of orders on each side.
    Ladder,
}

/// A request to place orders on both sides of a market.
#[derive(Debug)]
pub struct LimitOrderBotRequest {
    pub wallet_private_key: String,
    pub market_slug: Option<String>,
    pub mode: OrderMode,
    pub bankroll_usd: i64,
    pub price_levels: Option<usize>,
}

/// A source that a research answer rests on.
#[derive(Debug)]
pub struct Citation {
    pub source: String,
    pub url: Option<String>,
    pub relevance: i64,
}

/// A holding in one outcome of a market.
///
/// `unrealized_pnl` is in the unit of a price times the unit of a share
/// count.
#[derive(Debug)]
pub struct Position {
    pub token_id: String,
    pub outcome: String,
    pub shares: i64,
    pub avg_price: i64,
    pub current_price: i64,
    pub unrealized_pnl: i128,
}

/// Where a pair of opposite positions stands.
#[derive(Clone, Copy, Debug, PartialEq, Eq, Structural)]
pub enum PairStatus {
    ProfitLocked,
    BreakEven,
    AtRisk,
    NoPosition,
}

/// The life cycle of a submitted order.
#[derive(Clone, Copy, Debug, PartialEq, Eq, Structural)]
pub enum OrderStatus {
    Pending,
    Filled,
    Cancelled,
    Failed,
}

/// What the venue answered to one order.
#[derive(Debug)]
pub struct OrderResult {
    pub token_id: String,
    pub outcome: String,
    pub side: String,
    pub price: Ratio,
    pub size: Ratio,
    pub order_id: Option<String>,
    pub status: OrderStatus,
}

/// The envelope every answer carries.
#[derive(Debug)]
pub struct ResponseMetadata {
    pub timestamp: String,
    pub execution_time_ms: u64,
    pub model_used: Option<String>,
    pub retries: u32,
}

/// The unrealized profit of a holding: `(current - average) * shares`.
pub open spec fn spec_unrealized_pnl(shares: int, avg_price: int, current_price: int) -> int {
    (current_price - avg_price) * shares
}

impl Position {
    /// A holding with its unrealized profit worked out.
    pub fn new(
        token_id: String,
        outcome: String,
        shares: i64,
        avg_price: i64,
        current_price: i64,
    ) -> (p: Position)
        ensures
            p.token_id == token_id,
            p.outcome == outcome,
            p.shares == shares,
            p.avg_price == avg_price,
            p.current_price == current_price,
            p.unrealized_pnl == spec_unrealized_pnl(
                shares as int,
                avg_price as int,
                current_price as int,
            ),
    {
        let gain: i128 = current_price as i128 - avg_price as i128;
        assert(-0x8000_0000_0000_0000 * 0x1_0000_0000_0000_0000 <= gain * shares
            <= 0x8000_0000_0000_0000 * 0x1_0000_0000_0000_0000 - 1) by (nonlinear_arith)
            requires
                -0x1_0000_0000_0000_0000 < gain < 0x1_0000_0000_0000_0000,
                -0x8000_0000_0000_0000 <= shares < 0x8000_0000_0000_0000,
        ;
        Position {
            token_id,
            outcome,
            shares,
            avg_price,
            current_price,
            unrealized_pnl: gain * (shares as i128),
        }
    }
}

impl AnalyzeEventMarketsRequest {
    /// Refuses a request without an address.
    pub fn validate(&self) -> (result: Result<(), AppError>)
        ensures
            self.url@.len() > 0 ==> result is Ok,
            self.url@.len() == 0 ==> refused_with(result, "URL is required"@),
    {
        if self.url.as_str().is_empty() {
            Err(AppError::Validation(String::from_str("URL is required")))
        } else {
            Ok(())
        }
    }
}

impl PositionTrackerRequest {
    /// Refuses a request without a wallet.
    pub fn validate(&self) -> (result: Result<(), AppError>)
        ensures
            self.wallet_address@.len() > 0 ==> result is Ok,
            self.wallet_address@.len() == 0 ==> refused_with(
                result,
                "Wallet address is required"@,
            ),
    {
        if self.wallet_address.as_str().is_empty() {
            Err(AppError::Validation(String::from_str("Wallet address is required")))
        } else {
            Ok(())
        }
    }
}

/// Why an order request is refused, if it is: the key is tried first.
pub open spec fn order_request_rejection(key: Seq<char>, bankroll: int) -> Option<Seq<char>> {
    if key.len() == 0 {
        Some("Wallet private key is required"@)
    } else if bankroll <= 0 {
        Some("Bankroll must be greater than 0"@)
    } else {
        None
    }
}

impl LimitOrderBotRequest {
    /// Refuses a request without a key or with a bankroll that is not
    /// positive.
    pub fn validate(&self) -> (result: Result<(), AppError>)
        ensures
            match order_request_rejection(self.wallet_private_key@, self.bankroll_usd as int) {
                Some(reason) => refused_with(result, reason),
                None => result is Ok,
            },
    {
        if self.wallet_private_key.as_str().is_empty() {
            Err(AppError::Validation(String::from_str("Wallet private key is required")))
        } else if self.bankroll_usd <= 0 {
            Err(AppError::Validation(String::from_str("Bankroll must be greater than 0")))
        } else {
            Ok(())
        }
    }
}

impl MarketData {
    /// Refuses a market that lacks one of the two sides.
    pub fn require_pair(&self) -> (result: Result<(), AppError>)
        ensures
            self.outcomes@.len() >= 2 ==> result is Ok,
            self.outcomes@.len() < 2 ==> refused_with(
                result,
                "Market must have at least 2 outcomes"@,
            ),
    {
        if self.outcomes.len() < 2 {
            Err(AppError::Validation(String::from_str("Market must have at least 2 outcomes")))
        } else {
            Ok(())
        }
    }
}

impl ResponseMetadata {
    /// The envelope of an answer that involved no analysis provider.
    pub fn plain(timestamp: String, execution_time_ms: u64) -> (m: ResponseMetadata)
        ensures
            m.timestamp == timestamp,
            m.execution_time_ms == execution_time_ms,
            m.model_used is None,
            m.retries == 0,
    {
        ResponseMetadata { timestamp, execution_time_ms, model_used: None, retries: 0 }
    }
}

} // verus!
