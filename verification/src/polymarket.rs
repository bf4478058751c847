//! The venue: its quarter-hour markets, their names, where it serves them,
//! and the orders it is sent.

use crate::error::{refused_with, AppError};
use crate::ladder::{
    is_rising_ladder, ladder_orders, ladder_rejection, spec_ladder, LadderOrder,
};
use crate::ratio::Ratio;
use crate::types::{OrderResult, OrderStatus};
use crate::upstream::bearer;
use vstd::prelude::*;
use vstd::string::StringExecFns;

verus! {

/// The length of a market window in seconds.
pub const WINDOW_SECONDS: i64 = 900;

/// The start of the window that holds the second `now`: the latest multiple
/// of a quarter of an hour that is not after it.
pub open spec fn spec_window_start(now: int) -> int {
    now - now % (WINDOW_SECONDS as int)
}

/// What `chrono` makes of a count of seconds since 1970 under the format
/// `%Y%m%d-%H%M`, in UTC; `None` where the count is outside its calendar.
pub uninterp spec fn minute_stamp(seconds: int) -> Option<Seq<char>>;

/// The current time by `chrono::Utc::now`, as `timestamp` counts it: whole
/// seconds since 1970.
///
/// The call returns only if the system clock is not set before 1970, so the
/// count is not negative; and it is a count of days that fits in 32 bits,
/// times 86400, plus the seconds of a day, so it stays below `2^48`.
#[verifier::external_body]
fn utc_now_seconds() -> (now: i64)
    ensures
        0 <= now < 0x1_0000_0000_0000,
{
    chrono::Utc::now().timestamp()
}

/// `chrono::DateTime::from_timestamp` followed by `format` with
/// `%Y%m%d-%H%M`: the minute that holds `seconds`, in UTC.
#[verifier::external_body]
fn format_minute_stamp(seconds: i64) -> (stamp: Option<String>)
    ensures
        match stamp {
            Some(text) => minute_stamp(seconds as int) == Some(text@),
            None => minute_stamp(seconds as int) is None,
        },
{
    chrono::DateTime::from_timestamp(seconds, 0).map(|time| time.format("%Y%m%d-%H%M").to_string())
}

/// The start of the window that holds the second `now`.
pub fn window_start(now: i64) -> (start: i64)
    requires
        now >= i64::MIN + WINDOW_SECONDS,
    ensures
        start == spec_window_start(now as int),
        start <= now < start + WINDOW_SECONDS,
        start % WINDOW_SECONDS == 0,
{
    let within: i64 = now % WINDOW_SECONDS;
    if within < 0 {
        now - (within + WINDOW_SECONDS)
    } else {
        now - within
    }
}

/// The start of the window after the one that holds the second `now`.
pub fn next_window_start(now: i64) -> (start: i64)
    requires
        i64::MIN + WINDOW_SECONDS <= now <= i64::MAX - WINDOW_SECONDS,
    ensures
        start == spec_window_start(now as int) + WINDOW_SECONDS,
        now < start <= now + WINDOW_SECONDS,
{
    window_start(now) + WINDOW_SECONDS
}

/// The name of the market of the window that starts at `window`.
pub open spec fn spec_default_slug(window: int) -> Option<Seq<char>> {
    match minute_stamp(window) {
        Some(stamp) => Some("15min-up-down-"@ + stamp),
        None => None,
    }
}

/// The market that a request means: the one it names, else the one of the
/// window that starts at `window`.
pub open spec fn spec_market_slug(requested: Option<String>, window: int) -> Option<Seq<char>> {
    match requested {
        Some(slug) => Some(slug@),
        None => spec_default_slug(window),
    }
}

/// The name of the market of the window that starts at `window`, if the
/// calendar reaches that far.
pub fn default_market_slug(window: i64) -> (slug: Option<String>)
    ensures
        match slug {
            Some(text) => spec_default_slug(window as int) == Some(text@),
            None => spec_default_slug(window as int) is None,
        },
{
    match format_minute_stamp(window) {
        Some(stamp) => Some(String::from_str("15min-up-down-").concat(stamp.as_str())),
        None => None,
    }
}

/// The market that a request means: the one it names, else the one of the
/// window that starts at `window`. A window outside the calendar has no
/// name, which is an internal failure.
pub fn resolve_market_slug(requested: Option<String>, window: i64) -> (result: Result<
    String,
    AppError,
>)
    ensures
        match spec_market_slug(requested, window as int) {
            Some(slug) => result matches Ok(text) && text@ == slug,
            None => result matches Err(AppError::Internal(text)) && text@
                == "Market window is outside the calendar"@,
        },
{
    match requested {
        Some(slug) => Ok(slug),
        None => match default_market_slug(window) {
            Some(slug) => Ok(slug),
            None => Err(
                AppError::Internal(String::from_str("Market window is outside the calendar")),
            ),
        },
    }
}

/// The venue's answer to an order: it is taken and pending, without an id,
/// and its outcome is not yet known by name.
pub open spec fn is_pending_order(
    order: OrderResult,
    token_id: Seq<char>,
    side: Seq<char>,
    price: Ratio,
    size: Ratio,
) -> bool {
    &&& order.token_id@ == token_id
    &&& order.outcome@ == "Unknown"@
    &&& order.side@ == side
    &&& order.price == price
    &&& order.size == size
    &&& order.order_id is None
    &&& order.status == OrderStatus::Pending
}

/// A client of the venue.
#[derive(Debug)]
pub struct PolymarketClient {
    pub gamma_api_key: Option<String>,
}

impl PolymarketClient {
    /// A client that authorizes itself with `gamma_api_key`, where it has
    /// one.
    pub fn new(gamma_api_key: Option<String>) -> (client: PolymarketClient)
        ensures
            client.gamma_api_key == gamma_api_key,
    {
        PolymarketClient { gamma_api_key }
    }

    /// The authorization header value of a market request, where the client
    /// has a key.
    pub fn authorization(&self) -> (value: Option<String>)
        ensures
            match self.gamma_api_key {
                Some(key) => value matches Some(text) && text@ == "Bearer "@ + key@,
                None => value is None,
            },
    {
        match &self.gamma_api_key {
            Some(key) => Some(bearer(key.as_str())),
            None => None,
        }
    }

    /// Where the venue serves the market `slug`.
    pub fn market_endpoint(&self, slug: &str) -> (endpoint: String)
        ensures
            endpoint@ == "https://gamma-api.polymarket.com"@ + "/markets/"@ + slug@,
    {
        String::from_str("https://gamma-api.polymarket.com").concat("/markets/").concat(slug)
    }

    /// Where the venue serves the holdings of a wallet.
    pub fn positions_endpoint(&self) -> (endpoint: String)
        ensures
            endpoint@ == "https://data-api.polymarket.com"@ + "/positions"@,
    {
        String::from_str("https://data-api.polymarket.com").concat("/positions")
    }

    /// The start of the market window that is open now, in seconds since
    /// 1970. Which window that is depends on the clock; see [`window_start`]
    /// for the window of a given second.
    pub fn calculate_15min_market_timestamp(&self) -> (start: i64)
        ensures
            start % WINDOW_SECONDS == 0,
            0 <= start < 0x1_0000_0000_0000,
    {
        let now: i64 = utc_now_seconds();
        window_start(now)
    }

    /// The start of the market window that opens next, in seconds since
    /// 1970. See [`next_window_start`] for the window after a given second.
    pub fn calculate_next_15min_market_timestamp(&self) -> (start: i64)
        ensures
            start % WINDOW_SECONDS == 0,
            WINDOW_SECONDS <= start < 0x1_0000_0000_0000 + WINDOW_SECONDS,
    {
        let current: i64 = self.calculate_15min_market_timestamp();
        current + WINDOW_SECONDS
    }

    /// Sends an order to the venue. The venue takes every order as pending:
    /// the key is not looked at, and nothing is signed or transmitted.
    pub fn place_order(
        &self,
        private_key: &str,
        token_id: &str,
        side: &str,
        price: Ratio,
        size: Ratio,
    ) -> (result: Result<OrderResult, AppError>)
        ensures
            result matches Ok(order) && is_pending_order(order, token_id@, side@, price, size),
    {
        Ok(
            OrderResult {
                token_id: String::from_str(token_id),
                outcome: String::from_str("Unknown"),
                side: String::from_str(side),
                price,
                size,
                order_id: None,
                status: OrderStatus::Pending,
            },
        )
    }

    /// The ladder for `bankroll_usd` over `price_levels` prices from
    /// `min_price` to `max_price`, lowest price first; see
    /// [`ladder_orders`].
    pub fn calculate_ladder_orders(
        &self,
        bankroll_usd: i64,
        price_levels: usize,
        min_price: i64,
        max_price: i64,
    ) -> (result: Result<Vec<LadderOrder>, AppError>)
        ensures
            match ladder_rejection(
                bankroll_usd as int,
                price_levels as int,
                min_price as int,
                max_price as int,
            ) {
                Some(reason) => refused_with(result, reason),
                None => result matches Ok(orders) && orders@ == spec_ladder(
                    bankroll_usd as int,
                    min_price as int,
                    max_price as int,
                    price_levels as int,
                ) && orders@.len() == price_levels && is_rising_ladder(orders@),
            },
    {
        ladder_orders(bankroll_usd, price_levels, min_price, max_price)
    }
}

} // verus!
