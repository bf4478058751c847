//! Order sizing, position pairing and upstream-call policy for a
//! prediction-market assistant.
//!
//! Amounts are whole numbers and nothing is rounded: derived figures that
//! need not be whole are exact fractions, see [`ratio::Ratio`]. The sizing and
//! pairing rules hold in any unit; where a rule fixes a price, as the bounds
//! of the ladders in [`orders`] do, the unit is a millionth of a dollar.

pub mod dome;
pub mod error;
pub mod gateway;
pub mod ladder;
pub mod orders;
pub mod pair;
pub mod polyfactual;
pub mod polymarket;
pub mod prompts;
pub mod ratio;
pub mod text;
pub mod tracker;
pub mod types;
pub mod upstream;
