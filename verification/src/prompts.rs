//! The question that is put to an analysis provider.

use crate::types::Platform;
use vstd::prelude::*;
use vstd::string::StringExecFns;

verus! {

/// One outcome as the prompt shows it. The amounts are given as the text
/// that is to be shown.
#[derive(Debug)]
pub struct PromptOutcome {
    pub name: String,
    pub price: String,
    pub volume: String,
}

/// The market as the prompt shows it. The amounts are given as the text
/// that is to be shown.
#[derive(Debug)]
pub struct PromptMarket {
    pub question: String,
    pub platform: Platform,
    pub volume: String,
    pub liquidity: String,
    pub outcomes: Vec<PromptOutcome>,
}

/// How the prompt names a platform.
pub open spec fn platform_name(platform: Platform) -> Seq<char> {
    match platform {
        Platform::Polymarket => "Polymarket"@,
        Platform::Kalshi => "Kalshi"@,
    }
}

/// What is asked where the user asks nothing.
pub open spec fn default_question() -> Seq<char> {
    "Should I buy YES or NO on this prediction market?"@
}

/// The question that the prompt ends on: the user's, else the default.
pub open spec fn asked(question: Option<String>) -> Seq<char> {
    match question {
        Some(text) => text@,
        None => default_question(),
    }
}

/// The line of one outcome.
pub open spec fn outcome_line(outcome: PromptOutcome) -> Seq<char> {
    "  - "@ + outcome.name@ + ": $"@ + outcome.price@ + " (volume: "@ + outcome.volume@ + ")"@
}

/// The lines of the first `n` outcomes, one below the other.
pub open spec fn outcome_lines(outcomes: Seq<PromptOutcome>, n: int) -> Seq<char>
    decreases n,
{
    if n <= 0 {
        Seq::empty()
    } else if n == 1 {
        outcome_line(outcomes[0])
    } else {
        outcome_lines(outcomes, n - 1) + "\n"@ + outcome_line(outcomes[n - 1])
    }
}

/// The prompt for `market` and `question`.
pub open spec fn spec_prompt(market: PromptMarket, question: Option<String>) -> Seq<char> {
    "You are an expert prediction market analyst. Analyze the following market data and provide a recommendation.\n\nMarket Question: "@
        + market.question@ + "\nPlatform: "@ + platform_name(market.platform) + "\nVolume: "@
        + market.volume@ + "\nLiquidity: "@ + market.liquidity@ + "\n\nOutcomes:\n"@
        + outcome_lines(market.outcomes@, market.outcomes@.len() as int) + "\n\nUser Question: "@
        + asked(question)
        + "\n\nProvide your analysis in the following JSON format:\n{\n  \"recommendation\": \"BUY_YES\" | \"BUY_NO\" | \"NO_TRADE\",\n  \"confidence\": 0.0-1.0,\n  \"reasoning\": \"Detailed explanation of your analysis\",\n  \"key_factors\": [\"factor1\", \"factor2\", ...]\n}\n\nBe concise but thorough. Focus on market dynamics, liquidity, and value opportunities."@
}

/// The line of one outcome.
pub fn render_outcome(outcome: &PromptOutcome) -> (line: String)
    ensures
        line@ == outcome_line(*outcome),
{
    String::from_str("  - ").concat(outcome.name.as_str()).concat(": $").concat(
        outcome.price.as_str(),
    ).concat(" (volume: ").concat(outcome.volume.as_str()).concat(")")
}

/// The lines of all `outcomes`, one below the other.
pub fn render_outcomes(outcomes: &Vec<PromptOutcome>) -> (lines: String)
    ensures
        lines@ == outcome_lines(outcomes@, outcomes@.len() as int),
{
    let mut lines: String = String::new();
    let mut i: usize = 0;
    while i < outcomes.len()
        invariant
            i <= outcomes.len(),
            lines@ == outcome_lines(outcomes@, i as int),
        decreases outcomes.len() - i,
    {
        let line: String = render_outcome(&outcomes[i]);
        if i == 0 {
            lines = line;
        } else {
            lines.append("\n");
            lines.append(line.as_str());
        }
        i = i + 1;
    }
    lines
}

/// The prompt that asks for an analysis of `market`: the market's question,
/// platform and figures, its outcomes line by line, the user's question or
/// the default one, and the form in which the answer is wanted.
pub fn build_analysis_prompt(market: &PromptMarket, question: Option<&String>) -> (prompt: String)
    ensures
        prompt@ == spec_prompt(
            *market,
            match question {
                Some(text) => Some(*text),
                None => None,
            },
        ),
{
    let platform: &str = match market.platform {
        Platform::Polymarket => "Polymarket",
        Platform::Kalshi => "Kalshi",
    };
    let lines: String = render_outcomes(&market.outcomes);
    let head: String = String::from_str(
        "You are an expert prediction market analyst. Analyze the following market data and provide a recommendation.\n\nMarket Question: ",
    ).concat(market.question.as_str()).concat("\nPlatform: ").concat(platform).concat(
        "\nVolume: ",
    ).concat(market.volume.as_str()).concat("\nLiquidity: ").concat(
        market.liquidity.as_str(),
    ).concat("\n\nOutcomes:\n").concat(lines.as_str()).concat("\n\nUser Question: ");
    let with_question: String = match question {
        Some(text) => head.concat(text.as_str()),
        None => head.concat("Should I buy YES or NO on this prediction market?"),
    };
    with_question.concat(
        "\n\nProvide your analysis in the following JSON format:\n{\n  \"recommendation\": \"BUY_YES\" | \"BUY_NO\" | \"NO_TRADE\",\n  \"confidence\": 0.0-1.0,\n  \"reasoning\": \"Detailed explanation of your analysis\",\n  \"key_factors\": [\"factor1\", \"factor2\", ...]\n}\n\nBe concise but thorough. Focus on market dynamics, liquidity, and value opportunities.",
    )
}

} // verus!
