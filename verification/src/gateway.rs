//! The policy of the analysis gateway: which provider is called, how often,
//! after what pause, and when a failure is handed to the caller.
//!
//! The gateway itself performs no call. It is driven: the caller makes the
//! call that the current state names, reports how it ended, and is told what
//! to do next.

use crate::error::AppError;
use crate::types::ResponseMetadata;
use vstd::arithmetic::power2::{lemma2_to64, pow2};
use vstd::prelude::*;
use vstd::string::StringExecFns;

verus! {

/// A service that can analyse a market.
#[derive(Clone, Copy, Debug, PartialEq, Eq, Structural)]
pub enum AiProvider {
    Grok,
    OpenAi,
}

/// How many calls one provider gets for one request.
pub const MAX_ATTEMPTS: u32 = 3;

/// The pause before the second attempt, in milliseconds. It doubles with
/// each further attempt.
pub const BASE_DELAY_MS: u64 = 100;

/// The provider that a model name selects: `openai` selects OpenAi, every
/// other name and no name select the default.
pub open spec fn spec_provider_for(model: Option<Seq<char>>) -> AiProvider {
    match model {
        Some(name) => if name == "openai"@ {
            AiProvider::OpenAi
        } else {
            AiProvider::Grok
        },
        None => AiProvider::Grok,
    }
}

/// The provider that takes over when `provider` has used up its attempts.
/// Only the default has one.
pub open spec fn spec_fallback(provider: AiProvider) -> Option<AiProvider> {
    match provider {
        AiProvider::Grok => Some(AiProvider::OpenAi),
        AiProvider::OpenAi => None,
    }
}

impl AiProvider {
    /// The provider that the request's model name selects.
    pub fn from_model(model: Option<&String>) -> (provider: AiProvider)
        ensures
            provider == spec_provider_for(
                match model {
                    Some(name) => Some(name@),
                    None => None,
                },
            ),
    {
        match model {
            Some(name) => {
                let openai: String = String::from_str("openai");
                if *name == openai {
                    AiProvider::OpenAi
                } else {
                    AiProvider::Grok
                }
            },
            None => AiProvider::Grok,
        }
    }

    /// The name under which answers report the provider.
    pub fn provider_name(&self) -> (name: &'static str)
        ensures
            name@ == match *self {
                AiProvider::Grok => "grok"@,
                AiProvider::OpenAi => "openai"@,
            },
    {
        match self {
            AiProvider::Grok => "grok",
            AiProvider::OpenAi => "openai",
        }
    }

    /// The name by which failure messages call the provider.
    pub fn display_name(&self) -> (name: &'static str)
        ensures
            name@ == match *self {
                AiProvider::Grok => "Grok"@,
                AiProvider::OpenAi => "OpenAI"@,
            },
    {
        match self {
            AiProvider::Grok => "Grok",
            AiProvider::OpenAi => "OpenAI",
        }
    }

    /// Where the provider takes chat completions.
    pub fn endpoint(&self) -> (url: &'static str)
        ensures
            url@ == match *self {
                AiProvider::Grok => "https://api.x.ai/v1/chat/completions"@,
                AiProvider::OpenAi => "https://api.openai.com/v1/chat/completions"@,
            },
    {
        match self {
            AiProvider::Grok => "https://api.x.ai/v1/chat/completions",
            AiProvider::OpenAi => "https://api.openai.com/v1/chat/completions",
        }
    }

    /// The model that is asked.
    pub fn model_name(&self) -> (name: &'static str)
        ensures
            name@ == match *self {
                AiProvider::Grok => "grok-beta"@,
                AiProvider::OpenAi => "gpt-4-turbo-preview"@,
            },
    {
        match self {
            AiProvider::Grok => "grok-beta",
            AiProvider::OpenAi => "gpt-4-turbo-preview",
        }
    }

    /// The provider that takes over when this one has used up its attempts.
    pub fn fallback(&self) -> (other: Option<AiProvider>)
        ensures
            other == spec_fallback(*self),
    {
        match self {
            AiProvider::Grok => Some(AiProvider::OpenAi),
            AiProvider::OpenAi => None,
        }
    }
}

/// Where a request stands: the provider that was asked for, the one that is
/// being called, and how many of its attempts have failed so far.
#[derive(Clone, Copy, Debug, PartialEq, Eq, Structural)]
pub struct GatewayState {
    pub requested: AiProvider,
    pub current: AiProvider,
    pub attempt: u32,
}

/// What the caller does next.
#[derive(Debug)]
pub enum GatewayStep<T> {
    /// Wait `delay_ms`, build the prompt anew and call `state.current`.
    Call { state: GatewayState, delay_ms: u64 },
    /// Hand `result` to the caller of the gateway.
    Finish { result: Result<T, AppError> },
}

/// The pause after the failure of attempt `attempt` (counted from zero).
pub open spec fn backoff_ms(attempt: int) -> int {
    BASE_DELAY_MS * pow2(attempt as nat)
}

/// Whether the request may still move to another provider: only from the
/// provider that was asked for, and only if that one has a fallback.
pub open spec fn may_fail_over(state: GatewayState) -> bool {
    state.current == state.requested && spec_fallback(state.requested) is Some
}

/// The state in which the next call is made after a failure that may be
/// retried, or `None` where the failure is final.
pub open spec fn after_failure(state: GatewayState) -> Option<GatewayState> {
    if state.attempt + 1 < MAX_ATTEMPTS {
        Some(
            GatewayState {
                requested: state.requested,
                current: state.current,
                attempt: (state.attempt + 1) as u32,
            },
        )
    } else if may_fail_over(state) {
        Some(
            GatewayState {
                requested: state.requested,
                current: spec_fallback(state.requested)->0,
                attempt: 0,
            },
        )
    } else {
        None
    }
}

/// The pause before the call that `after_failure` leads to: the backoff
/// before another attempt at the same provider, none before the first call of
/// the fallback.
pub open spec fn pause_after_failure(state: GatewayState) -> int {
    if state.attempt + 1 < MAX_ATTEMPTS {
        backoff_ms(state.attempt as int)
    } else {
        0
    }
}

/// What follows the call made in `state` that ended with `outcome`.
pub open spec fn spec_step<T>(state: GatewayState, outcome: Result<T, AppError>) -> GatewayStep<T> {
    match outcome {
        Ok(value) => GatewayStep::Finish { result: Ok(value) },
        Err(error) => if error is Validation {
            GatewayStep::Finish { result: Err(error) }
        } else {
            match after_failure(state) {
                Some(next) => GatewayStep::Call {
                    state: next,
                    delay_ms: pause_after_failure(state) as u64,
                },
                None => GatewayStep::Finish { result: Err(error) },
            }
        },
    }
}

impl GatewayState {
    /// The state in which the first call of a request is made.
    pub fn start(requested: AiProvider) -> (state: GatewayState)
        ensures
            state == spec_start(requested),
    {
        GatewayState { requested, current: requested, attempt: 0 }
    }

    /// Whether the request has left the provider that was asked for.
    pub fn failed_over(&self) -> (b: bool)
        ensures
            b == (self.current != self.requested),
    {
        match (self.current, self.requested) {
            (AiProvider::Grok, AiProvider::Grok) => false,
            (AiProvider::OpenAi, AiProvider::OpenAi) => false,
            _ => true,
        }
    }

    /// What follows the call made in this state that ended with `outcome`:
    /// success and malformed input end the request at once; any other failure
    /// is followed by another attempt after the backoff, then by the fallback
    /// of the requested provider, and is handed on when neither is left.
    pub fn step<T>(self, outcome: Result<T, AppError>) -> (next: GatewayStep<T>)
        ensures
            next == spec_step(self, outcome),
    {
        match outcome {
            Ok(value) => GatewayStep::Finish { result: Ok(value) },
            Err(error) => {
                if !error.is_retryable() {
                    return GatewayStep::Finish { result: Err(error) };
                }
                proof {
                    lemma2_to64();
                }
                if self.attempt < MAX_ATTEMPTS - 1 {
                    let delay_ms: u64 = if self.attempt == 0 {
                        BASE_DELAY_MS
                    } else {
                        BASE_DELAY_MS * 2
                    };
                    GatewayStep::Call {
                        state: GatewayState {
                            requested: self.requested,
                            current: self.current,
                            attempt: self.attempt + 1,
                        },
                        delay_ms,
                    }
                } else if self.failed_over() {
                    GatewayStep::Finish { result: Err(error) }
                } else {
                    match self.requested.fallback() {
                        Some(other) => GatewayStep::Call {
                            state: GatewayState {
                                requested: self.requested,
                                current: other,
                                attempt: 0,
                            },
                            delay_ms: 0,
                        },
                        None => GatewayStep::Finish { result: Err(error) },
                    }
                }
            },
        }
    }

    /// The envelope of the answer to a request that ended in this state. It
    /// names the provider that was asked for, and counts a move to the
    /// fallback as one retry.
    pub fn metadata(&self, timestamp: String, execution_time_ms: u64) -> (m: ResponseMetadata)
        ensures
            m.timestamp == timestamp,
            m.execution_time_ms == execution_time_ms,
            m.model_used matches Some(name) && name@ == match self.requested {
                AiProvider::Grok => "grok"@,
                AiProvider::OpenAi => "openai"@,
            },
            m.retries == if self.current != self.requested {
                1u32
            } else {
                0u32
            },
    {
        let retries: u32 = if self.failed_over() {
            1
        } else {
            0
        };
        ResponseMetadata {
            timestamp,
            execution_time_ms,
            model_used: Some(String::from_str(self.requested.provider_name())),
            retries,
        }
    }
}

/// The state in which the first call of a request for `requested` is made.
pub open spec fn spec_start(requested: AiProvider) -> GatewayState {
    GatewayState { requested, current: requested, attempt: 0 }
}

/// The providers called, in order, when the call made in `state` and the
/// calls after it end as `outcomes` say. A call whose outcome `outcomes` does
/// not reach is still counted: it has been made.
pub open spec fn calls_made<T>(state: GatewayState, outcomes: Seq<Result<T, AppError>>) -> Seq<
    AiProvider,
>
    decreases outcomes.len(),
{
    if outcomes.len() == 0 {
        seq![state.current]
    } else {
        match spec_step(state, outcomes[0]) {
            GatewayStep::Call { state: next, .. } => seq![state.current] + calls_made(
                next,
                outcomes.drop_first(),
            ),
            GatewayStep::Finish { .. } => seq![state.current],
        }
    }
}

/// What the caller of the gateway is handed when the calls end as `outcomes`
/// say, or `None` while the request is still under way.
pub open spec fn final_result<T>(state: GatewayState, outcomes: Seq<Result<T, AppError>>) -> Option<
    Result<T, AppError>,
>
    decreases outcomes.len(),
{
    if outcomes.len() == 0 {
        None
    } else {
        match spec_step(state, outcomes[0]) {
            GatewayStep::Call { state: next, .. } => final_result(next, outcomes.drop_first()),
            GatewayStep::Finish { result } => Some(result),
        }
    }
}

/// The calls that a state still allows, the one under way included.
pub open spec fn calls_left(state: GatewayState) -> int {
    (MAX_ATTEMPTS - state.attempt) + if may_fail_over(state) {
        MAX_ATTEMPTS as int
    } else {
        0
    }
}

/// The provider of the `k`-th call from `state` on, if the request gets that
/// far: the current one while its attempts last, then the fallback.
pub open spec fn provider_of_call(state: GatewayState, k: int) -> AiProvider {
    if k < MAX_ATTEMPTS - state.attempt {
        state.current
    } else {
        spec_fallback(state.requested)->0
    }
}

/// The caller is handed a failure that is not one of malformed input.
pub open spec fn hands_on_upstream_failure<T>(result: Option<Result<T, AppError>>) -> bool {
    result matches Some(Err(error)) && !(error is Validation)
}

proof fn lemma_calls_from<T>(state: GatewayState, outcomes: Seq<Result<T, AppError>>)
    requires
        state.attempt < MAX_ATTEMPTS,
    ensures
        1 <= calls_made(state, outcomes).len() <= calls_left(state),
        forall|k: int|
            0 <= k < calls_made(state, outcomes).len() ==> #[trigger] calls_made(
                state,
                outcomes,
            )[k] == provider_of_call(state, k),
        hands_on_upstream_failure(final_result(state, outcomes)) ==> calls_made(
            state,
            outcomes,
        ).len() == calls_left(state),
    decreases outcomes.len(),
{
    if outcomes.len() > 0 {
        match spec_step(state, outcomes[0]) {
            GatewayStep::Call { state: next, .. } => {
                lemma_calls_from(next, outcomes.drop_first());
                let rest = calls_made(next, outcomes.drop_first());
                let all = calls_made(state, outcomes);
                assert(all == seq![state.current] + rest);
                assert forall|k: int| 0 <= k < all.len() implies #[trigger] all[k]
                    == provider_of_call(state, k) by {
                    if k > 0 {
                        assert(all[k] == rest[k - 1]);
                        assert(rest[k - 1] == provider_of_call(next, k - 1));
                    }
                }
            },
            GatewayStep::Finish { .. } => {},
        }
    }
}

/// One request makes at most six calls, three where the provider that was
/// asked for has no fallback. All calls go to the provider asked for, except
/// that the fourth and later ones go to its fallback: the fallback is
/// turned to once, after the third failure, and never left again. A failure
/// other than malformed input reaches the caller only when every call that
/// the request allows has been made.
pub proof fn lemma_bounded_retry_and_failover<T>(
    requested: AiProvider,
    outcomes: Seq<Result<T, AppError>>,
)
    ensures
        ({
            let calls = calls_made(spec_start(requested), outcomes);
            &&& 1 <= calls.len() <= 2 * MAX_ATTEMPTS
            &&& spec_fallback(requested) is None ==> calls.len() <= MAX_ATTEMPTS
            &&& forall|k: int|
                0 <= k < calls.len() && k < MAX_ATTEMPTS ==> #[trigger] calls[k] == requested
            &&& forall|k: int|
                MAX_ATTEMPTS <= k < calls.len() ==> Some(#[trigger] calls[k]) == spec_fallback(
                    requested,
                )
            &&& hands_on_upstream_failure(final_result(spec_start(requested), outcomes))
                ==> calls.len() == if spec_fallback(requested) is Some {
                2 * MAX_ATTEMPTS
            } else {
                MAX_ATTEMPTS as int
            }
        }),
{
    lemma_calls_from(spec_start(requested), outcomes);
}

} // verus!
