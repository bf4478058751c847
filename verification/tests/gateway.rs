use predict_os_be::error::AppError;
use predict_os_be::gateway::{AiProvider, GatewayState, GatewayStep, BASE_DELAY_MS, MAX_ATTEMPTS};

/// Drives the gateway over `outcomes`: the providers called, the pauses
/// before the calls after the first, and what the caller is handed.
fn drive(
    requested: AiProvider,
    outcomes: Vec<Result<u32, AppError>>,
) -> (Vec<AiProvider>, Vec<u64>, Option<Result<u32, AppError>>, GatewayState) {
    let mut state = GatewayState::start(requested);
    let mut calls = vec![state.current];
    let mut pauses = Vec::new();
    for outcome in outcomes {
        match state.step(outcome) {
            GatewayStep::Call { state: next, delay_ms } => {
                state = next;
                calls.push(state.current);
                pauses.push(delay_ms);
            }
            GatewayStep::Finish { result } => return (calls, pauses, Some(result), state),
        }
    }
    (calls, pauses, None, state)
}

fn failure(n: u32) -> Result<u32, AppError> {
    Err(AppError::ExternalApi(format!("failure {}", n)))
}

fn external_text(result: Option<Result<u32, AppError>>) -> String {
    match result {
        Some(Err(AppError::ExternalApi(text))) => text,
        other => panic!("expected an external failure, got {:?}", other),
    }
}

#[test]
fn gateway_default_provider_fails_over_once_after_three_attempts() {
    let (calls, pauses, result, state) =
        drive(AiProvider::Grok, (1..=10).map(failure).collect());
    assert_eq!(
        calls,
        vec![
            AiProvider::Grok,
            AiProvider::Grok,
            AiProvider::Grok,
            AiProvider::OpenAi,
            AiProvider::OpenAi,
            AiProvider::OpenAi
        ]
    );
    assert_eq!(pauses, vec![100, 200, 0, 100, 200]);
    assert_eq!(external_text(result), "failure 6");
    assert!(state.failed_over());
}

#[test]
fn gateway_explicit_provider_does_not_fail_over() {
    let (calls, pauses, result, state) =
        drive(AiProvider::OpenAi, (1..=10).map(failure).collect());
    assert_eq!(calls, vec![AiProvider::OpenAi, AiProvider::OpenAi, AiProvider::OpenAi]);
    assert_eq!(pauses, vec![100, 200]);
    assert_eq!(external_text(result), "failure 3");
    assert!(!state.failed_over());
}

#[test]
fn gateway_success_ends_the_request() {
    let (calls, _, result, _) = drive(AiProvider::Grok, vec![Ok(7)]);
    assert_eq!(calls, vec![AiProvider::Grok]);
    assert!(matches!(result, Some(Ok(7))));
    let (calls, pauses, result, state) =
        drive(AiProvider::Grok, vec![failure(1), failure(2), Ok(9)]);
    assert_eq!(calls.len(), 3);
    assert_eq!(pauses, vec![100, 200]);
    assert!(matches!(result, Some(Ok(9))));
    assert!(!state.failed_over());
}

#[test]
fn gateway_success_of_the_fallback_is_handed_on() {
    let (calls, _, result, state) =
        drive(AiProvider::Grok, vec![failure(1), failure(2), failure(3), failure(4), Ok(5)]);
    assert_eq!(calls.len(), 5);
    assert_eq!(calls[3], AiProvider::OpenAi);
    assert!(matches!(result, Some(Ok(5))));
    assert!(state.failed_over());
}

#[test]
fn gateway_malformed_input_is_not_retried() {
    let refused = || Err(AppError::Validation("bad input".to_string()));
    let (calls, pauses, result, _) = drive(AiProvider::Grok, vec![refused(), Ok(1)]);
    assert_eq!(calls, vec![AiProvider::Grok]);
    assert!(pauses.is_empty());
    assert!(matches!(result, Some(Err(AppError::Validation(text))) if text == "bad input"));
    let (calls, _, result, _) =
        drive(AiProvider::Grok, vec![failure(1), failure(2), refused(), Ok(1)]);
    assert_eq!(calls.len(), 3);
    assert!(matches!(result, Some(Err(AppError::Validation(_)))));
}

#[test]
fn gateway_other_failures_are_retried() {
    for error in [
        AppError::Timeout("slow".to_string()),
        AppError::RateLimit,
        AppError::Internal("broken".to_string()),
        AppError::NotFound("gone".to_string()),
    ] {
        let state = GatewayState::start(AiProvider::OpenAi);
        let step: GatewayStep<u32> = state.step(Err(error));
        assert!(matches!(step, GatewayStep::Call { delay_ms: 100, .. }));
    }
}

#[test]
fn gateway_never_makes_more_than_six_calls() {
    // every pattern of failure and success over eight outcomes
    for requested in [AiProvider::Grok, AiProvider::OpenAi] {
        for pattern in 0u32..256 {
            let outcomes: Vec<Result<u32, AppError>> = (0..8)
                .map(|k| if pattern & (1 << k) != 0 { Ok(k) } else { failure(k) })
                .collect();
            let (calls, _, result, _) = drive(requested, outcomes);
            assert!(calls.len() <= 2 * MAX_ATTEMPTS as usize);
            if requested == AiProvider::OpenAi {
                assert!(calls.len() <= MAX_ATTEMPTS as usize);
                assert!(calls.iter().all(|p| *p == AiProvider::OpenAi));
            }
            for (k, provider) in calls.iter().enumerate() {
                let expected = if k < 3 { requested } else { AiProvider::OpenAi };
                assert_eq!(*provider, expected);
            }
            if let Some(Err(_)) = result {
                let budget = if requested == AiProvider::Grok { 6 } else { 3 };
                assert_eq!(calls.len(), budget);
            }
        }
    }
}

#[test]
fn gateway_provider_by_model_name() {
    assert_eq!(AiProvider::from_model(None), AiProvider::Grok);
    assert_eq!(AiProvider::from_model(Some(&"openai".to_string())), AiProvider::OpenAi);
    assert_eq!(AiProvider::from_model(Some(&"grok".to_string())), AiProvider::Grok);
    assert_eq!(AiProvider::from_model(Some(&"OpenAI".to_string())), AiProvider::Grok);
    assert_eq!(AiProvider::from_model(Some(&"".to_string())), AiProvider::Grok);
}

#[test]
fn gateway_provider_constants() {
    assert_eq!(AiProvider::Grok.provider_name(), "grok");
    assert_eq!(AiProvider::OpenAi.provider_name(), "openai");
    assert_eq!(AiProvider::Grok.display_name(), "Grok");
    assert_eq!(AiProvider::OpenAi.display_name(), "OpenAI");
    assert_eq!(AiProvider::Grok.endpoint(), "https://api.x.ai/v1/chat/completions");
    assert_eq!(AiProvider::OpenAi.endpoint(), "https://api.openai.com/v1/chat/completions");
    assert_eq!(AiProvider::Grok.model_name(), "grok-beta");
    assert_eq!(AiProvider::OpenAi.model_name(), "gpt-4-turbo-preview");
    assert_eq!(AiProvider::Grok.fallback(), Some(AiProvider::OpenAi));
    assert_eq!(AiProvider::OpenAi.fallback(), None);
    assert_eq!(MAX_ATTEMPTS, 3);
    assert_eq!(BASE_DELAY_MS, 100);
}

#[test]
fn gateway_metadata_names_the_requested_provider() {
    let (_, _, _, state) = drive(AiProvider::Grok, (1..=4).map(failure).collect());
    let m = state.metadata("2024-01-01T00:00:00+00:00".to_string(), 12);
    assert_eq!(m.timestamp, "2024-01-01T00:00:00+00:00");
    assert_eq!(m.execution_time_ms, 12);
    assert_eq!(m.model_used, Some("grok".to_string()));
    assert_eq!(m.retries, 1);
    let m = GatewayState::start(AiProvider::OpenAi).metadata("t".to_string(), 0);
    assert_eq!(m.model_used, Some("openai".to_string()));
    assert_eq!(m.retries, 0);
}
