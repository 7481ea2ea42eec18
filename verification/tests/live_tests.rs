use marketdata::live::{
    check_credential, classify_response, fetch_fallback_data, fetch_live_data, FetchError,
    FetchOutcome, FetchPhase, FetchStep, TransportEvent,
};

const CANDLE_BODY: &str = r#"{
    "c": [185.14, 184.25],
    "h": [186.95, 185.88],
    "l": [184.35, 183.43],
    "o": [185.64, 184.22],
    "s": "ok",
    "t": [1704205800, 1704292200],
    "v": [52430000, 58410000]
}"#;

const QUOTE_BODY: &str = r#"{"c": 185.14, "h": 186.95, "l": 184.35, "o": 185.64, "pc": 184.25}"#;

fn success(body: &str) -> TransportEvent {
    TransportEvent::Success(body.as_bytes().to_vec())
}

#[test]
fn primary_success_returns_parsed_candle() {
    let step = fetch_live_data(success(CANDLE_BODY));
    match step {
        FetchStep::Done(Ok(FetchOutcome::Candle(candle))) => {
            assert_eq!(candle.c, vec![1_851_400, 1_842_500]);
            assert_eq!(candle.h, vec![1_869_500, 1_858_800]);
            assert_eq!(candle.l, vec![1_843_500, 1_834_300]);
            assert_eq!(candle.o, vec![1_856_400, 1_842_200]);
            assert_eq!(candle.s, b"ok".to_vec());
            assert_eq!(candle.t, vec![1_704_205_800, 1_704_292_200]);
            assert_eq!(candle.v, vec![52_430_000, 58_410_000]);
        },
        other => panic!("expected a candle result, got {:?}", other),
    }
}

#[test]
fn forbidden_primary_asks_for_exactly_one_fallback() {
    assert_eq!(fetch_live_data(TransportEvent::Forbidden), FetchStep::NeedFallback);
}

#[test]
fn fallback_success_is_tagged_degraded_never_a_candle() {
    let result = fetch_fallback_data(success(QUOTE_BODY));
    match result {
        Ok(FetchOutcome::FallbackQuote(quote)) => {
            assert_eq!(quote.c, 1_851_400);
            assert_eq!(quote.h, 1_869_500);
            assert_eq!(quote.l, 1_843_500);
            assert_eq!(quote.o, 1_856_400);
            assert_eq!(quote.pc, 1_842_500);
        },
        other => panic!("expected a degraded quote, got {:?}", other),
    }
}

#[test]
fn non_ok_status_token_is_no_data_and_no_fallback() {
    let body = r#"{"c": [], "h": [], "l": [], "o": [], "s": "no_data", "t": [], "v": []}"#;
    let step = fetch_live_data(success(body));
    assert_eq!(step, FetchStep::Done(Err(FetchError::NoData)));
}

#[test]
fn transport_error_is_provider_unreachable_and_no_fallback() {
    let step = fetch_live_data(TransportEvent::TransportError);
    assert_eq!(
        step,
        FetchStep::Done(Err(FetchError::ProviderUnreachable(FetchPhase::Primary)))
    );
}

#[test]
fn other_status_is_provider_error_with_code() {
    let step = fetch_live_data(TransportEvent::OtherStatus(500));
    assert_eq!(
        step,
        FetchStep::Done(Err(FetchError::ProviderError(FetchPhase::Primary, 500)))
    );
}

#[test]
fn malformed_primary_body_is_schema_error() {
    let step = fetch_live_data(success("not json at all"));
    assert_eq!(step, FetchStep::Done(Err(FetchError::SchemaError)));
}

#[test]
fn primary_body_missing_field_is_schema_error() {
    let body = r#"{"c": [1.0], "h": [1.0], "l": [1.0], "o": [1.0], "s": "ok", "t": [1]}"#;
    let step = fetch_live_data(success(body));
    assert_eq!(step, FetchStep::Done(Err(FetchError::SchemaError)));
}

#[test]
fn primary_body_with_unequal_arrays_is_schema_error() {
    let body = r#"{"c": [1.0, 2.0], "h": [1.0], "l": [1.0], "o": [1.0], "s": "ok", "t": [1], "v": [1]}"#;
    let step = fetch_live_data(success(body));
    assert_eq!(step, FetchStep::Done(Err(FetchError::SchemaError)));
}

#[test]
fn fallback_transport_error_is_tagged_fallback() {
    let result = fetch_fallback_data(TransportEvent::TransportError);
    assert_eq!(result, Err(FetchError::ProviderUnreachable(FetchPhase::Fallback)));
}

#[test]
fn fallback_forbidden_is_provider_error_403() {
    let result = fetch_fallback_data(TransportEvent::Forbidden);
    assert_eq!(result, Err(FetchError::ProviderError(FetchPhase::Fallback, 403)));
}

#[test]
fn fallback_other_status_keeps_its_code() {
    let result = fetch_fallback_data(TransportEvent::OtherStatus(429));
    assert_eq!(result, Err(FetchError::ProviderError(FetchPhase::Fallback, 429)));
}

#[test]
fn malformed_fallback_body_is_schema_error() {
    let result = fetch_fallback_data(success(r#"{"c": "not a number"}"#));
    assert_eq!(result, Err(FetchError::SchemaError));
}

#[test]
fn only_403_classifies_as_forbidden() {
    assert_eq!(classify_response(403, Vec::new()), TransportEvent::Forbidden);
    assert_eq!(
        classify_response(200, b"{}".to_vec()),
        TransportEvent::Success(b"{}".to_vec())
    );
    assert_eq!(classify_response(401, Vec::new()), TransportEvent::OtherStatus(401));
    assert_eq!(classify_response(500, Vec::new()), TransportEvent::OtherStatus(500));
    assert_eq!(classify_response(301, Vec::new()), TransportEvent::OtherStatus(301));
}

#[test]
fn missing_credential_is_rejected_before_any_call() {
    assert_eq!(check_credential(b""), Err(FetchError::MissingCredential));
    assert!(check_credential(b"demo-key").is_ok());
}
