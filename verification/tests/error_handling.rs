use candlechart::error_handling::{
    exhausted_error, retry_after_error, should_not_retry, AppError, ErrorType, LogLevel, ProviderError,
    RetryAction, RetryResult,
};

#[test]
fn network_error_messages() {
    let e = AppError::from_provider_error(ProviderError::Network("timeout".into()), "chargement");
    assert_eq!(e.user_message, "Problème de connexion réseau lors de chargement");
    assert_eq!(e.technical_message, "Network error: timeout");
    assert_eq!(e.error_type, ErrorType::Network);
    assert!(e.source.is_none());
}

#[test]
fn parse_error_messages() {
    let e = AppError::from_provider_error(ProviderError::Parse("bad json".into()), "BTCUSDT");
    assert_eq!(e.user_message, "Erreur lors du traitement des données de BTCUSDT");
    assert_eq!(e.technical_message, "Parse error: bad json");
    assert_eq!(e.error_type, ErrorType::Parse);
}

#[test]
fn api_error_messages_by_status() {
    let e = AppError::from_provider_error(ProviderError::Api { status: Some(429), message: "slow".into() }, "x");
    assert_eq!(e.user_message, "Trop de requêtes. Veuillez patienter quelques instants.");
    assert_eq!(e.technical_message, "API error (status: Some(429)): slow");
    let e = AppError::from_provider_error(ProviderError::Api { status: Some(401), message: "no".into() }, "x");
    assert_eq!(e.user_message, "Erreur d'authentification. Vérifiez vos clés API.");
    let e = AppError::from_provider_error(ProviderError::Api { status: Some(403), message: "no".into() }, "x");
    assert_eq!(e.user_message, "Erreur d'authentification. Vérifiez vos clés API.");
    let e = AppError::from_provider_error(ProviderError::Api { status: Some(500), message: "boom".into() }, "x");
    assert_eq!(e.user_message, "Erreur API (500): boom");
    assert_eq!(e.technical_message, "API error (status: Some(500)): boom");
    let e = AppError::from_provider_error(ProviderError::Api { status: None, message: "odd".into() }, "x");
    assert_eq!(e.user_message, "Erreur API: odd");
    assert_eq!(e.technical_message, "API error (status: None): odd");
    assert_eq!(e.error_type, ErrorType::Api);
    let e = AppError::from_provider_error(ProviderError::Api { status: Some(0), message: "".into() }, "x");
    assert_eq!(e.user_message, "Erreur API (0): ");
}

#[test]
fn validation_and_unknown_messages() {
    let e = AppError::from_provider_error(ProviderError::InvalidSeriesId("ZZZ".into()), "x");
    assert_eq!(e.user_message, "Identifiant de série invalide");
    assert_eq!(e.technical_message, "Invalid series ID: ZZZ");
    assert_eq!(e.error_type, ErrorType::Validation);
    let e = AppError::from_provider_error(ProviderError::Validation("neg".into()), "x");
    assert_eq!(e.user_message, "Données invalides");
    assert_eq!(e.technical_message, "Validation error: neg");
    let e = AppError::from_provider_error(ProviderError::Unknown("??".into()), "sync");
    assert_eq!(e.user_message, "Erreur inconnue lors de sync");
    assert_eq!(e.technical_message, "Unknown error: ??");
    assert_eq!(e.error_type, ErrorType::Unknown);
}

#[test]
fn should_not_retry_rules() {
    let mk = |t: ErrorType, tech: &str| AppError::new("u".into(), tech.into(), t);
    assert!(should_not_retry(&mk(ErrorType::Validation, "")));
    assert!(should_not_retry(&mk(ErrorType::Configuration, "")));
    assert!(!should_not_retry(&mk(ErrorType::Network, "401")));
    assert!(!should_not_retry(&mk(ErrorType::Parse, "")));
    assert!(!should_not_retry(&mk(ErrorType::Unknown, "")));
    assert!(should_not_retry(&mk(ErrorType::Api, "API error (status: Some(401)): x")));
    assert!(should_not_retry(&mk(ErrorType::Api, "code 403")));
    assert!(should_not_retry(&mk(ErrorType::Api, "INVALID_API_KEY")));
    assert!(should_not_retry(&mk(ErrorType::Api, "bad INVALID_SIGNATURE here")));
    assert!(!should_not_retry(&mk(ErrorType::Api, "API error (status: Some(500)): x")));
    assert!(!should_not_retry(&mk(ErrorType::Api, "40")));
}

#[test]
fn retry_decisions() {
    let net = AppError::new("u".into(), "t".into(), ErrorType::Network);
    assert_eq!(retry_after_error(1, 3, 1000, 10000, &net), RetryAction::WaitThenRetry(1000));
    assert_eq!(retry_after_error(2, 3, 20000, 10000, &net), RetryAction::WaitThenRetry(10000));
    assert_eq!(retry_after_error(3, 3, 1000, 10000, &net), RetryAction::Exhausted);
    let val = AppError::new("u".into(), "t".into(), ErrorType::Validation);
    assert_eq!(retry_after_error(1, 3, 1000, 10000, &val), RetryAction::Stop);
}

#[test]
fn exhausted_error_text() {
    let e = exhausted_error(0, "prix");
    assert_eq!(e.user_message, "Échec après 0 tentatives");
    assert_eq!(e.technical_message, "Toutes les tentatives ont échoué pour prix");
    assert_eq!(e.error_type, ErrorType::Unknown);
    let e = exhausted_error(12, "x");
    assert_eq!(e.user_message, "Échec après 12 tentatives");
}

#[test]
fn log_records() {
    let e = AppError::new("u".into(), "t".into(), ErrorType::Parse);
    let (level, line) = e.log_record();
    assert_eq!(level, LogLevel::Warn);
    assert_eq!(line, "u - t");
    let e = AppError::new("u".into(), "t".into(), ErrorType::Network).with_source("feed".into());
    let (level, line) = e.log_record();
    assert_eq!(level, LogLevel::Error);
    assert_eq!(line, "[feed] u - t");
}

#[test]
fn from_message_and_retry_result() {
    let e = AppError::from_message("oops");
    assert_eq!(e.user_message, "oops");
    assert_eq!(e.technical_message, "oops");
    assert_eq!(e.error_type, ErrorType::Unknown);
    let r: RetryResult<u32> = RetryResult::Success { value: 4, attempts: 2 };
    match r {
        RetryResult::Success { value, attempts } => {
            assert_eq!(value, 4);
            assert_eq!(attempts, 2);
        }
        RetryResult::Failed { .. } => panic!("expected success"),
    }
}
