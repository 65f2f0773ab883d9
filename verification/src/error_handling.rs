//! Errors shown to the user: categories, user-facing and technical messages,
//! conversion from provider errors, log records and the retry decisions.
use vstd::prelude::*;
use crate::text::{append_str, contains_str, decimal, has_substring, to_string, u64_to_decimal};

verus! {

/// Declares `std::time::Instant`, a point in time, as an opaque type.
#[verifier::external_type_specification]
#[verifier::external_body]
pub struct ExInstant(std::time::Instant);

/// Specifies `Clone::clone` for `Instant`, which is `Copy`: the clone is the same instant.
pub assume_specification[ <std::time::Instant as Clone>::clone ](i: &std::time::Instant) -> (r: std::time::Instant)
    ensures
        r == *i,
;

/// Wraps `Instant::now`: the current instant. It depends on the clock, so nothing is
/// stated of it.
#[verifier::external_body]
pub(crate) fn instant_now() -> std::time::Instant {
    std::time::Instant::now()
}

/// Category of an error.
#[derive(Debug, Clone, Copy, PartialEq, Eq, Structural)]
pub enum ErrorType {
    /// Connection or timeout problem.
    Network,
    /// The provider's API answered with an error (rate limit, authentication, ...).
    Api,
    /// Invalid data.
    Validation,
    /// Malformed data (JSON, format).
    Parse,
    /// Bad configuration.
    Configuration,
    /// Anything else.
    Unknown,
}

/// Error reported by a market-data provider.
#[derive(Debug, Clone)]
pub enum ProviderError {
    Network(String),
    Parse(String),
    Api { status: Option<u16>, message: String },
    InvalidSeriesId(String),
    Validation(String),
    Unknown(String),
}

/// An error with a message for the user and one for debugging.
#[derive(Debug)]
pub struct AppError {
    /// Message shown to the user.
    pub user_message: String,
    /// Message for debugging.
    pub technical_message: String,
    /// Category.
    pub error_type: ErrorType,
    /// Where the error came from, when known.
    pub source: Option<String>,
    /// When the error was made.
    pub timestamp: std::time::Instant,
}

/// Severity with which an error is logged.
#[derive(Debug, Clone, Copy, PartialEq, Eq, Structural)]
pub enum LogLevel {
    Error,
    Warn,
}

/// Text of `Option<u16>` as `{:?}` writes it: `Some(429)` or `None`.
pub open spec fn debug_status(status: Option<u16>) -> Seq<char> {
    match status {
        Some(s) => "Some("@ + decimal(s as nat) + ")"@,
        None => "None"@,
    }
}

/// Message for the user that a provider error turns into.
pub open spec fn provider_user_message(err: ProviderError, context: Seq<char>) -> Seq<char> {
    match err {
        ProviderError::Network(_) => "Problème de connexion réseau lors de "@ + context,
        ProviderError::Parse(_) => "Erreur lors du traitement des données de "@ + context,
        ProviderError::Api { status, message } => match status {
            Some(s) => if s == 429 {
                "Trop de requêtes. Veuillez patienter quelques instants."@
            } else if s == 401 || s == 403 {
                "Erreur d'authentification. Vérifiez vos clés API."@
            } else {
                "Erreur API ("@ + decimal(s as nat) + "): "@ + message@
            },
            None => "Erreur API: "@ + message@,
        },
        ProviderError::InvalidSeriesId(_) => "Identifiant de série invalide"@,
        ProviderError::Validation(_) => "Données invalides"@,
        ProviderError::Unknown(_) => "Erreur inconnue lors de "@ + context,
    }
}

/// Technical message that a provider error turns into.
pub open spec fn provider_technical_message(err: ProviderError) -> Seq<char> {
    match err {
        ProviderError::Network(msg) => "Network error: "@ + msg@,
        ProviderError::Parse(msg) => "Parse error: "@ + msg@,
        ProviderError::Api { status, message } => "API error (status: "@ + debug_status(status)
            + "): "@ + message@,
        ProviderError::InvalidSeriesId(msg) => "Invalid series ID: "@ + msg@,
        ProviderError::Validation(msg) => "Validation error: "@ + msg@,
        ProviderError::Unknown(msg) => "Unknown error: "@ + msg@,
    }
}

/// Category that a provider error falls in.
pub open spec fn provider_error_type(err: ProviderError) -> ErrorType {
    match err {
        ProviderError::Network(_) => ErrorType::Network,
        ProviderError::Parse(_) => ErrorType::Parse,
        ProviderError::Api { .. } => ErrorType::Api,
        ProviderError::InvalidSeriesId(_) => ErrorType::Validation,
        ProviderError::Validation(_) => ErrorType::Validation,
        ProviderError::Unknown(_) => ErrorType::Unknown,
    }
}

/// Errors that retrying cannot mend: validation and configuration errors, and API
/// errors whose technical message names 401, 403, INVALID_API_KEY or INVALID_SIGNATURE.
pub open spec fn not_retryable(error_type: ErrorType, technical: Seq<char>) -> bool {
    match error_type {
        ErrorType::Validation | ErrorType::Configuration => true,
        ErrorType::Api => has_substring(technical, "401"@) || has_substring(technical, "403"@)
            || has_substring(technical, "INVALID_API_KEY"@) || has_substring(
            technical,
            "INVALID_SIGNATURE"@,
        ),
        _ => false,
    }
}

/// A provider's complaint about the request itself (invalid data, or an unknown series)
/// becomes a validation error, and retrying is never chosen for it: whatever its
/// technical text, such an error is one retrying cannot mend.
pub proof fn law_invalid_requests_are_not_retried(err: ProviderError, technical: Seq<char>)
    requires
        err is Validation || err is InvalidSeriesId,
    ensures
        provider_error_type(err) == ErrorType::Validation,
        not_retryable(provider_error_type(err), technical),
{
}

/// Transient provider failures (network trouble, unreadable data, unknown causes) are
/// never judged beyond mending: retrying stays possible for them.
pub proof fn law_transient_errors_may_be_retried(err: ProviderError, technical: Seq<char>)
    requires
        err is Network || err is Parse || err is Unknown,
    ensures
        !not_retryable(provider_error_type(err), technical),
{
}

/// Severity with which an error of the category is logged.
pub open spec fn log_level_of(error_type: ErrorType) -> LogLevel {
    match error_type {
        ErrorType::Validation | ErrorType::Parse => LogLevel::Warn,
        _ => LogLevel::Error,
    }
}

/// The logged line: `[source] user - technical`, or `user - technical` without a source.
pub open spec fn log_line(source: Option<Seq<char>>, user: Seq<char>, technical: Seq<char>) -> Seq<char> {
    match source {
        Some(src) => "["@ + src + "] "@ + user + " - "@ + technical,
        None => user + " - "@ + technical,
    }
}

/// `a` followed by `b`, as a fresh string.
fn concat2(a: &str, b: &str) -> (r: String)
    ensures
        r@ == a@ + b@,
{
    let mut r = to_string(a);
    append_str(&mut r, b);
    r
}

/// The text of `status` as `{:?}` writes it.
fn format_debug_status(status: Option<u16>) -> (r: String)
    ensures
        r@ == debug_status(status),
{
    match status {
        Some(s) => {
            let mut r = to_string("Some(");
            let d = u64_to_decimal(s as u64);
            append_str(&mut r, d.as_str());
            append_str(&mut r, ")");
            r
        },
        None => to_string("None"),
    }
}

/// Two errors carry the same messages, category, source and time.
pub open spec fn same_error(a: AppError, b: AppError) -> bool {
    &&& a.user_message@ == b.user_message@
    &&& a.technical_message@ == b.technical_message@
    &&& a.error_type == b.error_type
    &&& a.timestamp == b.timestamp
    &&& match (a.source, b.source) {
        (Some(x), Some(y)) => x@ == y@,
        (None, None) => true,
        _ => false,
    }
}

impl Clone for AppError {
    /// A copy with the same messages, category, source and time.
    fn clone(&self) -> (c: Self)
        ensures
            same_error(c, *self),
    {
        AppError {
            user_message: self.user_message.clone(),
            technical_message: self.technical_message.clone(),
            error_type: self.error_type,
            source: match &self.source {
                Some(s) => Some(s.clone()),
                None => None,
            },
            timestamp: self.timestamp.clone(),
        }
    }
}

impl AppError {
    /// An error made now, with no source.
    pub fn new(user_message: String, technical_message: String, error_type: ErrorType) -> (e: Self)
        ensures
            e.user_message@ == user_message@,
            e.technical_message@ == technical_message@,
            e.error_type == error_type,
            e.source is None,
    {
        AppError {
            user_message,
            technical_message,
            error_type,
            source: None,
            timestamp: instant_now(),
        }
    }

    /// The text the error is shown as: its user message.
    pub fn to_string(&self) -> (s: String)
        ensures
            s@ == self.user_message@,
    {
        self.user_message.clone()
    }

    /// The same error with `source` recorded.
    pub fn with_source(self, source: String) -> (e: Self)
        ensures
            e.user_message == self.user_message,
            e.technical_message == self.technical_message,
            e.error_type == self.error_type,
            e.timestamp == self.timestamp,
            e.source == Some(source),
    {
        AppError { source: Some(source), ..self }
    }

    /// An error whose user and technical messages are both `msg`, of unknown category
    /// (what `From<String>` and `From<&str>` give).
    pub fn from_message(msg: &str) -> (e: Self)
        ensures
            e.user_message@ == msg@,
            e.technical_message@ == msg@,
            e.error_type == ErrorType::Unknown,
            e.source is None,
    {
        AppError::new(to_string(msg), to_string(msg), ErrorType::Unknown)
    }

    /// Turns a provider error into an error for the user; `context` names the
    /// operation that failed.
    pub fn from_provider_error(err: ProviderError, context: &str) -> (e: Self)
        ensures
            e.user_message@ == provider_user_message(err, context@),
            e.technical_message@ == provider_technical_message(err),
            e.error_type == provider_error_type(err),
            e.source is None,
    {
        let ghost orig = err;
        match err {
            ProviderError::Network(msg) => AppError::new(
                concat2("Problème de connexion réseau lors de ", context),
                concat2("Network error: ", msg.as_str()),
                ErrorType::Network,
            ),
            ProviderError::Parse(msg) => AppError::new(
                concat2("Erreur lors du traitement des données de ", context),
                concat2("Parse error: ", msg.as_str()),
                ErrorType::Parse,
            ),
            ProviderError::Api { status, message } => {
                let user = match status {
                    Some(s) => {
                        if s == 429 {
                            to_string("Trop de requêtes. Veuillez patienter quelques instants.")
                        } else if s == 401 || s == 403 {
                            to_string("Erreur d'authentification. Vérifiez vos clés API.")
                        } else {
                            let mut u = to_string("Erreur API (");
                            let d = u64_to_decimal(s as u64);
                            append_str(&mut u, d.as_str());
                            append_str(&mut u, "): ");
                            append_str(&mut u, message.as_str());
                            u
                        }
                    },
                    None => concat2("Erreur API: ", message.as_str()),
                };
                let mut tech = to_string("API error (status: ");
                let st = format_debug_status(status);
                append_str(&mut tech, st.as_str());
                append_str(&mut tech, "): ");
                append_str(&mut tech, message.as_str());
                AppError::new(user, tech, ErrorType::Api)
            },
            ProviderError::InvalidSeriesId(msg) => AppError::new(
                to_string("Identifiant de série invalide"),
                concat2("Invalid series ID: ", msg.as_str()),
                ErrorType::Validation,
            ),
            ProviderError::Validation(msg) => AppError::new(
                to_string("Données invalides"),
                concat2("Validation error: ", msg.as_str()),
                ErrorType::Validation,
            ),
            ProviderError::Unknown(msg) => AppError::new(
                concat2("Erreur inconnue lors de ", context),
                concat2("Unknown error: ", msg.as_str()),
                ErrorType::Unknown,
            ),
        }
    }

    /// Severity and text with which the error is logged.
    pub fn log_record(&self) -> (r: (LogLevel, String))
        ensures
            r.0 == log_level_of(self.error_type),
            r.1@ == log_line(
                match self.source {
                    Some(s) => Some(s@),
                    None => None,
                },
                self.user_message@,
                self.technical_message@,
            ),
    {
        let mut line = match &self.source {
            Some(src) => {
                let mut l = concat2("[", src.as_str());
                append_str(&mut l, "] ");
                append_str(&mut l, self.user_message.as_str());
                l
            },
            None => to_string(self.user_message.as_str()),
        };
        append_str(&mut line, " - ");
        append_str(&mut line, self.technical_message.as_str());
        let level = match self.error_type {
            ErrorType::Validation | ErrorType::Parse => LogLevel::Warn,
            _ => LogLevel::Error,
        };
        (level, line)
    }
}

/// Whether retrying cannot mend `error`.
pub fn should_not_retry(error: &AppError) -> (b: bool)
    ensures
        b == not_retryable(error.error_type, error.technical_message@),
{
    match error.error_type {
        ErrorType::Validation | ErrorType::Configuration => true,
        ErrorType::Api => {
            let t = error.technical_message.as_str();
            contains_str(t, "401") || contains_str(t, "403") || contains_str(t, "INVALID_API_KEY")
                || contains_str(t, "INVALID_SIGNATURE")
        },
        _ => false,
    }
}

/// Outcome of an operation run with retries.
#[derive(Debug)]
pub enum RetryResult<T> {
    /// Success after `attempts` attempts.
    Success { value: T, attempts: u32 },
    /// Failure after `attempts` attempts.
    Failed { error: AppError, attempts: u32 },
}

/// What to do after attempt `attempt` failed.
#[derive(Debug, Clone, Copy, PartialEq, Eq, Structural)]
pub enum RetryAction {
    /// Stop now with this error: retrying cannot mend it.
    Stop,
    /// Wait this many milliseconds, then try again.
    WaitThenRetry(u64),
    /// That was the last allowed attempt: fail with this error.
    Exhausted,
}

/// Decides what follows a failed attempt: stop on errors that retrying cannot
/// mend; otherwise, before the last attempt, wait `min(delay_ms, max_delay_ms)`
/// and retry; after it, give up.
pub fn retry_after_error(
    attempt: u32,
    max_attempts: u32,
    delay_ms: u64,
    max_delay_ms: u64,
    error: &AppError,
) -> (a: RetryAction)
    ensures
        not_retryable(error.error_type, error.technical_message@) ==> a == RetryAction::Stop,
        !not_retryable(error.error_type, error.technical_message@) && attempt < max_attempts ==> a
            == RetryAction::WaitThenRetry(if delay_ms <= max_delay_ms { delay_ms } else { max_delay_ms }),
        !not_retryable(error.error_type, error.technical_message@) && attempt >= max_attempts ==> a
            == RetryAction::Exhausted,
{
    if should_not_retry(error) {
        RetryAction::Stop
    } else if attempt < max_attempts {
        RetryAction::WaitThenRetry(if delay_ms <= max_delay_ms { delay_ms } else { max_delay_ms })
    } else {
        RetryAction::Exhausted
    }
}

/// Error reported when no attempt ran at all (zero attempts allowed).
pub fn exhausted_error(max_attempts: u32, context: &str) -> (e: AppError)
    ensures
        e.user_message@ == "Échec après "@ + decimal(max_attempts as nat) + " tentatives"@,
        e.technical_message@ == "Toutes les tentatives ont échoué pour "@ + context@,
        e.error_type == ErrorType::Unknown,
        e.source is None,
{
    let mut user = to_string("Échec après ");
    let d = u64_to_decimal(max_attempts as u64);
    append_str(&mut user, d.as_str());
    append_str(&mut user, " tentatives");
    AppError::new(user, concat2("Toutes les tentatives ont échoué pour ", context), ErrorType::Unknown)
}

} // verus!
