use vstd::prelude::*;

verus! {

/// Why an operation of a scan failed.
///
/// Every kind is fatal to the operation that reports it; none carries the
/// bearer token.
#[derive(Debug, Clone, PartialEq)]
pub enum ScanError {
    /// The service-account key could not be parsed.
    InvalidCredentials,
    /// The identity provider rejected the token exchange.
    TokenExchangeFailed,
    /// The exchange succeeded but issued no token.
    NoTokenIssued,
    /// The HTTP client could not be built.
    ClientBuildFailed,
    /// A required option is absent; carries the option's name.
    MissingOption(String),
    /// Transient failures persisted through every attempt.
    HttpTransient,
    /// The final response had this non-success status.
    HttpStatus(u16),
    /// The body lacks the expected prefix or path.
    MalformedResponse,
    /// The body is not valid JSON.
    InvalidJson,
    /// A present field cannot be coerced to its column's type.
    UnsupportedColumnType { name: String, ordinal: usize },
    /// The `limit` option is not an integer.
    LimitOptionParseError,
}

} // verus!
