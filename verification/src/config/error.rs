//! What can be wrong with a configuration, and how it is reported.

use vstd::prelude::*;
use crate::text::{decimal, decimal_digits};

verus! {

/// Every rule that a configuration can break.
#[derive(Clone, Copy, Debug, PartialEq, Eq, Structural)]
pub enum ConfigIssue {
    ServerDomain,
    ServerPort,
    ServerUserAgent,
    LoggerLevel,
    PostgresAddress,
    PostgresPort,
    PostgresUsername,
    PostgresPassword,
    PostgresDbName,
    PostgresMaxPoolSize,
    PostgresPoolOrder,
    PostgresLogLevel,
    MemcachedAddress,
    MemcachedPort,
    MemcachedPoolSize,
    JwksIssuer,
    JwksAudience,
    JwksKeysPathMissing,
    JwksKeysPathNotDirectory,
    JwksNoKeys,
    GithubClientId,
    GithubClientSecret,
    GithubResourceUrl,
    GithubAuthUrl,
    GithubTokenUrl,
    JwtAccessTtl,
    JwtRefreshTtl,
    JwtTtlOrder,
    JwtKeyRotation,
    JwtAlgorithm,
    SessionCookieTtl,
    SessionCacheTtl,
    SessionSameSite,
    RateRequestsPerMinute,
    RateBurstSize,
    RateCleanupInterval,
    CorsOrigins,
    CorsMethods,
    CorsHeaders,
    CorsMethod,
    HstsMaxAge,
    CspPolicy,
    FrameOptions,
}

/// How the report of an issue is made up.
#[derive(Clone, Copy, Debug, PartialEq, Eq, Structural)]
pub enum ReportShape {
    /// A fixed sentence.
    Plain,
    /// A sentence around the offending text.
    Text,
    /// A sentence that ends with the offending number.
    Number,
    /// A sentence around two numbers.
    Pair,
}

/// A broken rule with the values that broke it.
#[derive(Debug)]
pub struct ConfigError {
    pub issue: ConfigIssue,
    /// The offending text, where the issue is about a text.
    pub value: String,
    /// The offending number, or the first of two.
    pub first: u64,
    /// The second of two offending numbers.
    pub second: u64,
}

/// A broken rule as plain values.
pub struct Finding {
    pub issue: ConfigIssue,
    pub value: Seq<char>,
    pub first: u64,
    pub second: u64,
}

impl View for ConfigError {
    type V = Finding;

    open spec fn view(&self) -> Finding {
        Finding { issue: self.issue, value: self.value@, first: self.first, second: self.second }
    }
}

impl ConfigIssue {
    pub open spec fn shape(self) -> ReportShape {
        match self {
            ConfigIssue::ServerDomain => ReportShape::Text,
            ConfigIssue::LoggerLevel => ReportShape::Text,
            ConfigIssue::PostgresPort => ReportShape::Number,
            ConfigIssue::PostgresPoolOrder => ReportShape::Pair,
            ConfigIssue::PostgresLogLevel => ReportShape::Text,
            ConfigIssue::MemcachedPort => ReportShape::Number,
            ConfigIssue::JwksIssuer => ReportShape::Text,
            ConfigIssue::JwksKeysPathMissing => ReportShape::Text,
            ConfigIssue::JwksKeysPathNotDirectory => ReportShape::Text,
            ConfigIssue::GithubResourceUrl => ReportShape::Text,
            ConfigIssue::GithubAuthUrl => ReportShape::Text,
            ConfigIssue::GithubTokenUrl => ReportShape::Text,
            ConfigIssue::JwtTtlOrder => ReportShape::Pair,
            ConfigIssue::JwtAlgorithm => ReportShape::Text,
            ConfigIssue::SessionSameSite => ReportShape::Text,
            ConfigIssue::CorsMethod => ReportShape::Text,
            ConfigIssue::FrameOptions => ReportShape::Text,
            _ => ReportShape::Plain,
        }
    }

    /// How the report begins.
    pub open spec fn lead(self) -> Seq<char> {
        match self {
            ConfigIssue::ServerDomain => "Invalid server domain URL: "@,
            ConfigIssue::ServerPort => "Server port cannot be 0"@,
            ConfigIssue::ServerUserAgent => "Server user_agent cannot be empty"@,
            ConfigIssue::LoggerLevel => "Invalid logger level: "@,
            ConfigIssue::PostgresAddress => "Postgres address cannot be empty"@,
            ConfigIssue::PostgresPort => "Invalid postgres port: "@,
            ConfigIssue::PostgresUsername => "Postgres username cannot be empty"@,
            ConfigIssue::PostgresPassword => "Postgres password cannot be empty"@,
            ConfigIssue::PostgresDbName => "Postgres database name cannot be empty"@,
            ConfigIssue::PostgresMaxPoolSize => "Postgres max_pool_size must be greater than 0"@,
            ConfigIssue::PostgresPoolOrder => "Postgres min_pool_size ("@,
            ConfigIssue::PostgresLogLevel => "Invalid postgres log level: "@,
            ConfigIssue::MemcachedAddress => "Memcached address cannot be empty"@,
            ConfigIssue::MemcachedPort => "Invalid memcached port: "@,
            ConfigIssue::MemcachedPoolSize => "Memcached pool_size must be greater than 0"@,
            ConfigIssue::JwksIssuer => "Invalid JWKS issuer URL: "@,
            ConfigIssue::JwksAudience => "JWKS audience cannot be empty"@,
            ConfigIssue::JwksKeysPathMissing => "JWKS keys path does not exist: "@,
            ConfigIssue::JwksKeysPathNotDirectory => "JWKS keys path is not a directory: "@,
            ConfigIssue::JwksNoKeys => "At least one JWKS key must be configured"@,
            ConfigIssue::GithubClientId => "GitHub client_id cannot be empty"@,
            ConfigIssue::GithubClientSecret => "GitHub client_secret cannot be empty"@,
            ConfigIssue::GithubResourceUrl => "Invalid GitHub resource URL: "@,
            ConfigIssue::GithubAuthUrl => "Invalid GitHub auth URL: "@,
            ConfigIssue::GithubTokenUrl => "Invalid GitHub token URL: "@,
            ConfigIssue::JwtAccessTtl => "JWT access_token_ttl must be greater than 0"@,
            ConfigIssue::JwtRefreshTtl => "JWT refresh_token_ttl must be greater than 0"@,
            ConfigIssue::JwtTtlOrder => "JWT access_token_ttl ("@,
            ConfigIssue::JwtKeyRotation => "JWT key_rotation_interval must be greater than 0"@,
            ConfigIssue::JwtAlgorithm => "Invalid JWT algorithm: "@,
            ConfigIssue::SessionCookieTtl => "Session cookie_ttl must be greater than 0"@,
            ConfigIssue::SessionCacheTtl => "Session cache_ttl must be greater than 0"@,
            ConfigIssue::SessionSameSite => "Invalid session same_site value: "@,
            ConfigIssue::RateRequestsPerMinute => "Rate limiting requests_per_minute must be greater than 0 when enabled"@,
            ConfigIssue::RateBurstSize => "Rate limiting burst_size must be greater than 0 when enabled"@,
            ConfigIssue::RateCleanupInterval => "Rate limiting cleanup_interval must be greater than 0 when enabled"@,
            ConfigIssue::CorsOrigins => "CORS allowed_origins cannot be empty when CORS is enabled"@,
            ConfigIssue::CorsMethods => "CORS allowed_methods cannot be empty when CORS is enabled"@,
            ConfigIssue::CorsHeaders => "CORS allowed_headers cannot be empty when CORS is enabled"@,
            ConfigIssue::CorsMethod => "Invalid CORS method: "@,
            ConfigIssue::HstsMaxAge => "HSTS max_age must be greater than 0 when HSTS is enabled"@,
            ConfigIssue::CspPolicy => "CSP policy cannot be empty when CSP is enabled"@,
            ConfigIssue::FrameOptions => "Invalid X-Frame-Options value: "@,
        }
    }

    /// What stands between the two numbers of a pair.
    pub open spec fn middle(self) -> Seq<char> {
        match self {
            ConfigIssue::PostgresPoolOrder => ") cannot be greater than max_pool_size ("@,
            ConfigIssue::JwtTtlOrder => ") should be less than refresh_token_ttl ("@,
            _ => ""@,
        }
    }

    /// How the report ends.
    pub open spec fn tail(self) -> Seq<char> {
        match self {
            ConfigIssue::LoggerLevel => ". Must be one of: trace, debug, info, warn, error"@,
            ConfigIssue::PostgresPoolOrder => ")"@,
            ConfigIssue::PostgresLogLevel => ". Must be one of: trace, debug, info, warn, error"@,
            ConfigIssue::JwtTtlOrder => ")"@,
            ConfigIssue::JwtAlgorithm => ". Must be one of: EdDSA"@,
            ConfigIssue::SessionSameSite => ". Must be one of: Strict, Lax, None"@,
            ConfigIssue::CorsMethod => ". Must be one of: GET, POST, PUT, DELETE, PATCH, HEAD, OPTIONS"@,
            ConfigIssue::FrameOptions => ". Must be one of: DENY, SAMEORIGIN"@,
            _ => ""@,
        }
    }

    pub fn report_shape(self) -> (shape: ReportShape)
        ensures
            shape == self.shape(),
    {
        match self {
            ConfigIssue::ServerDomain => ReportShape::Text,
            ConfigIssue::LoggerLevel => ReportShape::Text,
            ConfigIssue::PostgresPort => ReportShape::Number,
            ConfigIssue::PostgresPoolOrder => ReportShape::Pair,
            ConfigIssue::PostgresLogLevel => ReportShape::Text,
            ConfigIssue::MemcachedPort => ReportShape::Number,
            ConfigIssue::JwksIssuer => ReportShape::Text,
            ConfigIssue::JwksKeysPathMissing => ReportShape::Text,
            ConfigIssue::JwksKeysPathNotDirectory => ReportShape::Text,
            ConfigIssue::GithubResourceUrl => ReportShape::Text,
            ConfigIssue::GithubAuthUrl => ReportShape::Text,
            ConfigIssue::GithubTokenUrl => ReportShape::Text,
            ConfigIssue::JwtTtlOrder => ReportShape::Pair,
            ConfigIssue::JwtAlgorithm => ReportShape::Text,
            ConfigIssue::SessionSameSite => ReportShape::Text,
            ConfigIssue::CorsMethod => ReportShape::Text,
            ConfigIssue::FrameOptions => ReportShape::Text,
            _ => ReportShape::Plain,
        }
    }

    pub fn lead_text(self) -> (text: &'static str)
        ensures
            text@ == self.lead(),
    {
        match self {
            ConfigIssue::ServerDomain => "Invalid server domain URL: ",
            ConfigIssue::ServerPort => "Server port cannot be 0",
            ConfigIssue::ServerUserAgent => "Server user_agent cannot be empty",
            ConfigIssue::LoggerLevel => "Invalid logger level: ",
            ConfigIssue::PostgresAddress => "Postgres address cannot be empty",
            ConfigIssue::PostgresPort => "Invalid postgres port: ",
            ConfigIssue::PostgresUsername => "Postgres username cannot be empty",
            ConfigIssue::PostgresPassword => "Postgres password cannot be empty",
            ConfigIssue::PostgresDbName => "Postgres database name cannot be empty",
            ConfigIssue::PostgresMaxPoolSize => "Postgres max_pool_size must be greater than 0",
            ConfigIssue::PostgresPoolOrder => "Postgres min_pool_size (",
            ConfigIssue::PostgresLogLevel => "Invalid postgres log level: ",
            ConfigIssue::MemcachedAddress => "Memcached address cannot be empty",
            ConfigIssue::MemcachedPort => "Invalid memcached port: ",
            ConfigIssue::MemcachedPoolSize => "Memcached pool_size must be greater than 0",
            ConfigIssue::JwksIssuer => "Invalid JWKS issuer URL: ",
            ConfigIssue::JwksAudience => "JWKS audience cannot be empty",
            ConfigIssue::JwksKeysPathMissing => "JWKS keys path does not exist: ",
            ConfigIssue::JwksKeysPathNotDirectory => "JWKS keys path is not a directory: ",
            ConfigIssue::JwksNoKeys => "At least one JWKS key must be configured",
            ConfigIssue::GithubClientId => "GitHub client_id cannot be empty",
            ConfigIssue::GithubClientSecret => "GitHub client_secret cannot be empty",
            ConfigIssue::GithubResourceUrl => "Invalid GitHub resource URL: ",
            ConfigIssue::GithubAuthUrl => "Invalid GitHub auth URL: ",
            ConfigIssue::GithubTokenUrl => "Invalid GitHub token URL: ",
            ConfigIssue::JwtAccessTtl => "JWT access_token_ttl must be greater than 0",
            ConfigIssue::JwtRefreshTtl => "JWT refresh_token_ttl must be greater than 0",
            ConfigIssue::JwtTtlOrder => "JWT access_token_ttl (",
            ConfigIssue::JwtKeyRotation => "JWT key_rotation_interval must be greater than 0",
            ConfigIssue::JwtAlgorithm => "Invalid JWT algorithm: ",
            ConfigIssue::SessionCookieTtl => "Session cookie_ttl must be greater than 0",
            ConfigIssue::SessionCacheTtl => "Session cache_ttl must be greater than 0",
            ConfigIssue::SessionSameSite => "Invalid session same_site value: ",
            ConfigIssue::RateRequestsPerMinute => "Rate limiting requests_per_minute must be greater than 0 when enabled",
            ConfigIssue::RateBurstSize => "Rate limiting burst_size must be greater than 0 when enabled",
            ConfigIssue::RateCleanupInterval => "Rate limiting cleanup_interval must be greater than 0 when enabled",
            ConfigIssue::CorsOrigins => "CORS allowed_origins cannot be empty when CORS is enabled",
            ConfigIssue::CorsMethods => "CORS allowed_methods cannot be empty when CORS is enabled",
            ConfigIssue::CorsHeaders => "CORS allowed_headers cannot be empty when CORS is enabled",
            ConfigIssue::CorsMethod => "Invalid CORS method: ",
            ConfigIssue::HstsMaxAge => "HSTS max_age must be greater than 0 when HSTS is enabled",
            ConfigIssue::CspPolicy => "CSP policy cannot be empty when CSP is enabled",
            ConfigIssue::FrameOptions => "Invalid X-Frame-Options value: ",
        }
    }

    pub fn middle_text(self) -> (text: &'static str)
        ensures
            text@ == self.middle(),
    {
        match self {
            ConfigIssue::PostgresPoolOrder => ") cannot be greater than max_pool_size (",
            ConfigIssue::JwtTtlOrder => ") should be less than refresh_token_ttl (",
            _ => "",
        }
    }

    pub fn tail_text(self) -> (text: &'static str)
        ensures
            text@ == self.tail(),
    {
        match self {
            ConfigIssue::LoggerLevel => ". Must be one of: trace, debug, info, warn, error",
            ConfigIssue::PostgresPoolOrder => ")",
            ConfigIssue::PostgresLogLevel => ". Must be one of: trace, debug, info, warn, error",
            ConfigIssue::JwtTtlOrder => ")",
            ConfigIssue::JwtAlgorithm => ". Must be one of: EdDSA",
            ConfigIssue::SessionSameSite => ". Must be one of: Strict, Lax, None",
            ConfigIssue::CorsMethod => ". Must be one of: GET, POST, PUT, DELETE, PATCH, HEAD, OPTIONS",
            ConfigIssue::FrameOptions => ". Must be one of: DENY, SAMEORIGIN",
            _ => "",
        }
    }
}

impl Finding {
    pub open spec fn plain(issue: ConfigIssue) -> Finding {
        Finding { issue, value: Seq::<char>::empty(), first: 0, second: 0 }
    }

    pub open spec fn text(issue: ConfigIssue, value: Seq<char>) -> Finding {
        Finding { issue, value, first: 0, second: 0 }
    }

    pub open spec fn number(issue: ConfigIssue, n: u64) -> Finding {
        Finding { issue, value: Seq::<char>::empty(), first: n, second: 0 }
    }

    pub open spec fn pair(issue: ConfigIssue, first: u64, second: u64) -> Finding {
        Finding { issue, value: Seq::<char>::empty(), first, second }
    }

    /// The sentence that reports the finding.
    pub open spec fn message_text(self) -> Seq<char> {
        match self.issue.shape() {
            ReportShape::Plain => self.issue.lead(),
            ReportShape::Text => self.issue.lead() + self.value + self.issue.tail(),
            ReportShape::Number => self.issue.lead() + decimal_digits(self.first),
            ReportShape::Pair => self.issue.lead() + decimal_digits(self.first)
                + self.issue.middle() + decimal_digits(self.second) + self.issue.tail(),
        }
    }
}

impl ConfigError {
    pub fn plain(issue: ConfigIssue) -> (error: ConfigError)
        ensures
            error@ == Finding::plain(issue),
    {
        ConfigError { issue, value: String::new(), first: 0, second: 0 }
    }

    pub fn text(issue: ConfigIssue, value: &str) -> (error: ConfigError)
        ensures
            error@ == Finding::text(issue, value@),
    {
        ConfigError { issue, value: value.to_owned(), first: 0, second: 0 }
    }

    pub fn number(issue: ConfigIssue, n: u64) -> (error: ConfigError)
        ensures
            error@ == Finding::number(issue, n),
    {
        ConfigError { issue, value: String::new(), first: n, second: 0 }
    }

    pub fn pair(issue: ConfigIssue, first: u64, second: u64) -> (error: ConfigError)
        ensures
            error@ == Finding::pair(issue, first, second),
    {
        ConfigError { issue, value: String::new(), first, second }
    }

    /// The sentence that reports the error.
    pub fn message(&self) -> (text: String)
        ensures
            text@ == self@.message_text(),
    {
        let mut text = self.issue.lead_text().to_owned();
        match self.issue.report_shape() {
            ReportShape::Plain => {},
            ReportShape::Text => {
                text.append(self.value.as_str());
                text.append(self.issue.tail_text());
            },
            ReportShape::Number => {
                let digits = decimal(self.first);
                text.append(digits.as_str());
            },
            ReportShape::Pair => {
                let first = decimal(self.first);
                let second = decimal(self.second);
                text.append(first.as_str());
                text.append(self.issue.middle_text());
                text.append(second.as_str());
                text.append(self.issue.tail_text());
            },
        }
        text
    }
}

} // verus!
