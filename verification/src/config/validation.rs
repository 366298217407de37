//! The rules that a configuration must meet before the gateway starts.
//!
//! Each section has a spec function that names the first rule it breaks, in
//! the order in which the rules are checked, and a function that checks the
//! section against it.

use vstd::prelude::*;
use crate::config::error::{ConfigError, ConfigIssue, Finding};
use crate::config::types::{
    Config,
    CorsConfig,
    JwtSecurityConfig,
    RateLimitingConfig,
    SecurityHeadersConfig,
    SessionSecurityConfig,
};
use crate::text::{blank, is_blank, lowercased, same_text, to_lowercase, to_uppercase, uppercased};
use crate::urls::{is_url, url_parses};

verus! {

/// What the file system says of the configured key directory.
#[derive(Clone, Copy, Debug, PartialEq, Eq, Structural)]
pub enum KeysPath {
    Missing,
    NotDirectory,
    Directory,
}

/// What a check returned, as the finding it reports.
pub open spec fn reported(outcome: Result<(), ConfigError>) -> Option<Finding> {
    match outcome {
        Ok(_) => None,
        Err(e) => Some(e@),
    }
}

/// The first of two findings.
pub open spec fn or_else(first: Option<Finding>, then: Option<Finding>) -> Option<Finding> {
    match first {
        Some(f) => Some(f),
        None => then,
    }
}

pub open spec fn known_level(level: Seq<char>) -> bool {
    ||| level == "trace"@
    ||| level == "debug"@
    ||| level == "info"@
    ||| level == "warn"@
    ||| level == "error"@
}

pub open spec fn known_algorithm(name: Seq<char>) -> bool {
    name == "EdDSA"@
}

pub open spec fn known_same_site(name: Seq<char>) -> bool {
    name == "Strict"@ || name == "Lax"@ || name == "None"@
}

pub open spec fn known_method(name: Seq<char>) -> bool {
    ||| name == "GET"@
    ||| name == "POST"@
    ||| name == "PUT"@
    ||| name == "DELETE"@
    ||| name == "PATCH"@
    ||| name == "HEAD"@
    ||| name == "OPTIONS"@
}

pub open spec fn known_frame_options(name: Seq<char>) -> bool {
    name == "DENY"@ || name == "SAMEORIGIN"@
}

/// Whether a text names a log level, in any case.
pub fn is_known_level(level: &str) -> (known: bool)
    ensures
        known == known_level(lowercased(level@)),
{
    let lower = to_lowercase(level);
    let l = lower.as_str();
    same_text(l, "trace") || same_text(l, "debug") || same_text(l, "info") || same_text(l, "warn")
        || same_text(l, "error")
}

/// Whether a text names an HTTP method, in any case.
pub fn is_known_method(name: &str) -> (known: bool)
    ensures
        known == known_method(uppercased(name@)),
{
    let upper = to_uppercase(name);
    let u = upper.as_str();
    same_text(u, "GET") || same_text(u, "POST") || same_text(u, "PUT") || same_text(u, "DELETE")
        || same_text(u, "PATCH") || same_text(u, "HEAD") || same_text(u, "OPTIONS")
}

pub open spec fn server_finding(config: &Config) -> Option<Finding> {
    if !url_parses(config.server.domain@) {
        Some(Finding::text(ConfigIssue::ServerDomain, config.server.domain@))
    } else if config.server.port == 0 {
        Some(Finding::plain(ConfigIssue::ServerPort))
    } else if blank(config.server.user_agent@) {
        Some(Finding::plain(ConfigIssue::ServerUserAgent))
    } else {
        None
    }
}

pub fn validate_server(config: &Config) -> (outcome: Result<(), ConfigError>)
    ensures
        reported(outcome) == server_finding(config),
{
    if !is_url(config.server.domain.as_str()) {
        return Err(ConfigError::text(ConfigIssue::ServerDomain, config.server.domain.as_str()));
    }
    if config.server.port == 0 {
        return Err(ConfigError::plain(ConfigIssue::ServerPort));
    }
    if is_blank(config.server.user_agent.as_str()) {
        return Err(ConfigError::plain(ConfigIssue::ServerUserAgent));
    }
    Ok(())
}

pub open spec fn logger_finding(config: &Config) -> Option<Finding> {
    if !known_level(lowercased(config.logger.level@)) {
        Some(Finding::text(ConfigIssue::LoggerLevel, config.logger.level@))
    } else {
        None
    }
}

pub fn validate_logger(config: &Config) -> (outcome: Result<(), ConfigError>)
    ensures
        reported(outcome) == logger_finding(config),
{
    if !is_known_level(config.logger.level.as_str()) {
        return Err(ConfigError::text(ConfigIssue::LoggerLevel, config.logger.level.as_str()));
    }
    Ok(())
}

pub open spec fn postgres_finding(config: &Config) -> Option<Finding> {
    let info = config.postgres.connect_info;
    let options = config.postgres.runtime_options;
    if blank(info.address@) {
        Some(Finding::plain(ConfigIssue::PostgresAddress))
    } else if info.port == 0 || info.port > 65535 {
        Some(Finding::number(ConfigIssue::PostgresPort, info.port as u64))
    } else if blank(info.username@) {
        Some(Finding::plain(ConfigIssue::PostgresUsername))
    } else if blank(info.password@) {
        Some(Finding::plain(ConfigIssue::PostgresPassword))
    } else if blank(info.db_name@) {
        Some(Finding::plain(ConfigIssue::PostgresDbName))
    } else if options.max_pool_size == 0 {
        Some(Finding::plain(ConfigIssue::PostgresMaxPoolSize))
    } else if options.min_pool_size > options.max_pool_size {
        Some(
            Finding::pair(
                ConfigIssue::PostgresPoolOrder,
                options.min_pool_size as u64,
                options.max_pool_size as u64,
            ),
        )
    } else if !known_level(lowercased(options.log_level@)) {
        Some(Finding::text(ConfigIssue::PostgresLogLevel, options.log_level@))
    } else {
        None
    }
}

pub fn validate_postgres(config: &Config) -> (outcome: Result<(), ConfigError>)
    ensures
        reported(outcome) == postgres_finding(config),
{
    let info = &config.postgres.connect_info;
    let options = &config.postgres.runtime_options;
    if is_blank(info.address.as_str()) {
        return Err(ConfigError::plain(ConfigIssue::PostgresAddress));
    }
    if info.port == 0 || info.port > 65535 {
        return Err(ConfigError::number(ConfigIssue::PostgresPort, info.port as u64));
    }
    if is_blank(info.username.as_str()) {
        return Err(ConfigError::plain(ConfigIssue::PostgresUsername));
    }
    if is_blank(info.password.as_str()) {
        return Err(ConfigError::plain(ConfigIssue::PostgresPassword));
    }
    if is_blank(info.db_name.as_str()) {
        return Err(ConfigError::plain(ConfigIssue::PostgresDbName));
    }
    if options.max_pool_size == 0 {
        return Err(ConfigError::plain(ConfigIssue::PostgresMaxPoolSize));
    }
    if options.min_pool_size > options.max_pool_size {
        return Err(
            ConfigError::pair(
                ConfigIssue::PostgresPoolOrder,
                options.min_pool_size as u64,
                options.max_pool_size as u64,
            ),
        );
    }
    if !is_known_level(options.log_level.as_str()) {
        return Err(ConfigError::text(ConfigIssue::PostgresLogLevel, options.log_level.as_str()));
    }
    Ok(())
}

pub open spec fn memcached_finding(config: &Config) -> Option<Finding> {
    let info = config.memcached.connect_info;
    if blank(info.address@) {
        Some(Finding::plain(ConfigIssue::MemcachedAddress))
    } else if info.port == 0 || info.port > 65535 {
        Some(Finding::number(ConfigIssue::MemcachedPort, info.port as u64))
    } else if config.memcached.runtime_options.pool_size == 0 {
        Some(Finding::plain(ConfigIssue::MemcachedPoolSize))
    } else {
        None
    }
}

pub fn validate_memcached(config: &Config) -> (outcome: Result<(), ConfigError>)
    ensures
        reported(outcome) == memcached_finding(config),
{
    let info = &config.memcached.connect_info;
    if is_blank(info.address.as_str()) {
        return Err(ConfigError::plain(ConfigIssue::MemcachedAddress));
    }
    if info.port == 0 || info.port > 65535 {
        return Err(ConfigError::number(ConfigIssue::MemcachedPort, info.port as u64));
    }
    if config.memcached.runtime_options.pool_size == 0 {
        return Err(ConfigError::plain(ConfigIssue::MemcachedPoolSize));
    }
    Ok(())
}

pub open spec fn jwks_finding(config: &Config, keys_path: KeysPath) -> Option<Finding> {
    let jwks = config.jwks;
    if !url_parses(jwks.iss@) {
        Some(Finding::text(ConfigIssue::JwksIssuer, jwks.iss@))
    } else if blank(jwks.aud@) {
        Some(Finding::plain(ConfigIssue::JwksAudience))
    } else if keys_path == KeysPath::Missing {
        Some(Finding::text(ConfigIssue::JwksKeysPathMissing, jwks.keys_path@))
    } else if keys_path == KeysPath::NotDirectory {
        Some(Finding::text(ConfigIssue::JwksKeysPathNotDirectory, jwks.keys_path@))
    } else if jwks.keys@.len() == 0 {
        Some(Finding::plain(ConfigIssue::JwksNoKeys))
    } else {
        None
    }
}

/// Checks the key settings. What the file system says of the key directory
/// is handed in.
pub fn validate_jwks(config: &Config, keys_path: KeysPath) -> (outcome: Result<(), ConfigError>)
    ensures
        reported(outcome) == jwks_finding(config, keys_path),
{
    let jwks = &config.jwks;
    if !is_url(jwks.iss.as_str()) {
        return Err(ConfigError::text(ConfigIssue::JwksIssuer, jwks.iss.as_str()));
    }
    if is_blank(jwks.aud.as_str()) {
        return Err(ConfigError::plain(ConfigIssue::JwksAudience));
    }
    match keys_path {
        KeysPath::Missing => {
            return Err(ConfigError::text(ConfigIssue::JwksKeysPathMissing, jwks.keys_path.as_str()));
        },
        KeysPath::NotDirectory => {
            return Err(
                ConfigError::text(ConfigIssue::JwksKeysPathNotDirectory, jwks.keys_path.as_str()),
            );
        },
        KeysPath::Directory => {},
    }
    if jwks.keys.len() == 0 {
        return Err(ConfigError::plain(ConfigIssue::JwksNoKeys));
    }
    Ok(())
}

pub open spec fn github_finding(config: &Config) -> Option<Finding> {
    let github = config.oidc.github;
    if blank(github.client_id@) {
        Some(Finding::plain(ConfigIssue::GithubClientId))
    } else if blank(github.client_secret@) {
        Some(Finding::plain(ConfigIssue::GithubClientSecret))
    } else if !url_parses(github.resource_url@) {
        Some(Finding::text(ConfigIssue::GithubResourceUrl, github.resource_url@))
    } else if !url_parses(github.auth_url@) {
        Some(Finding::text(ConfigIssue::GithubAuthUrl, github.auth_url@))
    } else if !url_parses(github.token_url@) {
        Some(Finding::text(ConfigIssue::GithubTokenUrl, github.token_url@))
    } else {
        None
    }
}

pub fn validate_github_config(config: &Config) -> (outcome: Result<(), ConfigError>)
    ensures
        reported(outcome) == github_finding(config),
{
    let github = &config.oidc.github;
    if is_blank(github.client_id.as_str()) {
        return Err(ConfigError::plain(ConfigIssue::GithubClientId));
    }
    if is_blank(github.client_secret.as_str()) {
        return Err(ConfigError::plain(ConfigIssue::GithubClientSecret));
    }
    if !is_url(github.resource_url.as_str()) {
        return Err(ConfigError::text(ConfigIssue::GithubResourceUrl, github.resource_url.as_str()));
    }
    if !is_url(github.auth_url.as_str()) {
        return Err(ConfigError::text(ConfigIssue::GithubAuthUrl, github.auth_url.as_str()));
    }
    if !is_url(github.token_url.as_str()) {
        return Err(ConfigError::text(ConfigIssue::GithubTokenUrl, github.token_url.as_str()));
    }
    Ok(())
}

pub open spec fn jwt_finding(jwt: &JwtSecurityConfig) -> Option<Finding> {
    if jwt.access_token_ttl == 0 {
        Some(Finding::plain(ConfigIssue::JwtAccessTtl))
    } else if jwt.refresh_token_ttl == 0 {
        Some(Finding::plain(ConfigIssue::JwtRefreshTtl))
    } else if jwt.access_token_ttl >= jwt.refresh_token_ttl {
        Some(Finding::pair(ConfigIssue::JwtTtlOrder, jwt.access_token_ttl, jwt.refresh_token_ttl))
    } else if jwt.key_rotation_interval == 0 {
        Some(Finding::plain(ConfigIssue::JwtKeyRotation))
    } else if !known_algorithm(jwt.algorithm@) {
        Some(Finding::text(ConfigIssue::JwtAlgorithm, jwt.algorithm@))
    } else {
        None
    }
}

pub fn validate_jwt_security(jwt: &JwtSecurityConfig) -> (outcome: Result<(), ConfigError>)
    ensures
        reported(outcome) == jwt_finding(jwt),
{
    if jwt.access_token_ttl == 0 {
        return Err(ConfigError::plain(ConfigIssue::JwtAccessTtl));
    }
    if jwt.refresh_token_ttl == 0 {
        return Err(ConfigError::plain(ConfigIssue::JwtRefreshTtl));
    }
    if jwt.access_token_ttl >= jwt.refresh_token_ttl {
        return Err(
            ConfigError::pair(ConfigIssue::JwtTtlOrder, jwt.access_token_ttl, jwt.refresh_token_ttl),
        );
    }
    if jwt.key_rotation_interval == 0 {
        return Err(ConfigError::plain(ConfigIssue::JwtKeyRotation));
    }
    if !same_text(jwt.algorithm.as_str(), "EdDSA") {
        return Err(ConfigError::text(ConfigIssue::JwtAlgorithm, jwt.algorithm.as_str()));
    }
    Ok(())
}

pub open spec fn session_finding(session: &SessionSecurityConfig) -> Option<Finding> {
    if session.cookie_ttl == 0 {
        Some(Finding::plain(ConfigIssue::SessionCookieTtl))
    } else if session.cache_ttl == 0 {
        Some(Finding::plain(ConfigIssue::SessionCacheTtl))
    } else if !known_same_site(session.same_site@) {
        Some(Finding::text(ConfigIssue::SessionSameSite, session.same_site@))
    } else {
        None
    }
}

pub fn validate_session_security(session: &SessionSecurityConfig) -> (outcome: Result<
    (),
    ConfigError,
>)
    ensures
        reported(outcome) == session_finding(session),
{
    if session.cookie_ttl == 0 {
        return Err(ConfigError::plain(ConfigIssue::SessionCookieTtl));
    }
    if session.cache_ttl == 0 {
        return Err(ConfigError::plain(ConfigIssue::SessionCacheTtl));
    }
    let name = session.same_site.as_str();
    if !(same_text(name, "Strict") || same_text(name, "Lax") || same_text(name, "None")) {
        return Err(ConfigError::text(ConfigIssue::SessionSameSite, name));
    }
    Ok(())
}

pub open spec fn rate_limiting_finding(rate_limit: &RateLimitingConfig) -> Option<Finding> {
    if !rate_limit.enabled {
        None
    } else if rate_limit.requests_per_minute == 0 {
        Some(Finding::plain(ConfigIssue::RateRequestsPerMinute))
    } else if rate_limit.burst_size == 0 {
        Some(Finding::plain(ConfigIssue::RateBurstSize))
    } else if rate_limit.cleanup_interval == 0 {
        Some(Finding::plain(ConfigIssue::RateCleanupInterval))
    } else {
        None
    }
}

pub fn validate_rate_limiting(rate_limit: &RateLimitingConfig) -> (outcome: Result<
    (),
    ConfigError,
>)
    ensures
        reported(outcome) == rate_limiting_finding(rate_limit),
{
    if rate_limit.enabled {
        if rate_limit.requests_per_minute == 0 {
            return Err(ConfigError::plain(ConfigIssue::RateRequestsPerMinute));
        }
        if rate_limit.burst_size == 0 {
            return Err(ConfigError::plain(ConfigIssue::RateBurstSize));
        }
        if rate_limit.cleanup_interval == 0 {
            return Err(ConfigError::plain(ConfigIssue::RateCleanupInterval));
        }
    }
    Ok(())
}

/// The first method, from position `from` on, that is no HTTP method.
pub open spec fn first_unknown_method(methods: Seq<String>, from: int) -> Option<Seq<char>>
    decreases methods.len() - from,
{
    if from < 0 || from >= methods.len() {
        None
    } else if !known_method(uppercased(methods[from]@)) {
        Some(methods[from]@)
    } else {
        first_unknown_method(methods, from + 1)
    }
}

pub open spec fn cors_finding(cors: &CorsConfig) -> Option<Finding> {
    if !cors.enabled {
        None
    } else if cors.allowed_origins@.len() == 0 {
        Some(Finding::plain(ConfigIssue::CorsOrigins))
    } else if cors.allowed_methods@.len() == 0 {
        Some(Finding::plain(ConfigIssue::CorsMethods))
    } else if cors.allowed_headers@.len() == 0 {
        Some(Finding::plain(ConfigIssue::CorsHeaders))
    } else {
        match first_unknown_method(cors.allowed_methods@, 0) {
            Some(method) => Some(Finding::text(ConfigIssue::CorsMethod, method)),
            None => None,
        }
    }
}

pub fn validate_cors(cors: &CorsConfig) -> (outcome: Result<(), ConfigError>)
    ensures
        reported(outcome) == cors_finding(cors),
{
    if cors.enabled {
        if cors.allowed_origins.len() == 0 {
            return Err(ConfigError::plain(ConfigIssue::CorsOrigins));
        }
        if cors.allowed_methods.len() == 0 {
            return Err(ConfigError::plain(ConfigIssue::CorsMethods));
        }
        if cors.allowed_headers.len() == 0 {
            return Err(ConfigError::plain(ConfigIssue::CorsHeaders));
        }
        let mut i: usize = 0;
        while i < cors.allowed_methods.len()
            invariant
                cors.enabled,
                cors.allowed_origins@.len() > 0,
                cors.allowed_methods@.len() > 0,
                cors.allowed_headers@.len() > 0,
                i <= cors.allowed_methods@.len(),
                first_unknown_method(cors.allowed_methods@, 0) == first_unknown_method(
                    cors.allowed_methods@,
                    i as int,
                ),
            decreases cors.allowed_methods@.len() - i,
        {
            let method = cors.allowed_methods[i].as_str();
            if !is_known_method(method) {
                return Err(ConfigError::text(ConfigIssue::CorsMethod, method));
            }
            i += 1;
        }
    }
    Ok(())
}

pub open spec fn security_headers_finding(headers: &SecurityHeadersConfig) -> Option<Finding> {
    if headers.hsts_enabled && headers.hsts_max_age == 0 {
        Some(Finding::plain(ConfigIssue::HstsMaxAge))
    } else if headers.csp_enabled && blank(headers.csp_policy@) {
        Some(Finding::plain(ConfigIssue::CspPolicy))
    } else if !known_frame_options(headers.x_frame_options@) {
        Some(Finding::text(ConfigIssue::FrameOptions, headers.x_frame_options@))
    } else {
        None
    }
}

pub fn validate_security_headers(headers: &SecurityHeadersConfig) -> (outcome: Result<
    (),
    ConfigError,
>)
    ensures
        reported(outcome) == security_headers_finding(headers),
{
    if headers.hsts_enabled && headers.hsts_max_age == 0 {
        return Err(ConfigError::plain(ConfigIssue::HstsMaxAge));
    }
    if headers.csp_enabled && is_blank(headers.csp_policy.as_str()) {
        return Err(ConfigError::plain(ConfigIssue::CspPolicy));
    }
    let name = headers.x_frame_options.as_str();
    if !(same_text(name, "DENY") || same_text(name, "SAMEORIGIN")) {
        return Err(ConfigError::text(ConfigIssue::FrameOptions, name));
    }
    Ok(())
}

pub open spec fn security_finding(config: &Config) -> Option<Finding> {
    or_else(
        jwt_finding(&config.security.jwt),
        or_else(
            session_finding(&config.security.session),
            or_else(
                rate_limiting_finding(&config.security.rate_limiting),
                or_else(
                    cors_finding(&config.security.cors),
                    security_headers_finding(&config.security.security_headers),
                ),
            ),
        ),
    )
}

pub fn validate_security(config: &Config) -> (outcome: Result<(), ConfigError>)
    ensures
        reported(outcome) == security_finding(config),
{
    let security = &config.security;
    match validate_jwt_security(&security.jwt) {
        Err(e) => {
            return Err(e);
        },
        Ok(_) => {},
    }
    match validate_session_security(&security.session) {
        Err(e) => {
            return Err(e);
        },
        Ok(_) => {},
    }
    match validate_rate_limiting(&security.rate_limiting) {
        Err(e) => {
            return Err(e);
        },
        Ok(_) => {},
    }
    match validate_cors(&security.cors) {
        Err(e) => {
            return Err(e);
        },
        Ok(_) => {},
    }
    validate_security_headers(&security.security_headers)
}

/// The first rule that a configuration breaks, section by section.
pub open spec fn config_finding(config: &Config, keys_path: KeysPath) -> Option<Finding> {
    or_else(
        server_finding(config),
        or_else(
            logger_finding(config),
            or_else(
                postgres_finding(config),
                or_else(
                    memcached_finding(config),
                    or_else(
                        jwks_finding(config, keys_path),
                        or_else(github_finding(config), security_finding(config)),
                    ),
                ),
            ),
        ),
    )
}

/// Checks a whole configuration and hands it back unchanged if it breaks no
/// rule.
pub fn check_config_validation(config: Config, keys_path: KeysPath) -> (outcome: Result<
    Config,
    ConfigError,
>)
    ensures
        match outcome {
            Ok(checked) => checked == config && config_finding(&config, keys_path) is None,
            Err(e) => config_finding(&config, keys_path) == Some(e@),
        },
{
    match validate_server(&config) {
        Err(e) => {
            return Err(e);
        },
        Ok(_) => {},
    }
    match validate_logger(&config) {
        Err(e) => {
            return Err(e);
        },
        Ok(_) => {},
    }
    match validate_postgres(&config) {
        Err(e) => {
            return Err(e);
        },
        Ok(_) => {},
    }
    match validate_memcached(&config) {
        Err(e) => {
            return Err(e);
        },
        Ok(_) => {},
    }
    match validate_jwks(&config, keys_path) {
        Err(e) => {
            return Err(e);
        },
        Ok(_) => {},
    }
    match validate_github_config(&config) {
        Err(e) => {
            return Err(e);
        },
        Ok(_) => {},
    }
    match validate_security(&config) {
        Err(e) => {
            return Err(e);
        },
        Ok(_) => {},
    }
    Ok(config)
}

} // verus!
