use allforone::config::types::{to_signed_seconds, JwtSecurityConfig, SessionSecurityConfig};
use allforone::jwt::JwtConfig;
use allforone::session::{
    parse_same_site, AuthVerifyToken, SameSite, SessionCookieConfig, COOKIE_AUTH_REQUEST_ID,
};

#[test]
fn test_session_cookie_config_from_security_config() {
    let security_config = SessionSecurityConfig {
        cookie_ttl: 300,
        cache_ttl: 600,
        secure_cookies: true,
        same_site: "Lax".to_string(),
        http_only: true,
    };

    let session_config = SessionCookieConfig::from(&security_config);

    assert_eq!(session_config.cookie_ttl, 300);
    assert_eq!(session_config.cache_ttl, 600);
    assert!(session_config.secure_cookies);
    assert_eq!(session_config.same_site, SameSite::Lax);
    assert!(session_config.http_only);
}

#[test]
fn test_session_cookie_config_same_site_strict() {
    let security_config = SessionSecurityConfig {
        cookie_ttl: 300,
        cache_ttl: 600,
        secure_cookies: true,
        same_site: "Strict".to_string(),
        http_only: true,
    };

    let session_config = SessionCookieConfig::from(&security_config);
    assert_eq!(session_config.same_site, SameSite::Strict);
}

#[test]
fn test_session_cookie_config_same_site_none() {
    let security_config = SessionSecurityConfig {
        cookie_ttl: 300,
        cache_ttl: 600,
        secure_cookies: true,
        same_site: "None".to_string(),
        http_only: true,
    };

    let session_config = SessionCookieConfig::from(&security_config);
    assert_eq!(session_config.same_site, SameSite::NoRestriction);
}

#[test]
fn test_session_cookie_config_same_site_invalid_defaults_to_lax() {
    let security_config = SessionSecurityConfig {
        cookie_ttl: 300,
        cache_ttl: 600,
        secure_cookies: true,
        same_site: "Invalid".to_string(),
        http_only: true,
    };

    let session_config = SessionCookieConfig::from(&security_config);
    assert_eq!(session_config.same_site, SameSite::Lax);
}

#[test]
fn test_create_session_cookie() {
    let session_config = SessionCookieConfig {
        cookie_ttl: 300,
        cache_ttl: 600,
        secure_cookies: true,
        same_site: SameSite::Lax,
        http_only: true,
    };

    let session_id = "test-session-id";
    let cookie = session_config.create_session_cookie(session_id);

    assert_eq!(cookie.name, COOKIE_AUTH_REQUEST_ID);
    assert_eq!(cookie.value, session_id);
    assert_eq!(cookie.http_only, true);
    assert_eq!(cookie.secure, true);
    assert_eq!(cookie.same_site, SameSite::Lax);
    assert_eq!(cookie.path, "/");
    assert_eq!(cookie.max_age, Some(300));
    assert!(!cookie.expired);
}

#[test]
fn test_create_session_removal_cookie() {
    let session_config = SessionCookieConfig {
        cookie_ttl: 300,
        cache_ttl: 600,
        secure_cookies: true,
        same_site: SameSite::Lax,
        http_only: true,
    };

    let cookie = session_config.create_session_removal_cookie();

    assert_eq!(cookie.name, COOKIE_AUTH_REQUEST_ID);
    assert_eq!(cookie.value, "");
    assert_eq!(cookie.http_only, true);
    assert_eq!(cookie.secure, true);
    assert_eq!(cookie.same_site, SameSite::Lax);
    assert_eq!(cookie.path, "/");
    assert_eq!(cookie.max_age, Some(0));
    assert!(cookie.expired);
}

#[test]
fn test_auth_verify_token_debug() {
    let token = AuthVerifyToken {
        csrf_token: "test-csrf-token".to_string(),
        pkce_verifier: "test-pkce-verifier".to_string(),
        nonce: Some("test-nonce".to_string()),
    };

    let debug_str = format!("{:?}", token);
    assert!(debug_str.contains("test-csrf-token"));
    assert!(debug_str.contains("test-pkce-verifier"));
    assert!(debug_str.contains("test-nonce"));
}

#[test]
fn same_site_names_are_case_sensitive() {
    assert_eq!(parse_same_site("Strict"), SameSite::Strict);
    assert_eq!(parse_same_site("strict"), SameSite::Lax);
    assert_eq!(parse_same_site("None"), SameSite::NoRestriction);
    assert_eq!(parse_same_site("none"), SameSite::Lax);
    assert_eq!(parse_same_site(""), SameSite::Lax);
}

#[test]
fn seconds_beyond_the_signed_range_wrap() {
    assert_eq!(to_signed_seconds(0), 0);
    assert_eq!(to_signed_seconds(900), 900);
    assert_eq!(to_signed_seconds(i64::MAX as u64), i64::MAX);
    assert_eq!(to_signed_seconds(i64::MAX as u64 + 1), i64::MIN);
    assert_eq!(to_signed_seconds(u64::MAX), -1);
    assert_eq!(to_signed_seconds(u64::MAX), u64::MAX as i64);
}

#[test]
fn jwt_settings_are_converted() {
    let config = JwtSecurityConfig {
        access_token_ttl: 900,
        refresh_token_ttl: 86400,
        key_rotation_interval: 2592000,
        algorithm: "EdDSA".to_string(),
    };
    let converted = JwtConfig::from(&config);
    assert_eq!(converted.access_token_ttl, 900);
    assert_eq!(converted.refresh_token_ttl, 86400);
    assert_eq!(converted.key_rotation_interval, 2592000);
    assert_eq!(converted.algorithm, "EdDSA");
}

#[test]
fn session_cookie_takes_its_attributes_from_the_settings() {
    let session_config = SessionCookieConfig {
        cookie_ttl: 42,
        cache_ttl: 600,
        secure_cookies: false,
        same_site: SameSite::Strict,
        http_only: false,
    };
    let cookie = session_config.create_session_cookie("abc");
    assert_eq!(cookie.http_only, false);
    assert_eq!(cookie.secure, false);
    assert_eq!(cookie.same_site, SameSite::Strict);
    assert_eq!(cookie.max_age, Some(42));
}

#[test]
fn cookie_and_cache_entry_end_together() {
    let mut session_config = SessionCookieConfig {
        cookie_ttl: 300,
        cache_ttl: 600,
        secure_cookies: true,
        same_site: SameSite::Lax,
        http_only: true,
    };
    assert_eq!(session_config.session_lifetime(), 300);
    session_config.cookie_ttl = 900;
    assert_eq!(session_config.session_lifetime(), 600);
    assert_eq!(session_config.create_session_cookie("id").max_age, Some(600));
    session_config.cookie_ttl = 600;
    assert_eq!(session_config.session_lifetime(), 600);
    session_config.cookie_ttl = -1;
    assert_eq!(session_config.session_lifetime(), 0);
    session_config.cookie_ttl = i64::MAX;
    session_config.cache_ttl = u64::MAX;
    assert_eq!(session_config.session_lifetime(), i64::MAX);
    session_config.cache_ttl = 0;
    assert_eq!(session_config.session_lifetime(), 0);
}
