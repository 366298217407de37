use allforone::config::types::{
    Config, CorsConfig, GithubConfig, JwksConfig, JwtSecurityConfig, LoggerConfig,
    MemCachedConfig, MemCachedRuntimeConfig, MemeCachedConnectConfig, OIDCProviderConfig,
    PostgresConfig, PostgresConnectConfig, PostgresRuntimeConfig, RateLimitingConfig,
    SecurityConfig, SecurityHeadersConfig, Server, SessionSecurityConfig,
};
use allforone::logger::{init_logger, LogLevel};

fn create_test_config(level: &str) -> Config {
    Config {
        server: Server {
            domain: "http://127.0.0.1".to_string(),
            port: 3000,
            user_agent: "test".to_string(),
        },
        logger: LoggerConfig { level: level.to_string() },
        postgres: PostgresConfig {
            connect_info: PostgresConnectConfig {
                address: "127.0.0.1".to_string(),
                port: 5432,
                username: "test".to_string(),
                password: "test".to_string(),
                db_name: "test".to_string(),
            },
            runtime_options: PostgresRuntimeConfig {
                max_pool_size: 10,
                min_pool_size: 5,
                connect_timeout: 8,
                acquire_timeout: 8,
                idle_timeout: 8,
                max_lifetime: 8,
                sqlx_logging: true,
                log_level: "debug".to_string(),
            },
        },
        memcached: MemCachedConfig {
            connect_info: MemeCachedConnectConfig { address: "127.0.0.1".to_string(), port: 11211 },
            runtime_options: MemCachedRuntimeConfig {
                init_flush: false,
                pool_size: 10,
                read_timeout: 60,
                write_timeout: 60,
            },
        },
        jwks: JwksConfig {
            iss: "https://auth.example.com".to_string(),
            aud: "test".to_string(),
            keys_path: "./test_jwks".to_string(),
            keys: vec![],
        },
        oidc: OIDCProviderConfig {
            github: GithubConfig {
                client_id: "test".to_string(),
                client_secret: "test".to_string(),
                resource_url: "https://api.github.com".to_string(),
                auth_url: "https://github.com/login/oauth/authorize".to_string(),
                token_url: "https://github.com/login/oauth/access_token".to_string(),
            },
        },
        security: SecurityConfig {
            jwt: JwtSecurityConfig {
                access_token_ttl: 900,
                refresh_token_ttl: 86400,
                key_rotation_interval: 2592000,
                algorithm: "EdDSA".to_string(),
            },
            session: SessionSecurityConfig {
                cookie_ttl: 300,
                cache_ttl: 600,
                secure_cookies: true,
                same_site: "Lax".to_string(),
                http_only: true,
            },
            rate_limiting: RateLimitingConfig {
                enabled: false,
                requests_per_minute: 60,
                burst_size: 10,
                cleanup_interval: 300,
            },
            cors: CorsConfig {
                enabled: false,
                allowed_origins: vec![],
                allowed_methods: vec![],
                allowed_headers: vec![],
                max_age: 3600,
            },
            security_headers: SecurityHeadersConfig {
                hsts_enabled: false,
                hsts_max_age: 0,
                csp_enabled: false,
                csp_policy: "".to_string(),
                x_frame_options: "DENY".to_string(),
                x_content_type_options: true,
            },
        },
    }
}

#[test]
fn test_init_logger_trace_level() {
    assert_eq!(init_logger(&create_test_config("trace")).unwrap(), LogLevel::Trace);
}

#[test]
fn test_init_logger_debug_level() {
    assert_eq!(init_logger(&create_test_config("debug")).unwrap(), LogLevel::Debug);
}

#[test]
fn test_init_logger_info_level() {
    assert_eq!(init_logger(&create_test_config("info")).unwrap(), LogLevel::Info);
}

#[test]
fn test_init_logger_warn_level() {
    assert_eq!(init_logger(&create_test_config("warn")).unwrap(), LogLevel::Warn);
}

#[test]
fn test_init_logger_error_level() {
    assert_eq!(init_logger(&create_test_config("error")).unwrap(), LogLevel::Error);
}

#[test]
fn test_init_logger_invalid_level() {
    let config = create_test_config("invalid_level");
    let result = init_logger(&config);
    assert!(result.is_err());
    assert!(result.unwrap_err().message().contains("Unsupported log level"));
}

#[test]
fn test_init_logger_trace_uppercase() {
    assert_eq!(init_logger(&create_test_config("TRACE")).unwrap(), LogLevel::Trace);
}

#[test]
fn test_init_logger_debug_uppercase() {
    assert_eq!(init_logger(&create_test_config("DEBUG")).unwrap(), LogLevel::Debug);
}

#[test]
fn test_init_logger_info_uppercase() {
    assert_eq!(init_logger(&create_test_config("INFO")).unwrap(), LogLevel::Info);
}

#[test]
fn test_init_logger_warn_uppercase() {
    assert_eq!(init_logger(&create_test_config("WARN")).unwrap(), LogLevel::Warn);
}

#[test]
fn test_init_logger_error_uppercase() {
    assert_eq!(init_logger(&create_test_config("ERROR")).unwrap(), LogLevel::Error);
}

#[test]
fn unsupported_level_is_reported_in_lower_case() {
    let error = init_logger(&create_test_config("Verbose")).unwrap_err();
    assert_eq!(error.level, "verbose");
    assert_eq!(error.message(), "Unsupported log level: verbose");
}
