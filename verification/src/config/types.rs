//! The configuration as plain data.

use vstd::prelude::*;
use crate::text::{decimal, decimal_digits};

verus! {

#[derive(Debug)]
pub struct Config {
    pub server: Server,
    pub logger: LoggerConfig,
    pub postgres: PostgresConfig,
    pub memcached: MemCachedConfig,
    pub jwks: JwksConfig,
    pub oidc: OIDCProviderConfig,
    pub security: SecurityConfig,
}

#[derive(Debug)]
pub struct Server {
    pub domain: String,
    pub port: u16,
    pub user_agent: String,
}

#[derive(Debug)]
pub struct LoggerConfig {
    pub level: String,
}

#[derive(Debug)]
pub struct PostgresConfig {
    pub connect_info: PostgresConnectConfig,
    pub runtime_options: PostgresRuntimeConfig,
}

#[derive(Debug)]
pub struct PostgresConnectConfig {
    pub address: String,
    pub port: u32,
    pub username: String,
    pub password: String,
    pub db_name: String,
}

#[derive(Debug)]
pub struct PostgresRuntimeConfig {
    pub max_pool_size: u32,
    pub min_pool_size: u32,
    pub connect_timeout: u64,
    pub acquire_timeout: u64,
    pub idle_timeout: u64,
    pub max_lifetime: u64,
    pub sqlx_logging: bool,
    pub log_level: String,
}

#[derive(Debug)]
pub struct MemCachedConfig {
    pub connect_info: MemeCachedConnectConfig,
    pub runtime_options: MemCachedRuntimeConfig,
}

#[derive(Debug)]
pub struct MemeCachedConnectConfig {
    pub address: String,
    pub port: u32,
}

#[derive(Debug)]
pub struct MemCachedRuntimeConfig {
    pub init_flush: bool,
    pub pool_size: u32,
    pub read_timeout: u64,
    pub write_timeout: u64,
}

impl Default for MemCachedRuntimeConfig {
    fn default() -> (options: MemCachedRuntimeConfig)
        ensures
            !options.init_flush,
            options.pool_size == 10,
            options.read_timeout == 60,
            options.write_timeout == 60,
    {
        MemCachedRuntimeConfig {
            init_flush: false,
            pool_size: 10,
            read_timeout: 60,
            write_timeout: 60,
        }
    }
}

#[derive(Debug)]
pub struct JwksConfig {
    pub iss: String,
    pub aud: String,
    pub keys_path: String,
    pub keys: Vec<KeyConfig>,
}

/// One configured signing key, named by its key id.
#[derive(Debug)]
pub struct KeyConfig {
    pub kid: u128,
}

#[derive(Debug)]
pub struct OIDCProviderConfig {
    pub github: GithubConfig,
}

#[derive(Debug)]
pub struct GithubConfig {
    pub client_id: String,
    pub client_secret: String,
    pub resource_url: String,
    pub auth_url: String,
    pub token_url: String,
}

#[derive(Debug)]
pub struct SecurityConfig {
    pub jwt: JwtSecurityConfig,
    pub session: SessionSecurityConfig,
    pub rate_limiting: RateLimitingConfig,
    pub cors: CorsConfig,
    pub security_headers: SecurityHeadersConfig,
}

#[derive(Debug)]
pub struct JwtSecurityConfig {
    pub access_token_ttl: u64,
    pub refresh_token_ttl: u64,
    pub key_rotation_interval: u64,
    pub algorithm: String,
}

#[derive(Debug)]
pub struct SessionSecurityConfig {
    pub cookie_ttl: u64,
    pub cache_ttl: u64,
    pub secure_cookies: bool,
    pub same_site: String,
    pub http_only: bool,
}

#[derive(Debug)]
pub struct RateLimitingConfig {
    pub enabled: bool,
    pub requests_per_minute: u32,
    pub burst_size: u32,
    pub cleanup_interval: u64,
}

#[derive(Debug)]
pub struct CorsConfig {
    pub enabled: bool,
    pub allowed_origins: Vec<String>,
    pub allowed_methods: Vec<String>,
    pub allowed_headers: Vec<String>,
    pub max_age: u64,
}

#[derive(Debug)]
pub struct SecurityHeadersConfig {
    pub hsts_enabled: bool,
    pub hsts_max_age: u64,
    pub csp_enabled: bool,
    pub csp_policy: String,
    pub x_frame_options: String,
    pub x_content_type_options: bool,
}

/// A number of seconds as a signed value. Values beyond `i64::MAX` wrap, as
/// a cast does.
pub open spec fn signed_seconds(seconds: u64) -> i64 {
    if seconds <= i64::MAX as u64 {
        seconds as i64
    } else {
        (seconds - 0x1_0000_0000_0000_0000) as i64
    }
}

pub fn to_signed_seconds(seconds: u64) -> (signed: i64)
    ensures
        signed == signed_seconds(seconds),
{
    if seconds <= i64::MAX as u64 {
        seconds as i64
    } else {
        let above: u64 = seconds - 0x8000_0000_0000_0000u64;
        let low: i64 = above as i64;
        low + i64::MIN
    }
}

/// A host and a port as one address.
pub open spec fn host_and_port(host: Seq<char>, port: u64) -> Seq<char> {
    host + ":"@ + decimal_digits(port)
}

pub fn address_of(host: &str, port: u64) -> (address: String)
    ensures
        address@ == host_and_port(host@, port),
{
    let mut address = host.to_owned();
    address.append(":");
    let digits = decimal(port);
    address.append(digits.as_str());
    address
}

impl Config {
    /// The address of the cache server.
    pub fn memcached_address(&self) -> (address: String)
        ensures
            address@ == host_and_port(
                self.memcached.connect_info.address@,
                self.memcached.connect_info.port as u64,
            ),
    {
        address_of(
            self.memcached.connect_info.address.as_str(),
            self.memcached.connect_info.port as u64,
        )
    }

    /// The address that the server listens on: every interface, at the
    /// configured port.
    pub fn bind_address(&self) -> (address: String)
        ensures
            address@ == host_and_port("0.0.0.0"@, self.server.port as u64),
    {
        address_of("0.0.0.0", self.server.port as u64)
    }
}

} // verus!
