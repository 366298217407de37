//! The session cookie and what the session cache keeps between the two legs
//! of a login.

use vstd::prelude::*;
use crate::config::types::{signed_seconds, to_signed_seconds, SessionSecurityConfig};
use crate::text::same_text;

verus! {

/// The name of the cookie that carries the session id.
pub const COOKIE_AUTH_REQUEST_ID: &'static str = "auth_request_id";

/// What the cache keeps for one login attempt, under its session id.
#[derive(Debug)]
pub struct AuthVerifyToken {
    pub csrf_token: String,
    pub pkce_verifier: String,
    pub nonce: Option<String>,
}

/// A session id with the CSRF token that belongs to it.
#[derive(Clone, Copy, Debug, PartialEq, Eq, Structural)]
pub struct SessionStruct {
    pub session_id: u128,
    pub crsf_token: u128,
}

/// The same-site policy of a cookie.
#[derive(Clone, Copy, Debug, PartialEq, Eq, Structural)]
pub enum SameSite {
    Strict,
    Lax,
    /// Sent with every request, from any site.
    NoRestriction,
}

/// The policy that a configured text stands for; any unknown text is `Lax`.
pub open spec fn same_site_of(text: Seq<char>) -> SameSite {
    if text == "Strict"@ {
        SameSite::Strict
    } else if text == "None"@ {
        SameSite::NoRestriction
    } else {
        SameSite::Lax
    }
}

pub fn parse_same_site(text: &str) -> (policy: SameSite)
    ensures
        policy == same_site_of(text@),
{
    if same_text(text, "Strict") {
        SameSite::Strict
    } else if same_text(text, "None") {
        SameSite::NoRestriction
    } else {
        SameSite::Lax
    }
}

/// The session cookie settings, converted once at startup.
#[derive(Clone, Copy, Debug)]
pub struct SessionCookieConfig {
    pub cookie_ttl: i64,
    pub cache_ttl: u64,
    pub secure_cookies: bool,
    pub same_site: SameSite,
    pub http_only: bool,
}

impl<'a> From<&'a SessionSecurityConfig> for SessionCookieConfig {
    fn from(config: &'a SessionSecurityConfig) -> (converted: SessionCookieConfig) {
        SessionCookieConfig {
            cookie_ttl: to_signed_seconds(config.cookie_ttl),
            cache_ttl: config.cache_ttl,
            secure_cookies: config.secure_cookies,
            same_site: parse_same_site(config.same_site.as_str()),
            http_only: config.http_only,
        }
    }
}

impl<'a> vstd::std_specs::convert::FromSpecImpl<&'a SessionSecurityConfig> for SessionCookieConfig {
    open spec fn obeys_from_spec() -> bool {
        true
    }

    open spec fn from_spec(config: &'a SessionSecurityConfig) -> SessionCookieConfig {
        SessionCookieConfig::of(config)
    }
}

/// A cookie as the attributes that are sent.
#[derive(Debug)]
pub struct SessionCookie {
    pub name: String,
    pub value: String,
    pub http_only: bool,
    pub secure: bool,
    pub same_site: SameSite,
    /// Lifetime in seconds, where one is sent.
    pub max_age: Option<i64>,
    pub path: String,
    /// Whether the cookie is sent with an expiry in the past.
    pub expired: bool,
}

/// A cookie as plain values.
pub struct SessionCookieView {
    pub name: Seq<char>,
    pub value: Seq<char>,
    pub http_only: bool,
    pub secure: bool,
    pub same_site: SameSite,
    pub max_age: Option<i64>,
    pub path: Seq<char>,
    pub expired: bool,
}

impl View for SessionCookie {
    type V = SessionCookieView;

    open spec fn view(&self) -> SessionCookieView {
        SessionCookieView {
            name: self.name@,
            value: self.value@,
            http_only: self.http_only,
            secure: self.secure,
            same_site: self.same_site,
            max_age: self.max_age,
            path: self.path@,
            expired: self.expired,
        }
    }
}

impl SessionCookieConfig {
    /// The settings that a configuration converts to.
    pub open spec fn of(config: &SessionSecurityConfig) -> SessionCookieConfig {
        SessionCookieConfig {
            cookie_ttl: signed_seconds(config.cookie_ttl),
            cache_ttl: config.cache_ttl,
            secure_cookies: config.secure_cookies,
            same_site: same_site_of(config.same_site@),
            http_only: config.http_only,
        }
    }

    /// How long a session lasts, in seconds: the shorter of the cookie's
    /// and the cache's configured lifetime, so that the cookie and the cache
    /// entry of one login end together.
    pub open spec fn lifetime(&self) -> i64 {
        if self.cookie_ttl <= 0 {
            0
        } else if self.cache_ttl < self.cookie_ttl as u64 {
            self.cache_ttl as i64
        } else {
            self.cookie_ttl
        }
    }

    pub fn session_lifetime(&self) -> (seconds: i64)
        ensures
            seconds == self.lifetime(),
            0 <= seconds,
            seconds <= self.cache_ttl,
            seconds <= self.cookie_ttl || self.cookie_ttl < 0,
    {
        if self.cookie_ttl <= 0 {
            0
        } else if self.cache_ttl < self.cookie_ttl as u64 {
            self.cache_ttl as i64
        } else {
            self.cookie_ttl
        }
    }

    /// The cookie that carries a session id.
    pub open spec fn session_cookie(&self, session_id: Seq<char>) -> SessionCookieView {
        SessionCookieView {
            name: COOKIE_AUTH_REQUEST_ID@,
            value: session_id,
            http_only: self.http_only,
            secure: self.secure_cookies,
            same_site: self.same_site,
            max_age: Some(self.lifetime()),
            path: "/"@,
            expired: false,
        }
    }

    /// The cookie that clears the session cookie: an empty value, no
    /// lifetime left, and an expiry in the past.
    pub open spec fn removal_cookie(&self) -> SessionCookieView {
        SessionCookieView {
            name: COOKIE_AUTH_REQUEST_ID@,
            value: Seq::<char>::empty(),
            http_only: self.http_only,
            secure: self.secure_cookies,
            same_site: self.same_site,
            max_age: Some(0i64),
            path: "/"@,
            expired: true,
        }
    }

    pub fn create_session_cookie(&self, session_id: &str) -> (cookie: SessionCookie)
        ensures
            cookie@ == self.session_cookie(session_id@),
    {
        SessionCookie {
            name: COOKIE_AUTH_REQUEST_ID.to_owned(),
            value: session_id.to_owned(),
            http_only: self.http_only,
            secure: self.secure_cookies,
            same_site: self.same_site,
            max_age: Some(self.session_lifetime()),
            path: "/".to_owned(),
            expired: false,
        }
    }

    pub fn create_session_removal_cookie(&self) -> (cookie: SessionCookie)
        ensures
            cookie@ == self.removal_cookie(),
    {
        SessionCookie {
            name: COOKIE_AUTH_REQUEST_ID.to_owned(),
            value: String::new(),
            http_only: self.http_only,
            secure: self.secure_cookies,
            same_site: self.same_site,
            max_age: Some(0),
            path: "/".to_owned(),
            expired: true,
        }
    }
}

} // verus!
