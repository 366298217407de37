//! Identity providers: the redirect that starts a login, and what is asked
//! of a provider and read from its answers afterwards.

use vstd::prelude::*;
use crate::config::types::Config;
use crate::text::{signed_decimal, signed_decimal_digits};
use crate::urls::{is_url, join_url, set_url_path, set_url_port, url_joined, url_parses, url_with_path, url_with_port};

verus! {

/// The authorization URL that `oauth2` builds for a client id, an
/// authorization endpoint and a redirect URL, asking for one scope, with
/// `state` as the CSRF token and the SHA-256 challenge of `verifier`; `None`
/// where one of the two URLs is refused.
pub uninterp spec fn authorize_url_text(
    client_id: Seq<char>,
    auth_url: Seq<char>,
    redirect_url: Seq<char>,
    scope: Seq<char>,
    state: Seq<char>,
    verifier: Seq<char>,
) -> Option<Seq<char>>;

/// A PKCE verifier that `oauth2` takes a challenge from: 43 to 128
/// characters, all ASCII, so that its length in bytes is within the same
/// bounds.
pub open spec fn pkce_verifier_ok(verifier: Seq<char>) -> bool {
    43 <= verifier.len() <= 128 && vstd::utf8::is_ascii_chars(verifier)
}

/// Calls `oauth2::CsrfToken::new_random` and takes the token's text. The
/// token is random; it is the unpadded base64 text of sixteen bytes, which
/// has 22 characters.
#[verifier::external_body]
fn random_csrf_token() -> (token: String)
    ensures
        token@.len() == 22,
{
    oauth2::CsrfToken::new_random().secret().clone()
}

/// Calls `oauth2::PkceCodeChallenge::new_random_sha256` and takes the
/// verifier's text. The verifier is random; it is the unpadded base64 text
/// of thirty-two bytes, which has 43 characters, all ASCII.
#[verifier::external_body]
fn random_pkce_verifier() -> (verifier: String)
    ensures
        verifier@.len() == 43,
        vstd::utf8::is_ascii_chars(verifier@),
{
    oauth2::PkceCodeChallenge::new_random_sha256().1.secret().clone()
}

/// Builds an `oauth2` client for the endpoint and calls `authorize_url` on
/// it, with the given state, one scope, and the challenge that
/// `PkceCodeChallenge::from_code_verifier_sha256` derives from the verifier.
/// That function ends the process on a verifier whose length in bytes is
/// not between 43 and 128, so such a verifier is left out. Not proved: the
/// URL is only given its name; it is built whenever the two URLs handed in
/// are accepted by `url::Url::parse`, which is all that the constructors of
/// `AuthUrl` and `RedirectUrl` ask.
#[verifier::external_body]
fn build_authorize_url(
    client_id: &str,
    auth_url: &str,
    redirect_url: &str,
    scope: &str,
    state: &str,
    verifier: &str,
) -> (url: Result<String, url::ParseError>)
    requires
        pkce_verifier_ok(verifier@),
    ensures
        match url {
            Ok(t) => authorize_url_text(
                client_id@,
                auth_url@,
                redirect_url@,
                scope@,
                state@,
                verifier@,
            ) == Some(t@),
            Err(_) => authorize_url_text(
                client_id@,
                auth_url@,
                redirect_url@,
                scope@,
                state@,
                verifier@,
            ) is None,
        },
        url_parses(auth_url@) && url_parses(redirect_url@) ==> url is Ok,
{
    let client = oauth2::basic::BasicClient::new(oauth2::ClientId::new(client_id.to_string()))
        .set_auth_uri(oauth2::AuthUrl::new(auth_url.to_string())?)
        .set_redirect_uri(oauth2::RedirectUrl::new(redirect_url.to_string())?);
    let verifier = oauth2::PkceCodeVerifier::new(verifier.to_string());
    let request = client
        .authorize_url(|| oauth2::CsrfToken::new(state.to_string()))
        .add_scope(oauth2::Scope::new(scope.to_string()))
        .set_pkce_challenge(oauth2::PkceCodeChallenge::from_code_verifier_sha256(&verifier));
    Ok(request.url().0.to_string())
}

/// The identity providers that the gateway knows.
#[derive(Clone, Copy, Debug, PartialEq, Eq, Structural)]
pub enum OAuthProvider {
    Github,
}

/// The provider that a path segment names.
pub open spec fn provider_named(name: Seq<char>) -> Option<OAuthProvider> {
    if name == "github"@ {
        Some(OAuthProvider::Github)
    } else {
        None
    }
}

impl OAuthProvider {
    /// The provider's name as it stands in paths and in stored user records.
    pub open spec fn name(self) -> Seq<char> {
        match self {
            OAuthProvider::Github => "github"@,
        }
    }

    pub fn as_str(&self) -> (name: &'static str)
        ensures
            name@ == self.name(),
    {
        match self {
            OAuthProvider::Github => "github",
        }
    }

    /// Reads a provider from its lower-case name.
    pub fn from_name(name: &str) -> (provider: Option<OAuthProvider>)
        ensures
            provider == provider_named(name@),
    {
        if crate::text::same_text(name, "github") {
            Some(OAuthProvider::Github)
        } else {
            None
        }
    }
}

/// The settings of an OpenID Connect client.
#[derive(Debug)]
pub struct OIDCClientConfig {
    pub client_id: String,
    pub client_secret: String,
    pub issuer_url: String,
    pub redirect_uri: String,
}

/// The settings of an OAuth client for one provider.
#[derive(Debug)]
pub struct OAuthClientConfig {
    pub client_id: String,
    pub client_secret: String,
    pub resource_url: String,
    pub auth_url: String,
    pub token_url: String,
    pub redirect_url: String,
}

/// What a login attempt starts with: where the browser is sent, and the two
/// secrets that stay behind in the session cache.
#[derive(Debug)]
pub struct AuthRedirectInfo {
    pub auth_url: String,
    pub csrf_token: String,
    pub pkce_verifier: String,
    pub nonce: Option<String>,
}

/// An authorization URL handed out as data, with its CSRF token.
#[derive(Debug)]
pub struct AuthUrlResponse {
    pub auth_url: String,
    pub csrf_token: u128,
}

/// Why a provider could not be set up, asked, or understood.
#[derive(Clone, Copy, Debug, PartialEq, Eq, Structural)]
pub enum ProviderError {
    /// The server's domain is no URL.
    Domain,
    /// The server's domain takes no port, so no redirect URL can be made.
    RedirectUrl,
    ResourceUrl,
    AuthUrl,
    TokenUrl,
    /// The PKCE verifier is not 43 to 128 ASCII characters long.
    PkceVerifier,
    /// The user-info address cannot be formed from the resource URL.
    UserInfoUrl,
    /// The provider answered with a status that is no success.
    Status(u16),
    /// The provider's answer did not hold a user id.
    Shape,
}

/// The scope asked of GitHub.
pub const GITHUB_SCOPE: &'static str = "read:user";

/// The path that GitHub sends the browser back to.
pub const GITHUB_CALLBACK_PATH: &'static str = "/api/v1/oauth/github/callback";

/// What a provider must be able to do before any request leaves the gateway.
pub trait Authentication {
    /// Starts a login: a fresh CSRF token, never empty, a fresh PKCE
    /// verifier of the shape that the protocol allows, and the URL that
    /// binds both.
    fn auth_redirect_info(&self) -> (info: AuthRedirectInfo)
        ensures
            info.csrf_token@.len() > 0,
            pkce_verifier_ok(info.pkce_verifier@),
            info.nonce is None,
    ;

    /// The request that exchanges an authorization code, presenting the
    /// PKCE verifier that was kept since the login began.
    fn callback(&self, authorization_code: String, pkce_verifier: String) -> (request:
        TokenRequest)
        ensures
            request.code@ == authorization_code@,
            request.pkce_verifier@ == pkce_verifier@,
    ;
}

/// The request for the user's identity.
#[derive(Debug)]
pub struct UserInfoRequest {
    pub url: String,
    /// Sent as a bearer token.
    pub access_token: String,
    /// Sent as `User-Agent`; providers reject requests without one.
    pub user_agent: String,
}

/// The request that exchanges an authorization code for an access token.
/// It is sent without following redirects.
#[derive(Debug)]
pub struct TokenRequest {
    pub token_url: String,
    pub client_id: String,
    pub client_secret: String,
    pub redirect_url: String,
    pub code: String,
    pub pkce_verifier: String,
}

/// GitHub as an identity provider.
#[derive(Debug)]
pub struct GithubAuthenticator {
    client_id: String,
    client_secret: String,
    auth_url: String,
    token_url: String,
    redirect_url: String,
    resource_url: String,
}

/// The first of a client's URLs that is refused, in the order in which
/// they are checked.
pub open spec fn first_refused_url(
    resource_url: Seq<char>,
    auth_url: Seq<char>,
    token_url: Seq<char>,
    redirect_url: Seq<char>,
) -> Option<ProviderError> {
    if !url_parses(resource_url) {
        Some(ProviderError::ResourceUrl)
    } else if !url_parses(auth_url) {
        Some(ProviderError::AuthUrl)
    } else if !url_parses(token_url) {
        Some(ProviderError::TokenUrl)
    } else if !url_parses(redirect_url) {
        Some(ProviderError::RedirectUrl)
    } else {
        None
    }
}

/// Whether a status code reports success.
pub open spec fn is_success(status: u16) -> bool {
    200 <= status < 300
}

/// The user id that an answer of the user-info endpoint yields.
pub open spec fn identity_of(status: u16, id: Option<i64>) -> Result<Seq<char>, ProviderError> {
    if !is_success(status) {
        Err(ProviderError::Status(status))
    } else {
        match id {
            Some(id) => Ok(signed_decimal_digits(id)),
            None => Err(ProviderError::Shape),
        }
    }
}

impl GithubAuthenticator {
    #[verifier::type_invariant]
    spec fn endpoints_are_urls(self) -> bool {
        &&& url_parses(self.resource_url@)
        &&& url_parses(self.auth_url@)
        &&& url_parses(self.token_url@)
        &&& url_parses(self.redirect_url@)
    }

    pub closed spec fn client_id(&self) -> Seq<char> {
        self.client_id@
    }

    pub closed spec fn client_secret(&self) -> Seq<char> {
        self.client_secret@
    }

    pub closed spec fn auth_url(&self) -> Seq<char> {
        self.auth_url@
    }

    pub closed spec fn token_url(&self) -> Seq<char> {
        self.token_url@
    }

    pub closed spec fn redirect_url(&self) -> Seq<char> {
        self.redirect_url@
    }

    pub closed spec fn resource_url(&self) -> Seq<char> {
        self.resource_url@
    }

    /// The first of the configured URLs that is refused.
    pub open spec fn first_bad_url(config: &OAuthClientConfig) -> Option<ProviderError> {
        first_refused_url(
            config.resource_url@,
            config.auth_url@,
            config.token_url@,
            config.redirect_url@,
        )
    }

    /// Takes the settings over once every URL in them has been accepted.
    pub fn new(config: OAuthClientConfig) -> (made: Result<GithubAuthenticator, ProviderError>)
        ensures
            match made {
                Ok(g) => {
                    &&& Self::first_bad_url(&config) is None
                    &&& g.client_id() == config.client_id@
                    &&& g.client_secret() == config.client_secret@
                    &&& g.auth_url() == config.auth_url@
                    &&& g.token_url() == config.token_url@
                    &&& g.redirect_url() == config.redirect_url@
                    &&& g.resource_url() == config.resource_url@
                },
                Err(e) => Self::first_bad_url(&config) == Some(e),
            },
    {
        if !is_url(config.resource_url.as_str()) {
            return Err(ProviderError::ResourceUrl);
        }
        if !is_url(config.auth_url.as_str()) {
            return Err(ProviderError::AuthUrl);
        }
        if !is_url(config.token_url.as_str()) {
            return Err(ProviderError::TokenUrl);
        }
        if !is_url(config.redirect_url.as_str()) {
            return Err(ProviderError::RedirectUrl);
        }
        Ok(
            GithubAuthenticator {
                client_id: config.client_id,
                client_secret: config.client_secret,
                auth_url: config.auth_url,
                token_url: config.token_url,
                redirect_url: config.redirect_url,
                resource_url: config.resource_url,
            },
        )
    }

    /// The redirect for a given CSRF token and PKCE verifier.
    pub open spec fn redirect_for(&self, csrf: Seq<char>, verifier: Seq<char>) -> Option<Seq<char>> {
        authorize_url_text(
            self.client_id(),
            self.auth_url(),
            self.redirect_url(),
            GITHUB_SCOPE@,
            csrf,
            verifier,
        )
    }

    /// Builds the redirect for a given CSRF token and PKCE verifier. Neither
    /// secret is kept anywhere but in the value handed back. A verifier of
    /// another shape than the protocol allows is refused.
    pub fn auth_redirect_info_with(&self, csrf_token: String, pkce_verifier: String) -> (made:
        Result<AuthRedirectInfo, ProviderError>)
        ensures
            match made {
                Ok(info) => {
                    &&& pkce_verifier_ok(pkce_verifier@)
                    &&& self.redirect_for(csrf_token@, pkce_verifier@) == Some(info.auth_url@)
                    &&& info.csrf_token@ == csrf_token@
                    &&& info.pkce_verifier@ == pkce_verifier@
                    &&& info.nonce is None
                },
                Err(e) => e == ProviderError::PkceVerifier && !pkce_verifier_ok(pkce_verifier@),
            },
    {
        proof {
            use_type_invariant(self);
        }
        let length = pkce_verifier.as_str().unicode_len();
        if length < 43 || length > 128 || !pkce_verifier.as_str().is_ascii() {
            return Err(ProviderError::PkceVerifier);
        }
        let built = build_authorize_url(
            self.client_id.as_str(),
            self.auth_url.as_str(),
            self.redirect_url.as_str(),
            GITHUB_SCOPE,
            csrf_token.as_str(),
            pkce_verifier.as_str(),
        );
        match built {
            Ok(auth_url) => Ok(
                AuthRedirectInfo { auth_url, csrf_token, pkce_verifier, nonce: None },
            ),
            Err(_) => vstd::pervasive::unreached(),
        }
    }

    /// The request for the identity behind an access token.
    pub fn user_info_request(&self, access_token: String, user_agent: &str) -> (request: Result<
        UserInfoRequest,
        ProviderError,
    >)
        ensures
            match request {
                Ok(r) => {
                    &&& url_joined(self.resource_url(), "user"@) == Some(r.url@)
                    &&& r.access_token@ == access_token@
                    &&& r.user_agent@ == user_agent@
                },
                Err(e) => e == ProviderError::UserInfoUrl && url_joined(
                    self.resource_url(),
                    "user"@,
                ) is None,
            },
    {
        match join_url(self.resource_url.as_str(), "user") {
            Some(url) => Ok(UserInfoRequest { url, access_token, user_agent: user_agent.to_owned() }),
            None => Err(ProviderError::UserInfoUrl),
        }
    }

    /// Reads the user id from the answer of the user-info endpoint: the
    /// status, and the numeric `id` of the body where the body held one.
    pub fn get_user_info(status: u16, id: Option<i64>) -> (uid: Result<String, ProviderError>)
        ensures
            match uid {
                Ok(text) => identity_of(status, id) == Ok::<Seq<char>, ProviderError>(text@),
                Err(e) => identity_of(status, id) == Err::<Seq<char>, ProviderError>(e),
            },
    {
        if status < 200 || status >= 300 {
            return Err(ProviderError::Status(status));
        }
        match id {
            Some(id) => Ok(signed_decimal(id)),
            None => Err(ProviderError::Shape),
        }
    }
}

impl Authentication for GithubAuthenticator {
    fn auth_redirect_info(&self) -> (info: AuthRedirectInfo)
        ensures
            self.redirect_for(info.csrf_token@, info.pkce_verifier@) == Some(info.auth_url@),
            info.csrf_token@.len() == 22,
            info.pkce_verifier@.len() == 43,
            pkce_verifier_ok(info.pkce_verifier@),
    {
        let pkce_verifier = random_pkce_verifier();
        let csrf_token = random_csrf_token();
        match self.auth_redirect_info_with(csrf_token, pkce_verifier) {
            Ok(info) => info,
            Err(_) => vstd::pervasive::unreached(),
        }
    }

    fn callback(&self, authorization_code: String, pkce_verifier: String) -> (request:
        TokenRequest)
        ensures
            request.token_url@ == self.token_url(),
            request.client_id@ == self.client_id(),
            request.client_secret@ == self.client_secret(),
            request.redirect_url@ == self.redirect_url(),
    {
        TokenRequest {
            token_url: self.token_url.clone(),
            client_id: self.client_id.clone(),
            client_secret: self.client_secret.clone(),
            redirect_url: self.redirect_url.clone(),
            code: authorization_code,
            pkce_verifier,
        }
    }
}

/// The URL that a provider sends the browser back to: the server's domain
/// with the server's port and the callback path.
pub open spec fn callback_url(domain: Seq<char>, port: u16, path: Seq<char>) -> Result<
    Seq<char>,
    ProviderError,
> {
    if !url_parses(domain) {
        Err(ProviderError::Domain)
    } else {
        match url_with_port(domain, port) {
            None => Err(ProviderError::RedirectUrl),
            Some(with_port) => match url_with_path(with_port, path) {
                None => Err(ProviderError::RedirectUrl),
                Some(url) => Ok(url),
            },
        }
    }
}

pub fn make_callback_url(domain: &str, port: u16, path: &str) -> (url: Result<String, ProviderError>)
    ensures
        match url {
            Ok(t) => callback_url(domain@, port, path@) == Ok::<Seq<char>, ProviderError>(t@),
            Err(e) => callback_url(domain@, port, path@) == Err::<Seq<char>, ProviderError>(e),
        },
{
    if !is_url(domain) {
        return Err(ProviderError::Domain);
    }
    let with_port = match set_url_port(domain, port) {
        Some(t) => t,
        None => {
            return Err(ProviderError::RedirectUrl);
        },
    };
    match set_url_path(with_port.as_str(), path) {
        Some(t) => Ok(t),
        None => Err(ProviderError::RedirectUrl),
    }
}

/// The clients of all providers.
#[derive(Debug)]
pub struct OAuthProviderClient {
    pub github: GithubAuthenticator,
}

impl OAuthProviderClient {
    /// What `new` returns for a configuration.
    pub open spec fn made_from(config: &Config, made: Result<OAuthProviderClient, ProviderError>) -> bool {
        match callback_url(config.server.domain@, config.server.port, GITHUB_CALLBACK_PATH@) {
            Err(e) => made == Err::<OAuthProviderClient, ProviderError>(e),
            Ok(redirect) => {
                let bad = first_refused_url(
                    config.oidc.github.resource_url@,
                    config.oidc.github.auth_url@,
                    config.oidc.github.token_url@,
                    redirect,
                );
                match made {
                    Err(e) => bad == Some(e),
                    Ok(client) => {
                        &&& bad is None
                        &&& client.github.client_id() == config.oidc.github.client_id@
                        &&& client.github.client_secret() == config.oidc.github.client_secret@
                        &&& client.github.auth_url() == config.oidc.github.auth_url@
                        &&& client.github.token_url() == config.oidc.github.token_url@
                        &&& client.github.resource_url() == config.oidc.github.resource_url@
                        &&& client.github.redirect_url() == redirect
                    },
                }
            },
        }
    }

    /// Sets up the providers from the configuration.
    pub fn new(config: &Config) -> (made: Result<OAuthProviderClient, ProviderError>)
        ensures
            Self::made_from(config, made),
    {
        let redirect_url = match make_callback_url(
            config.server.domain.as_str(),
            config.server.port,
            GITHUB_CALLBACK_PATH,
        ) {
            Ok(url) => url,
            Err(e) => {
                return Err(e);
            },
        };
        let github_config = OAuthClientConfig {
            client_id: config.oidc.github.client_id.clone(),
            client_secret: config.oidc.github.client_secret.clone(),
            auth_url: config.oidc.github.auth_url.clone(),
            token_url: config.oidc.github.token_url.clone(),
            resource_url: config.oidc.github.resource_url.clone(),
            redirect_url,
        };
        match GithubAuthenticator::new(github_config) {
            Ok(github) => Ok(OAuthProviderClient { github }),
            Err(e) => Err(e),
        }
    }

    /// Starts a login with a provider.
    pub fn auth_request(&self, idp: OAuthProvider) -> (info: AuthRedirectInfo)
        ensures
            info.csrf_token@.len() > 0,
            pkce_verifier_ok(info.pkce_verifier@),
            info.nonce is None,
            match idp {
                OAuthProvider::Github => {
                    &&& info.csrf_token@.len() == 22
                    &&& info.pkce_verifier@.len() == 43
                    &&& self.github.redirect_for(info.csrf_token@, info.pkce_verifier@) == Some(
                        info.auth_url@,
                    )
                },
            },
    {
        match idp {
            OAuthProvider::Github => self.github.auth_redirect_info(),
        }
    }

    /// The request that exchanges a code with a provider.
    pub fn callback(&self, idp: OAuthProvider, authorization_code: String, pkce_verifier: String) -> (request:
        TokenRequest)
        ensures
            match idp {
                OAuthProvider::Github => {
                    &&& request.token_url@ == self.github.token_url()
                    &&& request.client_id@ == self.github.client_id()
                    &&& request.client_secret@ == self.github.client_secret()
                    &&& request.redirect_url@ == self.github.redirect_url()
                    &&& request.code@ == authorization_code@
                    &&& request.pkce_verifier@ == pkce_verifier@
                },
            },
    {
        match idp {
            OAuthProvider::Github => self.github.callback(authorization_code, pkce_verifier),
        }
    }

    /// Reads the user id from a provider's answer.
    pub fn get_user_info(&self, idp: OAuthProvider, status: u16, id: Option<i64>) -> (uid: Result<
        String,
        ProviderError,
    >)
        ensures
            match uid {
                Ok(text) => identity_of(status, id) == Ok::<Seq<char>, ProviderError>(text@),
                Err(e) => identity_of(status, id) == Err::<Seq<char>, ProviderError>(e),
            },
    {
        match idp {
            OAuthProvider::Github => GithubAuthenticator::get_user_info(status, id),
        }
    }
}

} // verus!
