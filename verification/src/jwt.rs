//! The key set, the claims of a token, and the issuing of signed tokens.

use vstd::prelude::*;
use crate::config::types::{signed_seconds, to_signed_seconds, JwtSecurityConfig};
use crate::ids::{
    clock_reading, fresh_id, hyphenated, parsed_uuid, unix_now, uuid_text, CLOCK_BOUND,
};
use crate::keys::{ed25519_public_key, JwtKeyPair, KeyError};

verus! {

#[verifier::external_type_specification]
#[verifier::external_body]
pub struct ExJwtError(jsonwebtoken::errors::Error);

/// The compact token that `jsonwebtoken::encode` returns for an EdDSA header
/// with the given key id, a claim set with the given members, and the given
/// PKCS#8 private key; `None` where it reports an error.
pub uninterp spec fn eddsa_token(
    kid: Seq<char>,
    aud: Seq<char>,
    iss: Seq<char>,
    sub: Seq<char>,
    jti: Seq<char>,
    exp: i64,
    iat: i64,
    nbf: i64,
    pkcs8: Seq<u8>,
) -> Option<Seq<char>>;

/// Calls `jsonwebtoken::encode` with an EdDSA header that names `kid`, the
/// claims as a JSON object, and the key made by `EncodingKey::from_ed_der`.
/// Not proved: success and the token are only given their name.
#[verifier::external_body]
fn encode_eddsa(kid: &str, claims: &ClaimsText, pkcs8: &[u8]) -> (token: Result<
    String,
    jsonwebtoken::errors::Error,
>)
    ensures
        match token {
            Ok(t) => eddsa_token(
                kid@,
                claims.aud@,
                claims.iss@,
                claims.sub@,
                claims.jti@,
                claims.exp,
                claims.iat,
                claims.nbf,
                pkcs8@,
            ) == Some(t@),
            Err(_) => eddsa_token(
                kid@,
                claims.aud@,
                claims.iss@,
                claims.sub@,
                claims.jti@,
                claims.exp,
                claims.iat,
                claims.nbf,
                pkcs8@,
            ) is None,
        },
{
    let mut header = jsonwebtoken::Header::new(jsonwebtoken::Algorithm::EdDSA);
    header.kid = Some(kid.to_string());
    let body: std::collections::BTreeMap<&str, serde_json::Value> = [
        ("aud", claims.aud.as_str().into()),
        ("iss", claims.iss.as_str().into()),
        ("sub", claims.sub.as_str().into()),
        ("exp", claims.exp.into()),
        ("jti", claims.jti.as_str().into()),
        ("iat", claims.iat.into()),
        ("nbf", claims.nbf.into()),
    ].into();
    jsonwebtoken::encode(&header, &body, &jsonwebtoken::EncodingKey::from_ed_der(pkcs8))
}

/// The token settings, converted once at startup.
#[derive(Clone, Debug)]
pub struct JwtConfig {
    pub access_token_ttl: i64,
    pub refresh_token_ttl: i64,
    pub key_rotation_interval: u64,
    pub algorithm: String,
}

impl JwtConfig {
    /// The settings that a configuration converts to.
    pub open spec fn of(config: &JwtSecurityConfig) -> JwtConfig {
        JwtConfig {
            access_token_ttl: signed_seconds(config.access_token_ttl),
            refresh_token_ttl: signed_seconds(config.refresh_token_ttl),
            key_rotation_interval: config.key_rotation_interval,
            algorithm: config.algorithm,
        }
    }
}

impl<'a> From<&'a JwtSecurityConfig> for JwtConfig {
    fn from(config: &'a JwtSecurityConfig) -> (converted: JwtConfig) {
        JwtConfig {
            access_token_ttl: to_signed_seconds(config.access_token_ttl),
            refresh_token_ttl: to_signed_seconds(config.refresh_token_ttl),
            key_rotation_interval: config.key_rotation_interval,
            algorithm: config.algorithm.clone(),
        }
    }
}

impl<'a> vstd::std_specs::convert::FromSpecImpl<&'a JwtSecurityConfig> for JwtConfig {
    open spec fn obeys_from_spec() -> bool {
        true
    }

    open spec fn from_spec(config: &'a JwtSecurityConfig) -> JwtConfig {
        JwtConfig::of(config)
    }
}

/// The claims of one token.
#[derive(Debug)]
pub struct Claims {
    pub aud: String,
    pub iss: String,
    pub sub: u128,
    pub exp: i64,
    pub jti: u128,
    pub iat: i64,
    pub nbf: i64,
}

/// The claims as they are written into a token: identifiers as text.
pub struct ClaimsText {
    pub aud: String,
    pub iss: String,
    pub sub: String,
    pub exp: i64,
    pub jti: String,
    pub iat: i64,
    pub nbf: i64,
}

impl Claims {
    /// Writes the identifiers out as text, as they stand in a token.
    pub fn written(&self) -> (text: ClaimsText)
        ensures
            text.aud@ == self.aud@,
            text.iss@ == self.iss@,
            text.sub@ == hyphenated(self.sub),
            text.jti@ == hyphenated(self.jti),
            text.exp == self.exp,
            text.iat == self.iat,
            text.nbf == self.nbf,
    {
        ClaimsText {
            aud: self.aud.clone(),
            iss: self.iss.clone(),
            sub: uuid_text(self.sub),
            exp: self.exp,
            jti: uuid_text(self.jti),
            iat: self.iat,
            nbf: self.nbf,
        }
    }
}

/// Claims as plain values.
pub struct ClaimsView {
    pub aud: Seq<char>,
    pub iss: Seq<char>,
    pub sub: u128,
    pub exp: i64,
    pub jti: u128,
    pub iat: i64,
    pub nbf: i64,
}

impl View for Claims {
    type V = ClaimsView;

    open spec fn view(&self) -> ClaimsView {
        ClaimsView {
            aud: self.aud@,
            iss: self.iss@,
            sub: self.sub,
            exp: self.exp,
            jti: self.jti,
            iat: self.iat,
            nbf: self.nbf,
        }
    }
}

impl ClaimsView {
    /// The token for these claims under a key id and a private key.
    pub open spec fn signed_with(self, kid: Seq<char>, pkcs8: Seq<u8>) -> Option<Seq<char>> {
        eddsa_token(
            kid,
            self.aud,
            self.iss,
            hyphenated(self.sub),
            hyphenated(self.jti),
            self.exp,
            self.iat,
            self.nbf,
            pkcs8,
        )
    }
}

/// Why no token was issued.
#[derive(Clone, Copy, Debug, PartialEq, Eq, Structural)]
pub enum IssueError {
    /// The key set is empty.
    NoKey,
    /// The expiry lies beyond what a timestamp can hold.
    Expiry,
    /// The signer reported an error.
    Signing,
}

/// One published key.
#[derive(Debug)]
pub struct Jwk {
    pub kid: String,
    pub kty: String,
    pub crv: String,
    pub x: String,
    pub alg: String,
    pub public_key_use: String,
}

/// A published key as plain values.
pub struct JwkView {
    pub kid: Seq<char>,
    pub kty: Seq<char>,
    pub crv: Seq<char>,
    pub x: Seq<char>,
    pub alg: Seq<char>,
    pub public_key_use: Seq<char>,
}

impl View for Jwk {
    type V = JwkView;

    open spec fn view(&self) -> JwkView {
        JwkView {
            kid: self.kid@,
            kty: self.kty@,
            crv: self.crv@,
            x: self.x@,
            alg: self.alg@,
            public_key_use: self.public_key_use@,
        }
    }
}

/// The published key set.
#[derive(Debug)]
pub struct JwkSet {
    pub keys: Vec<Jwk>,
}

impl View for JwkSet {
    type V = Seq<JwkView>;

    open spec fn view(&self) -> Seq<JwkView> {
        self.keys@.map_values(|k: Jwk| k@)
    }
}

/// The published form of the key with a key id and a public `x`.
pub open spec fn published_key(kid: u128, x: Seq<char>) -> JwkView {
    JwkView {
        kid: hyphenated(kid),
        kty: "OKP"@,
        crv: "Ed25519"@,
        x,
        alg: "EdDSA"@,
        public_key_use: "sig"@,
    }
}

/// The position of a key id among key ids, if it is there.
pub open spec fn position_of(kids: Seq<u128>, kid: u128) -> Option<int> {
    if kids.contains(kid) {
        Some(kids.index_of(kid))
    } else {
        None
    }
}

/// The key ids and the private documents of the key set that is left once
/// the given keys were inserted one after the other: a key id keeps the
/// place of its first occurrence and the document of its last.
pub open spec fn key_set_of(keys: Seq<(u128, Vec<u8>)>) -> (Seq<u128>, Seq<Seq<u8>>)
    decreases keys.len(),
{
    if keys.len() == 0 {
        (Seq::empty(), Seq::empty())
    } else {
        let before = key_set_of(keys.drop_last());
        let kid = keys.last().0;
        let document = keys.last().1@;
        match position_of(before.0, kid) {
            Some(i) => (before.0, before.1.update(i, document)),
            None => (before.0.push(kid), before.1.push(document)),
        }
    }
}

/// Whether every document holds an acceptable private key.
pub open spec fn all_accepted(keys: Seq<(u128, Vec<u8>)>) -> bool {
    forall|i: int| 0 <= i < keys.len() ==> ed25519_public_key((#[trigger] keys[i]).1@) is Some
}

/// Signs tokens with the keys of a key set and publishes their public halves.
///
/// The keys keep the order in which they were inserted; the first is the
/// current signing key.
pub struct JwtIssuer {
    kids: Vec<u128>,
    pairs: Vec<JwtKeyPair>,
    iss: String,
    aud: String,
}

impl JwtIssuer {
    /// The key ids, in insertion order.
    pub closed spec fn kids(&self) -> Seq<u128> {
        self.kids@
    }

    /// The key pairs, each at the position of its key id.
    pub closed spec fn pairs(&self) -> Seq<JwtKeyPair> {
        self.pairs@
    }

    pub closed spec fn issuer(&self) -> Seq<char> {
        self.iss@
    }

    pub closed spec fn audience(&self) -> Seq<char> {
        self.aud@
    }

    /// The private documents, each at the position of its key id.
    pub open spec fn private_documents(&self) -> Seq<Seq<u8>> {
        Seq::new(self.pairs().len(), |i: int| self.pairs()[i].private_document())
    }

    #[verifier::type_invariant]
    spec fn sound(self) -> bool {
        self.wf()
    }

    /// Every key id has one pair, no key id occurs twice, every pair is
    /// sound. This holds of every issuer that exists: its keys change only
    /// through `insert_key`.
    pub open spec fn wf(&self) -> bool {
        &&& self.kids().len() == self.pairs().len()
        &&& self.kids().no_duplicates()
        &&& forall|i: int| 0 <= i < self.pairs().len() ==> (#[trigger] self.pairs()[i]).wf()
    }

    /// The position of the key that signs for a requested key id: its own,
    /// or that of the current key when the key id is unknown.
    pub open spec fn signing_position(&self, kid: u128) -> int {
        match position_of(self.kids(), kid) {
            Some(i) => i,
            None => 0,
        }
    }

    /// The claims of a token issued at `now` for `sub`, valid for `ttl`.
    pub open spec fn claims_at(&self, sub: u128, ttl: i64, now: i64, jti: u128) -> ClaimsView {
        ClaimsView {
            aud: self.audience(),
            iss: self.issuer(),
            sub,
            exp: (now + ttl) as i64,
            jti,
            iat: now,
            nbf: now,
        }
    }

    /// What issuing at a given time, with a given token id, returns.
    pub open spec fn issued_at(&self, kid: u128, sub: u128, ttl: i64, now: i64, jti: u128) -> Result<
        Seq<char>,
        IssueError,
    > {
        if self.kids().len() == 0 {
            Err(IssueError::NoKey)
        } else if now + ttl < i64::MIN || now + ttl > i64::MAX {
            Err(IssueError::Expiry)
        } else {
            match self.claims_at(sub, ttl, now, jti).signed_with(
                hyphenated(kid),
                self.pairs()[self.signing_position(kid)].private_document(),
            ) {
                Some(token) => Ok(token),
                None => Err(IssueError::Signing),
            }
        }
    }

    /// What `jwks` publishes: one entry per key, in insertion order, made of
    /// the key id and the public `x` alone.
    pub open spec fn published(&self) -> Seq<JwkView> {
        Seq::new(
            self.kids().len(),
            |i: int| published_key(self.kids()[i], self.pairs()[i].x_text()),
        )
    }

    /// An issuer without keys.
    pub fn new(iss: String, aud: String) -> (issuer: JwtIssuer)
        ensures
            issuer.wf(),
            issuer.kids() == Seq::<u128>::empty(),
            issuer.pairs() == Seq::<JwtKeyPair>::empty(),
            issuer.issuer() == iss@,
            issuer.audience() == aud@,
    {
        JwtIssuer { kids: Vec::new(), pairs: Vec::new(), iss, aud }
    }

    /// Builds the issuer from key ids with their private documents, in the
    /// given order. Every document is tested before its key is taken in; the
    /// first that holds no acceptable key ends the attempt. Without any key
    /// there is no issuer.
    pub fn from_documents(iss: String, aud: String, keys: Vec<(u128, Vec<u8>)>) -> (made: Result<
        JwtIssuer,
        KeyError,
    >)
        ensures
            match made {
                Ok(issuer) => {
                    &&& issuer.wf()
                    &&& keys@.len() > 0
                    &&& all_accepted(keys@)
                    &&& issuer.kids() == key_set_of(keys@).0
                    &&& issuer.private_documents() == key_set_of(keys@).1
                    &&& issuer.kids().len() > 0
                    &&& issuer.kids()[0] == keys@[0].0
                    &&& issuer.issuer() == iss@
                    &&& issuer.audience() == aud@
                },
                Err(e) => if keys@.len() == 0 {
                    e == KeyError::NoKeys
                } else {
                    e == KeyError::Rejected && !all_accepted(keys@)
                },
            },
    {
        if keys.len() == 0 {
            return Err(KeyError::NoKeys);
        }
        let mut issuer = JwtIssuer::new(iss, aud);
        let mut i: usize = 0;
        while i < keys.len()
            invariant
                i <= keys@.len(),
                issuer.wf(),
                issuer.issuer() == iss@,
                issuer.audience() == aud@,
                all_accepted(keys@.take(i as int)),
                issuer.kids() == key_set_of(keys@.take(i as int)).0,
                issuer.private_documents() == key_set_of(keys@.take(i as int)).1,
                i > 0 ==> issuer.kids().len() > 0 && issuer.kids()[0] == keys@[0].0,
            decreases keys@.len() - i,
        {
            let kid = keys[i].0;
            let document = keys[i].1.clone();
            proof {
                assert(keys@.take(i + 1).drop_last() =~= keys@.take(i as int));
                assert(keys@.take(i + 1).last() == keys@[i as int]);
            }
            match JwtKeyPair::from_pkcs8(document) {
                Ok(pair) => {
                    issuer.insert_key(kid, pair);
                    proof {
                        assert(issuer.private_documents() =~= key_set_of(keys@.take(i + 1)).1);
                        assert forall|j: int| 0 <= j < i + 1 implies ed25519_public_key(
                            (#[trigger] keys@.take(i + 1)[j]).1@,
                        ) is Some by {
                            if j < i {
                                assert(keys@.take(i as int)[j] == keys@[j]);
                            }
                        }
                    }
                },
                Err(e) => {
                    return Err(e);
                },
            }
            i += 1;
        }
        proof {
            assert(keys@.take(i as int) =~= keys@);
        }
        Ok(issuer)
    }

    /// The position of a key id, if the set holds it.
    pub fn find(&self, kid: u128) -> (found: Option<usize>)
        ensures
            match found {
                Some(i) => position_of(self.kids(), kid) == Some(i as int) && i
                    < self.kids().len() && self.kids()[i as int] == kid,
                None => position_of(self.kids(), kid) is None,
            },
    {
        proof {
            use_type_invariant(self);
        }
        let mut i: usize = 0;
        while i < self.kids.len()
            invariant
                self.kids@.no_duplicates(),
                i <= self.kids@.len(),
                forall|j: int| 0 <= j < i ==> self.kids@[j] != kid,
            decreases self.kids@.len() - i,
        {
            if self.kids[i] == kid {
                proof {
                    let at = self.kids@.index_of(kid);
                    assert(self.kids@.contains(kid));
                    assert(self.kids@[at] == kid);
                    assert(at == i as int);
                }
                return Some(i);
            }
            i += 1;
        }
        None
    }

    /// Adds a key under a key id. A key id that is already held keeps its
    /// place and gets the new pair.
    pub fn insert_key(&mut self, kid: u128, pair: JwtKeyPair)
        ensures
            final(self).wf(),
            final(self).issuer() == old(self).issuer(),
            final(self).audience() == old(self).audience(),
            match position_of(old(self).kids(), kid) {
                Some(i) => final(self).kids() == old(self).kids() && final(self).pairs() == old(
                    self,
                ).pairs().update(i, pair),
                None => final(self).kids() == old(self).kids().push(kid) && final(self).pairs()
                    == old(self).pairs().push(pair),
            },
    {
        proof {
            use_type_invariant(&*self);
            use_type_invariant(&pair);
        }
        let found = self.find(kid);
        // The key set is taken out, changed and put back whole, so that the
        // issuer is sound at every moment.
        let mut held = JwtIssuer::new(String::new(), String::new());
        core::mem::swap(self, &mut held);
        let JwtIssuer { kids, pairs, iss, aud } = held;
        let mut kids = kids;
        let mut pairs = pairs;
        let ghost before = kids@;
        match found {
            Some(i) => {
                pairs.set(i, pair);
            },
            None => {
                kids.push(kid);
                pairs.push(pair);
                proof {
                    assert forall|a: int, b: int|
                        0 <= a < kids@.len() && 0 <= b < kids@.len() && a != b implies kids@[a]
                        != kids@[b] by {
                        if a == before.len() {
                            assert(!before.contains(kid));
                        } else if b == before.len() {
                            assert(!before.contains(kid));
                        } else {
                            assert(before[a] != before[b]);
                        }
                    }
                }
            },
        }
        *self = JwtIssuer { kids, pairs, iss, aud };
    }

    /// How many keys the set holds.
    pub fn key_count(&self) -> (n: usize)
        ensures
            n == self.kids().len(),
    {
        self.kids.len()
    }

    /// The current signing key's id: that of the key inserted first.
    pub fn get_kid(&self) -> (kid: u128)
        requires
            self.kids().len() > 0,
        ensures
            kid == self.kids()[0],
    {
        self.kids[0]
    }

    /// Issues a token at a given time and with a given token id.
    pub fn issue_jwt_at(&self, kid: u128, sub: u128, ttl: i64, now: i64, jti: u128) -> (token:
        Result<String, IssueError>)
        ensures
            match token {
                Ok(t) => self.issued_at(kid, sub, ttl, now, jti) == Ok::<Seq<char>, IssueError>(t@),
                Err(e) => self.issued_at(kid, sub, ttl, now, jti) == Err::<Seq<char>, IssueError>(
                    e,
                ),
            },
    {
        proof {
            use_type_invariant(self);
        }
        if self.kids.len() == 0 {
            return Err(IssueError::NoKey);
        }
        let exp = match now.checked_add(ttl) {
            Some(exp) => exp,
            None => {
                return Err(IssueError::Expiry);
            },
        };
        let position = match self.find(kid) {
            Some(i) => i,
            None => 0,
        };
        let claims = Claims {
            aud: self.aud.clone(),
            iss: self.iss.clone(),
            sub,
            exp,
            jti,
            iat: now,
            nbf: now,
        };
        assert(claims@ == self.claims_at(sub, ttl, now, jti));
        let written = claims.written();
        let header_kid = uuid_text(kid);
        match encode_eddsa(
            header_kid.as_str(),
            &written,
            self.pairs[position].private_key().as_slice(),
        ) {
            Ok(token) => Ok(token),
            Err(_) => Err(IssueError::Signing),
        }
    }

    /// Issues a token for `sub` that is valid from now for `ttl` seconds,
    /// signed with the key of `kid`, or with the current key when `kid` is
    /// unknown. The time and the token id are taken fresh.
    pub fn issue_jwt(&self, kid: u128, sub: u128, ttl: i64) -> (token: Result<String, IssueError>)
        ensures
            exists|now: i64, jti: u128|
                clock_reading(now) && match token {
                    Ok(t) => #[trigger] self.issued_at(kid, sub, ttl, now, jti) == Ok::<
                        Seq<char>,
                        IssueError,
                    >(t@),
                    Err(e) => self.issued_at(kid, sub, ttl, now, jti) == Err::<
                        Seq<char>,
                        IssueError,
                    >(e),
                },
            self.kids().len() == 0 <==> token == Err::<String, IssueError>(IssueError::NoKey),
            CLOCK_BOUND - i64::MAX <= ttl <= i64::MAX - CLOCK_BOUND ==> token != Err::<
                String,
                IssueError,
            >(IssueError::Expiry),
    {
        let now = unix_now();
        let jti = fresh_id();
        self.issue_jwt_at(kid, sub, ttl, now, jti)
    }

    /// The public halves of all keys, as they are published.
    pub fn jwks(&self) -> (set: JwkSet)
        ensures
            set@ == self.published(),
            forall|i: int|
                0 <= i < set@.len() ==> parsed_uuid(#[trigger] set@[i].kid) == Some(
                    self.kids()[i],
                ),
    {
        proof {
            use_type_invariant(self);
        }
        let mut keys: Vec<Jwk> = Vec::new();
        let mut i: usize = 0;
        while i < self.kids.len()
            invariant
                self.wf(),
                i <= self.kids@.len(),
                keys@.len() == i,
                forall|j: int|
                    0 <= j < i ==> (#[trigger] keys@[j])@ == published_key(
                        self.kids@[j],
                        self.pairs@[j].x_text(),
                    ) && parsed_uuid(keys@[j].kid@) == Some(self.kids@[j]),
            decreases self.kids@.len() - i,
        {
            let jwk = Jwk {
                kid: uuid_text(self.kids[i]),
                kty: "OKP".to_owned(),
                crv: "Ed25519".to_owned(),
                x: self.pairs[i].x().clone(),
                alg: "EdDSA".to_owned(),
                public_key_use: "sig".to_owned(),
            };
            keys.push(jwk);
            i += 1;
        }
        let set = JwkSet { keys };
        proof {
            assert(set@ =~= self.published());
        }
        set
    }
}

/// What is published depends on the key ids and on the public `x` of each
/// key, and on nothing else: two key sets that agree on these publish the
/// same document, whatever their private documents hold.
pub proof fn published_keys_are_public(a: JwtIssuer, b: JwtIssuer)
    requires
        a.wf(),
        b.wf(),
        a.kids() == b.kids(),
        forall|i: int| 0 <= i < a.pairs().len() ==> a.pairs()[i].x_text() == b.pairs()[i].x_text(),
    ensures
        a.published() == b.published(),
{
    assert(a.published() =~= b.published());
}

/// Every published entry carries the text of its key id and the encoding of
/// the public key whose private half signs for that key id.
pub proof fn signing_key_is_published(issuer: JwtIssuer, kid: u128)
    requires
        issuer.wf(),
        issuer.kids().contains(kid),
    ensures
        ({
            let i = issuer.signing_position(kid);
            &&& 0 <= i < issuer.kids().len()
            &&& issuer.kids()[i] == kid
            &&& issuer.published()[i].kid == hyphenated(kid)
            &&& issuer.published()[i].x == crate::keys::base64url(issuer.pairs()[i].public_bytes())
            &&& crate::keys::ed25519_public_key(issuer.pairs()[i].private_document()) == Some(
                issuer.pairs()[i].public_bytes(),
            )
        }),
{
    let i = issuer.signing_position(kid);
    assert(issuer.kids()[i] == kid);
    assert(issuer.pairs()[i].wf());
}

/// A token issued for a key id that the set holds is the signer's output
/// for a header naming that key id and claims naming the subject, under the
/// private document whose public half is published with that key id. What
/// a verifier makes of the token is the signature scheme's matter and is
/// not stated here.
pub proof fn issued_token_is_bound_to_its_published_key(
    issuer: JwtIssuer,
    kid: u128,
    sub: u128,
    ttl: i64,
    now: i64,
    jti: u128,
    token: Seq<char>,
)
    requires
        issuer.wf(),
        issuer.kids().contains(kid),
        issuer.issued_at(kid, sub, ttl, now, jti) == Ok::<Seq<char>, IssueError>(token),
    ensures
        ({
            let i = issuer.signing_position(kid);
            let pair = issuer.pairs()[i];
            &&& 0 <= i < issuer.kids().len()
            &&& issuer.kids()[i] == kid
            &&& eddsa_token(
                hyphenated(kid),
                issuer.audience(),
                issuer.issuer(),
                hyphenated(sub),
                hyphenated(jti),
                (now + ttl) as i64,
                now,
                now,
                pair.private_document(),
            ) == Some(token)
            &&& now + ttl <= i64::MAX
            &&& ed25519_public_key(pair.private_document()) == Some(pair.public_bytes())
            &&& issuer.published()[i] == published_key(kid, crate::keys::base64url(pair.public_bytes()))
        }),
{
    let i = issuer.signing_position(kid);
    assert(issuer.kids()[i] == kid);
    assert(issuer.pairs()[i].wf());
}

/// A token is signed with the key of the requested key id where the set
/// holds it, and with the current key, the one inserted first, where it
/// does not.
pub proof fn unknown_kid_falls_back(issuer: JwtIssuer, kid: u128)
    requires
        issuer.wf(),
        issuer.kids().len() > 0,
    ensures
        !issuer.kids().contains(kid) ==> issuer.signing_position(kid) == 0,
        issuer.kids().contains(kid) ==> issuer.kids()[issuer.signing_position(kid)] == kid,
        0 <= issuer.signing_position(kid) < issuer.kids().len(),
{
}

} // verus!
