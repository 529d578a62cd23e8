use vstd::prelude::*;
use crate::errors::ApiError;

verus! {

/// The hard cap on a minted assertion's lifetime, in seconds: one hour.
pub const ASSERTION_LIFETIME_SECS: i64 = 3600;

/// The claims of a short-lived assertion the service signs for the identity
/// provider's exchange endpoint.
#[derive(Debug)]
pub struct AssertionClaims {
    pub issuer: String,
    pub subject: String,
    pub audience: String,
    pub issued_at: i64,
    pub expires_at: i64,
    pub uid: String,
    pub premium: bool,
}

/// A minted assertion: claims bound to the service signing key that covers
/// them. Keys are modelled by their identifiers; which key signed a value is
/// exactly what signature verification recovers.
#[derive(Debug)]
pub struct SignedAssertion {
    pub claims: AssertionClaims,
    pub key_id: u64,
}

/// The provider's identity token proving a subject, bound to the provider
/// key that signed it. A token whose key id is not among the provider's
/// current keys is one whose signature does not check out.
#[derive(Debug)]
pub struct IdentityToken {
    pub subject: String,
    pub issuer: String,
    pub audience: String,
    pub expires_at: i64,
    pub key_id: u64,
}

fn contains_key(keys: &Vec<u64>, k: u64) -> (r: bool)
    ensures
        r == keys@.contains(k),
{
    let mut i: usize = 0;
    while i < keys.len()
        invariant
            i <= keys@.len(),
            forall|j: int| 0 <= j < i ==> keys@[j] != k,
        decreases keys@.len() - i,
    {
        if keys[i] == k {
            return true;
        }
        i += 1;
    }
    proof {
        assert(!keys@.contains(k));
    }
    false
}

/// The service side of the identity handshake: it mints signed assertions
/// and verifies the provider's identity tokens.
#[derive(Debug)]
pub struct IdentityVerifier {
    /// The service identity written as issuer and subject of every minted
    /// assertion.
    pub issuer: String,
    /// The audience the exchange endpoint expects on assertions.
    pub token_audience: String,
    /// The service signing key.
    pub service_key: u64,
    /// Whether the provisioned signing key material is well formed.
    pub service_key_valid: bool,
    /// The issuer a trustworthy identity token must carry.
    pub expected_issuer: String,
    /// The audience a trustworthy identity token must carry.
    pub expected_audience: String,
    /// The provider's current public keys.
    pub provider_keys: Vec<u64>,
}

/// What `mint_assertion` produces: issuer and subject are the service
/// identity, the audience is the provider's, the lifetime is exactly the
/// one-hour cap, and the claims are covered by the service key.
pub open spec fn spec_minted(
    v: IdentityVerifier,
    uid: Seq<char>,
    premium: bool,
    now: i64,
    a: SignedAssertion,
) -> bool {
    &&& a.claims.issuer@ == v.issuer@
    &&& a.claims.subject@ == v.issuer@
    &&& a.claims.audience@ == v.token_audience@
    &&& a.claims.issued_at == now
    &&& a.claims.expires_at == now + ASSERTION_LIFETIME_SECS
    &&& a.claims.uid@ == uid
    &&& a.claims.premium == premium
    &&& a.key_id == v.service_key
}

/// When a presented identity token is trustworthy: signature, issuer,
/// audience and expiry all check out.
pub open spec fn spec_token_valid(v: IdentityVerifier, t: IdentityToken, now: i64) -> bool {
    &&& v.provider_keys@.contains(t.key_id)
    &&& t.issuer@ == v.expected_issuer@
    &&& t.audience@ == v.expected_audience@
    &&& now < t.expires_at
}

impl IdentityVerifier {
    /// Mint a signed assertion for `uid`: issued now, expiring exactly one
    /// hour later (a longer life is unbuildable), addressed to the
    /// provider's exchange endpoint. Fails with `SigningError` exactly when
    /// the signing key material is malformed.
    pub fn mint_assertion(&self, uid: &str, premium: bool, now: i64) -> (r: Result<
        SignedAssertion,
        ApiError,
    >)
        requires
            now <= i64::MAX - ASSERTION_LIFETIME_SECS,
        ensures
            match r {
                Ok(a) => self.service_key_valid && spec_minted(*self, uid@, premium, now, a),
                Err(e) => !self.service_key_valid && e == ApiError::SigningError,
            },
    {
        if !self.service_key_valid {
            return Err(ApiError::SigningError);
        }
        Ok(SignedAssertion {
            claims: AssertionClaims {
                issuer: self.issuer.clone(),
                subject: self.issuer.clone(),
                audience: self.token_audience.clone(),
                issued_at: now,
                expires_at: now + ASSERTION_LIFETIME_SECS,
                uid: String::from_str(uid),
                premium,
            },
            key_id: self.service_key,
        })
    }

    /// Verify a presented identity token: the exact subject embedded at
    /// issue time comes back when everything checks out, and any failure --
    /// unknown key, wrong issuer or audience, expiry -- is reported as
    /// `Unauthorized` without further distinction.
    pub fn verify_token(&self, token: &IdentityToken, now: i64) -> (r: Result<String, ApiError>)
        ensures
            match r {
                Ok(s) => spec_token_valid(*self, *token, now) && s@ == token.subject@,
                Err(e) => !spec_token_valid(*self, *token, now) && e == ApiError::Unauthorized,
            },
    {
        let sig_ok = contains_key(&self.provider_keys, token.key_id);
        let iss_ok = crate::strutil::str_eq(token.issuer.as_str(), self.expected_issuer.as_str());
        let aud_ok = crate::strutil::str_eq(
            token.audience.as_str(),
            self.expected_audience.as_str(),
        );
        if sig_ok && iss_ok && aud_ok && now < token.expires_at {
            Ok(token.subject.clone())
        } else {
            Err(ApiError::Unauthorized)
        }
    }
}

/// A model of the remote exchange endpoint, for harnesses and for stating
/// what the network call is relied on for: which assertions it accepts and
/// what token it issues.
#[derive(Debug)]
pub struct IdentityProvider {
    /// The service keys the provider has registered.
    pub accepted_service_keys: Vec<u64>,
    /// The audience it requires on assertions.
    pub assertion_audience: String,
    /// The issuer it writes on issued tokens.
    pub token_issuer: String,
    /// The audience it writes on issued tokens.
    pub token_audience: String,
    /// The key it signs issued tokens with.
    pub signing_key: u64,
    /// How long an issued token lives, in seconds.
    pub token_lifetime: i64,
    /// Whether the endpoint is reachable.
    pub available: bool,
}

/// When the provider accepts an assertion: known service key, its audience,
/// inside its lifetime, and the lifetime within the one-hour cap.
pub open spec fn spec_accepts_assertion(
    p: IdentityProvider,
    a: SignedAssertion,
    now: i64,
) -> bool {
    &&& p.accepted_service_keys@.contains(a.key_id)
    &&& a.claims.audience@ == p.assertion_audience@
    &&& a.claims.issued_at <= now < a.claims.expires_at
    &&& a.claims.expires_at - a.claims.issued_at <= ASSERTION_LIFETIME_SECS
}

/// The token the provider issues for an accepted assertion.
pub open spec fn spec_issued_token(
    p: IdentityProvider,
    a: SignedAssertion,
    now: i64,
    t: IdentityToken,
) -> bool {
    &&& t.subject@ == a.claims.uid@
    &&& t.issuer@ == p.token_issuer@
    &&& t.audience@ == p.token_audience@
    &&& t.expires_at == now + p.token_lifetime
    &&& t.key_id == p.signing_key
}

impl IdentityProvider {
    /// Exchange a signed assertion for an identity token. A transport
    /// failure surfaces as `ProviderUnavailable`; a rejected assertion as
    /// `InvalidAssertion`; both verbatim, with no retry at this boundary.
    pub fn exchange_assertion(&self, assertion: &SignedAssertion, now: i64) -> (r: Result<
        IdentityToken,
        ApiError,
    >)
        requires
            0 <= self.token_lifetime,
            now <= i64::MAX - self.token_lifetime,
        ensures
            match r {
                Ok(t) => self.available && spec_accepts_assertion(*self, *assertion, now)
                    && spec_issued_token(*self, *assertion, now, t),
                Err(e) => {
                    ||| (!self.available && e == ApiError::ProviderUnavailable)
                    ||| (self.available && !spec_accepts_assertion(*self, *assertion, now) && e
                        == ApiError::InvalidAssertion)
                },
            },
    {
        if !self.available {
            return Err(ApiError::ProviderUnavailable);
        }
        let key_ok = contains_key(&self.accepted_service_keys, assertion.key_id);
        let aud_ok = crate::strutil::str_eq(
            assertion.claims.audience.as_str(),
            self.assertion_audience.as_str(),
        );
        let window_ok = assertion.claims.issued_at <= now && now < assertion.claims.expires_at
            && (assertion.claims.expires_at as i128) - (assertion.claims.issued_at as i128) <= (
        ASSERTION_LIFETIME_SECS as i128);
        if key_ok && aud_ok && window_ok {
            Ok(IdentityToken {
                subject: assertion.claims.uid.clone(),
                issuer: self.token_issuer.clone(),
                audience: self.token_audience.clone(),
                expires_at: now + self.token_lifetime,
                key_id: self.signing_key,
            })
        } else {
            Err(ApiError::InvalidAssertion)
        }
    }
}

/// Law: a freshly minted assertion, exchanged with the provider it was
/// minted for inside its one-hour window, is accepted; and the issued token
/// verifies back to the exact subject embedded at mint time while the token
/// lives, and fails verification once it has expired.
pub proof fn lemma_mint_exchange_verify(
    v: IdentityVerifier,
    p: IdentityProvider,
    uid: Seq<char>,
    premium: bool,
    t_mint: i64,
    t_exchange: i64,
    t_verify: i64,
    a: SignedAssertion,
    tok: IdentityToken,
)
    requires
        p.accepted_service_keys@.contains(v.service_key),
        v.token_audience@ == p.assertion_audience@,
        v.expected_issuer@ == p.token_issuer@,
        v.expected_audience@ == p.token_audience@,
        v.provider_keys@.contains(p.signing_key),
        t_mint <= i64::MAX - ASSERTION_LIFETIME_SECS,
        spec_minted(v, uid, premium, t_mint, a),
        t_mint <= t_exchange < t_mint + ASSERTION_LIFETIME_SECS,
        spec_issued_token(p, a, t_exchange, tok),
    ensures
        spec_accepts_assertion(p, a, t_exchange),
        t_verify < tok.expires_at ==> spec_token_valid(v, tok, t_verify) && tok.subject@ == uid,
        t_verify >= tok.expires_at ==> !spec_token_valid(v, tok, t_verify),
{
}

} // verus!
