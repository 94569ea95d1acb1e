//! Identity-token verification.
//!
//! A bearer token is checked against a set of RSA public keys published by
//! the identity provider: the first key whose RS256 signature check accepts
//! the token yields its claims, and the claims are then validated against
//! the caller's configuration (audience, accepted issuers, expiry). The
//! outcome of the whole pipeline is pinned down by the spec function
//! [`verify_outcome`].

use vstd::prelude::*;

verus! {

use vstd::string::StringExecFns;

/// One RSA public key of the provider's key set, described by its
/// base64url-encoded modulus and public exponent.
#[derive(Clone)]
pub struct Key {
    n: String,
    e: String,
}

/// The claim set carried by a token, available only after a signature
/// check has accepted the token.
pub struct Claims {
    aud: String,
    exp: u64,
    iss: String,
    pub sub: String,
}

/// Why a verification attempt did not produce a subject.
#[derive(Clone, Copy, Debug, PartialEq, Eq, Structural)]
pub enum VerificationError {
    /// No readable token was presented with the request.
    MissingOrMalformedToken,
    /// The key cache holds no keys, so no signature can be checked.
    KeyFetchFailure,
    /// No cached key accepts the token's signature.
    NoMatchingKey,
    /// The token's audience is not this service's client id.
    AudienceMismatch,
    /// The token's issuer is neither accepted canonical form.
    IssuerMismatch,
    /// The token's expiry time is in the past.
    Expired,
}

/// The caller's side of a verification: its own client id, the issuer
/// forms it accepts, and how much clock skew it tolerates (seconds).
pub struct VerificationConfig {
    pub audience: String,
    pub accepted_issuers: Vec<String>,
    pub clock_skew_tolerance: u64,
}

pub ghost struct KeyView {
    pub n: Seq<char>,
    pub e: Seq<char>,
}

pub ghost struct ClaimsView {
    pub aud: Seq<char>,
    pub exp: u64,
    pub iss: Seq<char>,
    pub sub: Seq<char>,
}

pub ghost struct ConfigView {
    pub audience: Seq<char>,
    pub accepted_issuers: Seq<Seq<char>>,
    pub clock_skew_tolerance: u64,
}

impl View for Key {
    type V = KeyView;

    closed spec fn view(&self) -> KeyView {
        KeyView { n: self.n@, e: self.e@ }
    }
}

impl DeepView for Key {
    type V = KeyView;

    open spec fn deep_view(&self) -> KeyView {
        self@
    }
}

impl View for Claims {
    type V = ClaimsView;

    closed spec fn view(&self) -> ClaimsView {
        ClaimsView { aud: self.aud@, exp: self.exp, iss: self.iss@, sub: self.sub@ }
    }
}

impl View for VerificationConfig {
    type V = ConfigView;

    open spec fn view(&self) -> ConfigView {
        ConfigView {
            audience: self.audience@,
            accepted_issuers: self.accepted_issuers.deep_view(),
            clock_skew_tolerance: self.clock_skew_tolerance,
        }
    }
}

impl Key {
    pub fn new(n: String, e: String) -> (r: Key)
        ensures
            r@ == (KeyView { n: n@, e: e@ }),
    {
        Key { n, e }
    }
}

impl Claims {
    pub fn new(aud: String, exp: u64, iss: String, sub: String) -> (r: Claims)
        ensures
            r@ == (ClaimsView { aud: aud@, exp: exp, iss: iss@, sub: sub@ }),
    {
        Claims { aud, exp, iss, sub }
    }
}

/// The claims of `token` if, and only if, the RS256 signature of `token`
/// checks out under the RSA public key with modulus `n` and exponent `e`.
/// The token text and the key components determine this completely.
pub uninterp spec fn rs256_claims(token: Seq<char>, n: Seq<char>, e: Seq<char>) -> Option<ClaimsView>;

pub open spec fn claims_of(r: Option<Claims>) -> Option<ClaimsView> {
    match r {
        Some(c) => Some(c@),
        None => None,
    }
}

/// Relies on jsonwebtoken's `decode` with `DecodingKey::from_rsa_components`:
/// with every claim check disabled it accepts exactly the well-formed RS256
/// tokens whose signature the key verifies, and hands back the decoded
/// payload, a function of the token text and the key components alone.
/// A key with undecodable components accepts nothing.
#[verifier::external_body]
fn decode_rs256(token: &str, key: &Key) -> (r: Option<Claims>)
    ensures
        claims_of(r) == rs256_claims(token@, key@.n, key@.e),
{
    let dk = jsonwebtoken::DecodingKey::from_rsa_components(&key.n, &key.e).ok()?;
    let mut v = jsonwebtoken::Validation::new(jsonwebtoken::Algorithm::RS256);
    v.validate_exp = false;
    v.validate_aud = false;
    v.required_spec_claims = std::collections::HashSet::new();
    let p = jsonwebtoken::decode::<serde_json::Value>(token, &dk, &v).ok()?.claims;
    Some(Claims {
        aud: p.get("aud")?.as_str()?.to_owned(),
        exp: p.get("exp")?.as_u64()?,
        iss: p.get("iss")?.as_str()?.to_owned(),
        sub: p.get("sub")?.as_str()?.to_owned(),
    })
}

/// The claims of the first key in `keys` whose signature check accepts
/// `token`, or `None` when every key rejects it.
pub open spec fn scan_keys(token: Seq<char>, keys: Seq<KeyView>) -> Option<ClaimsView>
    decreases keys.len(),
{
    if keys.len() == 0 {
        None
    } else {
        match rs256_claims(token, keys.first().n, keys.first().e) {
            Some(c) => Some(c),
            None => scan_keys(token, keys.drop_first()),
        }
    }
}

/// Tries each cached key in order and returns the claims decoded under the
/// first key that accepts the token's signature.
pub fn verify_signature(token: &str, keys: &Vec<Key>) -> (r: Result<Claims, VerificationError>)
    ensures
        match r {
            Ok(c) => scan_keys(token@, keys.deep_view()) == Some(c@),
            Err(e) => e == VerificationError::NoMatchingKey
                && scan_keys(token@, keys.deep_view()) is None,
        },
{
    let ghost all = keys.deep_view();
    assert(all.skip(0) =~= all);
    let mut i: usize = 0;
    while i < keys.len()
        invariant
            i <= keys.len(),
            all == keys.deep_view(),
            all.len() == keys.len(),
            scan_keys(token@, all) == scan_keys(token@, all.skip(i as int)),
        decreases keys.len() - i,
    {
        assert(all.skip(i as int).first() == all[i as int]);
        match decode_rs256(token, &keys[i]) {
            Some(c) => {
                assert(scan_keys(token@, all.skip(i as int)) == Some(c@));
                return Ok(c);
            },
            None => {
                assert(all.skip(i as int).drop_first() =~= all.skip(i as int + 1));
            },
        }
        i += 1;
    }
    assert(all.skip(i as int) =~= Seq::<KeyView>::empty());
    Err(VerificationError::NoMatchingKey)
}

/// The two canonical issuer forms under which the provider signs tokens:
/// the bare domain and the full URL.
pub open spec fn google_issuers() -> Seq<Seq<char>> {
    seq!["accounts.google.com"@, "https://accounts.google.com"@]
}

impl VerificationConfig {
    /// A configuration that accepts tokens minted for `client_id` by
    /// either canonical issuer form of the provider.
    pub fn google(client_id: String, clock_skew_tolerance: u64) -> (r: VerificationConfig)
        ensures
            r@.audience == client_id@,
            r@.accepted_issuers == google_issuers(),
            r@.clock_skew_tolerance == clock_skew_tolerance,
    {
        let mut accepted: Vec<String> = Vec::new();
        accepted.push(String::from_str("accounts.google.com"));
        accepted.push(String::from_str("https://accounts.google.com"));
        proof {
            assert(accepted.deep_view() =~= google_issuers());
        }
        VerificationConfig { audience: client_id, accepted_issuers: accepted, clock_skew_tolerance }
    }
}

/// Whether `iss` is one of the accepted issuer forms.
pub open spec fn issuer_accepted(iss: Seq<char>, accepted: Seq<Seq<char>>) -> bool {
    exists|i: int| 0 <= i < accepted.len() && accepted[i] == iss
}

/// The outcome of validating a signature-verified claim set: audience,
/// then issuer, then expiry, stopping at the first failing check.
pub open spec fn claims_outcome(c: ClaimsView, cfg: ConfigView, now: u64) -> Result<
    Seq<char>,
    VerificationError,
> {
    if c.aud != cfg.audience {
        Err(VerificationError::AudienceMismatch)
    } else if !issuer_accepted(c.iss, cfg.accepted_issuers) {
        Err(VerificationError::IssuerMismatch)
    } else if c.exp + cfg.clock_skew_tolerance <= now {
        Err(VerificationError::Expired)
    } else {
        Ok(c.sub)
    }
}

pub open spec fn subject_of(r: Result<String, VerificationError>) -> Result<
    Seq<char>,
    VerificationError,
> {
    match r {
        Ok(s) => Ok(s@),
        Err(e) => Err(e),
    }
}

fn issuer_allowed(iss: &String, accepted: &Vec<String>) -> (r: bool)
    ensures
        r == issuer_accepted(iss@, accepted.deep_view()),
{
    let mut i: usize = 0;
    while i < accepted.len()
        invariant
            i <= accepted.len(),
            forall|k: int| 0 <= k < i ==> accepted.deep_view()[k] != iss@,
        decreases accepted.len() - i,
    {
        assert(accepted.deep_view()[i as int] == accepted@[i as int]@);
        if accepted[i] == *iss {
            return true;
        }
        i += 1;
    }
    false
}

/// Checks a signature-verified claim set against the caller's
/// configuration: the audience must equal the configured client id, the
/// issuer must be an accepted form, and the expiry must lie strictly in
/// the future beyond the tolerated clock skew. Checks run in that order
/// and stop at the first failure; on success the claims' subject comes
/// back unchanged.
pub fn validate_claims(claims: &Claims, config: &VerificationConfig, now: u64) -> (r: Result<
    String,
    VerificationError,
>)
    ensures
        subject_of(r) == claims_outcome(claims@, config@, now),
{
    if claims.aud != config.audience {
        return Err(VerificationError::AudienceMismatch);
    }
    if !issuer_allowed(&claims.iss, &config.accepted_issuers) {
        return Err(VerificationError::IssuerMismatch);
    }
    if now >= config.clock_skew_tolerance && claims.exp <= now - config.clock_skew_tolerance {
        return Err(VerificationError::Expired);
    }
    Ok(claims.sub.clone())
}

/// The outcome of a whole verification: with no cached keys nothing can be
/// checked; otherwise the first key accepting the signature yields the
/// claims, which the claim checks then judge.
pub open spec fn verify_outcome(
    token: Seq<char>,
    keys: Seq<KeyView>,
    cfg: ConfigView,
    now: u64,
) -> Result<Seq<char>, VerificationError> {
    if keys.len() == 0 {
        Err(VerificationError::KeyFetchFailure)
    } else {
        match scan_keys(token, keys) {
            None => Err(VerificationError::NoMatchingKey),
            Some(c) => claims_outcome(c, cfg, now),
        }
    }
}

/// The single entry point of the verification core: signature check
/// against the cached keys, then claim validation, returning the token's
/// subject or the first failure.
pub fn verify(token: &str, keys: &Vec<Key>, config: &VerificationConfig, now: u64) -> (r: Result<
    String,
    VerificationError,
>)
    ensures
        subject_of(r) == verify_outcome(token@, keys.deep_view(), config@, now),
{
    if keys.len() == 0 {
        return Err(VerificationError::KeyFetchFailure);
    }
    let claims = match verify_signature(token, keys) {
        Ok(c) => c,
        Err(e) => {
            return Err(e);
        },
    };
    validate_claims(&claims, config, now)
}

/// Like [`verify`], for a request that may carry no token at all.
pub fn verify_request(
    token: Option<&str>,
    keys: &Vec<Key>,
    config: &VerificationConfig,
    now: u64,
) -> (r: Result<String, VerificationError>)
    ensures
        match token {
            None => r == Err::<String, VerificationError>(
                VerificationError::MissingOrMalformedToken,
            ),
            Some(t) => subject_of(r) == verify_outcome(t@, keys.deep_view(), config@, now),
        },
{
    match token {
        None => Err(VerificationError::MissingOrMalformedToken),
        Some(t) => verify(t, keys, config, now),
    }
}

proof fn lemma_scan_keys_none(token: Seq<char>, keys: Seq<KeyView>)
    requires
        forall|i: int| 0 <= i < keys.len() ==> rs256_claims(token, keys[i].n, keys[i].e) is None,
    ensures
        scan_keys(token, keys) is None,
    decreases keys.len(),
{
    if keys.len() > 0 {
        assert(keys.first() == keys[0]);
        assert(forall|i: int|
            0 <= i < keys.drop_first().len() ==> keys.drop_first()[i] == keys[i + 1]);
        lemma_scan_keys_none(token, keys.drop_first());
    }
}

/// A token that no cached key accepts is reported as `NoMatchingKey`: in
/// particular, a token signed by a key outside the cached set never
/// verifies.
pub proof fn lemma_no_matching_key(token: Seq<char>, keys: Seq<KeyView>, cfg: ConfigView, now: u64)
    requires
        keys.len() > 0,
        forall|i: int| 0 <= i < keys.len() ==> rs256_claims(token, keys[i].n, keys[i].e) is None,
    ensures
        verify_outcome(token, keys, cfg, now) == Err::<Seq<char>, VerificationError>(
            VerificationError::NoMatchingKey,
        ),
{
    lemma_scan_keys_none(token, keys);
}

/// When a cached key accepts the token but its audience differs from the
/// configured one, the outcome is `AudienceMismatch` whatever the issuer
/// and expiry hold: the audience check comes before both.
pub proof fn lemma_audience_checked_first(
    token: Seq<char>,
    keys: Seq<KeyView>,
    cfg: ConfigView,
    now: u64,
    c: ClaimsView,
)
    requires
        keys.len() > 0,
        scan_keys(token, keys) == Some(c),
        c.aud != cfg.audience,
    ensures
        verify_outcome(token, keys, cfg, now) == Err::<Seq<char>, VerificationError>(
            VerificationError::AudienceMismatch,
        ),
{
}

/// Under a configuration accepting the provider's two canonical issuer
/// forms, a claim set carrying either form passes the issuer check — the
/// outcome is never `IssuerMismatch` — and one carrying any third string,
/// once its audience agrees, fails with exactly `IssuerMismatch`.
pub proof fn lemma_issuer_two_forms(c: ClaimsView, cfg: ConfigView, now: u64)
    requires
        cfg.accepted_issuers == google_issuers(),
    ensures
        c.iss == "accounts.google.com"@ || c.iss == "https://accounts.google.com"@ ==> issuer_accepted(
            c.iss,
            cfg.accepted_issuers,
        ) && claims_outcome(c, cfg, now) != Err::<Seq<char>, VerificationError>(
            VerificationError::IssuerMismatch,
        ),
        c.aud == cfg.audience && c.iss != "accounts.google.com"@ && c.iss
            != "https://accounts.google.com"@ ==> claims_outcome(c, cfg, now) == Err::<
            Seq<char>,
            VerificationError,
        >(VerificationError::IssuerMismatch),
{
    if c.iss == "accounts.google.com"@ {
        assert(cfg.accepted_issuers[0] == c.iss);
    } else if c.iss == "https://accounts.google.com"@ {
        assert(cfg.accepted_issuers[1] == c.iss);
    } else {
        assert(!issuer_accepted(c.iss, cfg.accepted_issuers)) by {
            assert forall|i: int| 0 <= i < cfg.accepted_issuers.len() implies cfg.accepted_issuers[i]
                != c.iss by {
                assert(i == 0 || i == 1);
            }
        }
    }
}

/// A claim set whose expiry lies at or before the verification time,
/// beyond the tolerated clock skew, is `Expired` even when audience and
/// issuer are valid.
pub proof fn lemma_expired(c: ClaimsView, cfg: ConfigView, now: u64)
    requires
        c.aud == cfg.audience,
        issuer_accepted(c.iss, cfg.accepted_issuers),
        c.exp + cfg.clock_skew_tolerance <= now,
    ensures
        claims_outcome(c, cfg, now) == Err::<Seq<char>, VerificationError>(
            VerificationError::Expired,
        ),
{
}

/// Verification is idempotent: the outcome is a function of the token,
/// the key set, the configuration and the clock alone, so two
/// verifications of one token against an unchanged key set agree.
pub proof fn lemma_verify_idempotent(
    token: Seq<char>,
    keys: Seq<KeyView>,
    cfg: ConfigView,
    now: u64,
    r1: Result<Seq<char>, VerificationError>,
    r2: Result<Seq<char>, VerificationError>,
)
    requires
        r1 == verify_outcome(token, keys, cfg, now),
        r2 == verify_outcome(token, keys, cfg, now),
    ensures
        r1 == r2,
{
}

} // verus!
