//! Signed, time-bounded tokens for a subject identity.
//!
//! A token is a compact string that carries four claims and a MAC over them,
//! computed with a shared secret. Nothing is stored for it: whether a token
//! holds is decided from the token, the key and the clock alone.

use crate::errors::AppError;
use crate::identity::hyphenated;
use crate::identity::uuid_parsed;
use crate::identity::Identity;
use jsonwebtoken::errors::ErrorKind;
use jsonwebtoken::Algorithm;
use jsonwebtoken::DecodingKey;
use jsonwebtoken::EncodingKey;
use jsonwebtoken::Header;
use jsonwebtoken::Validation;
use vstd::prelude::*;

verus! {

/// The claims signed into a token. All times are whole seconds since the
/// Unix epoch.
#[derive(Clone, Copy, Debug, PartialEq, Eq, Structural)]
pub struct Claims {
    /// The identity that the token speaks for.
    pub sub: Identity,
    /// The last second at which the token still holds.
    pub exp: i64,
    /// The second at which the token was issued.
    pub iat: i64,
    /// The first second at which the token holds.
    pub nbf: i64,
}

/// A point in time: whole seconds since the Unix epoch, and the nanoseconds
/// that have passed of the second after them.
#[derive(Clone, Copy, Debug, PartialEq, Eq, Structural)]
pub struct Timestamp {
    /// Whole seconds since the Unix epoch.
    pub secs: i64,
    /// Nanoseconds since the last whole second.
    pub nanos: u32,
}

/// Why a token was not accepted.
#[derive(Clone, Copy, Debug, PartialEq, Eq, Structural)]
pub enum TokenError {
    /// The signature does not match the key.
    InvalidSignature,
    /// The clock is past the token's last second.
    Expired,
    /// The clock has not reached the token's first second.
    NotYetValid,
    /// The token is not of the shape of a token, or its claims are not the
    /// four that this library signs.
    Malformed,
}

/// The claims as they are read out of a signed payload, before anything is
/// known of their shape: each one is there or not.
#[derive(Debug)]
pub struct RawClaims {
    /// The text of the `sub` claim.
    pub sub: Option<String>,
    /// The number of the `exp` claim.
    pub exp: Option<i64>,
    /// The number of the `iat` claim.
    pub iat: Option<i64>,
    /// The number of the `nbf` claim.
    pub nbf: Option<i64>,
}

/// [`RawClaims`] with the subject as a sequence of characters.
pub ghost struct RawClaimsView {
    pub sub: Option<Seq<char>>,
    pub exp: Option<i64>,
    pub iat: Option<i64>,
    pub nbf: Option<i64>,
}

impl View for RawClaims {
    type V = RawClaimsView;

    open spec fn view(&self) -> RawClaimsView {
        RawClaimsView {
            sub: match self.sub {
                Some(text) => Some(text@),
                None => None,
            },
            exp: self.exp,
            iat: self.iat,
            nbf: self.nbf,
        }
    }
}

/// The error type of the `jsonwebtoken` crate.
#[verifier::external_type_specification]
#[verifier::external_body]
pub struct ExJwtError(jsonwebtoken::errors::Error);

/// The error type of the `duration-str` crate.
#[verifier::external_type_specification]
#[verifier::external_body]
pub struct ExDurationError(duration_str::DError);

/// The token that `jsonwebtoken::encode` writes for the four claims under
/// an HS256 key, or nothing where it reports an error.
pub uninterp spec fn jwt_encoded(
    sub: Seq<char>,
    exp: i64,
    iat: i64,
    nbf: i64,
    secret: Seq<char>,
) -> Option<Seq<char>>;

/// What `jsonwebtoken::decode` finds in a token under an HS256 key when it
/// is asked to check the signature and no claim: the four claims as far as
/// the payload holds them, or the reason for which it gave up.
pub uninterp spec fn jwt_decoded(token: Seq<char>, secret: Seq<char>) -> Result<
    RawClaimsView,
    TokenError,
>;

/// The length that `duration_str::parse` reads from a text, as whole seconds
/// and nanoseconds, or nothing where it reports an error.
pub uninterp spec fn duration_parsed(text: Seq<char>) -> Option<(u64, u32)>;

/// The second in which a span of time ends that starts at a given instant,
/// as `chrono` computes it, or nothing where the start, the span or the end
/// lies outside what its types can hold.
pub uninterp spec fn chrono_expiry(
    now_secs: i64,
    now_nanos: u32,
    life_secs: u64,
    life_nanos: u32,
) -> Option<i64>;

/// The payload that stands for given claims.
pub open spec fn raw_view_of(claims: Claims) -> RawClaimsView {
    RawClaimsView {
        sub: Some(hyphenated(claims.sub.value)),
        exp: Some(claims.exp),
        iat: Some(claims.iat),
        nbf: Some(claims.nbf),
    }
}

/// The claims that a payload stands for: all four are there, and the subject
/// reads as an identity.
pub open spec fn claims_of(raw: RawClaimsView) -> Option<Claims> {
    match (raw.sub, raw.exp, raw.iat, raw.nbf) {
        (Some(sub), Some(exp), Some(iat), Some(nbf)) => match uuid_parsed(sub) {
            Some(value) => Some(Claims { sub: Identity { value }, exp, iat, nbf }),
            None => None,
        },
        _ => None,
    }
}

/// Whether claims hold at a given second: first the end of the window is
/// looked at, then its start.
pub open spec fn window_outcome(claims: Claims, now: i64) -> Result<Claims, TokenError> {
    if now > claims.exp {
        Err(TokenError::Expired)
    } else if now < claims.nbf {
        Err(TokenError::NotYetValid)
    } else {
        Ok(claims)
    }
}

/// What validation makes of a decoded token at a given second. A failure of
/// decoding stands as it is, so a bad signature is reported before any claim
/// is looked at.
pub open spec fn validation_outcome(decoded: Result<RawClaimsView, TokenError>, now: i64) -> Result<
    Claims,
    TokenError,
> {
    match decoded {
        Err(reason) => Err(reason),
        Ok(raw) => match claims_of(raw) {
            None => Err(TokenError::Malformed),
            Some(claims) => window_outcome(claims, now),
        },
    }
}

/// Whether `token` is a token that carries `claims` under `secret`: it
/// decodes under that key to their payload, and the subject's text reads
/// back as the subject.
pub open spec fn carries(token: Seq<char>, secret: Seq<char>, claims: Claims) -> bool {
    &&& jwt_decoded(token, secret) == Ok::<RawClaimsView, TokenError>(raw_view_of(claims))
    &&& uuid_parsed(hyphenated(claims.sub.value)) == Some(claims.sub.value)
}

/// A successful reading of a token with all four claims in it.
pub open spec fn decoded_claims(sub: Seq<char>, exp: i64, iat: i64, nbf: i64) -> Result<
    RawClaimsView,
    TokenError,
> {
    Ok(RawClaimsView { sub: Some(sub), exp: Some(exp), iat: Some(iat), nbf: Some(nbf) })
}

/// Whether `token` is a token for `user_id` under `secret`: it carries
/// claims whose subject is that identity, that hold from the second of
/// their issue, and that do not end before it.
pub open spec fn issued_for(token: Seq<char>, secret: Seq<char>, user_id: Identity) -> bool {
    exists|claims: Claims|
        {
            &&& #[trigger] carries(token, secret, claims)
            &&& claims.sub == user_id
            &&& claims.iat == claims.nbf
            &&& claims.exp >= claims.iat
        }
}

/// The second in which a lifetime ends that starts at `now`, on a clock
/// whose nanoseconds stay below a second.
pub open spec fn expiry_second(now: Timestamp, life: (u64, u32)) -> int {
    now.secs + life.0 + (now.nanos + life.1) / 1_000_000_000
}

/// Signs four claims. Calls `jsonwebtoken::encode` with an HS256 header, a
/// JSON object of the claims in the order `sub`, `exp`, `iat`, `nbf`, and
/// the secret's bytes as key. With such a key and such claims it reports no
/// error: the object always serialises, and signing with HMAC cannot fail.
/// The token it returns is one that `jsonwebtoken::decode` reads back under
/// the same key to the same claims.
#[verifier::external_body]
fn jwt_encode(sub: &str, exp: i64, iat: i64, nbf: i64, secret: &str) -> (encoded: Result<String, jsonwebtoken::errors::Error>)
    ensures
        encoded is Ok,
        encoded matches Ok(token) ==> jwt_encoded(sub@, exp, iat, nbf, secret@) == Some(token@),
        encoded is Err ==> jwt_encoded(sub@, exp, iat, nbf, secret@) is None,
        encoded matches Ok(token) ==> jwt_decoded(token@, secret@) == decoded_claims(
            sub@,
            exp,
            iat,
            nbf,
        ),
{
    let mut claims = serde_json::Map::new();
    claims.insert("sub".to_owned(), sub.into());
    claims.insert("exp".to_owned(), exp.into());
    claims.insert("iat".to_owned(), iat.into());
    claims.insert("nbf".to_owned(), nbf.into());
    let key = EncodingKey::from_secret(secret.as_bytes());
    jsonwebtoken::encode(&Header::new(Algorithm::HS256), &claims, &key)
}

/// Checks a token's signature and reads its claims. Calls
/// `jsonwebtoken::decode` for HS256 with the checks of `exp` and of required
/// claims switched off, so that the result depends on the token and the key
/// alone. The signature is checked before the payload is read. Of its
/// errors, `InvalidSignature` is kept; every other one means that the token
/// could not be read.
#[verifier::external_body]
fn jwt_decode(token: &str, secret: &str) -> (decoded: Result<RawClaims, TokenError>)
    ensures
        decoded matches Ok(raw) ==> (jwt_decoded(token@, secret@) matches Ok(found) && found
            == raw@),
        decoded matches Err(reason) ==> (jwt_decoded(token@, secret@) matches Err(found) && found
            == reason),
        decoded matches Err(reason) ==> reason is InvalidSignature || reason is Malformed,
{
    let mut checks = Validation::new(Algorithm::HS256);
    checks.validate_exp = false;
    checks.required_spec_claims.clear();
    let key = DecodingKey::from_secret(secret.as_bytes());
    let read = jsonwebtoken::decode::<serde_json::Value>(token, &key, &checks);
    let data = read.map_err(|error| match error.kind() {
        ErrorKind::InvalidSignature => TokenError::InvalidSignature,
        _ => TokenError::Malformed,
    })?;
    Ok(RawClaims {
        sub: data.claims["sub"].as_str().map(|text| text.to_owned()),
        exp: data.claims["exp"].as_i64(),
        iat: data.claims["iat"].as_i64(),
        nbf: data.claims["nbf"].as_i64(),
    })
}

/// Reads a length of time from text such as `15m` or `7d`. Calls
/// `duration_str::parse` and splits its result into whole seconds and the
/// nanoseconds beyond them, which stay below a second.
#[verifier::external_body]
fn parse_lifetime(text: &str) -> (parsed: Result<(u64, u32), duration_str::DError>)
    ensures
        parsed matches Ok(life) ==> duration_parsed(text@) == Some(life),
        parsed is Err ==> duration_parsed(text@) is None,
        parsed matches Ok(life) ==> life.1 < 1_000_000_000,
{
    duration_str::parse(text).map(|length| (length.as_secs(), length.subsec_nanos()))
}

/// Reads the clock. Calls `SystemTime::now` and the conversion of chrono
/// from a `SystemTime` to a `DateTime<Utc>`, which takes a clock before the
/// epoch as well as one after it, as far as a `DateTime` reaches (some
/// 262,000 years either way), and keeps the nanoseconds below a second.
#[verifier::external_body]
fn utc_now() -> (now: Timestamp)
    ensures
        now.nanos < 1_000_000_000,
{
    let now = chrono::DateTime::<chrono::Utc>::from(std::time::SystemTime::now());
    Timestamp { secs: now.timestamp(), nanos: now.timestamp_subsec_nanos() }
}

/// Adds a lifetime to an instant and gives the second in which it ends.
/// Calls `DateTime::from_timestamp`, `Duration::from_std`,
/// `DateTime::checked_add_signed` and `DateTime::timestamp`. Where the
/// instant is no leap second, the addition is exact and the result is
/// rounded down to a whole second.
#[verifier::external_body]
fn chrono_expiry_of(now: Timestamp, life_secs: u64, life_nanos: u32) -> (end: Option<i64>)
    requires
        life_nanos < 1_000_000_000,
    ensures
        end == chrono_expiry(now.secs, now.nanos, life_secs, life_nanos),
        now.nanos < 1_000_000_000 ==> (end matches Some(second) ==> second == expiry_second(
            now,
            (life_secs, life_nanos),
        )),
{
    let start = chrono::DateTime::from_timestamp(now.secs, now.nanos)?;
    let span = chrono::Duration::from_std(std::time::Duration::new(life_secs, life_nanos)).ok()?;
    start.checked_add_signed(span).map(|end| end.timestamp())
}

/// The claims of a token issued at `now` for `user_id`, given the second in
/// which its lifetime ends. Where that second could not be computed, no
/// token is issued.
pub fn build_claims(user_id: Identity, now: Timestamp, expiry: Option<i64>) -> (built: Result<
    Claims,
    AppError,
>)
    ensures
        built == match expiry {
            Some(exp) => Ok::<Claims, AppError>(
                Claims { sub: user_id, exp, iat: now.secs, nbf: now.secs },
            ),
            None => Err::<Claims, AppError>(AppError::InternalServerError),
        },
{
    match expiry {
        Some(exp) => Ok(Claims { sub: user_id, exp, iat: now.secs, nbf: now.secs }),
        None => Err(AppError::InternalServerError),
    }
}

/// What issuing a token at `now` comes to: the claims that are signed, or
/// the error that is reported instead.
pub open spec fn issued_claims(user_id: Identity, expires_in: Seq<char>, now: Timestamp) -> Result<
    Claims,
    AppError,
> {
    match duration_parsed(expires_in) {
        None => Err(AppError::ParseDuration),
        Some(life) => match chrono_expiry(now.secs, now.nanos, life.0, life.1) {
            None => Err(AppError::InternalServerError),
            Some(exp) => Ok(Claims { sub: user_id, exp, iat: now.secs, nbf: now.secs }),
        },
    }
}

/// The whole seconds of a lifetime given as text, or nothing where the
/// text cannot be read.
pub open spec fn whole_seconds(expires_in: Seq<char>) -> Option<u64> {
    match duration_parsed(expires_in) {
        Some(life) => Some(life.0),
        None => None,
    }
}

/// Reads a lifetime such as `15m` or `7d` and gives its whole seconds.
pub fn lifetime_seconds(expires_in: &str) -> (seconds: Option<u64>)
    ensures
        seconds == whole_seconds(expires_in@),
        duration_parsed(expires_in@) matches Some(life) ==> life.1 < 1_000_000_000,
{
    match parse_lifetime(expires_in) {
        Ok(life) => Some(life.0),
        Err(_) => None,
    }
}

/// The text of the token that is issued at `now`, or nothing where issuing
/// reports an error.
pub open spec fn token_text(
    user_id: Identity,
    secret: Seq<char>,
    expires_in: Seq<char>,
    now: Timestamp,
) -> Option<Seq<char>> {
    match issued_claims(user_id, expires_in, now) {
        Err(_) => None,
        Ok(claims) => jwt_encoded(
            hyphenated(user_id.value),
            claims.exp,
            claims.iat,
            claims.nbf,
            secret,
        ),
    }
}

/// The present instant. Its nanoseconds stay below a second.
pub fn current_time() -> (now: Timestamp)
    ensures
        now.nanos < 1_000_000_000,
{
    utc_now()
}

/// Whether `token` is a token issued for `user_id` at `now` under `secret`
/// with the lifetime `expires_in`: it carries the claims of that issue, the
/// nanoseconds of the lifetime stay below a second, and on a clock whose
/// nanoseconds do so too those claims end at `now + expires_in`.
pub open spec fn token_issued_at(
    token: Seq<char>,
    user_id: Identity,
    secret: Seq<char>,
    expires_in: Seq<char>,
    now: Timestamp,
) -> bool {
    &&& issued_claims(user_id, expires_in, now) matches Ok(claims)
    &&& carries(token, secret, claims)
    &&& duration_parsed(expires_in) matches Some(life)
    &&& life.1 < 1_000_000_000
    &&& now.nanos < 1_000_000_000 ==> claims.exp == expiry_second(now, life)
}

/// Whether `issued` is what issuing a token at `now` comes to.
///
/// A lifetime that cannot be read gives `ParseDuration`, an end that cannot
/// be computed gives `InternalServerError`, and a failure to sign gives
/// `Jwt`. Otherwise the token is the one that the claims and the key
/// determine, and it carries those claims.
pub open spec fn issued_at(
    user_id: Identity,
    secret: Seq<char>,
    expires_in: Seq<char>,
    now: Timestamp,
    issued: Result<String, AppError>,
) -> bool {
    match issued_claims(user_id, expires_in, now) {
        Err(reason) => issued == Err::<String, AppError>(reason),
        Ok(claims) => match jwt_encoded(
            hyphenated(user_id.value),
            claims.exp,
            claims.iat,
            claims.nbf,
            secret,
        ) {
            None => issued == Err::<String, AppError>(AppError::Jwt),
            Some(text) => issued matches Ok(token) && token@ == text && carries(
                token@,
                secret,
                claims,
            ),
        },
    }
}

/// Issues a token for `user_id` at the instant `now`.
///
/// The claims are `iat = nbf = now` and `exp = now + expires_in`, in whole
/// seconds; they are signed under `secret`. A token that comes back carries
/// exactly those claims, so that validation under the same key returns them
/// at every second of their window. Issuing succeeds wherever the lifetime
/// can be read and its end computed. See [`issued_at`] for the errors.
pub fn create_token_at(user_id: Identity, secret: &str, expires_in: &str, now: Timestamp) -> (issued:
    Result<String, AppError>)
    ensures
        issued_at(user_id, secret@, expires_in@, now, issued),
        issued is Ok <==> issued_claims(user_id, expires_in@, now) is Ok,
        duration_parsed(expires_in@) matches Some(life) ==> life.1 < 1_000_000_000,
        issued matches Ok(token) ==> token_issued_at(token@, user_id, secret@, expires_in@, now),
        issued matches Ok(token) ==> token_text(user_id, secret@, expires_in@, now) == Some(token@),
        issued is Err ==> token_text(user_id, secret@, expires_in@, now) is None,
        now.nanos < 1_000_000_000 ==> (issued_claims(user_id, expires_in@, now) matches Ok(claims)
            ==> claims.exp == expiry_second(now, duration_parsed(expires_in@).unwrap())),
{
    let life = match parse_lifetime(expires_in) {
        Ok(life) => life,
        Err(_) => {
            return Err(AppError::ParseDuration);
        },
    };
    let claims = match build_claims(user_id, now, chrono_expiry_of(now, life.0, life.1)) {
        Ok(claims) => claims,
        Err(reason) => {
            return Err(reason);
        },
    };
    let subject = user_id.to_text();
    match jwt_encode(subject.as_str(), claims.exp, claims.iat, claims.nbf, secret) {
        Ok(token) => Ok(token),
        Err(_) => Err(AppError::Jwt),
    }
}

/// Issues a token for `user_id` at the present instant. What comes back is
/// what [`create_token_at`] gives for some reading of the clock; a token
/// that comes back holds from the second of its issue and does not end
/// before it.
pub fn create_token(user_id: Identity, secret: &str, expires_in: &str) -> (issued: Result<
    String,
    AppError,
>)
    ensures
        exists|now: Timestamp|
            now.nanos < 1_000_000_000 && #[trigger] issued_at(
                user_id,
                secret@,
                expires_in@,
                now,
                issued,
            ),
        duration_parsed(expires_in@) is None ==> issued == Err::<String, AppError>(
            AppError::ParseDuration,
        ),
        issued matches Err(reason) ==> reason is ParseDuration || reason is InternalServerError
            || reason is Jwt,
        issued matches Ok(token) ==> issued_for(token@, secret@, user_id),
{
    let now = current_time();
    let issued = create_token_at(user_id, secret, expires_in, now);
    proof {
        if issued is Ok {
            let claims = issued_claims(user_id, expires_in@, now).unwrap();
            assert(carries(issued.unwrap()@, secret@, claims));
        }
    }
    issued
}

/// Looks at the window of claims at the second `now`: past the last second
/// they are expired, before the first they are not yet valid, and in between
/// they are returned.
pub fn check_window(claims: Claims, now: i64) -> (checked: Result<Claims, TokenError>)
    ensures
        checked == window_outcome(claims, now),
        checked is Ok <==> claims.nbf <= now <= claims.exp,
        now > claims.exp ==> checked == Err::<Claims, TokenError>(TokenError::Expired),
        claims.nbf > now && now <= claims.exp ==> checked == Err::<Claims, TokenError>(
            TokenError::NotYetValid,
        ),
{
    if now > claims.exp {
        Err(TokenError::Expired)
    } else if now < claims.nbf {
        Err(TokenError::NotYetValid)
    } else {
        Ok(claims)
    }
}

/// Decides on a token from what decoding made of it. A failure of decoding
/// is handed on; a payload that lacks a claim, or whose subject is no
/// identity, is malformed; claims that are complete are held against the
/// clock.
pub fn check_claims(decoded: Result<RawClaims, TokenError>, now: i64) -> (checked: Result<
    Claims,
    TokenError,
>)
    ensures
        checked == validation_outcome(
            match decoded {
                Ok(raw) => Ok(raw@),
                Err(reason) => Err(reason),
            },
            now,
        ),
{
    let raw = match decoded {
        Ok(raw) => raw,
        Err(reason) => {
            return Err(reason);
        },
    };
    match (raw.sub, raw.exp, raw.iat, raw.nbf) {
        (Some(subject), Some(exp), Some(iat), Some(nbf)) => match Identity::parse(
            subject.as_str(),
        ) {
            Some(sub) => check_window(Claims { sub, exp, iat, nbf }, now),
            None => Err(TokenError::Malformed),
        },
        _ => Err(TokenError::Malformed),
    }
}

/// Validates a token at the second `now`.
///
/// The signature is checked against the key first; only then are the claims
/// read and held against the clock: `nbf <= now <= exp`.
pub fn validate_token_at(token: &str, secret: &str, now: i64) -> (checked: Result<
    Claims,
    TokenError,
>)
    ensures
        checked == validation_outcome(jwt_decoded(token@, secret@), now),
{
    check_claims(jwt_decode(token, secret), now)
}

/// Validates a token at the present second. What comes back is what
/// [`validate_token_at`] gives for some reading of the clock.
pub fn validate_token(token: &str, secret: &str) -> (checked: Result<Claims, TokenError>)
    ensures
        exists|now: i64| checked == #[trigger] validation_outcome(
            jwt_decoded(token@, secret@),
            now,
        ),
{
    let now = current_time();
    validate_token_at(token, secret, now.secs)
}

/// A token that carries claims is accepted under the same key at every
/// second of their window, and validation returns those claims.
pub proof fn lemma_carried_claims_accepted(
    token: Seq<char>,
    secret: Seq<char>,
    claims: Claims,
    now: i64,
)
    requires
        carries(token, secret, claims),
        claims.nbf <= now <= claims.exp,
    ensures
        validation_outcome(jwt_decoded(token, secret), now) == Ok::<Claims, TokenError>(claims),
{
}

/// A token that carries claims is refused as expired at every second past
/// their last, and as not yet valid at every second before their first that
/// is not past their last.
pub proof fn lemma_carried_claims_refused(
    token: Seq<char>,
    secret: Seq<char>,
    claims: Claims,
    now: i64,
)
    requires
        carries(token, secret, claims),
    ensures
        now > claims.exp ==> validation_outcome(jwt_decoded(token, secret), now) == Err::<
            Claims,
            TokenError,
        >(TokenError::Expired),
        now < claims.nbf && now <= claims.exp ==> validation_outcome(
            jwt_decoded(token, secret),
            now,
        ) == Err::<Claims, TokenError>(TokenError::NotYetValid),
{
}

/// A token holds in the second in which it was issued, on a clock whose
/// nanoseconds stay below a second: validation under the same key returns
/// the claims that were signed, and their subject is the identity that the
/// token was issued for.
pub proof fn lemma_issued_token_holds_at_issue(
    token: Seq<char>,
    secret: Seq<char>,
    user_id: Identity,
    expires_in: Seq<char>,
    now: Timestamp,
)
    requires
        now.nanos < 1_000_000_000,
        token_issued_at(token, user_id, secret, expires_in, now),
    ensures
        validation_outcome(jwt_decoded(token, secret), now.secs) == Ok::<Claims, TokenError>(
            issued_claims(user_id, expires_in, now).unwrap(),
        ),
        issued_claims(user_id, expires_in, now).unwrap().sub == user_id,
{
}

/// A token that was issued holds at every second from its issue to the end
/// of its lifetime, and at no later one.
pub proof fn lemma_issued_token_holds_for_its_lifetime(
    token: Seq<char>,
    secret: Seq<char>,
    user_id: Identity,
    expires_in: Seq<char>,
    now: Timestamp,
    at: i64,
)
    requires
        now.nanos < 1_000_000_000,
        token_issued_at(token, user_id, secret, expires_in, now),
    ensures
        validation_outcome(jwt_decoded(token, secret), at) is Ok <==> now.secs <= at
            <= expiry_second(now, duration_parsed(expires_in).unwrap()),
{
}

/// A token whose signature does not match the key is refused for that
/// reason at every second, whatever its claims say.
pub proof fn lemma_signature_checked_first(token: Seq<char>, secret: Seq<char>, now: i64)
    requires
        jwt_decoded(token, secret) == Err::<RawClaimsView, TokenError>(
            TokenError::InvalidSignature,
        ),
    ensures
        validation_outcome(jwt_decoded(token, secret), now) == Err::<Claims, TokenError>(
            TokenError::InvalidSignature,
        ),
{
}

} // verus!
