use vstd::prelude::*;
use serde_json::Value;
use vstd::string::*;
use crate::config::JwtConfig;
use crate::error::{AppError, AppResult};
use crate::utils::ids::{lemma_uuid_text_round_trip, parse_uuid, spec_parse_uuid, uuid_hyphenated};

verus! {

/// What a token says: the user (`sub`, the user's UUID as a number), the user's
/// openid, and when the token expires and was issued, in seconds since the Unix epoch.
#[derive(Debug, Clone)]
pub struct Claims {
    pub sub: u128,
    pub openid: String,
    pub exp: i64,
    pub iat: i64,
}

/// Issues and judges tokens.
pub struct JwtService;

/// The HS256 token that `jsonwebtoken::encode` makes, with the default header, of
/// the claims `{"sub", "openid", "exp", "iat"}` (in that order, `sub` as the
/// hyphenated UUID) signed with the bytes of `secret`.
pub uninterp spec fn hs256_token(sub: u128, openid: Seq<char>, exp: i64, iat: i64, secret: Seq<char>) -> Seq<char>;

/// Signs the claims with `jsonwebtoken::encode` under the default header (HS256)
/// and an HMAC key made from the bytes of `secret`.
///
/// Trusted: calls `jsonwebtoken::encode`. The contract claims that it succeeds,
/// which its source shows for an HMAC key under the HS256 header and claims that
/// serialise without error, and that the token is a function of the claims and
/// the secret alone.
#[verifier::external_body]
fn encode_hs256(sub: u128, openid: &str, exp: i64, iat: i64, secret: &str) -> (r: Result<String, String>)
    ensures
        r is Ok,
        r->Ok_0@ == hs256_token(sub, openid@, exp, iat, secret@),
{
    let mut claims = serde_json::Map::new();
    claims.insert("sub".to_string(), serde_json::Value::String(uuid::Uuid::from_u128(sub).to_string()));
    claims.insert("openid".to_string(), serde_json::Value::String(openid.to_string()));
    claims.insert("exp".to_string(), serde_json::Value::from(exp));
    claims.insert("iat".to_string(), serde_json::Value::from(iat));
    let key = jsonwebtoken::EncodingKey::from_secret(secret.as_bytes());
    jsonwebtoken::encode(&jsonwebtoken::Header::default(), &serde_json::Value::Object(claims), &key)
        .map_err(|e| e.to_string())
}

/// The latest instant that `chrono::DateTime<Utc>` can hold (`DateTime::MAX_UTC`),
/// in whole microseconds since the Unix epoch.
pub const LATEST_CLOCK_MICROS: i64 = 8_210_266_876_799_999_999;

/// The current time, in microseconds since the Unix epoch; `None` where the system
/// clock reads before the epoch.
///
/// Trusted: reads `std::time::SystemTime::now` against the Unix epoch and turns it
/// into `chrono::DateTime<Utc>` with `DateTime::from_timestamp`, as `chrono::Utc::now`
/// does but without its panic on a clock before the epoch. The contract claims only
/// that a reading lies between the epoch and the latest instant a `DateTime<Utc>` can
/// hold; which instant it is depends on the clock.
#[verifier::external_body]
pub(crate) fn now_micros() -> (r: Option<i64>)
    ensures
        r matches Some(t) ==> 0 <= t <= LATEST_CLOCK_MICROS,
{
    std::time::SystemTime::now()
        .duration_since(std::time::UNIX_EPOCH)
        .ok()
        .and_then(|d| chrono::DateTime::from_timestamp(d.as_secs() as i64, d.subsec_nanos()))
        .map(|t| t.timestamp_micros())
}

/// Whole seconds since the Unix epoch of a time given in microseconds, rounded down.
pub open spec fn spec_seconds(micros: i64) -> int {
    micros as int / 1_000_000
}

/// The largest token lifetime, in seconds, that the clock arithmetic accepts.
pub const MAX_EXPIRES_IN: i64 = 9_223_372_036_854_775;

/// The claims of a token issued at `now_micros` to `user_id` and `openid`.
pub open spec fn spec_claims_at(user_id: u128, openid: Seq<char>, now_micros: i64, expires_in: i64) -> (u128, Seq<char>, int, int) {
    (user_id, openid, spec_seconds(now_micros) + expires_in, spec_seconds(now_micros))
}

/// The token that `jwt` gives `user_id` and `openid` at the clock reading `now_micros`.
pub open spec fn spec_token_at(jwt: JwtConfig, user_id: u128, openid: Seq<char>, now_micros: i64) -> Seq<char> {
    hs256_token(
        user_id,
        openid,
        (spec_seconds(now_micros) + jwt.expires_in) as i64,
        spec_seconds(now_micros) as i64,
        jwt.secret@,
    )
}

/// The message of the internal error that an unreadable clock gives.
pub const CLOCK_BEFORE_EPOCH: &'static str = "system time before Unix epoch";

/// How many seconds past its `exp` a token is still accepted.
pub const TOKEN_LEEWAY_SECS: i64 = 60;

/// The claims of a decoded token as the decoder found them: each is `None` where
/// it is missing or not of its type (`sub` and `openid` text, `exp` and `iat`
/// integers).
#[derive(Debug, Clone)]
pub struct DecodedClaims {
    pub sub: Option<String>,
    pub openid: Option<String>,
    pub exp: Option<i64>,
    pub iat: Option<i64>,
}

/// Decoded claims as plain values.
pub type DecodedView = (Option<Seq<char>>, Option<Seq<char>>, Option<i64>, Option<i64>);

pub open spec fn opt_text(o: Option<String>) -> Option<Seq<char>> {
    match o {
        Some(s) => Some(s@),
        None => None,
    }
}

impl View for DecodedClaims {
    type V = DecodedView;

    open spec fn view(&self) -> DecodedView {
        (opt_text(self.sub), opt_text(self.openid), self.exp, self.iat)
    }
}

/// A decoding outcome as plain values: `None` for a token that failed decoding.
pub open spec fn opt_decoded(o: Option<DecodedClaims>) -> Option<DecodedView> {
    match o {
        Some(d) => Some(d@),
        None => None,
    }
}

/// What `jsonwebtoken::decode` reads from `token` with an HMAC key of the bytes of
/// `secret`, under the default validation without the expiry check: `None` where
/// it refuses the token, and otherwise the claims `sub`, `openid`, `exp` and `iat`
/// as text, text, integer and integer (each `None` where missing or of another type).
pub uninterp spec fn hs256_decoded(token: Seq<char>, secret: Seq<char>) -> Option<DecodedView>;

/// The decoded claims of a token made from `sub`, `openid`, `exp` and `iat`.
pub open spec fn spec_encoded_claims(sub: u128, openid: Seq<char>, exp: i64, iat: i64) -> DecodedView {
    (Some(uuid_hyphenated(sub)), Some(openid), Some(exp), Some(iat))
}

/// The claims that decoded claims make: all present, with `sub` a UUID.
pub open spec fn spec_claims_of(d: DecodedView) -> Option<(u128, Seq<char>, i64, i64)> {
    match d {
        (Some(s), Some(o), Some(e), Some(i)) => match spec_parse_uuid(s) {
            Some(u) => Some((u, o, e, i)),
            None => None,
        },
        _ => None,
    }
}

/// Whether a token expiring at `exp` has expired at the clock reading `now_micros`:
/// its expiry lies more than the leeway before now.
pub open spec fn spec_expired(exp: i64, now_micros: i64) -> bool {
    exp < spec_seconds(now_micros) - TOKEN_LEEWAY_SECS
}

/// What a token with the claims `(sub, openid, exp, iat)` answers at the clock
/// reading `now`.
pub open spec fn spec_claims_outcome(sub: u128, openid: Seq<char>, exp: i64, iat: i64, now: Option<i64>, r: AppResult<Claims>) -> bool {
    match now {
        None => r matches Err(AppError::Internal(msg)) && msg@ == CLOCK_BEFORE_EPOCH@,
        Some(t) => if spec_expired(exp, t) {
            r matches Err(AppError::TokenExpired)
        } else {
            r matches Ok(c) && c.sub == sub && c.openid@ == openid && c.exp == exp && c.iat == iat
        },
    }
}

/// What judging a decoding outcome `decoded` at the clock reading `now` answers: a
/// refused token, or claims that are missing, of the wrong type or with a `sub` that
/// is no UUID, are invalid; otherwise the claims decide with the clock.
pub open spec fn spec_checked(decoded: Option<DecodedView>, now: Option<i64>, r: AppResult<Claims>) -> bool {
    match decoded {
        None => r matches Err(AppError::InvalidToken),
        Some(d) => match spec_claims_of(d) {
            None => r matches Err(AppError::InvalidToken),
            Some((sub, openid, exp, iat)) => spec_claims_outcome(sub, openid, exp, iat, now, r),
        },
    }
}

/// Checks the HS256 signature of `token` against the bytes of `secret` with
/// `jsonwebtoken::decode`, under its default validation but for the expiry (a
/// present `exp` that reads as an unsigned number is still required), and reads
/// the claims `sub`, `openid`, `exp` and `iat` through a `serde_json::Map` (where a
/// key occurs twice, the last occurrence is read).
///
/// Trusted: calls `jsonwebtoken::decode`, which reads no clock with the expiry check
/// off. The contract names the outcome, a function of the token and the secret, and
/// claims what the source shows of a token that `encode_hs256` made with the same
/// secret and an `exp` of at least 0: it passes, and the claims read back are those
/// it was made from (`sub` as the hyphenated UUID).
#[verifier::external_body]
fn decode_hs256(token: &str, secret: &str) -> (r: Option<DecodedClaims>)
    ensures
        opt_decoded(r) == hs256_decoded(token@, secret@),
        forall|sub: u128, openid: Seq<char>, exp: i64, iat: i64|
            #[trigger] hs256_token(sub, openid, exp, iat, secret@) == token@ && exp >= 0
                ==> opt_decoded(r) == Some(spec_encoded_claims(sub, openid, exp, iat)),
{
    let mut validation = jsonwebtoken::Validation::default();
    validation.validate_exp = false;
    let key = jsonwebtoken::DecodingKey::from_secret(secret.as_bytes());
    jsonwebtoken::decode::<serde_json::Map<String, Value>>(token, &key, &validation)
        .map(|data| DecodedClaims {
            sub: data.claims.get("sub").and_then(Value::as_str).map(String::from),
            openid: data.claims.get("openid").and_then(Value::as_str).map(String::from),
            exp: data.claims.get("exp").and_then(Value::as_i64),
            iat: data.claims.get("iat").and_then(Value::as_i64),
        })
        .ok()
}

pub fn seconds_of(micros: i64) -> (r: i64)
    ensures
        r == spec_seconds(micros),
{
    let q = micros / 1_000_000;
    let m = micros % 1_000_000;
    if m < 0 {
        q - 1
    } else {
        q
    }
}

impl JwtService {
    /// The claims of a token issued at `now_micros`: issued at that second, and
    /// expiring `expires_in` seconds later.
    pub fn claims_at(user_id: u128, openid: &str, now_micros: i64, expires_in: i64) -> (r: Claims)
        requires
            -MAX_EXPIRES_IN <= expires_in <= MAX_EXPIRES_IN,
        ensures
            (r.sub, r.openid@, r.exp as int, r.iat as int) == spec_claims_at(user_id, openid@, now_micros, expires_in),
    {
        let iat = seconds_of(now_micros);
        Claims { sub: user_id, openid: String::from_str(openid), exp: iat + expires_in, iat }
    }

    /// The token for `user_id` and `openid` issued at `now_micros`.
    pub fn generate_token_at(jwt: &JwtConfig, user_id: u128, openid: &str, now_micros: i64) -> (r: AppResult<String>)
        requires
            -MAX_EXPIRES_IN <= jwt.expires_in <= MAX_EXPIRES_IN,
        ensures
            r matches Ok(t) && t@ == spec_token_at(*jwt, user_id, openid@, now_micros),
    {
        let claims = Self::claims_at(user_id, openid, now_micros, jwt.expires_in);
        Self::token_outcome(encode_hs256(claims.sub, claims.openid.as_str(), claims.exp, claims.iat, jwt.secret.as_str()))
    }

    /// What signing gave, as the answer of token generation: the token, or an
    /// internal error that carries the signer's message.
    pub fn token_outcome(signed: Result<String, String>) -> (r: AppResult<String>)
        ensures
            signed matches Ok(t) ==> r == Ok::<String, AppError>(t),
            signed matches Err(m) ==> (r matches Err(AppError::Internal(msg)) && msg@ == "Token生成失败: "@ + m@),
    {
        match signed {
            Ok(t) => Ok(t),
            Err(e) => Err(AppError::Internal(String::from_str("Token生成失败: ").concat(e.as_str()))),
        }
    }

    /// The token for `user_id` and `openid`, issued now, expiring after the
    /// configured lifetime; an internal error where the system clock reads before
    /// the Unix epoch.
    pub fn generate_token(jwt: &JwtConfig, user_id: u128, openid: &str) -> (r: AppResult<String>)
        requires
            -MAX_EXPIRES_IN <= jwt.expires_in <= MAX_EXPIRES_IN,
        ensures
            r matches Ok(t) ==> exists|now: i64| 0 <= now <= LATEST_CLOCK_MICROS && t@ == #[trigger] spec_token_at(
                *jwt,
                user_id,
                openid@,
                now,
            ),
            r matches Err(e) ==> (e matches AppError::Internal(m) && m@ == CLOCK_BEFORE_EPOCH@),
    {
        match now_micros() {
            Some(now) => Self::generate_token_at(jwt, user_id, openid, now),
            None => Err(AppError::Internal(String::from_str(CLOCK_BEFORE_EPOCH))),
        }
    }

    /// Judges what decoding a token gave, read at the clock reading `now_micros`:
    /// a refused token, or claims that are missing, of the wrong type, or whose `sub`
    /// is no UUID, make the token invalid; an unreadable clock is an internal error;
    /// a token whose `exp` lies more than the leeway before now has expired; and
    /// otherwise the claims are the answer.
    pub fn check_decoded(decoded: Option<DecodedClaims>, now_micros: Option<i64>) -> (r: AppResult<Claims>)
        ensures
            spec_checked(opt_decoded(decoded), now_micros, r),
    {
        let d = match decoded {
            Some(d) => d,
            None => return Err(AppError::InvalidToken),
        };
        let sub_text = match d.sub {
            Some(s) => s,
            None => return Err(AppError::InvalidToken),
        };
        let sub = match parse_uuid(sub_text.as_str()) {
            Some(u) => u,
            None => return Err(AppError::InvalidToken),
        };
        let (openid, exp, iat) = match (d.openid, d.exp, d.iat) {
            (Some(o), Some(e), Some(i)) => (o, e, i),
            _ => return Err(AppError::InvalidToken),
        };
        let now = match now_micros {
            Some(t) => t,
            None => return Err(AppError::Internal(String::from_str(CLOCK_BEFORE_EPOCH))),
        };
        if (exp as i128) < (seconds_of(now) as i128) - (TOKEN_LEEWAY_SECS as i128) {
            Err(AppError::TokenExpired)
        } else {
            Ok(Claims { sub, openid, exp, iat })
        }
    }

    /// Checks a token signed with the configured secret and reads its claims, at the
    /// current time.
    ///
    /// The token goes to the decoder with the secret, and the decoder's outcome to
    /// `check_decoded` with a clock reading: a token that the decoder refuses, or
    /// whose claims are incomplete, is invalid whatever the clock. A token that this
    /// service issued with the same secret and an `exp` of at least 0 is never
    /// invalid: it answers its own claims until it has expired at the reading.
    pub fn verify_token(jwt: &JwtConfig, token: &str) -> (r: AppResult<Claims>)
        ensures
            exists|now: Option<i64>| (now matches Some(t) ==> 0 <= t <= LATEST_CLOCK_MICROS)
                && #[trigger] spec_checked(hs256_decoded(token@, jwt.secret@), now, r),
            forall|sub: u128, openid: Seq<char>, exp: i64, iat: i64|
                #[trigger] hs256_token(sub, openid, exp, iat, jwt.secret@) == token@ && exp >= 0 ==> exists|now: Option<i64>|
                    (now matches Some(t) ==> 0 <= t <= LATEST_CLOCK_MICROS)
                        && #[trigger] spec_claims_outcome(sub, openid, exp, iat, now, r),
    {
        let decoded = decode_hs256(token, jwt.secret.as_str());
        let now = now_micros();
        let r = Self::check_decoded(decoded, now);
        proof {
            assert(spec_checked(hs256_decoded(token@, jwt.secret@), now, r));
            assert forall|sub: u128, openid: Seq<char>, exp: i64, iat: i64|
                #[trigger] hs256_token(sub, openid, exp, iat, jwt.secret@) == token@ && exp >= 0 implies exists|now: Option<i64>|
                    (now matches Some(t) ==> 0 <= t <= LATEST_CLOCK_MICROS)
                        && #[trigger] spec_claims_outcome(sub, openid, exp, iat, now, r) by {
                lemma_uuid_text_round_trip(sub);
                assert(spec_claims_of(spec_encoded_claims(sub, openid, exp, iat)) == Some((sub, openid, exp, iat)));
                assert(spec_claims_outcome(sub, openid, exp, iat, now, r));
            }
        }
        r
    }
}


/// Tokens issued to one user under one configuration within the same second are
/// the same token.
pub proof fn lemma_same_second_same_token(jwt: JwtConfig, user_id: u128, openid: Seq<char>, now1: i64, now2: i64)
    requires
        spec_seconds(now1) == spec_seconds(now2),
    ensures
        spec_token_at(jwt, user_id, openid, now1) == spec_token_at(jwt, user_id, openid, now2),
{
}

/// A token issued at `issued_at` (with an expiry that is not before the epoch) is
/// accepted with its own claims at every clock reading `now` up to its expiry plus
/// the leeway, and refused as expired after that.
pub proof fn lemma_fresh_token_accepted(
    jwt: JwtConfig,
    user_id: u128,
    openid: Seq<char>,
    issued_at: i64,
    now: i64,
    r: AppResult<Claims>,
)
    requires
        -MAX_EXPIRES_IN <= jwt.expires_in <= MAX_EXPIRES_IN,
        spec_seconds(issued_at) + jwt.expires_in >= 0,
        spec_claims_outcome(
            user_id,
            openid,
            (spec_seconds(issued_at) + jwt.expires_in) as i64,
            spec_seconds(issued_at) as i64,
            Some(now),
            r,
        ),
    ensures
        spec_seconds(now) <= spec_seconds(issued_at) + jwt.expires_in + TOKEN_LEEWAY_SECS ==> (r matches Ok(c)
            && c.sub == user_id && c.openid@ == openid && c.iat == spec_seconds(issued_at)
            && c.exp == spec_seconds(issued_at) + jwt.expires_in),
        spec_seconds(now) > spec_seconds(issued_at) + jwt.expires_in + TOKEN_LEEWAY_SECS ==> r matches Err(AppError::TokenExpired),
{
    assert(i64::MIN / 1_000_000 <= spec_seconds(issued_at) <= i64::MAX / 1_000_000);
}

} // verus!
