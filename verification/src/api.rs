//! The public HTTP API: its error contract, its request types, and the
//! decisions of its handlers (community reports, rate limiting, accounts).
use vstd::prelude::*;
use vstd::string::StringSliceAdditionalSpecFns;
use crate::digest::{hex_lower, sha256_hex, sha256_of};
use crate::indicator::{IndicatorType, Ioc, IocStatus, Source, normalize_ioc_value, normalized};
use crate::text::{concat, replace_all, replaced, string_from_chars, to_chars};

verus! {

// ---------------------------------------------------------------------
// Errors
// ---------------------------------------------------------------------

/// Every way an API request fails. The message of a bad request or of an
/// unauthorized one reaches the client; internal failures only say that they
/// happened.
#[derive(Debug)]
pub enum ApiError {
    /// The request is malformed (missing parameter, invalid value, ...).
    BadRequest(String),
    /// The API key is invalid or inactive.
    Unauthorized(String),
    /// The rate limit is exceeded.
    TooManyRequests,
    /// An infrastructure failure (database down, pool timeout, ...).
    Internal,
}

/// The JSON body shared by every error: a single `error` field.
#[derive(Debug)]
pub struct ErrorBody {
    pub error: String,
}

/// The HTTP status and message of an error.
pub open spec fn error_response(e: ApiError) -> (u16, Seq<char>) {
    match e {
        ApiError::BadRequest(msg) => (400, msg@),
        ApiError::Unauthorized(msg) => (401, msg@),
        ApiError::TooManyRequests => (429, "demasiadas peticiones"@),
        ApiError::Internal => (500, "error interno, inténtalo de nuevo"@),
    }
}

impl ApiError {
    /// The HTTP status and the body of the response for this error.
    pub fn into_parts(self) -> (res: (u16, ErrorBody))
        ensures
            (res.0, res.1.error@) == error_response(self),
    {
        match self {
            ApiError::BadRequest(msg) => (400, ErrorBody { error: msg }),
            ApiError::Unauthorized(msg) => (401, ErrorBody { error: msg }),
            ApiError::TooManyRequests => (
                429,
                ErrorBody { error: "demasiadas peticiones".to_owned() },
            ),
            ApiError::Internal => (
                500,
                ErrorBody { error: "error interno, inténtalo de nuevo".to_owned() },
            ),
        }
    }

    /// The error for a query string that cannot be read: a fixed message, so
    /// that the internals of the rejection are not exposed.
    pub fn unreadable_query() -> (res: ApiError)
        ensures
            res matches ApiError::BadRequest(m) && m@ == "falta el parámetro obligatorio 'value'"@,
    {
        ApiError::BadRequest("falta el parámetro obligatorio 'value'".to_owned())
    }
}

// ---------------------------------------------------------------------
// Request types
// ---------------------------------------------------------------------

/// The indicator type as the public API receives it, a plain string.
#[derive(Debug, Clone, Copy, PartialEq, Eq, Structural)]
pub enum IndicatorTypeInput {
    Domain,
    Url,
    IpAddress,
    PhoneNumber,
    FileHash,
}

pub open spec fn input_type(v: IndicatorTypeInput) -> IndicatorType {
    match v {
        IndicatorTypeInput::Domain => IndicatorType::Domain,
        IndicatorTypeInput::Url => IndicatorType::Url,
        IndicatorTypeInput::IpAddress => IndicatorType::IpAddress,
        IndicatorTypeInput::PhoneNumber => IndicatorType::PhoneNumber,
        IndicatorTypeInput::FileHash => IndicatorType::FileHash,
    }
}

impl From<IndicatorTypeInput> for IndicatorType {
    fn from(v: IndicatorTypeInput) -> (res: IndicatorType) {
        match v {
            IndicatorTypeInput::Domain => IndicatorType::Domain,
            IndicatorTypeInput::Url => IndicatorType::Url,
            IndicatorTypeInput::IpAddress => IndicatorType::IpAddress,
            IndicatorTypeInput::PhoneNumber => IndicatorType::PhoneNumber,
            IndicatorTypeInput::FileHash => IndicatorType::FileHash,
        }
    }
}

impl vstd::std_specs::convert::FromSpecImpl<IndicatorTypeInput> for IndicatorType {
    open spec fn obeys_from_spec() -> bool {
        true
    }

    open spec fn from_spec(v: IndicatorTypeInput) -> IndicatorType {
        input_type(v)
    }
}

/// A community report of an indicator.
#[derive(Debug)]
pub struct ReportParams {
    pub indicator_type: IndicatorTypeInput,
    pub value: String,
    pub impersonates: Option<String>,
}

/// The window of the statistics, in days.
#[derive(Debug)]
pub struct StatsParams {
    pub days: Option<u32>,
}

/// The plan of a new API key (e.g. "free", "premium").
#[derive(Debug)]
pub struct CreateApiKeyRequest {
    pub plan: String,
}

#[derive(Debug)]
pub struct RegisterRequest {
    pub email: String,
    pub password: String,
}

#[derive(Debug)]
pub struct LoginRequest {
    pub email: String,
    pub password: String,
}

// ---------------------------------------------------------------------
// Verification queries
// ---------------------------------------------------------------------

/// What the store holds of a looked-up indicator: its score (of any numeric
/// type), whether that score is actionable, and the impersonated entity.
#[derive(Debug)]
pub struct FoundIndicator<S> {
    pub trust_value: S,
    pub actionable: bool,
    pub impersonates: Option<String>,
}

/// The answer to "is this a known threat?".
#[derive(Debug)]
pub struct CheckResponse<S> {
    pub value: String,
    pub is_known_threat: bool,
    pub trust_value: Option<S>,
    pub impersonates: Option<String>,
}

/// Answers a lookup of the normalized `value`: a known threat only when the
/// indicator is stored with an actionable score, and only then is the
/// impersonated entity disclosed; otherwise the score, if any, is reported.
pub fn check_response<S>(value: String, found: Option<FoundIndicator<S>>) -> (res: CheckResponse<S>)
    ensures
        res.value == value,
        match found {
            Some(f) => if f.actionable {
                res.is_known_threat && res.trust_value == Some(f.trust_value) && res.impersonates
                    == f.impersonates
            } else {
                !res.is_known_threat && res.trust_value == Some(f.trust_value)
                    && res.impersonates is None
            },
            None => !res.is_known_threat && res.trust_value is None && res.impersonates is None,
        },
{
    match found {
        Some(f) => {
            if f.actionable {
                CheckResponse {
                    value,
                    is_known_threat: true,
                    trust_value: Some(f.trust_value),
                    impersonates: f.impersonates,
                }
            } else {
                CheckResponse {
                    value,
                    is_known_threat: false,
                    trust_value: Some(f.trust_value),
                    impersonates: None,
                }
            }
        },
        None => CheckResponse { value, is_known_threat: false, trust_value: None, impersonates: None },
    }
}

// ---------------------------------------------------------------------
// Community reports
// ---------------------------------------------------------------------

/// The indicator that a community report brings: the value normalized, one
/// corroboration, active.
pub fn community_report(params: ReportParams, first_seen: i128, last_seen: i128) -> (res: Ioc)
    ensures
        res.indicator_type == input_type(params.indicator_type),
        res.value@ == normalized(params.value@),
        res.source == (Source::Community { corroborations: 1 }),
        res.status == IocStatus::Active,
        res.impersonates == params.impersonates,
        res.first_seen == first_seen,
        res.last_seen == last_seen,
{
    Ioc {
        indicator_type: IndicatorType::from(params.indicator_type),
        value: normalize_ioc_value(params.value.as_str()),
        source: Source::Community { corroborations: 1 },
        status: IocStatus::Active,
        impersonates: params.impersonates,
        first_seen,
        last_seen,
    }
}

/// The reporter fingerprint that deduplicates community reports: the SHA-256
/// of the reporter's address text, in lower-case hexadecimal. The address
/// itself is never stored.
pub fn reporter_hash(ip_text: &str) -> (res: String)
    ensures
        res@ == hex_lower(sha256_of(ip_text.spec_bytes())),
{
    sha256_hex(ip_text)
}

// ---------------------------------------------------------------------
// Statistics
// ---------------------------------------------------------------------

/// The statistics window: seven days by default, kept between 1 and 90 so that
/// a query is neither empty nor too heavy.
pub fn stats_window_days(params: &StatsParams) -> (res: u32)
    ensures
        res == match params.days {
            None => 7,
            Some(d) => if d < 1 {
                1
            } else if d > 90 {
                90
            } else {
                d
            },
        },
        1 <= res <= 90,
{
    let d = match params.days {
        Some(d) => d,
        None => 7,
    };
    if d < 1 {
        1
    } else if d > 90 {
        90
    } else {
        d
    }
}

// ---------------------------------------------------------------------
// Accounts
// ---------------------------------------------------------------------

/// The length of a text in UTF-8 bytes (what `str::len` counts).
pub open spec fn utf8_len(s: Seq<char>) -> nat {
    vstd::utf8::encode_utf8(s).len()
}

/// Checks a registration: the password needs at least 8 bytes, and the email
/// must not be registered yet.
pub fn check_registration(password: &str, email_taken: bool) -> (res: Result<(), ApiError>)
    ensures
        utf8_len(password@) < 8 ==> (res matches Err(ApiError::BadRequest(m)) && m@
            == "Password must be at least 8 characters"@),
        utf8_len(password@) >= 8 && email_taken ==> (res matches Err(
            ApiError::BadRequest(m),
        ) && m@ == "User with this email already exists"@),
        utf8_len(password@) >= 8 && !email_taken ==> res is Ok,
{
    if password.as_bytes().len() < 8 {
        return Err(ApiError::BadRequest("Password must be at least 8 characters".to_owned()));
    }
    if email_taken {
        return Err(ApiError::BadRequest("User with this email already exists".to_owned()));
    }
    Ok(())
}

/// Whether a bcrypt hash accepts a password, as `bcrypt::verify` decides it
/// (none when the hash cannot be read).
pub uninterp spec fn bcrypt_verifies(password: Seq<char>, hash: Seq<char>) -> Option<bool>;

/// Calls `bcrypt::verify`; the result is named `bcrypt_verifies`, with an error
/// of the crate read as none.
#[verifier::external_body]
fn bcrypt_verify(password: &str, hash: &str) -> (res: Option<bool>)
    ensures
        res == bcrypt_verifies(password@, hash@),
{
    bcrypt::verify(password, hash).ok()
}

/// Calls `bcrypt::hash` with the crate's default cost; an error of the crate is
/// read as none. The salt is random, so the hash itself is not stated; what
/// holds of every outcome is that `bcrypt::verify` accepts the password against
/// it (the crate's `verify` re-hashes with the cost and salt that the hash
/// carries).
#[verifier::external_body]
fn bcrypt_hash(password: &str) -> (res: Option<String>)
    ensures
        res matches Some(h) ==> bcrypt_verifies(password@, h@) == Some(true),
{
    bcrypt::hash(password, bcrypt::DEFAULT_COST).ok()
}

/// Checks a registration and hashes its password. A hashing failure is an
/// internal error.
pub fn prepare_registration(req: &RegisterRequest, email_taken: bool) -> (res: Result<
    String,
    ApiError,
>)
    ensures
        utf8_len(req.password@) < 8 ==> (res matches Err(ApiError::BadRequest(m)) && m@
            == "Password must be at least 8 characters"@),
        utf8_len(req.password@) >= 8 && email_taken ==> (res matches Err(ApiError::BadRequest(m)) && m@
            == "User with this email already exists"@),
        utf8_len(req.password@) >= 8 && !email_taken ==> (res is Ok || res matches Err(
            ApiError::Internal,
        )),
        res matches Ok(h) ==> bcrypt_verifies(req.password@, h@) == Some(true),
{
    match check_registration(req.password.as_str(), email_taken) {
        Err(e) => Err(e),
        Ok(()) => match bcrypt_hash(req.password.as_str()) {
            Some(h) => Ok(h),
            None => Err(ApiError::Internal),
        },
    }
}

/// Authenticates a login against the stored hash of the user, if the user
/// exists. Every failure gives the same answer, so that registered emails are
/// not revealed.
pub fn authenticate(req: &LoginRequest, stored_hash: Option<&str>) -> (res: Result<(), ApiError>)
    ensures
        res is Ok <==> (stored_hash matches Some(h) && bcrypt_verifies(req.password@, h@) == Some(
            true,
        )),
        res is Err ==> (res matches Err(ApiError::Unauthorized(m)) && m@
            == "Invalid email or password"@),
{
    let accepted = match stored_hash {
        Some(h) => match bcrypt_verify(req.password.as_str(), h) {
            Some(ok) => ok,
            None => false,
        },
        None => false,
    };
    if !accepted {
        return Err(ApiError::Unauthorized("Invalid email or password".to_owned()));
    }
    Ok(())
}

/// The claims of a session token.
#[derive(Debug)]
pub struct Claims {
    pub sub: String,
    pub exp: usize,
    pub org_id: String,
    pub role: String,
}

/// Seconds a session token lives.
pub const TOKEN_LIFETIME_SECS: usize = 86400;

impl Claims {
    /// The claims of a token issued at `now_secs` for a user: it expires 24 hours later.
    pub fn issue(email: &str, org_id: String, role: &str, now_secs: u64) -> (res: Claims)
        requires
            now_secs + 86400 <= usize::MAX,
        ensures
            res.sub@ == email@,
            res.exp == now_secs + 86400,
            res.org_id == org_id,
            res.role@ == role@,
    {
        Claims {
            sub: email.to_owned(),
            exp: now_secs as usize + TOKEN_LIFETIME_SECS,
            org_id,
            role: role.to_owned(),
        }
    }
}

/// A new API key from the text of a random UUID: its dashes removed, then
/// prefixed with `tr_` so that keys are recognizable.
pub fn prefixed_api_key(uuid_text: &str) -> (res: String)
    ensures
        res@ == "tr_"@ + replaced(uuid_text@, "-"@, ""@),
{
    proof {
        reveal_strlit("-");
    }
    let c = to_chars(uuid_text);
    let dash = to_chars("-");
    let none = to_chars("");
    let raw = string_from_chars(replace_all(c.as_slice(), dash.as_slice(), none.as_slice()));
    concat("tr_", raw.as_str())
}

// ---------------------------------------------------------------------
// Rate limiting
// ---------------------------------------------------------------------

/// What the lookup of the presented API key found.
#[derive(Debug)]
pub enum KeyLookup {
    /// No key was presented.
    NoKey,
    /// An active key, with the hash that identifies it and the limits of its plan.
    Active { key_hash: String, capacity: u32, refill_rate: u32 },
    /// A key was presented but is unknown or inactive.
    Rejected,
    /// The lookup itself failed.
    Failed,
}

/// Whom a request is rate limited as: its bucket identifier and the limits.
#[derive(Debug)]
pub struct RateLimitSubject {
    pub identifier: String,
    pub capacity: u32,
    pub refill_rate: u32,
}

/// Decides whom a request is rate limited as. A presented key that is not
/// active is rejected outright rather than treated as anonymous; without a key,
/// the request is limited by address with the anonymous limits.
pub fn rate_limit_subject(
    lookup: KeyLookup,
    client_ip_text: &str,
    anonymous_capacity: u32,
    anonymous_refill_rate: u32,
) -> (res: Result<RateLimitSubject, ApiError>)
    ensures
        match lookup {
            KeyLookup::NoKey => res matches Ok(s) && s.identifier@ == "ip:"@ + client_ip_text@
                && s.capacity == anonymous_capacity && s.refill_rate == anonymous_refill_rate,
            KeyLookup::Active { key_hash, capacity, refill_rate } => res matches Ok(s)
                && s.identifier@ == "api_key:"@ + key_hash@ && s.capacity == capacity
                && s.refill_rate == refill_rate,
            KeyLookup::Rejected => res matches Err(ApiError::Unauthorized(m)) && m@
                == "API Key inválida o inactiva"@,
            KeyLookup::Failed => res matches Err(ApiError::Internal),
        },
{
    match lookup {
        KeyLookup::NoKey => Ok(
            RateLimitSubject {
                identifier: concat("ip:", client_ip_text),
                capacity: anonymous_capacity,
                refill_rate: anonymous_refill_rate,
            },
        ),
        KeyLookup::Active { key_hash, capacity, refill_rate } => Ok(
            RateLimitSubject {
                identifier: concat("api_key:", key_hash.as_str()),
                capacity,
                refill_rate,
            },
        ),
        KeyLookup::Rejected => Err(ApiError::Unauthorized("API Key inválida o inactiva".to_owned())),
        KeyLookup::Failed => Err(ApiError::Internal),
    }
}

/// The answer once the limiter replied: go on when allowed, too many requests
/// when not, and an internal error when the limiter failed (fail-closed, so
/// that the database never absorbs unlimited traffic).
pub fn rate_limit_verdict(limiter: Option<bool>) -> (res: Result<(), ApiError>)
    ensures
        limiter == Some(true) <==> res is Ok,
        limiter == Some(false) ==> res matches Err(ApiError::TooManyRequests),
        limiter is None ==> res matches Err(ApiError::Internal),
{
    match limiter {
        Some(true) => Ok(()),
        Some(false) => Err(ApiError::TooManyRequests),
        None => Err(ApiError::Internal),
    }
}

} // verus!
