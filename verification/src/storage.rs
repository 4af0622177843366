//! Storage rules: how indicators map to database rows and back, how a
//! deduplicated upsert resolves, and how cache and rate-limit keys are built.
use vstd::prelude::*;
use crate::indicator::{IndicatorType, Ioc, IocStatus, MergeAction, Source, merge_fits, merge_spec};
use crate::text::{concat, equals_literal, opt_view, to_chars};

verus! {

// ---------------------------------------------------------------------
// Database names of the enumerations
// ---------------------------------------------------------------------

/// The literal that stores an indicator type (`domain`, `url`, `ip_address`,
/// `phone_number`, `file_hash`).
pub open spec fn indicator_type_name(t: IndicatorType) -> Seq<char> {
    match t {
        IndicatorType::Domain => "domain"@,
        IndicatorType::Url => "url"@,
        IndicatorType::IpAddress => "ip_address"@,
        IndicatorType::PhoneNumber => "phone_number"@,
        IndicatorType::FileHash => "file_hash"@,
    }
}

/// The literal that stores a status.
pub open spec fn status_name(s: IocStatus) -> Seq<char> {
    match s {
        IocStatus::Active => "active"@,
        IocStatus::Expired => "expired"@,
        IocStatus::Disputed => "disputed"@,
    }
}

/// The literal that stores a source kind.
pub open spec fn source_kind_name(s: Source) -> Seq<char> {
    match s {
        Source::Official { .. } => "official"@,
        Source::Community { .. } => "community"@,
    }
}

/// The indicator type that a stored literal names, if any.
pub open spec fn indicator_type_named(s: Seq<char>) -> Option<IndicatorType> {
    if s == "domain"@ {
        Some(IndicatorType::Domain)
    } else if s == "url"@ {
        Some(IndicatorType::Url)
    } else if s == "ip_address"@ {
        Some(IndicatorType::IpAddress)
    } else if s == "phone_number"@ {
        Some(IndicatorType::PhoneNumber)
    } else if s == "file_hash"@ {
        Some(IndicatorType::FileHash)
    } else {
        None
    }
}

/// The status that a stored literal names, if any.
pub open spec fn status_named(s: Seq<char>) -> Option<IocStatus> {
    if s == "active"@ {
        Some(IocStatus::Active)
    } else if s == "expired"@ {
        Some(IocStatus::Expired)
    } else if s == "disputed"@ {
        Some(IocStatus::Disputed)
    } else {
        None
    }
}

/// Converts an indicator type to the exact literal of the database enum
/// (`IpAddress` is `ip_address`, not a derived spelling).
pub fn indicator_type_to_db(t: IndicatorType) -> (res: &'static str)
    ensures
        res@ == indicator_type_name(t),
{
    match t {
        IndicatorType::Domain => "domain",
        IndicatorType::Url => "url",
        IndicatorType::IpAddress => "ip_address",
        IndicatorType::PhoneNumber => "phone_number",
        IndicatorType::FileHash => "file_hash",
    }
}

/// Converts a status to the exact literal of the database enum.
pub fn status_to_db(s: IocStatus) -> (res: &'static str)
    ensures
        res@ == status_name(s),
{
    match s {
        IocStatus::Active => "active",
        IocStatus::Expired => "expired",
        IocStatus::Disputed => "disputed",
    }
}

/// The source kind literal (`official` or `community`).
pub fn source_kind_str(s: &Source) -> (res: &'static str)
    ensures
        res@ == source_kind_name(*s),
{
    match s {
        Source::Official { .. } => "official",
        Source::Community { .. } => "community",
    }
}


/// Reads an indicator type back from its database literal.
pub fn indicator_type_from_db(s: &str) -> (res: Option<IndicatorType>)
    ensures
        res == indicator_type_named(s@),
{
    let c = to_chars(s);
    if equals_literal(c.as_slice(), "domain") {
        Some(IndicatorType::Domain)
    } else if equals_literal(c.as_slice(), "url") {
        Some(IndicatorType::Url)
    } else if equals_literal(c.as_slice(), "ip_address") {
        Some(IndicatorType::IpAddress)
    } else if equals_literal(c.as_slice(), "phone_number") {
        Some(IndicatorType::PhoneNumber)
    } else if equals_literal(c.as_slice(), "file_hash") {
        Some(IndicatorType::FileHash)
    } else {
        None
    }
}

/// Reads a status back from its database literal.
pub fn status_from_db(s: &str) -> (res: Option<IocStatus>)
    ensures
        res == status_named(s@),
{
    let c = to_chars(s);
    if equals_literal(c.as_slice(), "active") {
        Some(IocStatus::Active)
    } else if equals_literal(c.as_slice(), "expired") {
        Some(IocStatus::Expired)
    } else if equals_literal(c.as_slice(), "disputed") {
        Some(IocStatus::Disputed)
    } else {
        None
    }
}

/// Every indicator type reads back from its literal as itself.
pub proof fn lemma_indicator_type_round_trip(t: IndicatorType)
    ensures
        indicator_type_named(indicator_type_name(t)) == Some(t),
{
    reveal_strlit("domain");
    reveal_strlit("url");
    reveal_strlit("ip_address");
    reveal_strlit("phone_number");
    reveal_strlit("file_hash");
    assert("domain"@.len() == 6 && "url"@.len() == 3 && "ip_address"@.len() == 10);
    assert("phone_number"@.len() == 12 && "file_hash"@.len() == 9);
}

/// Every status reads back from its literal as itself.
pub proof fn lemma_status_round_trip(s: IocStatus)
    ensures
        status_named(status_name(s)) == Some(s),
{
    reveal_strlit("active");
    reveal_strlit("expired");
    reveal_strlit("disputed");
    assert("active"@.len() == 6 && "expired"@.len() == 7 && "disputed"@.len() == 8);
    assert("active"@[0] != "expired"@[0]);
}

// ---------------------------------------------------------------------
// Rows
// ---------------------------------------------------------------------

/// The source of an indicator spread over the nullable columns of its row.
#[derive(Debug)]
pub struct SourceColumns {
    pub kind: &'static str,
    pub issuer: Option<String>,
    pub advisory_url: Option<String>,
    pub corroborations: i32,
}

/// The source columns that store `s`; the corroboration count is stored as a
/// signed 32-bit integer (a count above `i32::MAX` wraps).
pub open spec fn source_columns_spec(s: Source) -> (Option<Seq<char>>, Option<Seq<char>>, i32) {
    match s {
        Source::Official { issuer, advisory_url } => (
            Some(issuer@),
            match advisory_url {
                Some(u) => Some(u@),
                None => None,
            },
            0i32,
        ),
        Source::Community { corroborations } => (None, None, corroborations as i32),
    }
}

/// Spreads a source over its columns.
pub fn source_columns(s: Source) -> (res: SourceColumns)
    ensures
        res.kind@ == source_kind_name(s),
        (opt_view(res.issuer), opt_view(res.advisory_url), res.corroborations)
            == source_columns_spec(s),
{
    let kind = source_kind_str(&s);
    match s {
        Source::Official { issuer, advisory_url } => SourceColumns {
            kind,
            issuer: Some(issuer),
            advisory_url,
            corroborations: 0,
        },
        Source::Community { corroborations } => SourceColumns {
            kind,
            issuer: None,
            advisory_url: None,
            corroborations: corroborations as i32,
        },
    }
}

/// Why a stored row does not make an indicator.
#[derive(Debug)]
pub enum RowError {
    UnknownIndicatorType(String),
    UnknownStatus(String),
    UnknownSourceKind(String),
}

impl RowError {
    /// The message that reports the error, naming the offending literal.
    pub fn message(&self) -> (res: String)
        ensures
            res@ == match self {
                RowError::UnknownIndicatorType(s) => "indicator_type desconocido en la fila: "@ + s@,
                RowError::UnknownStatus(s) => "status desconocido en la fila: "@ + s@,
                RowError::UnknownSourceKind(s) => "source_kind desconocido en la fila: "@ + s@,
            },
    {
        match self {
            RowError::UnknownIndicatorType(s) => concat(
                "indicator_type desconocido en la fila: ",
                s.as_str(),
            ),
            RowError::UnknownStatus(s) => concat("status desconocido en la fila: ", s.as_str()),
            RowError::UnknownSourceKind(s) => concat(
                "source_kind desconocido en la fila: ",
                s.as_str(),
            ),
        }
    }
}

/// The source that a row stores, if its kind is known. A missing issuer reads
/// as empty; a negative corroboration count reads as zero.
pub open spec fn source_of_row(
    kind: Seq<char>,
    issuer: Option<String>,
    advisory_url: Option<String>,
    corroborations: i32,
) -> Option<Source> {
    if kind == "official"@ {
        Some(
            Source::Official {
                issuer: match issuer {
                    Some(i) => i,
                    None => arbitrary_empty_string(),
                },
                advisory_url,
            },
        )
    } else if kind == "community"@ {
        Some(
            Source::Community {
                corroborations: (if corroborations < 0 {
                    0
                } else {
                    corroborations
                }) as u32,
            },
        )
    } else {
        None
    }
}

/// Some string with no characters.
pub open spec fn arbitrary_empty_string() -> String {
    choose|s: String| s@ == Seq::<char>::empty()
}

/// Reads a source back from its columns.
pub fn source_from_db(
    kind: &str,
    issuer: Option<String>,
    advisory_url: Option<String>,
    corroborations: i32,
) -> (res: Option<Source>)
    ensures
        match (res, source_of_row(kind@, issuer, advisory_url, corroborations)) {
            (None, None) => true,
            (Some(Source::Official { issuer: a, advisory_url: u }), Some(
                Source::Official { issuer: b, advisory_url: v },
            )) => a@ == b@ && u == v,
            (Some(Source::Community { corroborations: a }), Some(
                Source::Community { corroborations: b },
            )) => a == b,
            _ => false,
        },
{
    let c = to_chars(kind);
    if equals_literal(c.as_slice(), "official") {
        let issuer = match issuer {
            Some(i) => i,
            None => String::new(),
        };
        Some(Source::Official { issuer, advisory_url })
    } else if equals_literal(c.as_slice(), "community") {
        let n: i32 = if corroborations < 0 {
            0
        } else {
            corroborations
        };
        Some(Source::Community { corroborations: n as u32 })
    } else {
        None
    }
}

/// A stored indicator row, without its trust value.
#[derive(Debug)]
pub struct IocRow {
    pub indicator_type: String,
    pub value: String,
    pub status: String,
    pub impersonates: Option<String>,
    pub source_kind: String,
    pub source_issuer: Option<String>,
    pub source_advisory_url: Option<String>,
    pub corroborations: i32,
    pub first_seen: i128,
    pub last_seen: i128,
}

/// Rebuilds an indicator from its row. The indicator type is checked first,
/// then the status, then the source kind; the first unknown literal is reported.
pub fn ioc_from_row(row: IocRow) -> (res: Result<Ioc, RowError>)
    ensures
        indicator_type_named(row.indicator_type@) is None ==> (res matches Err(
            RowError::UnknownIndicatorType(s),
        ) && s@ == row.indicator_type@),
        indicator_type_named(row.indicator_type@) is Some && status_named(row.status@) is None
            ==> (res matches Err(RowError::UnknownStatus(s)) && s@ == row.status@),
        indicator_type_named(row.indicator_type@) is Some && status_named(row.status@) is Some
            && source_of_row(
            row.source_kind@,
            row.source_issuer,
            row.source_advisory_url,
            row.corroborations,
        ) is None ==> (res matches Err(RowError::UnknownSourceKind(s)) && s@ == row.source_kind@),
        indicator_type_named(row.indicator_type@) is Some && status_named(row.status@) is Some
            && source_of_row(
            row.source_kind@,
            row.source_issuer,
            row.source_advisory_url,
            row.corroborations,
        ) is Some ==> res is Ok,
        res matches Ok(ioc) ==> {
            &&& Some(ioc.indicator_type) == indicator_type_named(row.indicator_type@)
            &&& Some(ioc.status) == status_named(row.status@)
            &&& ioc.value == row.value
            &&& ioc.impersonates == row.impersonates
            &&& ioc.first_seen == row.first_seen
            &&& ioc.last_seen == row.last_seen
            &&& match (ioc.source, source_of_row(
                row.source_kind@,
                row.source_issuer,
                row.source_advisory_url,
                row.corroborations,
            )) {
                (Source::Official { issuer: a, advisory_url: u }, Some(
                    Source::Official { issuer: b, advisory_url: v },
                )) => a@ == b@ && u == v,
                (Source::Community { corroborations: a }, Some(
                    Source::Community { corroborations: b },
                )) => a == b,
                _ => false,
            }
        },
{
    let indicator_type = match indicator_type_from_db(row.indicator_type.as_str()) {
        Some(t) => t,
        None => {
            return Err(RowError::UnknownIndicatorType(row.indicator_type));
        },
    };
    let status = match status_from_db(row.status.as_str()) {
        Some(s) => s,
        None => {
            return Err(RowError::UnknownStatus(row.status));
        },
    };
    let source = match source_from_db(
        row.source_kind.as_str(),
        row.source_issuer,
        row.source_advisory_url,
        row.corroborations,
    ) {
        Some(s) => s,
        None => {
            return Err(RowError::UnknownSourceKind(row.source_kind));
        },
    };
    Ok(
        Ioc {
            indicator_type,
            value: row.value,
            source,
            status,
            impersonates: row.impersonates,
            first_seen: row.first_seen,
            last_seen: row.last_seen,
        },
    )
}

/// A source survives being written to its columns and read back, as long as a
/// community count fits in the signed column (a count of `2^31` would read back
/// as zero).
pub proof fn lemma_source_round_trip(s: Source)
    requires
        s matches Source::Community { corroborations } ==> corroborations <= i32::MAX,
    ensures
        ({
            let (issuer, _, count) = source_columns_spec(s);
            match s {
                Source::Official { issuer: i, advisory_url } => {
                    &&& issuer == Some(i@)
                    &&& source_of_row(source_kind_name(s), Some(i), advisory_url, count)
                        == Some(s)
                },
                Source::Community { corroborations } => source_of_row(
                    source_kind_name(s),
                    None,
                    None,
                    count,
                ) == Some(s),
            }
        }),
{
    reveal_strlit("official");
    reveal_strlit("community");
    assert("official"@.len() == 8 && "community"@.len() == 9);
}

// ---------------------------------------------------------------------
// Deduplicated upsert
// ---------------------------------------------------------------------

/// The result of an upsert: the indicator as it stands afterwards, and the
/// merge that produced it, or `None` when the report was discarded because its
/// reporter had already been counted for this indicator.
#[derive(Debug)]
pub struct MergeOutcome {
    pub ioc: Ioc,
    pub merge: Option<MergeAction>,
}

/// Resolves an upsert once the known row is locked. A duplicate report changes
/// nothing: the known indicator (or, if none is stored, the incoming one) is
/// returned unmerged. Otherwise the incoming report is merged.
pub fn resolve_upsert(existing: Option<Ioc>, incoming: Ioc, duplicate_report: bool) -> (res:
    MergeOutcome)
    requires
        !duplicate_report ==> merge_fits(existing, incoming),
    ensures
        duplicate_report ==> res.merge is None && res.ioc == match existing {
            Some(cur) => cur,
            None => incoming,
        },
        !duplicate_report ==> res.merge == Some(merge_spec(existing, incoming).action) && res.ioc
            == merge_spec(existing, incoming).ioc,
{
    if duplicate_report {
        let ioc = match existing {
            Some(cur) => cur,
            None => incoming,
        };
        return MergeOutcome { ioc, merge: None };
    }
    let merged = Ioc::merge(existing, incoming);
    MergeOutcome { ioc: merged.ioc, merge: Some(merged.action) }
}

/// The issuer and the corroboration count that a scoring event records for a
/// source (an official source records zero corroborations).
pub fn score_event_source(s: &Source) -> (res: (Option<String>, u32))
    ensures
        match *s {
            Source::Official { issuer, .. } => res.0 == Some(issuer) && res.1 == 0,
            Source::Community { corroborations } => res.0 is None && res.1 == corroborations,
        },
{
    match s {
        Source::Official { issuer, .. } => (Some(issuer.clone()), 0),
        Source::Community { corroborations } => (None, *corroborations),
    }
}

// ---------------------------------------------------------------------
// Cache
// ---------------------------------------------------------------------

/// Prefix of every cache key of an indicator.
pub const KEY_PREFIX: &'static str = "ioc:cache:";

/// A negative entry (value not found) lives this many times less than a positive one.
pub const NEGATIVE_TTL_DIVISOR: u64 = 6;

/// The cache key of a normalized value.
pub fn cache_key(value: &str) -> (res: String)
    ensures
        res@ == "ioc:cache:"@ + value@,
{
    concat("ioc:cache:", value)
}

/// How long a cache entry lives: `ttl_secs` when the indicator was found,
/// a sixth of it (at least one second) when it was not.
pub fn cache_ttl(found: bool, ttl_secs: u64) -> (res: u64)
    ensures
        found ==> res == ttl_secs,
        !found ==> res == (if ttl_secs / 6 >= 1 { ttl_secs / 6 } else { 1 }),
{
    if found {
        ttl_secs
    } else {
        let t = ttl_secs / NEGATIVE_TTL_DIVISOR;
        if t >= 1 {
            t
        } else {
            1
        }
    }
}

/// A negative entry never outlives a positive one, and never lives zero seconds.
pub proof fn lemma_negative_ttl_bounded(ttl_secs: u64)
    requires
        ttl_secs >= 1,
    ensures
        ({
            let neg = if ttl_secs / 6 >= 1 { ttl_secs / 6 } else { 1 };
            1 <= neg <= ttl_secs
        }),
{
}

// ---------------------------------------------------------------------
// Rate limiting
// ---------------------------------------------------------------------

/// The Redis key of the token bucket of an identifier.
pub fn rate_limit_key(identifier: &str) -> (res: String)
    ensures
        res@ == "ratelimit:"@ + identifier@,
{
    concat("ratelimit:", identifier)
}

/// Reads the reply of the token-bucket script: allowed when its first element
/// is 1; the remaining tokens are the second element as a `u32` (truncating).
pub fn limit_reply(reply: (i64, i64)) -> (res: (bool, u32))
    ensures
        res.0 == (reply.0 == 1),
        res.1 == reply.1 as u32,
{
    (reply.0 == 1, reply.1 as u32)
}

} // verus!
