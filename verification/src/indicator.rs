//! Domain types shared by every service: indicators of compromise, where they
//! came from, how incoming reports merge into the known state, and how raw
//! values are brought to their canonical form.
use vstd::prelude::*;
use crate::text::{
    all_white_space, ascii_lowered, ascii_uppered, contains_seq, is_ascii_text,
    lemma_ascii_upper_then_lower, copy_range, has_prefix, occurs_at, push_all, replace_all, replaced, starts_with,
    string_from_chars, to_chars, to_lowercase, trim, trimmed, unicode_lowercase,
    lemma_trimmed_ignores_surrounding_blanks,
};

verus! {

// ---------------------------------------------------------------------
// Indicator of Compromise
// ---------------------------------------------------------------------

/// The kind of datum an indicator is.
#[derive(Debug, Clone, Copy, PartialEq, Eq, Structural, Hash)]
pub enum IndicatorType {
    Domain,
    Url,
    IpAddress,
    PhoneNumber,
    FileHash,
}

/// Operational state of an indicator. An indicator is never deleted when it
/// expires: it is marked, because its history is as valuable as its state.
#[derive(Debug, Clone, Copy, PartialEq, Eq, Structural)]
pub enum IocStatus {
    Active,
    Expired,
    Disputed,
}

/// Where an indicator came from: an official source (a CSIRT, with immediate
/// authority) or the community (which needs corroboration first).
#[derive(Debug, Clone)]
pub enum Source {
    Official { issuer: String, advisory_url: Option<String> },
    Community {
        /// How many independent reports corroborate this same indicator.
        corroborations: u32,
    },
}

/// A normalized indicator of compromise, ready to be scored and looked up.
///
/// Instants are nanoseconds since the Unix epoch (UTC). The identifier and the
/// floating-point trust score travel beside the indicator, with whoever stores
/// it: a merge says which score the merged indicator keeps (see [`MergeAction`]).
#[derive(Debug)]
pub struct Ioc {
    pub indicator_type: IndicatorType,
    /// Already normalized value (no scheme, lower case, ...).
    pub value: String,
    pub source: Source,
    pub status: IocStatus,
    /// Which institution the campaign impersonates, if known.
    pub impersonates: Option<String>,
    pub first_seen: i128,
    pub last_seen: i128,
}

/// Which of the merge rules applied, and so which trust score the merged
/// indicator carries.
#[derive(Debug, Clone, Copy, PartialEq, Eq, Structural)]
pub enum MergeAction {
    /// Nothing was known: the incoming indicator is taken with its score.
    Inserted,
    /// The known indicator is official and the report is a community one: it
    /// keeps its score, only `last_seen` moves.
    OfficialKept,
    /// The incoming indicator is official: it replaces the known one, score included.
    OfficialOverride,
    /// Community on community: one more corroboration; the score is recomputed
    /// from the new corroboration count.
    Corroborated,
}

/// The result of [`Ioc::merge`].
#[derive(Debug)]
pub struct Merged {
    pub ioc: Ioc,
    pub action: MergeAction,
}

pub open spec fn is_official(s: Source) -> bool {
    s is Official
}

pub open spec fn later(a: i128, b: i128) -> i128 {
    if a >= b { a } else { b }
}

/// The merge rules, stated over the fields they touch.
pub open spec fn merge_spec(existing: Option<Ioc>, incoming: Ioc) -> Merged {
    match existing {
        None => Merged { ioc: incoming, action: MergeAction::Inserted },
        Some(cur) => match (cur.source, incoming.source) {
            (_, Source::Official { .. }) => Merged { ioc: incoming, action: MergeAction::OfficialOverride },
            (Source::Official { .. }, _) => Merged {
                ioc: Ioc { last_seen: later(incoming.last_seen, cur.last_seen), ..cur },
                action: MergeAction::OfficialKept,
            },
            (Source::Community { corroborations }, Source::Community { .. }) => Merged {
                ioc: Ioc {
                    source: Source::Community { corroborations: (corroborations + 1) as u32 },
                    last_seen: later(incoming.last_seen, cur.last_seen),
                    ..cur
                },
                action: MergeAction::Corroborated,
            },
        },
    }
}

/// A merge that adds one corroboration to a known community indicator needs
/// room for it in a `u32`.
pub open spec fn merge_fits(existing: Option<Ioc>, incoming: Ioc) -> bool {
    match existing {
        Some(cur) => match (cur.source, incoming.source) {
            (Source::Community { corroborations }, Source::Community { .. }) => corroborations
                < u32::MAX,
            _ => true,
        },
        None => true,
    }
}

impl Ioc {
    /// Merges the known state of an indicator with an incoming report of the
    /// same `(indicator_type, value)`:
    ///
    /// 1. A known official indicator is never degraded by a later community
    ///    report: only `last_seen` is refreshed.
    /// 2. An incoming official indicator always replaces the known state,
    ///    whatever it was, because an official source is immediate authority.
    /// 3. Community on community accumulates one corroboration.
    pub fn merge(existing: Option<Ioc>, incoming: Ioc) -> (res: Merged)
        requires
            merge_fits(existing, incoming),
        ensures
            res == merge_spec(existing, incoming),
    {
        let mut current = match existing {
            None => {
                return Merged { ioc: incoming, action: MergeAction::Inserted };
            },
            Some(cur) => cur,
        };
        let seen = if incoming.last_seen >= current.last_seen {
            incoming.last_seen
        } else {
            current.last_seen
        };
        match (&current.source, &incoming.source) {
            (_, Source::Official { .. }) => Merged {
                ioc: incoming,
                action: MergeAction::OfficialOverride,
            },
            (Source::Official { .. }, _) => {
                current.last_seen = seen;
                Merged { ioc: current, action: MergeAction::OfficialKept }
            },
            (Source::Community { corroborations }, Source::Community { .. }) => {
                let n = *corroborations + 1;
                current.source = Source::Community { corroborations: n };
                current.last_seen = seen;
                Merged { ioc: current, action: MergeAction::Corroborated }
            },
        }
    }
}

// ---------------------------------------------------------------------
// What a merged indicator carries
// ---------------------------------------------------------------------

/// The identifier and score that an indicator carries after an upsert, given
/// the merge that happened (none for a discarded duplicate), the identifier and
/// score of the known indicator, if any, and those of the incoming report. A
/// score of `None` means "recompute it from the new corroboration count".
pub open spec fn carried_spec<I, S>(
    merge: Option<MergeAction>,
    known: Option<(I, S)>,
    incoming: (I, S),
) -> (I, Option<S>) {
    match (merge, known) {
        (Some(MergeAction::Inserted), _) => (incoming.0, Some(incoming.1)),
        (Some(MergeAction::OfficialOverride), _) => (incoming.0, Some(incoming.1)),
        (_, None) => (incoming.0, Some(incoming.1)),
        (Some(MergeAction::Corroborated), Some(k)) => (k.0, None),
        (_, Some(k)) => (k.0, Some(k.1)),
    }
}

/// Picks the identifier and score that the merged indicator carries: the
/// incoming ones when it was inserted or overridden by an official report (or
/// when nothing was known); the known identifier otherwise, with the known score
/// when the report was discarded or only refreshed an official indicator, and no
/// score (to be recomputed) when it added a corroboration.
pub fn carried<I, S>(merge: Option<MergeAction>, known: Option<(I, S)>, incoming: (I, S)) -> (res: (
    I,
    Option<S>,
))
    ensures
        res == carried_spec(merge, known, incoming),
{
    match (merge, known) {
        (Some(MergeAction::Inserted), _) => (incoming.0, Some(incoming.1)),
        (Some(MergeAction::OfficialOverride), _) => (incoming.0, Some(incoming.1)),
        (_, None) => (incoming.0, Some(incoming.1)),
        (Some(MergeAction::Corroborated), Some(k)) => (k.0, None),
        (_, Some(k)) => (k.0, Some(k.1)),
    }
}

/// One decimal digit.
pub open spec fn digit_char(d: int) -> char {
    (48 + d) as char
}

/// The decimal writing of `n`, without leading zeros.
pub open spec fn decimal(n: nat) -> Seq<char>
    decreases n,
{
    if n < 10 {
        seq![digit_char(n as int)]
    } else {
        decimal(n / 10) + seq![digit_char((n % 10) as int)]
    }
}

/// Writes `n` in decimal.
pub fn decimal_chars(n: u32) -> (res: Vec<char>)
    ensures
        res@ == decimal(n as nat),
    decreases n,
{
    let d: u8 = (n % 10) as u8;
    let c = (48u8 + d) as char;
    if n < 10 {
        let mut v: Vec<char> = Vec::new();
        v.push(c);
        v
    } else {
        let mut v = decimal_chars(n / 10);
        v.push(c);
        v
    }
}

/// The reason recorded for the score of an indicator corroborated `n` times.
pub open spec fn corroboration_reason_text(n: u32) -> Seq<char> {
    decimal(n as nat) + " reportes comunitarios corroborados"@
}

/// The reason recorded for the score of an indicator corroborated `n` times,
/// e.g. "3 reportes comunitarios corroborados".
pub fn corroboration_reason(n: u32) -> (res: String)
    ensures
        res@ == corroboration_reason_text(n),
{
    let mut digits = decimal_chars(n);
    let tail = to_chars(" reportes comunitarios corroborados");
    push_all(&mut digits, tail.as_slice());
    string_from_chars(digits)
}

// ---------------------------------------------------------------------
// Laws of the merge
// ---------------------------------------------------------------------

/// A known official indicator is never degraded by a later community report:
/// its source, value, type, status and impersonated entity stay, and its
/// `last_seen` never moves back.
pub proof fn lemma_official_never_degraded(cur: Ioc, incoming: Ioc)
    requires
        is_official(cur.source),
        !is_official(incoming.source),
    ensures
        ({
            let m = merge_spec(Some(cur), incoming);
            &&& m.action == MergeAction::OfficialKept
            &&& m.ioc.source == cur.source
            &&& m.ioc.value == cur.value
            &&& m.ioc.indicator_type == cur.indicator_type
            &&& m.ioc.status == cur.status
            &&& m.ioc.impersonates == cur.impersonates
            &&& m.ioc.first_seen == cur.first_seen
            &&& m.ioc.last_seen >= cur.last_seen
            &&& m.ioc.last_seen >= incoming.last_seen
        }),
{
}

/// An incoming official indicator always replaces the known state, whatever
/// it was (official or community), and is taken as it is when nothing is known.
pub proof fn lemma_official_overrides(existing: Option<Ioc>, incoming: Ioc)
    requires
        is_official(incoming.source),
    ensures
        merge_spec(existing, incoming).ioc == incoming,
        existing is Some ==> merge_spec(existing, incoming).action == MergeAction::OfficialOverride,
{
}

/// Community reports accumulate: one more corroboration per merged report, and
/// the indicator keeps its identity.
pub proof fn lemma_community_accumulates(cur: Ioc, incoming: Ioc, n: u32)
    requires
        cur.source == (Source::Community { corroborations: n }),
        !is_official(incoming.source),
        n < u32::MAX,
    ensures
        ({
            let m = merge_spec(Some(cur), incoming);
            &&& m.action == MergeAction::Corroborated
            &&& m.ioc.source == (Source::Community { corroborations: (n + 1) as u32 })
            &&& m.ioc.value == cur.value
            &&& m.ioc.indicator_type == cur.indicator_type
            &&& m.ioc.status == cur.status
            &&& m.ioc.impersonates == cur.impersonates
            &&& m.ioc.first_seen == cur.first_seen
            &&& m.ioc.last_seen == later(incoming.last_seen, cur.last_seen)
        }),
{
}

/// The merged state is official exactly when the known or the incoming
/// indicator is official: official authority is never lost.
pub proof fn lemma_merge_official_iff(existing: Option<Ioc>, incoming: Ioc)
    ensures
        is_official(merge_spec(existing, incoming).ioc.source) <==> (is_official(incoming.source)
            || (existing is Some && is_official(existing->0.source))),
{
}

/// The state of an indicator after merging a sequence of reports, in order.
pub open spec fn merge_all(state: Option<Ioc>, reports: Seq<Ioc>) -> Option<Ioc>
    decreases reports.len(),
{
    if reports.len() == 0 {
        state
    } else {
        merge_all(Some(merge_spec(state, reports[0]).ioc), reports.drop_first())
    }
}

pub open spec fn community_count(s: Source) -> int {
    match s {
        Source::Community { corroborations } => corroborations as int,
        Source::Official { .. } => 0,
    }
}

/// Each community report merged into a community indicator adds exactly one
/// corroboration: after `k` reports, a count of `n` has become `n + k`.
pub proof fn lemma_community_reports_accumulate(cur: Ioc, reports: Seq<Ioc>)
    requires
        !is_official(cur.source),
        forall|i: int| 0 <= i < reports.len() ==> !is_official(#[trigger] reports[i].source),
        community_count(cur.source) + reports.len() <= u32::MAX,
    ensures
        merge_all(Some(cur), reports) matches Some(r) && !is_official(r.source) && community_count(
            r.source,
        ) == community_count(cur.source) + reports.len() && r.value == cur.value,
    decreases reports.len(),
{
    if reports.len() > 0 {
        let next = merge_spec(Some(cur), reports[0]).ioc;
        assert forall|i: int| 0 <= i < reports.drop_first().len() implies !is_official(
            #[trigger] reports.drop_first()[i].source,
        ) by {
            assert(reports.drop_first()[i] == reports[i + 1]);
        }
        lemma_community_reports_accumulate(next, reports.drop_first());
    }
}

/// Official authority is never lost: once the known indicator is official,
/// it stays official whatever reports follow.
pub proof fn lemma_official_sticky(cur: Ioc, reports: Seq<Ioc>)
    requires
        is_official(cur.source),
    ensures
        merge_all(Some(cur), reports) matches Some(r) && is_official(r.source),
    decreases reports.len(),
{
    if reports.len() > 0 {
        let next = merge_spec(Some(cur), reports[0]).ioc;
        lemma_official_sticky(next, reports.drop_first());
    }
}

// ---------------------------------------------------------------------
// Canonical values
// ---------------------------------------------------------------------

/// `s` without a leading `http://` or `https://`.
pub open spec fn without_scheme(s: Seq<char>) -> Seq<char> {
    if has_prefix(s, "http://"@) {
        s.subrange("http://"@.len() as int, s.len() as int)
    } else if has_prefix(s, "https://"@) {
        s.subrange("https://"@.len() as int, s.len() as int)
    } else {
        s
    }
}

/// `s` without a leading `www.`.
pub open spec fn without_www(s: Seq<char>) -> Seq<char> {
    if has_prefix(s, "www."@) {
        s.subrange("www."@.len() as int, s.len() as int)
    } else {
        s
    }
}

/// `s` without one trailing `/`.
pub open spec fn without_trailing_slash(s: Seq<char>) -> Seq<char> {
    if s.len() > 0 && s.last() == '/' {
        s.drop_last()
    } else {
        s
    }
}

/// The canonical form of an already trimmed and lower-cased value.
pub open spec fn canonical(s: Seq<char>) -> Seq<char> {
    without_trailing_slash(without_www(without_scheme(s)))
}

/// The normalized form of a raw value: trimmed, lower-cased, then canonical.
pub open spec fn normalized(s: Seq<char>) -> Seq<char> {
    canonical(unicode_lowercase(trimmed(s)))
}

/// Drops a leading `prefix` from `s` when it is there.
fn drop_prefix(s: Vec<char>, prefix: &str) -> (res: Vec<char>)
    ensures
        res@ == (if has_prefix(s@, prefix@) {
            s@.subrange(prefix@.len() as int, s@.len() as int)
        } else {
            s@
        }),
{
    let p = to_chars(prefix);
    if starts_with(s.as_slice(), p.as_slice()) {
        copy_range(s.as_slice(), p.len(), s.len())
    } else {
        s
    }
}

/// The canonical form of an already trimmed and lower-cased value: without a
/// leading `http://` or `https://`, then without a leading `www.`, then without
/// one trailing `/`.
pub fn canonical_form(lowered: &str) -> (res: String)
    ensures
        res@ == canonical(lowered@),
{
    let s = to_chars(lowered);
    let http = to_chars("http://");
    let s = if starts_with(s.as_slice(), http.as_slice()) {
        drop_prefix(s, "http://")
    } else {
        drop_prefix(s, "https://")
    };
    let mut s = drop_prefix(s, "www.");
    let n = s.len();
    if n > 0 && s[n - 1] == '/' {
        s.pop();
    }
    string_from_chars(s)
}

/// The normalized form of an ASCII value, where lower-casing is the ASCII one.
pub open spec fn ascii_normalized(s: Seq<char>) -> Seq<char> {
    canonical(ascii_lowered(trimmed(s)))
}

/// Normalizes an incoming value: trims it, lower-cases it, and removes a
/// leading `http://` or `https://`, a leading `www.` and one trailing `/`.
/// Shared by every service that stores or looks up an indicator.
pub fn normalize_ioc_value(value: &str) -> (res: String)
    ensures
        res@ == normalized(value@),
        is_ascii_text(value@) ==> res@ == ascii_normalized(value@),
{
    proof {
        lemma_ascii_upper_then_lower(value@);
    }
    let chars = to_chars(value);
    let t = string_from_chars(trim(chars.as_slice()));
    let lowered = to_lowercase(t.as_str());
    canonical_form(lowered.as_str())
}

/// White space around a value never changes its normalized form: a value
/// written as `"  {s}  "` normalizes exactly as `s` does.
pub proof fn lemma_normalize_ignores_surrounding_space(p: Seq<char>, s: Seq<char>, q: Seq<char>)
    requires
        all_white_space(p),
        all_white_space(q),
    ensures
        normalized(p + s + q) == normalized(s),
{
    lemma_trimmed_ignores_surrounding_blanks(p, s, q);
}

/// Case never changes the normalized form of an ASCII value: its upper-cased
/// writing is ASCII too and normalizes to the same value.
pub proof fn lemma_normalize_ignores_ascii_case(s: Seq<char>)
    requires
        is_ascii_text(s),
    ensures
        is_ascii_text(ascii_uppered(s)),
        ascii_normalized(ascii_uppered(s)) == ascii_normalized(s),
{
    lemma_ascii_upper_then_lower(s);
    lemma_ascii_upper_then_lower(trimmed(s));
}

/// A value already in canonical form is left as it is.
pub proof fn lemma_canonical_fixed_point(s: Seq<char>)
    requires
        !has_prefix(s, "http://"@),
        !has_prefix(s, "https://"@),
        !has_prefix(s, "www."@),
        !(s.len() > 0 && s.last() == '/'),
    ensures
        canonical(s) == s,
{
}

// ---------------------------------------------------------------------
// Refanging
// ---------------------------------------------------------------------

/// The refanged form of a defanged value: trimmed, then `hxxps://`,
/// `hxxp://`, `[.]` and `[:]` replaced, in that order.
pub open spec fn refanged(s: Seq<char>) -> Seq<char> {
    let a = replaced(trimmed(s), "hxxps://"@, "https://"@);
    let b = replaced(a, "hxxp://"@, "http://"@);
    let c = replaced(b, "[.]"@, "."@);
    replaced(c, "[:]"@, ":"@)
}

/// Replaces every `from` by `to` in `s`.
fn replace_literal(s: Vec<char>, from: &str, to: &str) -> (res: Vec<char>)
    requires
        from@.len() > 0,
    ensures
        res@ == replaced(s@, from@, to@),
{
    let f = to_chars(from);
    let t = to_chars(to);
    replace_all(s.as_slice(), f.as_slice(), t.as_slice())
}

/// Turns threat-intelligence "defanged" notation back into the real value, so
/// that published indicators can be compared and stored in canonical form:
/// `hxxps://` → `https://`, `hxxp://` → `http://`, `[.]` → `.`, `[:]` → `:`.
/// Schemes are replaced first, then single characters.
pub fn refang(value: &str) -> (res: String)
    ensures
        res@ == refanged(value@),
{
    proof {
        reveal_strlit("hxxps://");
        reveal_strlit("hxxp://");
        reveal_strlit("[.]");
        reveal_strlit("[:]");
    }
    let chars = to_chars(value);
    let s = trim(chars.as_slice());
    let s = replace_literal(s, "hxxps://", "https://");
    let s = replace_literal(s, "hxxp://", "http://");
    let s = replace_literal(s, "[.]", ".");
    let s = replace_literal(s, "[:]", ":");
    string_from_chars(s)
}

proof fn lemma_replaced_absent(s: Seq<char>, from: Seq<char>, to: Seq<char>)
    requires
        from.len() > 0,
        !contains_seq(s, from),
    ensures
        replaced(s, from, to) == s,
    decreases s.len(),
{
    if s.len() >= from.len() {
        assert(!occurs_at(s, from, 0));
        assert(s.subrange(0, from.len() as int) != from);
        let rest = s.drop_first();
        assert forall|i: int| !occurs_at(rest, from, i) by {
            if occurs_at(rest, from, i) {
                assert(rest.subrange(i, i + from.len()) =~= s.subrange(i + 1, i + 1 + from.len()));
                assert(occurs_at(s, from, i + 1));
            }
        }
        lemma_replaced_absent(rest, from, to);
        assert(seq![s[0]] + rest =~= s);
    }
}

/// A clean value (no surrounding white space, no defanged notation) is left
/// as it is.
pub proof fn lemma_refang_clean_value(s: Seq<char>)
    requires
        trimmed(s) == s,
        !contains_seq(s, "hxxps://"@),
        !contains_seq(s, "hxxp://"@),
        !contains_seq(s, "[.]"@),
        !contains_seq(s, "[:]"@),
    ensures
        refanged(s) == s,
{
    reveal_strlit("hxxps://");
    reveal_strlit("hxxp://");
    reveal_strlit("[.]");
    reveal_strlit("[:]");
    lemma_replaced_absent(s, "hxxps://"@, "https://"@);
    lemma_replaced_absent(s, "hxxp://"@, "http://"@);
    lemma_replaced_absent(s, "[.]"@, "."@);
    lemma_replaced_absent(s, "[:]"@, ":"@);
}

} // verus!
