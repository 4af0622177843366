//! The CSIRT alert feed: which alerts and indicators are taken, how an
//! official indicator is built from an alert, and the decisions of one polling
//! cycle (what to skip, when to stop paging, what checkpoint to save).
use vstd::prelude::*;
use crate::indicator::{
    IndicatorType, Ioc, IocStatus, Source, normalize_ioc_value, normalized, refang, refanged,
};
use crate::text::{
    ascii_lowered, ascii_uppered, is_ascii_text, lemma_ascii_upper_then_lower,
    chars_equal, concat, ends_with, equals_literal, eq_ignore_ascii_case, equals_ignore_ascii_case, has_suffix,
    string_from_chars, to_chars, to_lowercase, to_uppercase, trim, trim_end_char,
    trim_end_matches_char, trimmed, unicode_lowercase, unicode_uppercase, copy_range,
};

verus! {

// ---------------------------------------------------------------------
// Alert feed model
// ---------------------------------------------------------------------

/// One indicator listed in an alert.
#[derive(Debug, Clone)]
pub struct IocEntry {
    pub ioc_type: String,
    pub value: String,
    pub comment: Option<String>,
}

/// One alert of the feed. Instants are nanoseconds since the Unix epoch (UTC).
#[derive(Debug)]
pub struct Alert {
    pub code: String,
    pub title: String,
    pub incident_type: String,
    pub tlp: String,
    pub tags: Vec<String>,
    pub iocs: Vec<IocEntry>,
    pub date: i128,
    pub latest_revision_created_at: i128,
}

/// One page of the feed, with the total number of alerts it belongs to.
#[derive(Debug)]
pub struct AlertsResponse {
    pub items: Vec<Alert>,
    pub count: u64,
}

// ---------------------------------------------------------------------
// Filters
// ---------------------------------------------------------------------

/// Whether a TLP label allows public distribution.
pub open spec fn tlp_is_public(tlp: Seq<char>) -> bool {
    public_tlp_label(unicode_uppercase(trimmed(tlp)))
}

/// Whether an upper-cased TLP label is one of public distribution.
pub open spec fn public_tlp_label(t: Seq<char>) -> bool {
    t == "TLP:CLEAR"@ || t == "TLP:WHITE"@
}

/// True only for alerts of public distribution: `TLP:CLEAR` (TLP 2.0), or the
/// legacy `TLP:WHITE`, ignoring surrounding space and case.
pub fn is_tlp_public(tlp: &str) -> (res: bool)
    ensures
        res == tlp_is_public(tlp@),
        is_ascii_text(tlp@) ==> res == public_tlp_label(ascii_uppered(trimmed(tlp@))),
{
    proof {
        lemma_ascii_upper_then_lower(tlp@);
    }
    let c = to_chars(tlp);
    let t = string_from_chars(trim(c.as_slice()));
    let upper = to_uppercase(t.as_str());
    let u = to_chars(upper.as_str());
    let clear = to_chars("TLP:CLEAR");
    let white = to_chars("TLP:WHITE");
    chars_equal(u.as_slice(), clear.as_slice()) || chars_equal(u.as_slice(), white.as_slice())
}

/// Whether some tag is `phishing`, ignoring ASCII case.
pub open spec fn tagged_phishing(tags: Seq<String>) -> bool {
    exists|i: int| 0 <= i < tags.len() && eq_ignore_ascii_case(#[trigger] tags[i]@, "phishing"@)
}

/// An alert is tagged phishing exactly when one of its tags, at any position,
/// equals `phishing` up to ASCII case: none of an empty list, and a list with
/// one more tag is when the list was or the new tag is.
pub proof fn lemma_tagged_phishing_any_tag(tags: Seq<String>, t: String)
    ensures
        forall|i: int|
            0 <= i < tags.len() && eq_ignore_ascii_case(#[trigger] tags[i]@, "phishing"@)
                ==> tagged_phishing(tags),
        tagged_phishing(tags) ==> exists|i: int|
            0 <= i < tags.len() && eq_ignore_ascii_case(#[trigger] tags[i]@, "phishing"@),
        !tagged_phishing(Seq::<String>::empty()),
        tagged_phishing(tags.push(t)) <==> (tagged_phishing(tags) || eq_ignore_ascii_case(
            t@,
            "phishing"@,
        )),
{
    let ext = tags.push(t);
    if tagged_phishing(ext) {
        let i = choose|i: int| 0 <= i < ext.len() && eq_ignore_ascii_case(#[trigger] ext[i]@, "phishing"@);
        if i < tags.len() {
            assert(ext[i] == tags[i]);
        }
    }
    if tagged_phishing(tags) {
        let i = choose|i: int| 0 <= i < tags.len() && eq_ignore_ascii_case(#[trigger] tags[i]@, "phishing"@);
        assert(ext[i] == tags[i]);
    }
    if eq_ignore_ascii_case(t@, "phishing"@) {
        assert(ext[tags.len() as int] == t);
    }
}

/// True when the alert carries the `phishing` tag (ASCII case ignored). The tags
/// are the categorization field; the incident type does not filter.
pub fn is_phishing(tags: &[String]) -> (res: bool)
    ensures
        res == tagged_phishing(tags@),
{
    let target = to_chars("phishing");
    let n = tags.len();
    for i in 0..n
        invariant
            n == tags@.len(),
            target@ == "phishing"@,
            forall|j: int| 0 <= j < i ==> !eq_ignore_ascii_case(#[trigger] tags@[j]@, "phishing"@),
    {
        let t = to_chars(tags[i].as_str());
        if equals_ignore_ascii_case(t.as_slice(), target.as_slice()) {
            return true;
        }
    }
    false
}

/// The indicator type of a feed `ioc_type` (compared in lower case), or none for
/// types that are not actionable here, such as MITRE ATT&CK techniques.
pub open spec fn mapped_ioc_type(ioc_type: Seq<char>) -> Option<IndicatorType> {
    ioc_type_of_lowered(unicode_lowercase(ioc_type))
}

/// The indicator type named by a lower-cased feed `ioc_type`.
pub open spec fn ioc_type_of_lowered(t: Seq<char>) -> Option<IndicatorType> {
    if t == "url"@ {
        Some(IndicatorType::Url)
    } else if t == "domain"@ {
        Some(IndicatorType::Domain)
    } else if t == "ipv4"@ || t == "ipv6"@ || t == "ip"@ {
        Some(IndicatorType::IpAddress)
    } else if t == "md5"@ || t == "sha1"@ || t == "sha256"@ || t == "sha512"@ {
        Some(IndicatorType::FileHash)
    } else {
        None
    }
}


/// The feed types that are taken, and what each becomes: `url`, `domain`, the
/// IP types `ipv4`, `ipv6` and `ip`, and the digests `md5`, `sha1`, `sha256`
/// and `sha512`. Any other lower-cased type (such as an ATT&CK technique) is
/// not actionable.
pub proof fn lemma_feed_types_mapped(t: Seq<char>)
    ensures
        ioc_type_of_lowered("url"@) == Some(IndicatorType::Url),
        ioc_type_of_lowered("domain"@) == Some(IndicatorType::Domain),
        ioc_type_of_lowered("ipv4"@) == Some(IndicatorType::IpAddress),
        ioc_type_of_lowered("ipv6"@) == Some(IndicatorType::IpAddress),
        ioc_type_of_lowered("ip"@) == Some(IndicatorType::IpAddress),
        ioc_type_of_lowered("md5"@) == Some(IndicatorType::FileHash),
        ioc_type_of_lowered("sha1"@) == Some(IndicatorType::FileHash),
        ioc_type_of_lowered("sha256"@) == Some(IndicatorType::FileHash),
        ioc_type_of_lowered("sha512"@) == Some(IndicatorType::FileHash),
        ioc_type_of_lowered(t) is Some <==> (t == "url"@ || t == "domain"@ || t == "ipv4"@ || t
            == "ipv6"@ || t == "ip"@ || t == "md5"@ || t == "sha1"@ || t == "sha256"@ || t
            == "sha512"@),
        ioc_type_of_lowered(t) != Some(IndicatorType::PhoneNumber),
{
    reveal_strlit("url");
    reveal_strlit("domain");
    reveal_strlit("ipv4");
    reveal_strlit("ipv6");
    reveal_strlit("ip");
    reveal_strlit("md5");
    reveal_strlit("sha1");
    reveal_strlit("sha256");
    reveal_strlit("sha512");
    assert("domain"@.len() != "url"@.len());
    assert("ipv4"@.len() != "url"@.len() && "ipv4"@.len() != "domain"@.len());
    assert("ipv6"@.len() != "url"@.len() && "ipv6"@.len() != "domain"@.len());
    assert("md5"@[0] != "url"@[0] && "md5"@.len() != "ipv4"@.len() && "md5"@.len() != "ip"@.len());
    assert("sha1"@[0] != "ipv4"@[0] && "sha1"@[0] != "ipv6"@[0]);
    assert("sha256"@[0] != "domain"@[0] && "sha512"@[0] != "domain"@[0]);
}

/// Maps the feed's `ioc_type` to an indicator type.
pub fn map_ioc_type(ioc_type: &str) -> (res: Option<IndicatorType>)
    ensures
        res == mapped_ioc_type(ioc_type@),
        is_ascii_text(ioc_type@) ==> res == ioc_type_of_lowered(ascii_lowered(ioc_type@)),
{
    let lowered = to_lowercase(ioc_type);
    let t = to_chars(lowered.as_str());
    let t = t.as_slice();
    if equals_literal(t, "url") {
        Some(IndicatorType::Url)
    } else if equals_literal(t, "domain") {
        Some(IndicatorType::Domain)
    } else if equals_literal(t, "ipv4") || equals_literal(t, "ipv6") || equals_literal(t, "ip") {
        Some(IndicatorType::IpAddress)
    } else if equals_literal(t, "md5") || equals_literal(t, "sha1") || equals_literal(t, "sha256")
        || equals_literal(t, "sha512") {
        Some(IndicatorType::FileHash)
    } else {
        None
    }
}

// ---------------------------------------------------------------------
// Official indicators built from alerts
// ---------------------------------------------------------------------

/// The entity impersonated by a campaign whose title follows the pattern
/// "Entity - Campaña Fraudulenta" (or the misspelled "Entity - Campaign
/// Fraudulenta" seen in some alerts).
pub open spec fn impersonated_entity(title: Seq<char>) -> Option<Seq<char>> {
    let a = " - Campaña Fraudulenta"@;
    let b = " - Campaign Fraudulenta"@;
    if has_suffix(title, a) {
        Some(trimmed(title.subrange(0, title.len() - a.len())))
    } else if has_suffix(title, b) {
        Some(trimmed(title.subrange(0, title.len() - b.len())))
    } else {
        None
    }
}

/// Extracts the impersonated entity from an alert title, or none when the title
/// does not follow the campaign pattern (for instance, vulnerability alerts).
pub fn parse_impersonates(title: &str) -> (res: Option<String>)
    ensures
        match (res, impersonated_entity(title@)) {
            (Some(r), Some(e)) => r@ == e,
            (None, None) => true,
            _ => false,
        },
{
    let t = to_chars(title);
    let a = to_chars(" - Campaña Fraudulenta");
    if ends_with(t.as_slice(), a.as_slice()) {
        let entity = copy_range(t.as_slice(), 0, t.len() - a.len());
        return Some(string_from_chars(trim(entity.as_slice())));
    }
    let b = to_chars(" - Campaign Fraudulenta");
    if ends_with(t.as_slice(), b.as_slice()) {
        let entity = copy_range(t.as_slice(), 0, t.len() - b.len());
        return Some(string_from_chars(trim(entity.as_slice())));
    }
    None
}

/// An official indicator ready to be ingested, with the reason of its score.
#[derive(Debug)]
pub struct OfficialReport {
    pub ioc: Ioc,
    pub advisory_url: String,
    pub reason: String,
}

/// The issuer named on every indicator of the feed.
pub open spec fn csirt_issuer() -> Seq<char> {
    "CSIRT Chile"@
}

/// The advisory page of an alert code.
pub open spec fn advisory_url_of(code: Seq<char>) -> Seq<char> {
    "https://www.csirt.gob.cl/alertas/"@ + unicode_lowercase(code) + "/"@
}

/// The reason recorded for the score of an official indicator.
pub open spec fn official_reason(code: Seq<char>) -> Seq<char> {
    "Alerta oficial CSIRT Chile ("@ + code + ")"@
}

/// Builds the official indicator for one entry of an alert, or none when the
/// entry's type is not actionable. The value is refanged, then normalized; the
/// indicator is first seen at the alert's date and last seen at `now`.
pub fn official_ioc(alert: &Alert, entry: &IocEntry, now: i128) -> (res: Option<OfficialReport>)
    ensures
        mapped_ioc_type(entry.ioc_type@) is None <==> res is None,
        res matches Some(r) ==> {
            &&& Some(r.ioc.indicator_type) == mapped_ioc_type(entry.ioc_type@)
            &&& r.ioc.value@ == normalized(refanged(entry.value@))
            &&& r.ioc.source matches Source::Official { issuer, advisory_url }
            &&& issuer@ == csirt_issuer()
            &&& advisory_url matches Some(u) && u@ == advisory_url_of(alert.code@)
            &&& r.advisory_url@ == advisory_url_of(alert.code@)
            &&& is_ascii_text(alert.code@) ==> r.advisory_url@ == "https://www.csirt.gob.cl/alertas/"@
                + ascii_lowered(alert.code@) + "/"@
            &&& r.reason@ == official_reason(alert.code@)
            &&& r.ioc.status == IocStatus::Active
            &&& match (r.ioc.impersonates, impersonated_entity(alert.title@)) {
                (Some(x), Some(e)) => x@ == e,
                (None, None) => true,
                _ => false,
            }
            &&& r.ioc.first_seen == alert.date
            &&& r.ioc.last_seen == now
        },
{
    let indicator_type = match map_ioc_type(entry.ioc_type.as_str()) {
        Some(t) => t,
        None => {
            return None;
        },
    };
    let refanged_value = refang(entry.value.as_str());
    let value = normalize_ioc_value(refanged_value.as_str());
    let lower_code = to_lowercase(alert.code.as_str());
    let url_head = concat("https://www.csirt.gob.cl/alertas/", lower_code.as_str());
    let url = concat(url_head.as_str(), "/");
    let url_copy = url.as_str().to_owned();
    let reason_head = concat("Alerta oficial CSIRT Chile (", alert.code.as_str());
    let reason = concat(reason_head.as_str(), ")");
    let issuer = "CSIRT Chile".to_owned();
    let ioc = Ioc {
        indicator_type,
        value,
        source: Source::Official { issuer, advisory_url: Some(url_copy) },
        status: IocStatus::Active,
        impersonates: parse_impersonates(alert.title.as_str()),
        first_seen: alert.date,
        last_seen: now,
    };
    Some(OfficialReport { ioc, advisory_url: url, reason })
}

// ---------------------------------------------------------------------
// Feed client
// ---------------------------------------------------------------------

/// The feed base address without its trailing slashes.
pub fn api_base(base: &str) -> (res: String)
    ensures
        res@ == trim_end_char(base@, '/'),
{
    let c = to_chars(base);
    string_from_chars(trim_end_matches_char(c.as_slice(), '/'))
}

/// The address of the alert listing under a base address.
pub fn alerts_url(base: &str) -> (res: String)
    ensures
        res@ == base@ + "/api/v1/alerts/"@,
{
    concat(base, "/api/v1/alerts/")
}

// ---------------------------------------------------------------------
// Checkpoint
// ---------------------------------------------------------------------

/// The persisted state of the poller: the date from which alerts are asked for,
/// and the codes of the alerts already processed.
#[derive(Debug)]
pub struct PollerState {
    pub last_polled_at: i128,
    pub seen_codes: Vec<String>,
}

/// Thirty days, in nanoseconds.
pub const DEFAULT_LOOKBACK_NANOS: i128 = 2_592_000_000_000_000;

/// The state to start from: the stored one, or, when nothing is stored, the
/// last thirty days with no alert seen.
pub fn initial_state(stored: Option<PollerState>, now: i128) -> (res: PollerState)
    requires
        now >= i128::MIN + DEFAULT_LOOKBACK_NANOS,
    ensures
        match stored {
            Some(s) => res == s,
            None => res.last_polled_at == now - DEFAULT_LOOKBACK_NANOS && res.seen_codes@.len()
                == 0,
        },
{
    match stored {
        Some(s) => s,
        None => PollerState { last_polled_at: now - DEFAULT_LOOKBACK_NANOS, seen_codes: Vec::new() },
    }
}

/// The codes to store after a cycle: the known ones, then the new ones.
pub fn merged_seen_codes(new_codes: &[String], existing_codes: &[String]) -> (res: Vec<String>)
    ensures
        res@ == existing_codes@ + new_codes@,
{
    let mut all: Vec<String> = Vec::new();
    let n = existing_codes.len();
    for i in 0..n
        invariant
            n == existing_codes@.len(),
            all@ == existing_codes@.take(i as int),
    {
        all.push(existing_codes[i].clone());
        assert(existing_codes@.take(i + 1) =~= existing_codes@.take(i as int).push(
            existing_codes@[i as int],
        ));
    }
    let m = new_codes.len();
    for j in 0..m
        invariant
            n == existing_codes@.len(),
            m == new_codes@.len(),
            all@ == existing_codes@.take(n as int) + new_codes@.take(j as int),
    {
        all.push(new_codes[j].clone());
        assert(new_codes@.take(j + 1) =~= new_codes@.take(j as int).push(new_codes@[j as int]));
    }
    assert(existing_codes@.take(n as int) =~= existing_codes@);
    assert(new_codes@.take(m as int) =~= new_codes@);
    all
}

// ---------------------------------------------------------------------
// One polling cycle
// ---------------------------------------------------------------------

/// Why an alert is skipped, or that it is to be processed.
#[derive(Debug, Clone, Copy, PartialEq, Eq, Structural)]
pub enum AlertVerdict {
    /// Its TLP does not allow public distribution.
    RestrictedTlp,
    /// It is not tagged as phishing.
    NotPhishing,
    /// It lists no indicator.
    NoIocs,
    /// It was processed in an earlier cycle.
    AlreadySeen,
    /// Its indicators are to be ingested.
    Process,
}

/// The decisions of one polling cycle, from the stored checkpoint to the one to
/// save. The alert cursor never moves back, and new codes only accumulate.
#[derive(Debug)]
pub struct PollCycle {
    pub last_polled_at: i128,
    pub seen_codes: Vec<String>,
    pub new_codes: Vec<String>,
    pub latest_date: i128,
    pub page: u32,
}

pub open spec fn seen_contains(seen: Seq<String>, code: Seq<char>) -> bool {
    exists|i: int| 0 <= i < seen.len() && (#[trigger] seen[i])@ == code
}

/// The verdict on an alert, given the codes already processed.
pub open spec fn alert_verdict(alert: Alert, seen: Seq<String>) -> AlertVerdict {
    if !tlp_is_public(alert.tlp@) {
        AlertVerdict::RestrictedTlp
    } else if !tagged_phishing(alert.tags@) {
        AlertVerdict::NotPhishing
    } else if alert.iocs@.len() == 0 {
        AlertVerdict::NoIocs
    } else if seen_contains(seen, alert.code@) {
        AlertVerdict::AlreadySeen
    } else {
        AlertVerdict::Process
    }
}

/// Whether another page is to be asked for after one with `items_len` alerts.
pub open spec fn more_pages(page: u32, items_len: nat, count: u64) -> bool {
    let per_page = if items_len >= 1 { items_len } else { 1 };
    !(page * per_page >= count || items_len == 0)
}

/// How often the feed is polled: every `poll_secs` seconds, or, when that is
/// zero (manual runs), a single cycle.
pub fn poll_schedule(poll_secs: u64) -> (res: (u64, bool))
    ensures
        res == (if poll_secs == 0 { (1u64, true) } else { (poll_secs, false) }),
{
    if poll_secs == 0 {
        (1, true)
    } else {
        (poll_secs, false)
    }
}

impl PollCycle {
    /// Whether the cycle has something to save: new alerts, or a cursor that moved.
    pub open spec fn checkpoint_due(&self) -> bool {
        self.new_codes@.len() > 0 || self.latest_date > self.last_polled_at
    }

    pub open spec fn wf(&self) -> bool {
        &&& self.latest_date >= self.last_polled_at
        &&& self.page >= 1
    }

    /// Starts a cycle from the stored checkpoint, at the first page.
    pub fn start(state: PollerState) -> (res: PollCycle)
        ensures
            res.wf(),
            res.last_polled_at == state.last_polled_at,
            res.seen_codes == state.seen_codes,
            res.new_codes@.len() == 0,
            res.latest_date == state.last_polled_at,
            res.page == 1,
    {
        PollCycle {
            last_polled_at: state.last_polled_at,
            seen_codes: state.seen_codes,
            new_codes: Vec::new(),
            latest_date: state.last_polled_at,
            page: 1,
        }
    }

    /// Whether `code` was processed in an earlier cycle.
    pub fn was_seen(&self, code: &str) -> (res: bool)
        ensures
            res == seen_contains(self.seen_codes@, code@),
    {
        let c = to_chars(code);
        let n = self.seen_codes.len();
        for i in 0..n
            invariant
                n == self.seen_codes@.len(),
                c@ == code@,
                forall|j: int| 0 <= j < i ==> (#[trigger] self.seen_codes@[j])@ != code@,
        {
            let s = to_chars(self.seen_codes[i].as_str());
            if chars_equal(s.as_slice(), c.as_slice()) {
                return true;
            }
        }
        false
    }

    /// Screens an alert: restricted TLP first, then the phishing tag, then the
    /// presence of indicators, then whether it was already processed.
    pub fn screen(&self, alert: &Alert) -> (res: AlertVerdict)
        ensures
            res == alert_verdict(*alert, self.seen_codes@),
    {
        if !is_tlp_public(alert.tlp.as_str()) {
            AlertVerdict::RestrictedTlp
        } else if !is_phishing(alert.tags.as_slice()) {
            AlertVerdict::NotPhishing
        } else if alert.iocs.len() == 0 {
            AlertVerdict::NoIocs
        } else if self.was_seen(alert.code.as_str()) {
            AlertVerdict::AlreadySeen
        } else {
            AlertVerdict::Process
        }
    }

    /// Records a processed alert: its code joins the new codes, and the cursor
    /// moves to its date when that is later.
    pub fn record_processed(&mut self, alert: &Alert)
        requires
            old(self).wf(),
        ensures
            final(self).wf(),
            final(self).new_codes@ == old(self).new_codes@.push(alert.code),
            final(self).latest_date == (if alert.date > old(self).latest_date {
                alert.date
            } else {
                old(self).latest_date
            }),
            final(self).last_polled_at == old(self).last_polled_at,
            final(self).seen_codes == old(self).seen_codes,
            final(self).page == old(self).page,
            final(self).checkpoint_due(),
    {
        self.new_codes.push(alert.code.clone());
        if alert.date > self.latest_date {
            self.latest_date = alert.date;
        }
    }

    /// Decides, after a page with `items_len` alerts out of `count`, whether to
    /// ask for the next page; when so, the page number moves on.
    pub fn next_page(&mut self, items_len: usize, count: u64) -> (res: bool)
        requires
            old(self).wf(),
            old(self).page as int * (if items_len >= 1 { items_len as int } else { 1 })
                <= usize::MAX,
            count <= usize::MAX,
            more_pages(old(self).page, items_len as nat, count) ==> old(self).page < u32::MAX,
        ensures
            final(self).wf(),
            res == more_pages(old(self).page, items_len as nat, count),
            final(self).page == (if res { old(self).page + 1 } else { old(self).page as int }),
            final(self).latest_date == old(self).latest_date,
            final(self).last_polled_at == old(self).last_polled_at,
            final(self).seen_codes == old(self).seen_codes,
            final(self).new_codes == old(self).new_codes,
    {
        let per_page: usize = if items_len >= 1 {
            items_len
        } else {
            1
        };
        let fetched: usize = (self.page as usize) * per_page;
        if fetched >= count as usize || items_len == 0 {
            return false;
        }
        self.page = self.page + 1;
        true
    }

    /// The cursor date to save, if the cycle found new alerts or moved the cursor.
    pub fn checkpoint(&self) -> (res: Option<i128>)
        requires
            self.wf(),
        ensures
            (res is Some) == self.checkpoint_due(),
            res matches Some(d) ==> d == self.latest_date && d >= self.last_polled_at,
    {
        if self.new_codes.len() > 0 || self.latest_date > self.last_polled_at {
            Some(self.latest_date)
        } else {
            None
        }
    }
}

/// An alert is processed exactly when it is of public distribution, tagged
/// phishing, lists indicators, and was not processed before.
pub proof fn lemma_processed_iff(alert: Alert, seen: Seq<String>)
    ensures
        alert_verdict(alert, seen) == AlertVerdict::Process <==> (tlp_is_public(alert.tlp@)
            && tagged_phishing(alert.tags@) && alert.iocs@.len() > 0 && !seen_contains(
            seen,
            alert.code@,
        )),
{
}

/// Paging stops at the first empty page; otherwise it goes on exactly while the
/// pages fetched so far, of the size of this one, hold fewer alerts than the
/// total count.
pub proof fn lemma_paging(page: u32, items_len: nat, count: u64)
    ensures
        items_len == 0 ==> !more_pages(page, items_len, count),
        items_len > 0 ==> (more_pages(page, items_len, count) <==> page * items_len < count),
{
}

/// An alert already processed in an earlier cycle is never processed again,
/// and neither is an alert of restricted distribution.
pub proof fn lemma_no_reprocessing(alert: Alert, seen: Seq<String>)
    requires
        seen_contains(seen, alert.code@) || !tlp_is_public(alert.tlp@),
    ensures
        alert_verdict(alert, seen) != AlertVerdict::Process,
{
}

/// The codes stored after a cycle keep every code stored before, in order.
pub proof fn lemma_seen_codes_preserved(existing: Seq<String>, new_codes: Seq<String>)
    ensures
        (existing + new_codes).subrange(0, existing.len() as int) == existing,
        forall|i: int| 0 <= i < existing.len() ==> seen_contains(existing + new_codes, (
        #[trigger] existing[i])@),
{
    assert((existing + new_codes).subrange(0, existing.len() as int) =~= existing);
    assert forall|i: int| 0 <= i < existing.len() implies seen_contains(
        existing + new_codes,
        (#[trigger] existing[i])@,
    ) by {
        assert((existing + new_codes)[i] == existing[i]);
    }
}

} // verus!
