//! The messaging bot: extracting indicators from a message, verifying the
//! webhook subscription, and writing the verdict back to the user.
use vstd::prelude::*;
use crate::text::{chars_equal, concat, contains_seq, opt_view, to_chars};

verus! {

// ---------------------------------------------------------------------
// Extraction
// ---------------------------------------------------------------------

/// An indicator found in a message.
#[derive(Debug, Clone, PartialEq, Eq)]
pub enum ExtractedItem {
    Url(String),
    Ip(String),
    Hash(String),
}

/// URLs (with a scheme or starting with `www.`).
pub const URL_PATTERN: &'static str = r"(?i)\b(?:https?://|www\.)[^\s()<>]+(?:\([\w\d]+\)|([^[:punct:]\s]|/))";

/// IPv4 addresses.
pub const IP_PATTERN: &'static str = r"\b(?:(?:25[0-5]|2[0-4][0-9]|[01]?[0-9][0-9]?)\.){3}(?:25[0-5]|2[0-4][0-9]|[01]?[0-9][0-9]?)\b";

/// MD5 (32 hex digits), SHA-1 (40) and SHA-256 (64) digests.
pub const HASH_PATTERN: &'static str = r"\b([a-fA-F0-9]{32}|[a-fA-F0-9]{40}|[a-fA-F0-9]{64})\b";

/// The successive non-overlapping matches of a regular expression in a text,
/// as the `regex` crate finds them, or none when the pattern does not compile.
pub uninterp spec fn regex_find_all(pattern: Seq<char>, text: Seq<char>) -> Option<Seq<Seq<char>>>;

/// Compiles `pattern` with `regex::Regex::new` and collects the text of every
/// match of `Regex::find_iter` over `text`; the result is named `regex_find_all`,
/// with a pattern that does not compile giving none. As the crate documents,
/// each match is a substring of the text (`Match::as_str`).
#[verifier::external_body]
fn find_all(pattern: &str, text: &str) -> (res: Option<Vec<String>>)
    ensures
        match (res, regex_find_all(pattern@, text@)) {
            (Some(v), Some(m)) => v@.len() == m.len() && forall|i: int|
                0 <= i < m.len() ==> #[trigger] v@[i]@ == m[i],
            (None, None) => true,
            _ => false,
        },
        res matches Some(v) ==> forall|i: int|
            0 <= i < v@.len() ==> contains_seq(text@, #[trigger] v@[i]@),
{
    match regex::Regex::new(pattern) {
        Ok(re) => Some(re.find_iter(text).map(|m| m.as_str().to_string()).collect()),
        Err(_) => None,
    }
}

pub open spec fn item_text(item: ExtractedItem) -> Seq<char> {
    match item {
        ExtractedItem::Url(s) => s@,
        ExtractedItem::Ip(s) => s@,
        ExtractedItem::Hash(s) => s@,
    }
}

/// The matches of `pattern` in `text`, empty when it does not compile.
pub open spec fn matches_of(pattern: Seq<char>, text: Seq<char>) -> Seq<Seq<char>> {
    match regex_find_all(pattern, text) {
        Some(m) => m,
        None => Seq::empty(),
    }
}

/// What a message yields: its URLs, then its IPv4 addresses, then its digests.
pub open spec fn extracted_items_ok(items: Seq<ExtractedItem>, text: Seq<char>) -> bool {
    let u = matches_of(URL_PATTERN@, text);
    let p = matches_of(IP_PATTERN@, text);
    let h = matches_of(HASH_PATTERN@, text);
    &&& items.len() == u.len() + p.len() + h.len()
    &&& forall|i: int| 0 <= i < u.len() ==> (#[trigger] items[i]) is Url && item_text(items[i]) == u[i]
    &&& forall|i: int|
        0 <= i < p.len() ==> (#[trigger] items[u.len() + i]) is Ip && item_text(items[u.len() + i])
            == p[i]
    &&& forall|i: int|
        0 <= i < h.len() ==> (#[trigger] items[u.len() + p.len() + i]) is Hash && item_text(
            items[u.len() + p.len() + i],
        ) == h[i]
}

/// Extracts URLs, IPv4 addresses and digests from a message, in that order,
/// each kind in the order found. Overlaps between kinds are all kept.
pub fn parse_message(text: &str) -> (res: Vec<ExtractedItem>)
    ensures
        extracted_items_ok(res@, text@),
        forall|i: int| 0 <= i < res@.len() ==> contains_seq(text@, item_text(#[trigger] res@[i])),
{
    let mut items: Vec<ExtractedItem> = Vec::new();
    let urls = match find_all(URL_PATTERN, text) {
        Some(v) => v,
        None => Vec::new(),
    };
    let nu = urls.len();
    for i in 0..nu
        invariant
            nu == urls@.len() == matches_of(URL_PATTERN@, text@).len(),
            forall|k: int| 0 <= k < nu ==> #[trigger] urls@[k]@ == matches_of(URL_PATTERN@, text@)[k],
            items@.len() == i,
            forall|k: int| 0 <= k < nu ==> contains_seq(text@, #[trigger] urls@[k]@),
            forall|k: int| 0 <= k < items@.len() ==> contains_seq(text@, item_text(#[trigger] items@[k])),
            forall|k: int|
                0 <= k < i ==> (#[trigger] items@[k]) is Url && item_text(items@[k]) == matches_of(
                    URL_PATTERN@,
                    text@,
                )[k],
    {
        items.push(ExtractedItem::Url(urls[i].clone()));
    }
    let ips = match find_all(IP_PATTERN, text) {
        Some(v) => v,
        None => Vec::new(),
    };
    let np = ips.len();
    for i in 0..np
        invariant
            nu == matches_of(URL_PATTERN@, text@).len(),
            np == ips@.len() == matches_of(IP_PATTERN@, text@).len(),
            forall|k: int| 0 <= k < np ==> #[trigger] ips@[k]@ == matches_of(IP_PATTERN@, text@)[k],
            items@.len() == nu + i,
            forall|k: int| 0 <= k < np ==> contains_seq(text@, #[trigger] ips@[k]@),
            forall|k: int| 0 <= k < items@.len() ==> contains_seq(text@, item_text(#[trigger] items@[k])),
            forall|k: int|
                0 <= k < nu ==> (#[trigger] items@[k]) is Url && item_text(items@[k]) == matches_of(
                    URL_PATTERN@,
                    text@,
                )[k],
            forall|k: int|
                0 <= k < i ==> (#[trigger] items@[nu + k]) is Ip && item_text(items@[nu + k])
                    == matches_of(IP_PATTERN@, text@)[k],
    {
        items.push(ExtractedItem::Ip(ips[i].clone()));
    }
    let hashes = match find_all(HASH_PATTERN, text) {
        Some(v) => v,
        None => Vec::new(),
    };
    let nh = hashes.len();
    for i in 0..nh
        invariant
            nu == matches_of(URL_PATTERN@, text@).len(),
            np == matches_of(IP_PATTERN@, text@).len(),
            nh == hashes@.len() == matches_of(HASH_PATTERN@, text@).len(),
            forall|k: int|
                0 <= k < nh ==> #[trigger] hashes@[k]@ == matches_of(HASH_PATTERN@, text@)[k],
            items@.len() == nu + np + i,
            forall|k: int| 0 <= k < nh ==> contains_seq(text@, #[trigger] hashes@[k]@),
            forall|k: int| 0 <= k < items@.len() ==> contains_seq(text@, item_text(#[trigger] items@[k])),
            forall|k: int|
                0 <= k < nu ==> (#[trigger] items@[k]) is Url && item_text(items@[k]) == matches_of(
                    URL_PATTERN@,
                    text@,
                )[k],
            forall|k: int|
                0 <= k < np ==> (#[trigger] items@[nu + k]) is Ip && item_text(items@[nu + k])
                    == matches_of(IP_PATTERN@, text@)[k],
            forall|k: int|
                0 <= k < i ==> (#[trigger] items@[nu + np + k]) is Hash && item_text(
                    items@[nu + np + k],
                ) == matches_of(HASH_PATTERN@, text@)[k],
    {
        items.push(ExtractedItem::Hash(hashes[i].clone()));
    }
    items
}

// ---------------------------------------------------------------------
// Webhook subscription
// ---------------------------------------------------------------------

/// The reply to a subscription check: a status code and its body.
pub open spec fn webhook_reply(
    mode: Option<Seq<char>>,
    token: Option<Seq<char>>,
    challenge: Option<Seq<char>>,
    expected: Seq<char>,
) -> (u16, Seq<char>) {
    match (mode, token, challenge) {
        (Some(m), Some(t), Some(c)) => if m == "subscribe"@ && t == expected {
            (200, c)
        } else {
            (403, "Forbidden"@)
        },
        _ => (400, "Bad Request"@),
    }
}

/// The challenge is echoed back, with status 200, only to a `subscribe` check
/// carrying the expected token; any other complete check is forbidden (403),
/// and a check missing a parameter is a bad request (400).
pub proof fn lemma_webhook_answers(
    mode: Option<Seq<char>>,
    token: Option<Seq<char>>,
    challenge: Option<Seq<char>>,
    expected: Seq<char>,
)
    ensures
        webhook_reply(mode, token, challenge, expected).0 == 200 <==> (mode == Some("subscribe"@)
            && token == Some(expected) && challenge is Some),
        webhook_reply(mode, token, challenge, expected).0 == 200 ==> Some(
            webhook_reply(mode, token, challenge, expected).1,
        ) == challenge,
        webhook_reply(mode, token, challenge, expected).0 == 400 <==> (mode is None || token is None
            || challenge is None),
        webhook_reply(mode, token, challenge, expected).0 == 200 || webhook_reply(
            mode,
            token,
            challenge,
            expected,
        ).0 == 403 || webhook_reply(mode, token, challenge, expected).0 == 400,
{
}

/// The parameters of a subscription check (`hub.mode`, `hub.verify_token`,
/// `hub.challenge`).
#[derive(Debug)]
pub struct VerifyQuery {
    pub mode: Option<String>,
    pub verify_token: Option<String>,
    pub challenge: Option<String>,
}

/// Answers the subscription check of the messaging platform: the challenge is
/// echoed back only for a `subscribe` request carrying the expected token;
/// a check missing a parameter is a bad request.
pub fn verify_webhook(params: VerifyQuery, expected_token: &str) -> (res: (u16, String))
    ensures
        (res.0, res.1@) == webhook_reply(
            opt_view(params.mode),
            opt_view(params.verify_token),
            opt_view(params.challenge),
            expected_token@,
        ),
{
    match (params.mode, params.verify_token, params.challenge) {
        (Some(m), Some(t), Some(c)) => {
            let mc = to_chars(m.as_str());
            let sub = to_chars("subscribe");
            let tc = to_chars(t.as_str());
            let ec = to_chars(expected_token);
            if chars_equal(mc.as_slice(), sub.as_slice()) && chars_equal(
                tc.as_slice(),
                ec.as_slice(),
            ) {
                (200, c)
            } else {
                (403, "Forbidden".to_owned())
            }
        },
        _ => (400, "Bad Request".to_owned()),
    }
}

// ---------------------------------------------------------------------
// Verdict messages
// ---------------------------------------------------------------------

/// What the API said of an indicator, as the bot words it. The suspicion score
/// is present, already written with two decimals, only when the indicator is
/// known with a score above 0.4 without being a confirmed threat.
#[derive(Debug)]
pub struct CheckSummary {
    pub value: String,
    pub is_known_threat: bool,
    pub impersonates: Option<String>,
    pub suspicious_score: Option<String>,
}

pub open spec fn response_text(c: CheckSummary) -> Seq<char> {
    if c.is_known_threat {
        match c.impersonates {
            Some(i) => "🚨 *Peligro*: El dato '"@ + c.value@
                + "' ha sido identificado como malicioso. Suplanta a: "@ + i@ + "."@,
            None => "🚨 *Peligro*: El dato '"@ + c.value@
                + "' ha sido identificado como malicioso. ¡No interactúes con él!"@,
        }
    } else {
        match c.suspicious_score {
            Some(score) => "⚠️ *Precaución*: El dato '"@ + c.value@
                + "' es sospechoso, pero aún no se confirma como amenaza (score: "@ + score@
                + ")."@,
            None => "✅ *Seguro*: El dato '"@ + c.value@
                + "' no parece ser una amenaza conocida por ahora."@,
        }
    }
}

/// Writes the verdict on an indicator as a friendly chat message.
pub fn format_response(check: &CheckSummary) -> (res: String)
    ensures
        res@ == response_text(*check),
{
    if check.is_known_threat {
        let head = concat("🚨 *Peligro*: El dato '", check.value.as_str());
        match &check.impersonates {
            Some(i) => {
                let a = concat(head.as_str(), "' ha sido identificado como malicioso. Suplanta a: ");
                let b = concat(a.as_str(), i.as_str());
                concat(b.as_str(), ".")
            },
            None => concat(
                head.as_str(),
                "' ha sido identificado como malicioso. ¡No interactúes con él!",
            ),
        }
    } else {
        match &check.suspicious_score {
            Some(score) => {
                let head = concat("⚠️ *Precaución*: El dato '", check.value.as_str());
                let a = concat(
                    head.as_str(),
                    "' es sospechoso, pero aún no se confirma como amenaza (score: ",
                );
                let b = concat(a.as_str(), score.as_str());
                concat(b.as_str(), ").")
            },
            None => {
                let head = concat("✅ *Seguro*: El dato '", check.value.as_str());
                concat(head.as_str(), "' no parece ser una amenaza conocida por ahora.")
            },
        }
    }
}

/// The messages endpoint of the messaging API for a phone number, or none when
/// a credential is missing (then nothing is sent).
pub fn whatsapp_messages_url(token: &str, phone_number_id: &str) -> (res: Option<String>)
    ensures
        (token@.len() == 0 || phone_number_id@.len() == 0) <==> res is None,
        res matches Some(u) ==> u@ == "https://graph.facebook.com/v17.0/"@ + phone_number_id@
            + "/messages"@,
{
    if token.is_empty() || phone_number_id.is_empty() {
        return None;
    }
    let head = concat("https://graph.facebook.com/v17.0/", phone_number_id);
    Some(concat(head.as_str(), "/messages"))
}

} // verus!
