use trampantojo::chat::{format_response, verify_webhook, whatsapp_messages_url, CheckSummary, VerifyQuery};

fn query(mode: Option<&str>, token: Option<&str>, challenge: Option<&str>) -> VerifyQuery {
    VerifyQuery {
        mode: mode.map(String::from),
        verify_token: token.map(String::from),
        challenge: challenge.map(String::from),
    }
}

#[test]
fn webhook_subscription_checks() {
    assert_eq!(
        verify_webhook(query(Some("subscribe"), Some("secreto"), Some("123")), "secreto"),
        (200, "123".to_string())
    );
    assert_eq!(
        verify_webhook(query(Some("subscribe"), Some("otro"), Some("123")), "secreto"),
        (403, "Forbidden".to_string())
    );
    assert_eq!(
        verify_webhook(query(Some("unsubscribe"), Some("secreto"), Some("123")), "secreto"),
        (403, "Forbidden".to_string())
    );
    assert_eq!(
        verify_webhook(query(Some("subscribe"), Some("secreto"), None), "secreto"),
        (400, "Bad Request".to_string())
    );
}

fn summary(threat: bool, imp: Option<&str>, score: Option<&str>) -> CheckSummary {
    CheckSummary {
        value: "x.cl".into(),
        is_known_threat: threat,
        impersonates: imp.map(String::from),
        suspicious_score: score.map(String::from),
    }
}

#[test]
fn verdict_messages() {
    assert_eq!(
        format_response(&summary(true, Some("Banco"), None)),
        "🚨 *Peligro*: El dato 'x.cl' ha sido identificado como malicioso. Suplanta a: Banco."
    );
    assert_eq!(
        format_response(&summary(true, None, Some("0.90"))),
        "🚨 *Peligro*: El dato 'x.cl' ha sido identificado como malicioso. ¡No interactúes con él!"
    );
    assert_eq!(
        format_response(&summary(false, None, Some("0.55"))),
        "⚠️ *Precaución*: El dato 'x.cl' es sospechoso, pero aún no se confirma como amenaza (score: 0.55)."
    );
    assert_eq!(
        format_response(&summary(false, Some("Banco"), None)),
        "✅ *Seguro*: El dato 'x.cl' no parece ser una amenaza conocida por ahora."
    );
}

#[test]
fn messages_endpoint_needs_credentials() {
    assert_eq!(
        whatsapp_messages_url("t", "123"),
        Some("https://graph.facebook.com/v17.0/123/messages".to_string())
    );
    assert_eq!(whatsapp_messages_url("", "123"), None);
    assert_eq!(whatsapp_messages_url("t", ""), None);
}
