use trampantojo::csirt::{is_phishing, is_tlp_public, map_ioc_type, parse_impersonates};
use trampantojo::indicator::IndicatorType;

#[test]
fn tlp_clear_es_publico() {
    assert!(is_tlp_public("TLP:CLEAR"));
}

#[test]
fn tlp_white_legacy_es_publico() {
    assert!(is_tlp_public("TLP:WHITE"));
}

#[test]
fn tlp_amber_no_es_publico() {
    assert!(!is_tlp_public("TLP:AMBER"));
}

#[test]
fn tlp_red_no_es_publico() {
    assert!(!is_tlp_public("TLP:RED"));
}

#[test]
fn tlp_green_no_es_publico() {
    assert!(!is_tlp_public("TLP:GREEN"));
}

#[test]
fn tlp_ignores_case_and_spaces() {
    assert!(is_tlp_public("  tlp:clear\n"));
    assert!(!is_tlp_public("TLP: CLEAR"));
}

#[test]
fn tag_phishing_detectado() {
    let tags = vec!["fraude".to_string(), "phishing".to_string()];
    assert!(is_phishing(&tags));
}

#[test]
fn sin_tag_phishing() {
    let tags = vec!["vulnerabilidad".to_string(), "critica".to_string()];
    assert!(!is_phishing(&tags));
}

#[test]
fn tag_phishing_case_insensitive() {
    let tags = vec!["Phishing".to_string()];
    assert!(is_phishing(&tags));
}

#[test]
fn phishing_tag_must_be_whole() {
    let tags = vec!["phishing-sms".to_string(), " phishing".to_string()];
    assert!(!is_phishing(&tags));
    assert!(!is_phishing(&[]));
}

#[test]
fn url_mapeado() {
    assert_eq!(map_ioc_type("url"), Some(IndicatorType::Url));
}

#[test]
fn ipv4_mapeado() {
    assert_eq!(map_ioc_type("ipv4"), Some(IndicatorType::IpAddress));
}

#[test]
fn sha256_mapeado_como_file_hash() {
    assert_eq!(map_ioc_type("sha256"), Some(IndicatorType::FileHash));
}

#[test]
fn mitre_attck_descartado() {
    assert_eq!(map_ioc_type("mitre-attck"), None);
}

#[test]
fn tipo_desconocido_descartado() {
    assert_eq!(map_ioc_type("certificado-ssl"), None);
}

#[test]
fn map_ioc_type_ignores_case() {
    assert_eq!(map_ioc_type("DOMAIN"), Some(IndicatorType::Domain));
    assert_eq!(map_ioc_type("IPv6"), Some(IndicatorType::IpAddress));
    assert_eq!(map_ioc_type("MD5"), Some(IndicatorType::FileHash));
    assert_eq!(map_ioc_type(" url"), None);
}

#[test]
fn impersonated_entity_from_title() {
    assert_eq!(
        parse_impersonates("Banco de Chile - Campaña Fraudulenta"),
        Some("Banco de Chile".to_string())
    );
    assert_eq!(
        parse_impersonates("  Correos  - Campaign Fraudulenta"),
        Some("Correos".to_string())
    );
    assert_eq!(parse_impersonates("Vulnerabilidad crítica en Apache"), None);
}
