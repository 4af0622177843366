use trampantojo::indicator::{IndicatorType, IocStatus, Source};
use trampantojo::storage::{
    cache_key, cache_ttl, indicator_type_from_db, indicator_type_to_db, ioc_from_row, limit_reply,
    rate_limit_key, score_event_source, source_columns, source_from_db, source_kind_str,
    status_from_db, status_to_db, IocRow, RowError,
};

#[test]
fn indicator_types_round_trip() {
    for t in [
        IndicatorType::Domain,
        IndicatorType::Url,
        IndicatorType::IpAddress,
        IndicatorType::PhoneNumber,
        IndicatorType::FileHash,
    ] {
        assert_eq!(indicator_type_from_db(indicator_type_to_db(t)), Some(t));
    }
    assert_eq!(indicator_type_to_db(IndicatorType::IpAddress), "ip_address");
    assert_eq!(indicator_type_from_db("ipaddress"), None);
}

#[test]
fn statuses_round_trip() {
    for s in [IocStatus::Active, IocStatus::Expired, IocStatus::Disputed] {
        assert_eq!(status_from_db(status_to_db(s)), Some(s));
    }
    assert_eq!(status_from_db("Active"), None);
}

#[test]
fn source_columns_of_official_and_community() {
    let c = source_columns(Source::Official {
        issuer: "CSIRT Chile".into(),
        advisory_url: Some("https://x".into()),
    });
    assert_eq!(c.kind, "official");
    assert_eq!(c.issuer.as_deref(), Some("CSIRT Chile"));
    assert_eq!(c.advisory_url.as_deref(), Some("https://x"));
    assert_eq!(c.corroborations, 0);
    let c = source_columns(Source::Community { corroborations: 7 });
    assert_eq!(c.kind, "community");
    assert_eq!(c.issuer, None);
    assert_eq!(c.corroborations, 7);
    let c = source_columns(Source::Community { corroborations: 2_147_483_648 });
    assert_eq!(c.corroborations, i32::MIN);
}

#[test]
fn sources_read_back_from_columns() {
    assert!(matches!(
        source_from_db("community", None, None, -3),
        Some(Source::Community { corroborations: 0 })
    ));
    match source_from_db("official", None, None, 5) {
        Some(Source::Official { issuer, advisory_url }) => {
            assert_eq!(issuer, "");
            assert_eq!(advisory_url, None);
        }
        _ => panic!("official expected"),
    }
    assert!(source_from_db("other", None, None, 0).is_none());
    assert_eq!(source_kind_str(&Source::Community { corroborations: 1 }), "community");
}

fn row(indicator_type: &str, status: &str, kind: &str) -> IocRow {
    IocRow {
        indicator_type: indicator_type.into(),
        value: "x.cl".into(),
        status: status.into(),
        impersonates: None,
        source_kind: kind.into(),
        source_issuer: Some("CSIRT".into()),
        source_advisory_url: None,
        corroborations: 0,
        first_seen: 1,
        last_seen: 2,
    }
}

#[test]
fn rows_become_indicators() {
    let ioc = ioc_from_row(row("url", "expired", "official")).unwrap();
    assert_eq!(ioc.indicator_type, IndicatorType::Url);
    assert_eq!(ioc.status, IocStatus::Expired);
    assert_eq!(ioc.value, "x.cl");
    assert_eq!((ioc.first_seen, ioc.last_seen), (1, 2));
}

#[test]
fn unknown_literals_are_reported_in_order() {
    match ioc_from_row(row("mail", "zzz", "zzz")) {
        Err(e @ RowError::UnknownIndicatorType(_)) => {
            assert_eq!(e.message(), "indicator_type desconocido en la fila: mail")
        }
        _ => panic!("indicator type error expected"),
    }
    match ioc_from_row(row("url", "gone", "zzz")) {
        Err(e @ RowError::UnknownStatus(_)) => {
            assert_eq!(e.message(), "status desconocido en la fila: gone")
        }
        _ => panic!("status error expected"),
    }
    match ioc_from_row(row("url", "active", "bot")) {
        Err(e @ RowError::UnknownSourceKind(_)) => {
            assert_eq!(e.message(), "source_kind desconocido en la fila: bot")
        }
        _ => panic!("source kind error expected"),
    }
}

#[test]
fn scoring_event_source_fields() {
    let (issuer, n) = score_event_source(&Source::Official { issuer: "CSIRT".into(), advisory_url: None });
    assert_eq!(issuer.as_deref(), Some("CSIRT"));
    assert_eq!(n, 0);
    let (issuer, n) = score_event_source(&Source::Community { corroborations: 9 });
    assert_eq!(issuer, None);
    assert_eq!(n, 9);
}

#[test]
fn cache_keys_and_lifetimes() {
    assert_eq!(cache_key("banco.cl"), "ioc:cache:banco.cl");
    assert_eq!(cache_ttl(true, 600), 600);
    assert_eq!(cache_ttl(false, 600), 100);
    assert_eq!(cache_ttl(false, 5), 1);
    assert_eq!(cache_ttl(false, 0), 1);
}

#[test]
fn rate_limit_keys_and_replies() {
    assert_eq!(rate_limit_key("ip:1.2.3.4"), "ratelimit:ip:1.2.3.4");
    assert_eq!(limit_reply((1, 9)), (true, 9));
    assert_eq!(limit_reply((0, 0)), (false, 0));
    assert_eq!(limit_reply((1, -1)), (true, u32::MAX));
}

#[test]
fn sources_survive_their_columns() {
    let official = Source::Official { issuer: "CSIRT Chile".into(), advisory_url: Some("https://a".into()) };
    let c = source_columns(official);
    match source_from_db(c.kind, c.issuer, c.advisory_url, c.corroborations) {
        Some(Source::Official { issuer, advisory_url }) => {
            assert_eq!(issuer, "CSIRT Chile");
            assert_eq!(advisory_url.as_deref(), Some("https://a"));
        }
        _ => panic!("official expected"),
    }
    let c = source_columns(Source::Community { corroborations: 12 });
    assert!(matches!(
        source_from_db(c.kind, c.issuer, c.advisory_url, c.corroborations),
        Some(Source::Community { corroborations: 12 })
    ));
    // Past i32::MAX the stored count wraps negative and reads back as zero.
    let c = source_columns(Source::Community { corroborations: 2_147_483_648 });
    assert!(matches!(
        source_from_db(c.kind, c.issuer, c.advisory_url, c.corroborations),
        Some(Source::Community { corroborations: 0 })
    ));
}

#[test]
fn negative_count_reads_back_as_zero() {
    let mut r = row("domain", "active", "community");
    r.source_issuer = None;
    r.corroborations = -1;
    let ioc = ioc_from_row(r).unwrap();
    assert!(matches!(ioc.source, Source::Community { corroborations: 0 }));
    assert_eq!(ioc.indicator_type, IndicatorType::Domain);
    assert_eq!(ioc.status, IocStatus::Active);
}

#[test]
fn database_literals_read_back_to_the_same_values() {
    for t in [
        IndicatorType::Domain,
        IndicatorType::Url,
        IndicatorType::IpAddress,
        IndicatorType::PhoneNumber,
        IndicatorType::FileHash,
    ] {
        for s in [IocStatus::Active, IocStatus::Expired, IocStatus::Disputed] {
            let ioc = ioc_from_row(row(indicator_type_to_db(t), status_to_db(s), "community")).unwrap();
            assert_eq!(ioc.indicator_type, t);
            assert_eq!(ioc.status, s);
        }
    }
}
