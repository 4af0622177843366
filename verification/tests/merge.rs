use trampantojo::indicator::{
    carried, corroboration_reason, IndicatorType, Ioc, IocStatus, MergeAction, Source,
};
use trampantojo::storage::resolve_upsert;

fn base_ioc(source: Source, last_seen: i128) -> Ioc {
    Ioc {
        indicator_type: IndicatorType::Domain,
        value: "banco-de-chile-verificacion.cl".into(),
        source,
        status: IocStatus::Active,
        impersonates: Some("Banco de Chile".into()),
        first_seen: 100,
        last_seen,
    }
}

#[test]
fn official_confirmado_no_se_degrada_por_comunidad_posterior() {
    let existing = base_ioc(Source::Official { issuer: "CSIRT".into(), advisory_url: None }, 100);
    let incoming = base_ioc(Source::Community { corroborations: 0 }, 200);
    let merged = Ioc::merge(Some(existing), incoming);
    assert!(matches!(merged.ioc.source, Source::Official { .. }));
    // The known official score is kept.
    assert_eq!(merged.action, MergeAction::OfficialKept);
    assert_eq!(merged.ioc.last_seen, 200);
}

#[test]
fn oficial_entrante_siempre_pisa_estado_previo() {
    let existing = base_ioc(Source::Community { corroborations: 3 }, 100);
    let incoming = base_ioc(Source::Official { issuer: "ANCI".into(), advisory_url: None }, 50);
    let merged = Ioc::merge(Some(existing), incoming);
    assert!(matches!(merged.ioc.source, Source::Official { .. }));
    assert_eq!(merged.action, MergeAction::OfficialOverride);
    assert_eq!(merged.ioc.last_seen, 50);
}

#[test]
fn comunidad_acumula_corroboraciones_sin_cruzar_el_tope() {
    let existing = base_ioc(Source::Community { corroborations: 0 }, 100);
    let incoming = base_ioc(Source::Community { corroborations: 0 }, 90);
    let merged = Ioc::merge(Some(existing), incoming);
    if let Source::Community { corroborations } = merged.ioc.source {
        assert_eq!(corroborations, 1);
    } else {
        panic!("se esperaba Source::Community");
    }
    // The score is recomputed from the corroboration count.
    assert_eq!(merged.action, MergeAction::Corroborated);
    assert_eq!(merged.ioc.last_seen, 100);
}

#[test]
fn merge_into_nothing_inserts() {
    let incoming = base_ioc(Source::Community { corroborations: 1 }, 7);
    let merged = Ioc::merge(None, incoming);
    assert_eq!(merged.action, MergeAction::Inserted);
    assert_eq!(merged.ioc.last_seen, 7);
}

#[test]
fn official_report_replaces_official_state() {
    let existing = base_ioc(Source::Official { issuer: "CSIRT".into(), advisory_url: None }, 300);
    let incoming = base_ioc(Source::Official { issuer: "ANCI".into(), advisory_url: None }, 200);
    let merged = Ioc::merge(Some(existing), incoming);
    assert_eq!(merged.action, MergeAction::OfficialOverride);
    match merged.ioc.source {
        Source::Official { issuer, .. } => assert_eq!(issuer, "ANCI"),
        _ => panic!("official expected"),
    }
    assert_eq!(merged.ioc.last_seen, 200);
}

#[test]
fn duplicate_report_changes_nothing() {
    let existing = base_ioc(Source::Community { corroborations: 4 }, 100);
    let incoming = base_ioc(Source::Community { corroborations: 1 }, 200);
    let outcome = resolve_upsert(Some(existing), incoming, true);
    assert!(outcome.merge.is_none());
    assert!(matches!(outcome.ioc.source, Source::Community { corroborations: 4 }));
    assert_eq!(outcome.ioc.last_seen, 100);
}

#[test]
fn duplicate_report_of_unknown_indicator_returns_incoming() {
    let incoming = base_ioc(Source::Community { corroborations: 1 }, 200);
    let outcome = resolve_upsert(None, incoming, true);
    assert!(outcome.merge.is_none());
    assert_eq!(outcome.ioc.last_seen, 200);
}

#[test]
fn fresh_report_is_merged() {
    let existing = base_ioc(Source::Community { corroborations: 4 }, 100);
    let incoming = base_ioc(Source::Community { corroborations: 1 }, 200);
    let outcome = resolve_upsert(Some(existing), incoming, false);
    assert_eq!(outcome.merge, Some(MergeAction::Corroborated));
    assert!(matches!(outcome.ioc.source, Source::Community { corroborations: 5 }));
}

#[test]
fn successive_community_reports_add_one_each() {
    let mut state = Ioc::merge(None, base_ioc(Source::Community { corroborations: 1 }, 1)).ioc;
    for t in 2..=4 {
        state = Ioc::merge(Some(state), base_ioc(Source::Community { corroborations: 1 }, t)).ioc;
    }
    assert!(matches!(state.source, Source::Community { corroborations: 4 }));
    assert_eq!(state.last_seen, 4);
}

#[test]
fn official_state_survives_any_reports() {
    let mut state = base_ioc(Source::Official { issuer: "CSIRT".into(), advisory_url: None }, 1);
    for t in 2..=4 {
        state = Ioc::merge(Some(state), base_ioc(Source::Community { corroborations: 1 }, t)).ioc;
    }
    assert!(matches!(state.source, Source::Official { .. }));
}

#[test]
fn carried_identifier_and_score_follow_the_merge() {
    let known = Some(("old", 7u8));
    let incoming = ("new", 9u8);
    assert_eq!(carried(Some(MergeAction::Inserted), None, incoming), ("new", Some(9)));
    assert_eq!(carried(Some(MergeAction::OfficialOverride), known, incoming), ("new", Some(9)));
    assert_eq!(carried(Some(MergeAction::OfficialKept), known, incoming), ("old", Some(7)));
    assert_eq!(carried(Some(MergeAction::Corroborated), known, incoming), ("old", None));
    assert_eq!(carried(None, known, incoming), ("old", Some(7)));
    assert_eq!(carried(None, None, incoming), ("new", Some(9)));
    assert_eq!(corroboration_reason(3), "3 reportes comunitarios corroborados");
    assert_eq!(corroboration_reason(0), "0 reportes comunitarios corroborados");
    assert_eq!(corroboration_reason(4_294_967_295), "4294967295 reportes comunitarios corroborados");
}
