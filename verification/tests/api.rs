use trampantojo::api::{
    authenticate, check_response, FoundIndicator, community_report, prepare_registration, prefixed_api_key, rate_limit_subject,
    rate_limit_verdict, reporter_hash, stats_window_days, ApiError, Claims, IndicatorTypeInput,
    KeyLookup, LoginRequest, RegisterRequest, ReportParams, StatsParams,
};
use trampantojo::indicator::{IndicatorType, IocStatus, Source};

#[test]
fn error_statuses_and_messages() {
    let (s, b) = ApiError::BadRequest("falta".into()).into_parts();
    assert_eq!((s, b.error.as_str()), (400, "falta"));
    let (s, b) = ApiError::Unauthorized("no".into()).into_parts();
    assert_eq!((s, b.error.as_str()), (401, "no"));
    let (s, b) = ApiError::TooManyRequests.into_parts();
    assert_eq!((s, b.error.as_str()), (429, "demasiadas peticiones"));
    let (s, b) = ApiError::Internal.into_parts();
    assert_eq!((s, b.error.as_str()), (500, "error interno, inténtalo de nuevo"));
    let (s, b) = ApiError::unreadable_query().into_parts();
    assert_eq!((s, b.error.as_str()), (400, "falta el parámetro obligatorio 'value'"));
}

#[test]
fn community_report_is_normalized_with_one_corroboration() {
    let ioc = community_report(
        ReportParams {
            indicator_type: IndicatorTypeInput::Url,
            value: " HTTPS://www.Falso.cl/ ".into(),
            impersonates: Some("Banco".into()),
        },
        5,
        6,
    );
    assert_eq!(ioc.indicator_type, IndicatorType::Url);
    assert_eq!(ioc.value, "falso.cl");
    assert!(matches!(ioc.source, Source::Community { corroborations: 1 }));
    assert_eq!(ioc.status, IocStatus::Active);
    assert_eq!(ioc.impersonates.as_deref(), Some("Banco"));
    assert_eq!((ioc.first_seen, ioc.last_seen), (5, 6));
    assert_eq!(IndicatorType::from(IndicatorTypeInput::PhoneNumber), IndicatorType::PhoneNumber);
}

#[test]
fn reporter_hash_is_sha256_hex() {
    assert_eq!(
        reporter_hash(""),
        "e3b0c44298fc1c149afbf4c8996fb92427ae41e4649b934ca495991b7852b855"
    );
    assert_eq!(
        reporter_hash("abc"),
        "ba7816bf8f01cfea414140de5dae2223b00361a396177a9cb410ff61f20015ad"
    );
}

#[test]
fn stats_window_is_clamped() {
    assert_eq!(stats_window_days(&StatsParams { days: None }), 7);
    assert_eq!(stats_window_days(&StatsParams { days: Some(0) }), 1);
    assert_eq!(stats_window_days(&StatsParams { days: Some(30) }), 30);
    assert_eq!(stats_window_days(&StatsParams { days: Some(365) }), 90);
}

fn register(password: &str) -> RegisterRequest {
    RegisterRequest { email: "a@b.cl".into(), password: password.into() }
}

fn login(password: &str) -> LoginRequest {
    LoginRequest { email: "a@b.cl".into(), password: password.into() }
}

#[test]
fn registration_rules() {
    match prepare_registration(&register("corta"), false) {
        Err(ApiError::BadRequest(m)) => assert_eq!(m, "Password must be at least 8 characters"),
        _ => panic!("short password must be refused"),
    }
    match prepare_registration(&register("suficiente"), true) {
        Err(ApiError::BadRequest(m)) => assert_eq!(m, "User with this email already exists"),
        _ => panic!("taken email must be refused"),
    }
    // Eight bytes, fewer characters.
    assert!(!matches!(prepare_registration(&register("ññññ"), false), Err(ApiError::BadRequest(_))));
}

#[test]
fn login_against_registered_hash() {
    let hash = match prepare_registration(&register("contraseña-larga"), false) {
        Ok(h) => h,
        _ => panic!("registration expected"),
    };
    assert!(authenticate(&login("contraseña-larga"), Some(&hash)).is_ok());
    match authenticate(&login("otra-contraseña"), Some(&hash)) {
        Err(ApiError::Unauthorized(m)) => assert_eq!(m, "Invalid email or password"),
        _ => panic!("wrong password must be refused"),
    }
    assert!(matches!(authenticate(&login("x"), None), Err(ApiError::Unauthorized(_))));
    assert!(matches!(authenticate(&login("x"), Some("not a hash")), Err(ApiError::Unauthorized(_))));
}

#[test]
fn session_claims_expire_in_a_day() {
    let c = Claims::issue("a@b.cl", "org".into(), "admin", 1_000);
    assert_eq!(c.sub, "a@b.cl");
    assert_eq!(c.exp, 1_000 + 86_400);
    assert_eq!(c.org_id, "org");
    assert_eq!(c.role, "admin");
}

#[test]
fn api_keys_are_prefixed_without_dashes() {
    assert_eq!(
        prefixed_api_key("67e55044-10b1-426f-9247-bb680e5fe0c8"),
        "tr_67e5504410b1426f9247bb680e5fe0c8"
    );
}

#[test]
fn rate_limit_subjects() {
    let s = rate_limit_subject(KeyLookup::NoKey, "1.2.3.4", 10, 1).ok().unwrap();
    assert_eq!((s.identifier.as_str(), s.capacity, s.refill_rate), ("ip:1.2.3.4", 10, 1));
    let s = rate_limit_subject(
        KeyLookup::Active { key_hash: "abc".into(), capacity: 100, refill_rate: 5 },
        "1.2.3.4",
        10,
        1,
    )
    .ok()
    .unwrap();
    assert_eq!((s.identifier.as_str(), s.capacity, s.refill_rate), ("api_key:abc", 100, 5));
    match rate_limit_subject(KeyLookup::Rejected, "1.2.3.4", 10, 1) {
        Err(ApiError::Unauthorized(m)) => assert_eq!(m, "API Key inválida o inactiva"),
        _ => panic!("rejected key expected"),
    }
    assert!(matches!(rate_limit_subject(KeyLookup::Failed, "x", 1, 1), Err(ApiError::Internal)));
}

#[test]
fn rate_limit_verdicts() {
    assert!(rate_limit_verdict(Some(true)).is_ok());
    assert!(matches!(rate_limit_verdict(Some(false)), Err(ApiError::TooManyRequests)));
    assert!(matches!(rate_limit_verdict(None), Err(ApiError::Internal)));
}

#[test]
fn check_answers_disclose_only_confirmed_threats() {
    let r = check_response(
        "x.cl".to_string(),
        Some(FoundIndicator { trust_value: 0.95f32, actionable: true, impersonates: Some("Banco".into()) }),
    );
    assert!(r.is_known_threat);
    assert_eq!(r.trust_value, Some(0.95));
    assert_eq!(r.impersonates.as_deref(), Some("Banco"));
    let r = check_response(
        "x.cl".to_string(),
        Some(FoundIndicator { trust_value: 0.5f32, actionable: false, impersonates: Some("Banco".into()) }),
    );
    assert!(!r.is_known_threat);
    assert_eq!(r.trust_value, Some(0.5));
    assert_eq!(r.impersonates, None);
    let r = check_response::<f32>("y.cl".to_string(), None);
    assert_eq!((r.value.as_str(), r.is_known_threat, r.trust_value, r.impersonates), ("y.cl", false, None, None));
}
