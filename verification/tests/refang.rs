use trampantojo::indicator::{canonical_form, normalize_ioc_value, refang};

#[test]
fn punto_entre_corchetes() {
    assert_eq!(refang("ejemplo[.]com"), "ejemplo.com");
}

#[test]
fn multiples_puntos_defangeados() {
    assert_eq!(refang("sub[.]ejemplo[.]com"), "sub.ejemplo.com");
}

#[test]
fn esquema_hxxps() {
    assert_eq!(refang("hxxps://ejemplo.com/login"), "https://ejemplo.com/login");
}

#[test]
fn esquema_hxxp() {
    assert_eq!(refang("hxxp://ejemplo[.]com"), "http://ejemplo.com");
}

#[test]
fn combinado_esquema_y_dominio() {
    assert_eq!(
        refang("hxxps://banco-falso[.]cl/login"),
        "https://banco-falso.cl/login"
    );
}

#[test]
fn dos_puntos_defangeados() {
    assert_eq!(refang("192[.]168[.]1[.]1[:]8080"), "192.168.1.1:8080");
}

#[test]
fn valor_limpio_no_se_altera() {
    assert_eq!(refang("ejemplo.com"), "ejemplo.com");
    assert_eq!(refang("https://ejemplo.com"), "https://ejemplo.com");
}

#[test]
fn trim_de_espacios() {
    assert_eq!(refang("  ejemplo[.]com  "), "ejemplo.com");
}

#[test]
fn refang_replaces_left_to_right_without_overlap() {
    // After the first "[.]" is replaced, the brackets left around it are not a new match.
    assert_eq!(refang("[[.].]"), "[..]");
    assert_eq!(refang("[.][.]"), "..");
}

#[test]
fn refang_trims_unicode_white_space() {
    assert_eq!(refang("\u{3000}\tejemplo[.]com\u{a0}\n"), "ejemplo.com");
}

#[test]
fn refang_schemes_before_characters() {
    assert_eq!(refang("hxxp[:]//x"), "hxxp://x");
}

#[test]
fn normalize_drops_scheme_www_and_slash() {
    assert_eq!(normalize_ioc_value("  HTTPS://WWW.Banco-Falso.CL/  "), "banco-falso.cl");
    assert_eq!(normalize_ioc_value("http://www.x.cl/login/"), "x.cl/login");
}

#[test]
fn normalize_removes_one_slash_and_one_www() {
    assert_eq!(normalize_ioc_value("www.www.x.cl//"), "www.x.cl/");
}

#[test]
fn normalize_lowercases_unicode() {
    assert_eq!(normalize_ioc_value("ÑANDÚ.CL"), "ñandú.cl");
}

#[test]
fn normalize_of_empty_value() {
    assert_eq!(normalize_ioc_value("   "), "");
    assert_eq!(normalize_ioc_value("/"), "");
}

#[test]
fn canonical_form_of_lowered_values() {
    assert_eq!(canonical_form("https://www.a.cl/"), "a.cl");
    assert_eq!(canonical_form("http://a.cl"), "a.cl");
    assert_eq!(canonical_form("ftp://a.cl"), "ftp://a.cl");
    assert_eq!(canonical_form("a.cl"), "a.cl");
}

#[test]
fn normalize_after_refang() {
    assert_eq!(
        normalize_ioc_value(&refang("hxxps://WWW.banco-falso[.]cl/")),
        "banco-falso.cl"
    );
}

#[test]
fn surrounding_space_does_not_change_the_normal_form() {
    assert_eq!(normalize_ioc_value(" \tBanco.CL\n"), normalize_ioc_value("Banco.CL"));
}

#[test]
fn any_surrounding_white_space_is_ignored() {
    for (p, q) in [("", ""), ("  ", "  "), ("\u{3000}\t", "\n\u{a0}"), ("", "\r\n")] {
        let raw = format!("{p}HTTPS://WWW.Banco-Falso.cl/{q}");
        assert_eq!(normalize_ioc_value(&raw), "banco-falso.cl");
    }
}

#[test]
fn ascii_case_never_changes_the_normal_form() {
    for s in ["https://www.Banco-Falso.cl/", "  Phish.Example.COM ", "192.168.0.1", "hTTp://x.cl/a/"] {
        assert_eq!(normalize_ioc_value(&s.to_ascii_uppercase()), normalize_ioc_value(s));
        assert_eq!(normalize_ioc_value(&s.to_ascii_lowercase()), normalize_ioc_value(s));
    }
}
