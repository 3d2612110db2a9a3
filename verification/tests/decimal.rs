use viviendas::decimal::{parse_i32, texto_i32};

#[test]
fn lee_enteros_sin_signo() {
    assert_eq!(parse_i32("0"), Some(0));
    assert_eq!(parse_i32("4"), Some(4));
    assert_eq!(parse_i32("28350"), Some(28350));
    assert_eq!(parse_i32("2147483647"), Some(i32::MAX));
}

#[test]
fn lee_enteros_con_signo() {
    assert_eq!(parse_i32("-1"), Some(-1));
    assert_eq!(parse_i32("+7"), Some(7));
    assert_eq!(parse_i32("-0"), Some(0));
    assert_eq!(parse_i32("-2147483648"), Some(i32::MIN));
}

#[test]
fn lee_ceros_a_la_izquierda() {
    assert_eq!(parse_i32("007"), Some(7));
    assert_eq!(parse_i32("-00012"), Some(-12));
    assert_eq!(parse_i32("00000000000000000000001"), Some(1));
}

#[test]
fn rechaza_lo_que_no_cabe() {
    assert_eq!(parse_i32("2147483648"), None);
    assert_eq!(parse_i32("-2147483649"), None);
    assert_eq!(parse_i32("99999999999999999999999999"), None);
    assert_eq!(parse_i32("-99999999999999999999999999"), None);
}

#[test]
fn rechaza_lo_que_no_es_un_numero() {
    assert_eq!(parse_i32(""), None);
    assert_eq!(parse_i32("-"), None);
    assert_eq!(parse_i32("+"), None);
    assert_eq!(parse_i32(" 1"), None);
    assert_eq!(parse_i32("1 "), None);
    assert_eq!(parse_i32("1C"), None);
    assert_eq!(parse_i32("--1"), None);
    assert_eq!(parse_i32("1_000"), None);
    assert_eq!(parse_i32("0x10"), None);
    assert_eq!(parse_i32("1.5"), None);
    assert_eq!(parse_i32("٣"), None);
    assert_eq!(parse_i32("99999999999999999999999999x"), None);
}

#[test]
fn lee_igual_que_la_biblioteca_estandar() {
    let casos = [
        "0", "-0", "+0", "12", "-12", "+12", "0012", "2147483647", "2147483648", "-2147483648",
        "-2147483649", "", "-", "+", "a", "1a", " 1", "1 ", "+-1", "１",
    ];
    for caso in casos {
        assert_eq!(parse_i32(caso), caso.parse::<i32>().ok(), "{:?}", caso);
    }
}

#[test]
fn escribe_enteros() {
    assert_eq!(texto_i32(0), "0");
    assert_eq!(texto_i32(4), "4");
    assert_eq!(texto_i32(10), "10");
    assert_eq!(texto_i32(100), "100");
    assert_eq!(texto_i32(28350), "28350");
    assert_eq!(texto_i32(-1), "-1");
    assert_eq!(texto_i32(-40), "-40");
    assert_eq!(texto_i32(i32::MAX), "2147483647");
    assert_eq!(texto_i32(i32::MIN), "-2147483648");
}

#[test]
fn lo_escrito_se_lee_igual() {
    let casos = [0, 1, -1, 9, 10, 11, 99, 100, 101, -999, 1000, 123456789, i32::MAX, i32::MIN];
    for n in casos {
        assert_eq!(parse_i32(&texto_i32(n)), Some(n));
        assert_eq!(texto_i32(n), n.to_string());
    }
}
