use rrhh::texto::{contiene, decimal_i64, decimal_u64, dni_valido};
use rrhh::valor::{Cuerpo, Valor};

fn cuerpo(campos: Vec<(&str, Valor)>) -> Cuerpo {
    Cuerpo { campos: campos.into_iter().map(|(k, v)| (k.to_string(), v)).collect() }
}

#[test]
fn decimal_sin_signo() {
    assert_eq!(decimal_u64(0), "0");
    assert_eq!(decimal_u64(7), "7");
    assert_eq!(decimal_u64(10), "10");
    assert_eq!(decimal_u64(1234567890), "1234567890");
    assert_eq!(decimal_u64(u64::MAX), u64::MAX.to_string());
}

#[test]
fn decimal_con_signo() {
    assert_eq!(decimal_i64(0), "0");
    assert_eq!(decimal_i64(-42), "-42");
    assert_eq!(decimal_i64(2024), "2024");
    assert_eq!(decimal_i64(i64::MIN), i64::MIN.to_string());
    assert_eq!(decimal_i64(i64::MAX), i64::MAX.to_string());
}

#[test]
fn dni_de_ocho_cifras() {
    assert!(dni_valido("12345678"));
    assert!(dni_valido("00000000"));
    assert!(!dni_valido("1234567"));
    assert!(!dni_valido("123456789"));
    assert!(!dni_valido("1234567a"));
    assert!(!dni_valido(""));
    assert!(!dni_valido("１２３４５６７８"));
    assert!(!dni_valido("1234é67"));
}

#[test]
fn patron_de_busqueda() {
    assert_eq!(contiene("ana"), "%ana%");
    assert_eq!(contiene(""), "%%");
}

#[test]
fn texto_json_de_cada_valor() {
    assert_eq!(Valor::Nulo.mostrar(), "null");
    assert_eq!(Valor::Booleano(true).mostrar(), "true");
    assert_eq!(Valor::Booleano(false).mostrar(), "false");
    assert_eq!(Valor::Entero(-5).mostrar(), "-5");
    assert_eq!(Valor::Natural(18446744073709551615).mostrar(), "18446744073709551615");
    assert_eq!(Valor::Decimal("1.5".to_string()).mostrar(), "1.5");
    assert_eq!(Valor::Texto("2024-01-31".to_string()).mostrar(), "\"2024-01-31\"");
    assert_eq!(Valor::Lista("[1,2]".to_string()).mostrar(), "[1,2]");
    assert_eq!(Valor::Objeto("{\"a\":1}".to_string()).mostrar(), "{\"a\":1}");
}

#[test]
fn texto_json_con_escapes() {
    assert_eq!(Valor::Texto("a\"b".to_string()).mostrar(), "\"a\\\"b\"");
    assert_eq!(Valor::Texto("a\\b".to_string()).mostrar(), "\"a\\\\b\"");
    assert_eq!(Valor::Texto("l1\nl2\tx\r".to_string()).mostrar(), "\"l1\\nl2\\tx\\r\"");
    assert_eq!(Valor::Texto("\u{8}\u{c}".to_string()).mostrar(), "\"\\b\\f\"");
    assert_eq!(Valor::Texto("\u{1}\u{1f}".to_string()).mostrar(), "\"\\u0001\\u001f\"");
    assert_eq!(Valor::Texto("ñ/\u{7f}".to_string()).mostrar(), "\"ñ/\u{7f}\"");
}

#[test]
fn tipos_de_valor() {
    assert!(Valor::Texto("x".to_string()).is_string());
    assert!(!Valor::Entero(1).is_string());
    assert!(Valor::Entero(1).is_i64());
    assert!(Valor::Natural(5).is_i64());
    assert!(!Valor::Natural(9223372036854775808).is_i64());
    assert_eq!(Valor::Natural(9223372036854775807).as_i64(), Some(i64::MAX));
    assert!(Valor::Natural(9223372036854775808).is_number());
    assert!(Valor::Decimal("0.5".to_string()).is_number());
    assert!(!Valor::Decimal("0.5".to_string()).is_i64());
    assert!(!Valor::Texto("5".to_string()).is_number());
    assert!(Valor::Booleano(false).is_boolean());
    assert_eq!(Valor::Texto("hola".to_string()).as_str(), Some("hola"));
    assert_eq!(Valor::Nulo.as_str(), None);
}

#[test]
fn busqueda_de_claves() {
    let b = cuerpo(vec![
        ("a", Valor::Entero(1)),
        ("b", Valor::Texto("x".to_string())),
        ("a", Valor::Entero(2)),
    ]);
    assert_eq!(b.get("a").and_then(|v| v.as_i64()), Some(1));
    assert_eq!(b.get("b").and_then(|v| v.as_str()), Some("x"));
    assert!(b.get("c").is_none());
    assert!(b.tiene_clave("b"));
    assert!(!b.tiene_clave("B"));
    assert_eq!(b.mostrar_o_null("c"), "null");
    assert_eq!(b.mostrar_o_null("b"), "\"x\"");
    assert_eq!(b.copia_texto("a"), "");
    assert_eq!(b.i64_o_cero("b"), 0);
}
