use rrhh::modelos::model::Usuario;
use rrhh::rutas::login::{login, login_falla, login_respuesta};
use rrhh::valor::{Cuerpo, Valor};

fn cuerpo(campos: Vec<(&str, Valor)>) -> Cuerpo {
    Cuerpo { campos: campos.into_iter().map(|(k, v)| (k.to_string(), v)).collect() }
}

fn texto(s: &str) -> Valor {
    Valor::Texto(s.to_string())
}

fn usuario(password: Option<&str>, lvl: Option<i32>, nombre: Option<&str>) -> Usuario {
    Usuario {
        id: 9,
        nickname: Some("ana".to_string()),
        nombre: nombre.map(|s| s.to_string()),
        password: password.map(|s| s.to_string()),
        lvl,
    }
}

#[test]
fn login_sin_parametros() {
    for b in [
        cuerpo(vec![]),
        cuerpo(vec![("nickname", texto("ana"))]),
        cuerpo(vec![("password", texto("x"))]),
    ] {
        let e = login(&b).unwrap_err();
        assert_eq!(e.message, "parametros incorrectos");
        assert_eq!(e.code, Some("3".to_string()));
    }
}

#[test]
fn login_busca_por_apodo() {
    let b = cuerpo(vec![("nickname", texto("ana")), ("password", texto("x"))]);
    assert_eq!(login(&b).unwrap(), Some("ana".to_string()));
    let c = cuerpo(vec![("nickname", Valor::Entero(3)), ("password", Valor::Nulo)]);
    assert_eq!(login(&c).unwrap(), None);
}

#[test]
fn login_usuario_no_encontrado() {
    let b = cuerpo(vec![("nickname", texto("ana")), ("password", texto("x"))]);
    assert!(!login_falla(&b, None));
    let e = login_respuesta(&b, None).unwrap_err();
    assert_eq!(e.message, "usuario no encontrado");
    assert_eq!(e.code, Some("1".to_string()));
}

#[test]
fn login_contrasena_incorrecta() {
    let b = cuerpo(vec![("nickname", texto("ana")), ("password", texto("x"))]);
    for u in [usuario(Some("y"), Some(1), Some("Ana")), usuario(None, Some(1), Some("Ana"))] {
        assert!(!login_falla(&b, Some(&u)));
        let e = login_respuesta(&b, Some(&u)).unwrap_err();
        assert_eq!(e.message, "contraseña incorrecta");
        assert_eq!(e.code, Some("2".to_string()));
    }
}

#[test]
fn login_correcto() {
    let b = cuerpo(vec![("nickname", texto("ana")), ("password", texto("x"))]);
    let u = usuario(Some("x"), Some(4), Some("Ana"));
    let c = login_respuesta(&b, Some(&u)).unwrap();
    assert_eq!(c.id, 9);
    assert_eq!(c.lvl, 4);
    assert_eq!(c.nombre, "Ana");
}

#[test]
fn login_casos_que_abortan() {
    let b = cuerpo(vec![("nickname", texto("ana")), ("password", Valor::Entero(1))]);
    assert!(login_falla(&b, Some(&usuario(Some("x"), Some(1), Some("A")))));
    let c = cuerpo(vec![("nickname", texto("ana")), ("password", texto("x"))]);
    assert!(login_falla(&c, Some(&usuario(Some("x"), None, Some("A")))));
    assert!(login_falla(&c, Some(&usuario(Some("x"), Some(1), None))));
    assert!(!login_falla(&c, Some(&usuario(Some("z"), None, None))));
}
