use rrhh::middleware::jwt::{generate_token, Claims, DOS_SEMANAS, MARCA_MAXIMA, MARCA_MINIMA};
use rrhh::middleware::sa::{
    expiracion_representable, Acceso, ResponseBody, TokenVerificado, Verificacion, JWT,
};

#[test]
fn claims_de_dos_semanas() {
    let c = Claims::emitir(5, 2, "Ana".to_string(), 1_700_000_000);
    assert_eq!(c.sub, "5");
    assert_eq!(c.exp, 1_701_209_600);
    assert_eq!(c.lvl, Some(2));
    assert_eq!(c.nombre, "Ana");
    let n = Claims::emitir(-7, 0, String::new(), 0);
    assert_eq!(n.sub, "-7");
    assert_eq!(n.exp, DOS_SEMANAS as usize);
}

#[test]
fn claims_en_json() {
    let c = Claims { sub: "5".to_string(), exp: 10, lvl: None, nombre: "a\"b".to_string() };
    assert_eq!(c.a_json(), "{\"sub\":\"5\",\"exp\":10,\"lvl\":null,\"nombre\":\"a\\\"b\"}");
    let d = Claims { sub: "1".to_string(), exp: 0, lvl: Some(-3), nombre: String::new() };
    assert_eq!(d.a_json(), "{\"sub\":\"1\",\"exp\":0,\"lvl\":-3,\"nombre\":\"\"}");
}

#[test]
fn token_firmado_con_la_clave_de_emision() {
    let t = generate_token(5, 2, "Ana María".to_string(), 1_700_000_000);
    let header = jsonwebtoken::decode_header(&t).unwrap();
    assert_eq!(header.alg, jsonwebtoken::Algorithm::HS256);
    let mut v = jsonwebtoken::Validation::new(jsonwebtoken::Algorithm::HS256);
    v.validate_exp = false;
    let datos = jsonwebtoken::decode::<Box<serde_json::value::RawValue>>(
        &t,
        &jsonwebtoken::DecodingKey::from_secret("*Asdf-Xasdfadf2eee".as_bytes()),
        &v,
    )
    .unwrap();
    assert_eq!(
        datos.claims.get(),
        "{\"sub\":\"5\",\"exp\":1701209600,\"lvl\":2,\"nombre\":\"Ana María\"}"
    );
    let otra = jsonwebtoken::decode::<Box<serde_json::value::RawValue>>(
        &t,
        &jsonwebtoken::DecodingKey::from_secret("SECRET_KEY".as_bytes()),
        &v,
    );
    assert!(otra.is_err());
}

#[test]
fn token_distinto_por_usuario() {
    let a = generate_token(1, 1, "x".to_string(), 1_700_000_000);
    let b = generate_token(2, 1, "x".to_string(), 1_700_000_000);
    assert_ne!(a, b);
    assert_eq!(a, generate_token(1, 1, "x".to_string(), 1_700_000_000));
}

fn firmar(secreto: &str, carga: &str) -> String {
    let crudo = serde_json::value::RawValue::from_string(carga.to_string()).unwrap();
    jsonwebtoken::encode(
        &jsonwebtoken::Header::default(),
        &crudo,
        &jsonwebtoken::EncodingKey::from_secret(secreto.as_bytes()),
    )
    .unwrap()
}

const VIGENTE: &str = "{\"sub\":\"1\",\"exp\":4102444800,\"lvl\":1,\"nombre\":\"x\"}";

fn rechazo_de(v: Verificacion) -> ResponseBody {
    match v {
        Verificacion::Rechazado(b) => b,
        Verificacion::Verificado(_) => panic!("expected a refusal"),
    }
}

fn verificado(v: Verificacion) -> TokenVerificado {
    match v {
        Verificacion::Verificado(t) => t,
        Verificacion::Rechazado(b) => panic!("unexpected refusal {:?}", b),
    }
}

#[test]
fn sin_token_se_rechaza() {
    let m = JWT.new_transform(());
    let b = rechazo_de(m.call(None));
    assert_eq!(b.message, "n");
    assert_eq!(b.code, None);
}

#[test]
fn token_invalido_se_rechaza() {
    let m = JWT.new_transform(());
    for t in [
        "abc".to_string(),
        firmar("otra clave", VIGENTE),
        firmar("SECRET_KEY", "{\"sub\":\"1\"}"),
        firmar("SECRET_KEY", "{\"sub\":\"1\",\"exp\":1000,\"aud\":\"x\"}"),
    ] {
        let b = rechazo_de(m.call(Some(&t)));
        assert_eq!(b.message, "token invalido");
        assert_eq!(b.code, None);
    }
}

#[test]
fn token_de_inicio_de_sesion_no_pasa() {
    let m = JWT.new_transform(());
    let ahora = chrono::Utc::now().timestamp();
    let t = generate_token(1, 1, "x".to_string(), ahora);
    let b = rechazo_de(m.call(Some(&t)));
    assert_eq!(b.message, "token invalido");
}

#[test]
fn token_verificado_da_sus_claims() {
    let m = JWT.new_transform(());
    let t = firmar("SECRET_KEY", VIGENTE);
    let v = verificado(m.call(Some(&t)));
    assert_eq!(v.carga(), VIGENTE);
}

#[test]
fn token_vencido_y_vigente() {
    let m = JWT.new_transform(7u8);
    assert_eq!(*m.service(), 7u8);
    let v = verificado(m.call(Some(&firmar("SECRET_KEY", VIGENTE))));
    let c = Claims::emitir(1, 1, "x".to_string(), 1000);
    let fin = 1000 + DOS_SEMANAS;
    assert!(matches!(m.autorizar(&v, Some(&c), fin - 1), Acceso::Permitido));
    match m.autorizar(&v, Some(&c), fin) {
        Acceso::Expirado(s) => assert_eq!(s, "El token ha expirado"),
        _ => panic!("expected an expired token"),
    }
    assert!(matches!(m.autorizar(&v, Some(&c), fin + 1), Acceso::Expirado(_)));
    assert!(matches!(m.autorizar(&v, Some(&c), 0), Acceso::Permitido));
    match m.autorizar(&v, None, 0) {
        Acceso::Rechazado(b) => {
            assert_eq!(b.message, "token invalido");
            assert_eq!(b.code, None);
        }
        _ => panic!("expected a refusal"),
    }
}

#[test]
fn token_caducado_hace_mas_de_un_minuto() {
    let m = JWT.new_transform(());
    let carga = "{\"sub\":\"1\",\"exp\":1000,\"lvl\":1,\"nombre\":\"x\"}";
    let v = verificado(m.call(Some(&firmar("SECRET_KEY", carga))));
    assert_eq!(v.carga(), carga);
    let c = Claims { sub: "1".to_string(), exp: 1000, lvl: Some(1), nombre: "x".to_string() };
    let ahora = chrono::Utc::now().timestamp();
    assert!(!m.decodificacion_aceptada(Some(&c), ahora));
    match m.autorizar(&v, Some(&c), ahora) {
        Acceso::Rechazado(b) => {
            assert_eq!(b.message, "token invalido");
            assert_eq!(b.code, None);
        }
        _ => panic!("expected a refusal"),
    }
}

#[test]
fn margen_de_un_minuto_tras_la_expiracion() {
    let m = JWT.new_transform(());
    let v = verificado(m.call(Some(&firmar("SECRET_KEY", VIGENTE))));
    let c = Claims::emitir(1, 1, "x".to_string(), 1000);
    let fin = 1000 + DOS_SEMANAS;
    assert!(m.decodificacion_aceptada(Some(&c), fin + 60));
    assert!(matches!(m.autorizar(&v, Some(&c), fin + 60), Acceso::Expirado(_)));
    assert!(!m.decodificacion_aceptada(Some(&c), fin + 61));
    match m.autorizar(&v, Some(&c), fin + 61) {
        Acceso::Rechazado(b) => assert_eq!(b.message, "token invalido"),
        _ => panic!("expected a refusal"),
    }
    assert!(!m.decodificacion_aceptada(None, 0));
    assert!(m.decodificacion_aceptada(Some(&c), i64::MIN));
}

#[test]
fn expiracion_en_rango_de_chrono() {
    assert!(expiracion_representable(0));
    assert!(expiracion_representable(1_701_209_600));
    assert!(expiracion_representable(MARCA_MAXIMA as usize));
    assert!(!expiracion_representable(MARCA_MAXIMA as usize + 1));
    assert!(expiracion_representable(MARCA_MINIMA as usize));
    assert!(!expiracion_representable((MARCA_MINIMA - 1) as usize));
    assert!(!expiracion_representable(usize::MAX / 2));
}

#[test]
fn rechazo_con_codigo() {
    let r = ResponseBody::rechazo("m", "3");
    assert_eq!(r.message, "m");
    assert_eq!(r.code, Some("3".to_string()));
}
