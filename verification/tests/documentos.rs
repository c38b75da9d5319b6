use rrhh::modelos::asistencia::Fecha;
use rrhh::modelos::docs::Docs;
use rrhh::rutas::comun::{resultado_cambio, ClaseFalla, Escritura};
use rrhh::rutas::documentos::{
    add_detalle, add_detalle_falla, add_detalle_respuesta, add_doc, add_doc_busqueda, add_doc_falla,
    add_doc_revisado,
    add_doc_respuesta, anular_doc, anular_doc_falla, buscar_doc, buscar_doc_respuesta, buscar_docs,
    delete_doc, delete_doc_falla, repartir, PasoDocumento,
};
use rrhh::valor::{Cuerpo, Valor};

fn cuerpo(campos: Vec<(&str, Valor)>) -> Cuerpo {
    Cuerpo { campos: campos.into_iter().map(|(k, v)| (k.to_string(), v)).collect() }
}

fn t(s: &str) -> Valor {
    Valor::Texto(s.to_string())
}

fn es(r: &rrhh::middleware::sa::ResponseBody, m: &str, c: &str) {
    assert_eq!(r.message, m);
    assert_eq!(r.code, Some(c.to_string()));
}

fn fila(id: i32, fecha: Option<Fecha>) -> Docs {
    Docs {
        dni: "12345678".to_string(),
        doc: 1,
        id,
        nombre: Some("memo".to_string()),
        fecha,
        asunto: Some("a".to_string()),
        descripcion: None,
        referencia: Some("r".to_string()),
        inicio: Some(Fecha { year: 2024, month: 1, day: 1 }),
        fin: None,
    }
}

#[test]
fn docs_primer_dia_del_mes() {
    let b = cuerpo(vec![("dni", t("12345678")), ("mes", Valor::Entero(3)), ("year", Valor::Entero(2024))]);
    let c = buscar_docs(&b).unwrap();
    assert_eq!(c.desde, "2024-3-01");
    assert_eq!(c.mes.dni, "12345678");
    let e = buscar_docs(&cuerpo(vec![("dni", t("1"))])).unwrap_err();
    es(&e, "parametros incorrectos", "3");
    let f = buscar_docs(&cuerpo(vec![("dni", t("1")), ("mes", t("3")), ("year", Valor::Entero(1))])).unwrap_err();
    es(&f, "parametros f", "3");
}

#[test]
fn docs_reparto_en_orden() {
    let d = Some(Fecha { year: 2024, month: 3, day: 2 });
    let filas = vec![fila(1, d), fila(2, None), fila(3, d), fila(4, None), fila(5, None)];
    let (docs, rangos) = repartir(&filas);
    assert_eq!(docs.iter().map(|x| x.id).collect::<Vec<_>>(), vec![1, 3]);
    assert_eq!(rangos.iter().map(|x| x.id).collect::<Vec<_>>(), vec![2, 4, 5]);
    assert_eq!(docs.len() + rangos.len(), filas.len());
    assert_eq!(docs[0].fecha.unwrap().day, 2);
    assert_eq!(docs[0].nombre, Some("memo".to_string()));
    assert_eq!(rangos[0].inicio.unwrap().year, 2024);
    assert_eq!(rangos[0].referencia, Some("r".to_string()));
    let (a, b) = repartir(&vec![]);
    assert!(a.is_empty() && b.is_empty());
}

#[test]
fn add_doc_rechazos() {
    es(&add_doc(&cuerpo(vec![("nombre", t("x")), ("fecha", t("2024-01-01"))])).unwrap_err(), "parametros incorrectos", "3");
    let b = cuerpo(vec![("nombre", t("x")), ("fecha", t("2024-01-01")), ("tipo", t("1")), ("user", Valor::Entero(1))]);
    assert!(!add_doc_falla(&b));
    es(&add_doc(&b).unwrap_err(), "parametros f", "3");
    let c = cuerpo(vec![("nombre", t("x")), ("fecha", t("2024-01-01")), ("tipo", Valor::Entero(1)), ("user", t("u"))]);
    es(&add_doc(&c).unwrap_err(), "parametros f", "3");
    for f in ["2024-13-01", "2024-02-30", "01/02/2024", "ayer"] {
        let d = cuerpo(vec![("nombre", t("x")), ("fecha", t(f)), ("tipo", Valor::Entero(1)), ("user", Valor::Entero(2))]);
        assert!(!add_doc_falla(&d));
        es(&add_doc(&d).unwrap_err(), "Formato de Fecha incorrecto", "3");
    }
}

#[test]
fn add_doc_correcto() {
    let b = cuerpo(vec![("nombre", t("memo")), ("fecha", t("2024-02-29")), ("tipo", Valor::Entero(2)), ("user", Valor::Natural(7))]);
    assert!(!add_doc_falla(&b));
    let d = add_doc(&b).unwrap();
    assert_eq!(d.nombre, "memo");
    assert_eq!(d.fecha, "2024-02-29");
    assert_eq!(d.tipo, 2);
    assert_eq!(d.user, 7);
}

#[test]
fn add_doc_casos_que_abortan() {
    let sin_user = cuerpo(vec![("nombre", t("x")), ("fecha", t("2024-01-01")), ("tipo", Valor::Entero(1))]);
    assert!(add_doc_falla(&sin_user));
    let tipo_decimal = cuerpo(vec![("nombre", t("x")), ("fecha", t("2024-01-01")), ("tipo", Valor::Decimal("1.5".to_string())), ("user", Valor::Entero(1))]);
    assert!(add_doc_falla(&tipo_decimal));
    let fecha_mala = cuerpo(vec![("nombre", t("x")), ("fecha", t("x")), ("tipo", Valor::Decimal("1.5".to_string())), ("user", Valor::Entero(1))]);
    assert!(!add_doc_falla(&fecha_mala));
}

#[test]
fn add_doc_revisado_sin_panico() {
    let sin_user = cuerpo(vec![("nombre", t("x")), ("fecha", t("2024-01-01")), ("tipo", Valor::Entero(1))]);
    assert!(add_doc_revisado(&sin_user).is_none());
    let faltan = cuerpo(vec![("nombre", t("x"))]);
    es(&add_doc_revisado(&faltan).unwrap().unwrap_err(), "parametros incorrectos", "3");
    let mala = cuerpo(vec![("nombre", t("x")), ("fecha", t("2024-02-30")), ("tipo", Valor::Entero(1)), ("user", Valor::Entero(2))]);
    es(&add_doc_revisado(&mala).unwrap().unwrap_err(), "Formato de Fecha incorrecto", "3");
    let buena = cuerpo(vec![("nombre", t("memo")), ("fecha", t("2024-02-29")), ("tipo", Valor::Entero(2)), ("user", Valor::Natural(7))]);
    let d = add_doc_revisado(&buena).unwrap().unwrap();
    assert_eq!(d.nombre, "memo");
    assert_eq!(d.fecha, "2024-02-29");
    assert_eq!(d.tipo, 2);
    assert_eq!(d.user, 7);
}

#[test]
fn add_doc_despues_de_insertar() {
    match add_doc_respuesta(&Escritura::Hecha { ultimo_id: 41, filas: 1 }) {
        PasoDocumento::Responder(Ok(id)) => assert_eq!(id, 41),
        _ => panic!("expected the new id"),
    }
    match add_doc_respuesta(&Escritura::FallaBase { clase: ClaseFalla::ClaveForanea, texto: "fk".to_string() }) {
        PasoDocumento::Responder(Err(e)) => es(&e, "documento id no existe", "1"),
        _ => panic!("expected a refusal"),
    }
    match add_doc_respuesta(&Escritura::FallaBase { clase: ClaseFalla::Verificacion, texto: "ck".to_string() }) {
        PasoDocumento::Responder(Err(e)) => es(&e, "validacion de datos incorrecta", "2"),
        _ => panic!("expected a refusal"),
    }
    match add_doc_respuesta(&Escritura::FallaBase { clase: ClaseFalla::Otra, texto: "Duplicate entry".to_string() }) {
        PasoDocumento::Responder(Err(e)) => es(&e, "Duplicate entry", "3"),
        _ => panic!("expected a refusal"),
    }
    assert!(matches!(add_doc_respuesta(&Escritura::Falla), PasoDocumento::BuscarPorNombre));
    assert_eq!(add_doc_busqueda(Some(12)).unwrap(), 12);
    es(&add_doc_busqueda(None).unwrap_err(), "error desconocido", "3");
}

fn detalle() -> Vec<(&'static str, Valor)> {
    vec![
        ("dni", t("12345678")),
        ("doc", Valor::Entero(3)),
        ("fecha", t("2024-05-01")),
        ("descripcion", t("desc")),
        ("asunto", t("asu")),
        ("user", Valor::Entero(7)),
        ("inicio", Valor::Nulo),
    ]
}

#[test]
fn add_detalle_sentencia() {
    let b = cuerpo(detalle());
    assert!(!add_detalle_falla(&b));
    let q = add_detalle(&b, "K").unwrap();
    let esperado = format!(
        "INSERT INTO detalledoc (doc,dni,fecha,asunto,referencia,descripcion,inicio,fin,create_by) VALUES
    (
        {},
        '{}',
        {},
        AES_ENCRYPT('{}','{}'),
        AES_ENCRYPT({},'{}'),
        AES_ENCRYPT('{}','{}'),
        {},
        {},
        {}
    )",
        3, "12345678", "\"2024-05-01\"", "asu", "K", "null", "K", "desc", "K", "null", "null", 7
    );
    assert_eq!(q, esperado);
    let mut otros = detalle();
    otros.push(("referencia", Valor::Entero(-2)));
    otros.push(("fin", Valor::Booleano(true)));
    let q2 = add_detalle(&cuerpo(otros), "K").unwrap();
    assert!(q2.contains("AES_ENCRYPT(-2,'K')"));
    assert!(q2.ends_with("null,\n        true,\n        7\n    )"));
}

#[test]
fn add_detalle_rechazos() {
    let mut sin = detalle();
    sin.retain(|(k, _)| *k != "fecha");
    es(&add_detalle(&cuerpo(sin), "K").unwrap_err(), "parametros incorrectos", "3");
    let mut malo = detalle();
    malo[1] = ("doc", t("3"));
    let mb = cuerpo(malo);
    assert!(!add_detalle_falla(&mb));
    es(&add_detalle(&mb, "K").unwrap_err(), "parametros f", "3");
    let mut malo_user = detalle();
    malo_user[5] = ("user", Valor::Decimal("7.5".to_string()));
    es(&add_detalle(&cuerpo(malo_user), "K").unwrap_err(), "parametros f", "3");
}

#[test]
fn add_detalle_casos_que_abortan() {
    let mut sin_asunto = detalle();
    sin_asunto.retain(|(k, _)| *k != "asunto");
    assert!(add_detalle_falla(&cuerpo(sin_asunto)));
    let mut sin_user = detalle();
    sin_user.retain(|(k, _)| *k != "user");
    assert!(add_detalle_falla(&cuerpo(sin_user)));
    let mut dni_numero = detalle();
    dni_numero[0] = ("dni", Valor::Entero(12345678));
    assert!(add_detalle_falla(&cuerpo(dni_numero)));
    let mut desc_numero = detalle();
    desc_numero[3] = ("descripcion", Valor::Entero(1));
    assert!(add_detalle_falla(&cuerpo(desc_numero)));
}

#[test]
fn add_detalle_despues_de_insertar() {
    let ok = add_detalle_respuesta(&Escritura::Hecha { ultimo_id: 1234, filas: 1 }).unwrap();
    es(&ok, "1234", "1");
    es(&add_detalle_respuesta(&Escritura::Falla).unwrap_err(), "error desconocido", "3");
    es(
        &add_detalle_respuesta(&Escritura::FallaBase { clase: ClaseFalla::ClaveForanea, texto: String::new() }).unwrap_err(),
        "documento id no existe",
        "1",
    );
}

#[test]
fn buscar_doc_casos() {
    es(&buscar_doc(&cuerpo(vec![])).unwrap_err(), "parametros incorrectos", "3");
    es(&buscar_doc(&cuerpo(vec![("doc", Valor::Entero(1))])).unwrap_err(), "parametros no validos", "3");
    assert_eq!(buscar_doc(&cuerpo(vec![("doc", t("memo"))])).unwrap(), "memo");
    assert_eq!(buscar_doc_respuesta(Some(5)).unwrap(), 5);
    es(&buscar_doc_respuesta::<i32>(None).unwrap_err(), "no hay datos", "2");
}

#[test]
fn delete_doc_casos() {
    es(&delete_doc(&cuerpo(vec![])).unwrap_err(), "parametros incorrectos", "3");
    es(&delete_doc(&cuerpo(vec![("id", t("4"))])).unwrap_err(), "parametros f", "3");
    assert_eq!(delete_doc(&cuerpo(vec![("id", Valor::Entero(4))])).unwrap(), 4);
    assert!(delete_doc_falla(&cuerpo(vec![("id", Valor::Decimal("4.5".to_string()))])));
    assert!(!delete_doc_falla(&cuerpo(vec![("id", Valor::Entero(4))])));
}

#[test]
fn cambios_de_filas() {
    assert!(resultado_cambio(&Escritura::Hecha { ultimo_id: 0, filas: 1 }).is_ok());
    es(&resultado_cambio(&Escritura::Hecha { ultimo_id: 0, filas: 0 }).unwrap_err(), "no hay datos", "2");
    es(&resultado_cambio(&Escritura::Falla).unwrap_err(), "error desconocido", "2");
    es(
        &resultado_cambio(&Escritura::FallaBase { clase: ClaseFalla::Otra, texto: "x".to_string() }).unwrap_err(),
        "error desconocido",
        "2",
    );
}

#[test]
fn anular_doc_casos() {
    es(&anular_doc(&cuerpo(vec![])).unwrap_err(), "parametros incorrectos", "3");
    es(&anular_doc(&cuerpo(vec![("id", t("1")), ("valor", Valor::Booleano(true))])).unwrap_err(), "parametros f", "3");
    assert_eq!(
        anular_doc(&cuerpo(vec![("id", Valor::Entero(9)), ("valor", Valor::Booleano(true))])).unwrap(),
        "update detalledoc set active = 'N' where id = 9"
    );
    assert_eq!(
        anular_doc(&cuerpo(vec![("id", Valor::Entero(9)), ("valor", Valor::Booleano(false))])).unwrap(),
        "update detalledoc set active = 'N' where id = 9"
    );
    assert_eq!(
        anular_doc(&cuerpo(vec![("id", Valor::Entero(9)), ("valor", t("true"))])).unwrap(),
        "update detalledoc set active = 'Y' where id = 9"
    );
    assert!(anular_doc_falla(&cuerpo(vec![("valor", Valor::Booleano(true))])));
    assert!(anular_doc_falla(&cuerpo(vec![("id", Valor::Entero(9))])));
    assert!(!anular_doc_falla(&cuerpo(vec![("id", t("9"))])));
    assert!(!anular_doc_falla(&cuerpo(vec![])));
}
