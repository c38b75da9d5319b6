//! Documents: the monthly search, adding documents and their details,
//! looking one up, removing and voiding details.

use vstd::prelude::*;
use vstd::string::*;
use crate::middleware::sa::ResponseBody;
use crate::modelos::docs::{
    documento_de_fila, rango_de_fila, si_fechado, si_rango, DocSs, Docs, DocsRange,
};
use crate::rutas::comun::{
    rechazo_base, rechazo_de_base, Escritura,
};
use crate::rutas::asistencia::{consulta_mes, consulta_mes_correcta, ConsultaMes};
use crate::texto::{decimal, decimal_entero, decimal_entero_se_lee, decimal_i64, decimal_u64, leer_entero};
use crate::valor::{cadena_json, json_de_cada_valor, Cuerpo};

verus! {

/// The parameters of the monthly document search.
#[derive(Debug)]
pub struct ConsultaDocs {
    pub mes: ConsultaMes,
    /// The first day of the month, `year-mes-01`.
    pub desde: String,
}

/// The first day of month `mes` of `year`, written `year-mes-01` without
/// padding the month.
pub open spec fn primer_dia(year: i64, mes: i64) -> Seq<char> {
    decimal_entero(year as int) + "-"@ + decimal_entero(mes as int) + "-01"@
}

/// `/doc/`: checks the request for a month of documents as the attendance
/// lookup does, and gives the month's first day for the range search.
pub fn buscar_docs(body: &Cuerpo) -> (r: Result<ConsultaDocs, ResponseBody>)
    ensures
        consulta_mes_correcta(
            *body,
            match r {
                Ok(c) => Ok(c.mes),
                Err(e) => Err(e),
            },
        ),
        r matches Ok(c) ==> c.desde@ == primer_dia(c.mes.year, c.mes.mes),
{
    match consulta_mes(body) {
        Err(e) => Err(e),
        Ok(c) => {
            let mut desde = decimal_i64(c.year);
            desde.append("-");
            desde.append(decimal_i64(c.mes).as_str());
            desde.append("-01");
            Ok(ConsultaDocs { mes: c, desde })
        },
    }
}

fn copia_texto_opcional(o: &Option<String>) -> (r: Option<String>)
    ensures
        r == *o,
{
    match o {
        Some(s) => Some(s.clone()),
        None => None,
    }
}

/// Splits the rows of the monthly search, keeping their order: rows with a
/// date become dated documents, the others range documents.
pub fn repartir(filas: &Vec<Docs>) -> (r: (Vec<DocSs>, Vec<DocsRange>))
    ensures
        r.0@ == filas@.filter_map(|d: Docs| si_fechado(d)),
        r.1@ == filas@.filter_map(|d: Docs| si_rango(d)),
        r.0@ == documentos_de(filas@),
        r.1@ == rangos_de(filas@),
{
    let mut documentos: Vec<DocSs> = Vec::new();
    let mut rangos: Vec<DocsRange> = Vec::new();
    let n = filas.len();
    for i in 0..n
        invariant
            n == filas@.len(),
            documentos@ == filas@.take(i as int).filter_map(|d: Docs| si_fechado(d)),
            rangos@ == filas@.take(i as int).filter_map(|d: Docs| si_rango(d)),
    {
        proof {
            filas@.lemma_filter_map_take_succ(|d: Docs| si_fechado(d), i as int);
            filas@.lemma_filter_map_take_succ(|d: Docs| si_rango(d), i as int);
        }
        let x = &filas[i];
        if x.fecha.is_none() {
            rangos.push(
                DocsRange {
                    dni: x.dni.clone(),
                    doc: x.doc,
                    nombre: copia_texto_opcional(&x.nombre),
                    id: x.id,
                    inicio: x.inicio,
                    fin: x.fin,
                    asunto: copia_texto_opcional(&x.asunto),
                    descripcion: copia_texto_opcional(&x.descripcion),
                    referencia: copia_texto_opcional(&x.referencia),
                },
            );
        } else {
            documentos.push(
                DocSs {
                    dni: x.dni.clone(),
                    doc: x.doc,
                    nombre: copia_texto_opcional(&x.nombre),
                    id: x.id,
                    fecha: x.fecha,
                    asunto: copia_texto_opcional(&x.asunto),
                    descripcion: copia_texto_opcional(&x.descripcion),
                    referencia: copia_texto_opcional(&x.referencia),
                },
            );
        }
    }
    proof {
        assert(filas@.take(n as int) =~= filas@);
    }
    (documentos, rangos)
}

/// Every row of the monthly search lands in exactly one of the two lists.
pub proof fn reparto_completo(filas: Seq<Docs>)
    ensures
        filas.filter_map(|d: Docs| si_fechado(d)).len() + filas.filter_map(
            |d: Docs| si_rango(d),
        ).len() == filas.len(),
    decreases filas.len(),
{
    if filas.len() > 0 {
        reparto_completo(filas.drop_last());
    }
}

/// The range documents that the split gives for `filas`.
pub open spec fn rangos_de(filas: Seq<Docs>) -> Seq<DocsRange> {
    filas.filter_map(|d: Docs| si_rango(d))
}

/// The dated documents that the split gives for `filas`.
pub open spec fn documentos_de(filas: Seq<Docs>) -> Seq<DocSs> {
    filas.filter_map(|d: Docs| si_fechado(d))
}

/// The rows without a date, in their order.
pub open spec fn filas_sin_fecha(filas: Seq<Docs>) -> Seq<Docs> {
    filas.filter(|d: Docs| d.fecha is None)
}

/// The rows with a date, in their order.
pub open spec fn filas_fechadas(filas: Seq<Docs>) -> Seq<Docs> {
    filas.filter(|d: Docs| d.fecha is Some)
}

/// The range documents of the split are the rows without a date, in their
/// order, each carrying all the fields of its row: its start and its end
/// date among them.
pub proof fn rangos_de_las_filas_sin_fecha(filas: Seq<Docs>)
    ensures
        rangos_de(filas).len() == filas_sin_fecha(filas).len(),
        forall|k: int|
            0 <= k < filas_sin_fecha(filas).len() ==> rango_de_fila(
                #[trigger] rangos_de(filas)[k],
                filas_sin_fecha(filas)[k],
            ),
    decreases filas.len(),
{
    reveal(Seq::filter);
    if filas.len() > 0 {
        rangos_de_las_filas_sin_fecha(filas.drop_last());
    }
}

/// The dated documents of the split are the rows with a date, in their
/// order, each carrying all the fields of its row.
pub proof fn documentos_de_las_filas_fechadas(filas: Seq<Docs>)
    ensures
        documentos_de(filas).len() == filas_fechadas(filas).len(),
        forall|k: int|
            0 <= k < filas_fechadas(filas).len() ==> documento_de_fila(
                #[trigger] documentos_de(filas)[k],
                filas_fechadas(filas)[k],
            ),
    decreases filas.len(),
{
    reveal(Seq::filter);
    if filas.len() > 0 {
        documentos_de_las_filas_fechadas(filas.drop_last());
    }
}

/// Whether chrono's `NaiveDate::parse_from_str(texto, formato)` gives a date.
pub uninterp spec fn fecha_legible(texto: Seq<char>, formato: Seq<char>) -> bool;

/// Calls `chrono::NaiveDate::parse_from_str(texto, formato)` and tells
/// whether it gave a date. Trusted: the contract claims only that the answer
/// depends on the two texts alone; which texts chrono accepts is not stated.
#[verifier::external_body]
fn analizar_fecha(texto: &str, formato: &str) -> (r: bool)
    ensures
        r == fecha_legible(texto@, formato@),
{
    chrono::NaiveDate::parse_from_str(texto, formato).is_ok()
}

/// A new document: its date, name, type and the user who adds it.
#[derive(Debug)]
pub struct NuevoDocumento {
    pub fecha: String,
    pub nombre: String,
    pub tipo: i64,
    pub user: i64,
}

/// Where `/doc/addoc` panics: the type checks reach a missing `user`, or the
/// date is read and `tipo` or `user` is a number that does not fit an `i64`.
pub open spec fn add_doc_aborta(body: Cuerpo) -> bool {
    &&& body.presente("nombre"@) && body.presente("fecha"@) && body.presente("tipo"@)
    &&& body.texto_en("nombre"@) && body.texto_en("fecha"@) && body.numero_en("tipo"@)
    &&& !body.presente("user"@) || (body.numero_en("user"@) && fecha_legible(
        body.texto_de("fecha"@),
        "%Y-%m-%d"@,
    ) && (!body.i64_en("tipo"@) || !body.i64_en("user"@)))
}

/// Tells whether `/doc/addoc` panics on this body.
pub fn add_doc_falla(body: &Cuerpo) -> (r: bool)
    ensures
        r == add_doc_aborta(*body),
{
    if !body.tiene_clave("nombre") || !body.tiene_clave("fecha") || !body.tiene_clave("tipo") {
        return false;
    }
    if !body.es_texto_en("nombre") || !body.es_texto_en("fecha") || !body.es_numero_en("tipo") {
        return false;
    }
    if !body.tiene_clave("user") {
        return true;
    }
    body.es_numero_en("user") && analizar_fecha(body.copia_texto("fecha").as_str(), "%Y-%m-%d")
        && (!body.es_i64_en("tipo") || !body.es_i64_en("user"))
}

/// What `/doc/addoc` answers on `body` before the insert: a body lacking
/// `nombre`, `fecha` or `tipo` is refused with "parametros incorrectos"
/// (code 3); one where `nombre` or `fecha` is not a string, or `tipo` or
/// `user` not a number, with "parametros f" (code 3); a date that chrono does
/// not read as `%Y-%m-%d` with "Formato de Fecha incorrecto" (code 3);
/// otherwise the document is inserted with those values.
pub open spec fn add_doc_esperado(body: Cuerpo, r: Result<NuevoDocumento, ResponseBody>) -> bool {
    if !(body.presente("nombre"@) && body.presente("fecha"@) && body.presente("tipo"@)) {
        r matches Err(e) && e.es("parametros incorrectos"@, "3"@)
    } else if !(body.texto_en("nombre"@) && body.texto_en("fecha"@) && body.numero_en("tipo"@)
        && body.numero_en("user"@)) {
        r matches Err(e) && e.es("parametros f"@, "3"@)
    } else if !fecha_legible(body.texto_de("fecha"@), "%Y-%m-%d"@) {
        r matches Err(e) && e.es("Formato de Fecha incorrecto"@, "3"@)
    } else {
        &&& r matches Ok(d)
        &&& d.fecha@ == body.texto_de("fecha"@)
        &&& d.nombre@ == body.texto_de("nombre"@)
        &&& d.tipo == body.i64_de("tipo"@)
        &&& d.user == body.i64_de("user"@)
    }
}

/// On a body with a string `nombre` and `fecha` and a numeric `tipo` and
/// `user`, `/doc/addoc` refuses the request exactly when chrono does not
/// read the date as `%Y-%m-%d`, and then with "Formato de Fecha
/// incorrecto"; a date that chrono reads is accepted, whatever its text, and
/// the document carries it with the body's name, type and user.
pub proof fn add_doc_solo_mira_la_fecha_con_chrono(
    body: Cuerpo,
    r: Result<NuevoDocumento, ResponseBody>,
)
    requires
        body.texto_en("nombre"@),
        body.texto_en("fecha"@),
        body.numero_en("tipo"@),
        body.numero_en("user"@),
        add_doc_esperado(body, r),
    ensures
        r is Err <==> !fecha_legible(body.texto_de("fecha"@), "%Y-%m-%d"@),
        r matches Err(e) ==> e.es("Formato de Fecha incorrecto"@, "3"@),
        r matches Ok(d) ==> {
            &&& d.fecha@ == body.texto_de("fecha"@)
            &&& d.nombre@ == body.texto_de("nombre"@)
            &&& d.tipo == body.i64_de("tipo"@)
            &&& d.user == body.i64_de("user"@)
        },
{
}

/// `/doc/addoc`, first step, on a body where it does not panic: the answer
/// that `add_doc_esperado` describes.
pub fn add_doc(body: &Cuerpo) -> (r: Result<NuevoDocumento, ResponseBody>)
    requires
        !add_doc_aborta(*body),
    ensures
        add_doc_esperado(*body, r),
{
    if !body.tiene_clave("nombre") || !body.tiene_clave("fecha") || !body.tiene_clave("tipo") {
        return Err(ResponseBody::rechazo("parametros incorrectos", "3"));
    }
    if !body.es_texto_en("nombre") || !body.es_texto_en("fecha") || !body.es_numero_en("tipo")
        || !body.es_numero_en("user") {
        return Err(ResponseBody::rechazo("parametros f", "3"));
    }
    let fecha = body.copia_texto("fecha");
    if !analizar_fecha(fecha.as_str(), "%Y-%m-%d") {
        return Err(ResponseBody::rechazo("Formato de Fecha incorrecto", "3"));
    }
    Ok(
        NuevoDocumento {
            fecha,
            nombre: body.copia_texto("nombre"),
            tipo: body.i64_o_cero("tipo"),
            user: body.i64_o_cero("user"),
        },
    )
}

/// `/doc/addoc`, first step, on any body: `None` exactly where it panics
/// (see `add_doc_aborta`), otherwise the answer of `add_doc`.
pub fn add_doc_revisado(body: &Cuerpo) -> (r: Option<Result<NuevoDocumento, ResponseBody>>)
    ensures
        match r {
            None => add_doc_aborta(*body),
            Some(x) => !add_doc_aborta(*body) && add_doc_esperado(*body, x),
        },
{
    if add_doc_falla(body) {
        None
    } else {
        Some(add_doc(body))
    }
}

/// What `/doc/addoc` does after the insert.
#[derive(Debug)]
pub enum PasoDocumento {
    /// Answer with the new id, or refuse.
    Responder(Result<u64, ResponseBody>),
    /// Look the document up by its name and answer with its id.
    BuscarPorNombre,
}

/// `/doc/addoc`, after the insert: done answers the new id; a database
/// error is refused as `rechazo_de_base` says; any other failure looks the
/// document up by its name.
pub fn add_doc_respuesta(e: &Escritura) -> (p: PasoDocumento)
    ensures
        match *e {
            Escritura::Hecha { ultimo_id, .. } => p matches PasoDocumento::Responder(Ok(id)) && id
                == ultimo_id,
            Escritura::FallaBase { clase, texto } => p matches PasoDocumento::Responder(Err(b))
                && rechazo_de_base(clase, texto@, b),
            Escritura::Falla => p is BuscarPorNombre,
        },
{
    match e {
        Escritura::Hecha { ultimo_id, .. } => PasoDocumento::Responder(Ok(*ultimo_id)),
        Escritura::FallaBase { clase, texto } => PasoDocumento::Responder(
            Err(rechazo_base(clase, texto)),
        ),
        Escritura::Falla => PasoDocumento::BuscarPorNombre,
    }
}

/// `/doc/addoc`, after looking the document up by its name: found answers
/// its id, not found is refused with "error desconocido" (code 3).
pub fn add_doc_busqueda(docid: Option<i32>) -> (r: Result<i32, ResponseBody>)
    ensures
        match docid {
            Some(d) => r == Ok::<i32, ResponseBody>(d),
            None => r matches Err(e) && e.es("error desconocido"@, "3"@),
        },
{
    match docid {
        Some(d) => Ok(d),
        None => Err(ResponseBody::rechazo("error desconocido", "3")),
    }
}

/// Where `/doc/addetalle` panics: `doc` is an `i64` and `asunto` is
/// missing; or `asunto` is a string and `user` is missing; or the checks
/// pass and `dni` or `descripcion` is not a string.
pub open spec fn add_detalle_aborta(body: Cuerpo) -> bool {
    &&& body.presente("dni"@) && body.presente("doc"@) && body.presente("fecha"@) && body.presente(
        "descripcion"@,
    )
    &&& body.i64_en("doc"@)
    &&& !body.presente("asunto"@) || (body.texto_en("asunto"@) && (!body.presente("user"@) || (
    body.i64_en("user"@) && (!body.texto_en("dni"@) || !body.texto_en("descripcion"@)))))
}

/// Tells whether `/doc/addetalle` panics on this body.
pub fn add_detalle_falla(body: &Cuerpo) -> (r: bool)
    ensures
        r == add_detalle_aborta(*body),
{
    if !body.tiene_clave("dni") || !body.tiene_clave("doc") || !body.tiene_clave("fecha")
        || !body.tiene_clave("descripcion") {
        return false;
    }
    if !body.es_i64_en("doc") {
        return false;
    }
    if !body.tiene_clave("asunto") {
        return true;
    }
    if !body.es_texto_en("asunto") {
        return false;
    }
    if !body.tiene_clave("user") {
        return true;
    }
    body.es_i64_en("user") && (!body.es_texto_en("dni") || !body.es_texto_en("descripcion"))
}

/// The statement that inserts a document detail: `doc` and `user` in
/// decimal; `dni`, `asunto` and `descripcion` as they are, between quotes;
/// `fecha`, `referencia`, `inicio` and `fin` as their JSON text (`null` when
/// absent); the texts encrypted with `clave`.
pub open spec fn insercion_detalle(body: Cuerpo, clave: Seq<char>) -> Seq<char> {
    "INSERT INTO detalledoc (doc,dni,fecha,asunto,referencia,descripcion,inicio,fin,create_by) VALUES\n    (\n        "@
        + decimal_entero(body.i64_de("doc"@) as int) + ",\n        '"@ + body.texto_de("dni"@)
        + "',\n        "@ + body.json_de("fecha"@) + ",\n        AES_ENCRYPT('"@ + body.texto_de(
        "asunto"@,
    ) + "','"@ + clave + "'),\n        AES_ENCRYPT("@ + body.json_de("referencia"@) + ",'"@ + clave
        + "'),\n        AES_ENCRYPT('"@ + body.texto_de("descripcion"@) + "','"@ + clave
        + "'),\n        "@ + body.json_de("inicio"@) + ",\n        "@ + body.json_de("fin"@)
        + ",\n        "@ + decimal_entero(body.i64_de("user"@) as int) + "\n    )"@
}

/// Regroups a concatenation of three texts.
proof fn asociar(a: Seq<char>, b: Seq<char>, c: Seq<char>)
    ensures
        a + b + c == a + (b + c),
{
    assert(a + b + c =~= a + (b + c));
}

/// The insert of a detail opens with the header, `doc` in decimal, the
/// quoted `dni`, `fecha` as the JSON text of the body's value, and the
/// quoted `asunto` encrypted with `clave`.
pub proof fn detalle_con_fecha_en_json(body: Cuerpo, clave: Seq<char>)
    ensures
        exists|q: Seq<char>|
            insercion_detalle(body, clave) == "INSERT INTO detalledoc (doc,dni,fecha,asunto,referencia,descripcion,inicio,fin,create_by) VALUES\n    (\n        "@
                + decimal_entero(body.i64_de("doc"@) as int) + ",\n        '"@ + body.texto_de("dni"@)
                + "',\n        "@ + body.json_de("fecha"@) + ",\n        AES_ENCRYPT('"@
                + body.texto_de("asunto"@) + "','"@ + clave + "'),\n        AES_ENCRYPT("@ + q,
{
    let h: Seq<char> = "INSERT INTO detalledoc (doc,dni,fecha,asunto,referencia,descripcion,inicio,fin,create_by) VALUES\n    (\n        "@;
    let doc: Seq<char> = decimal_entero(body.i64_de("doc"@) as int);
    let s2: Seq<char> = ",\n        '"@;
    let dni: Seq<char> = body.texto_de("dni"@);
    let s4: Seq<char> = "',\n        "@;
    let fecha: Seq<char> = body.json_de("fecha"@);
    let s6: Seq<char> = ",\n        AES_ENCRYPT('"@;
    let asunto: Seq<char> = body.texto_de("asunto"@);
    let s8: Seq<char> = "','"@;
    let s10: Seq<char> = "'),\n        AES_ENCRYPT("@;
    let referencia: Seq<char> = body.json_de("referencia"@);
    let s12: Seq<char> = ",'"@;
    let s14: Seq<char> = "'),\n        AES_ENCRYPT('"@;
    let descripcion: Seq<char> = body.texto_de("descripcion"@);
    let s16: Seq<char> = "','"@;
    let s18: Seq<char> = "'),\n        "@;
    let inicio: Seq<char> = body.json_de("inicio"@);
    let s20: Seq<char> = ",\n        "@;
    let fin: Seq<char> = body.json_de("fin"@);
    let s22: Seq<char> = ",\n        "@;
    let user: Seq<char> = decimal_entero(body.i64_de("user"@) as int);
    let s24: Seq<char> = "\n    )"@;
    let y = h + doc + s2 + dni + s4 + fecha + s6 + asunto + s8 + clave + s10;
    let q11 = referencia;
    asociar(y, q11, s12);
    let q12 = q11 + s12;
    asociar(y, q12, clave);
    let q13 = q12 + clave;
    asociar(y, q13, s14);
    let q14 = q13 + s14;
    asociar(y, q14, descripcion);
    let q15 = q14 + descripcion;
    asociar(y, q15, s16);
    let q16 = q15 + s16;
    asociar(y, q16, clave);
    let q17 = q16 + clave;
    asociar(y, q17, s18);
    let q18 = q17 + s18;
    asociar(y, q18, inicio);
    let q19 = q18 + inicio;
    asociar(y, q19, s20);
    let q20 = q19 + s20;
    asociar(y, q20, fin);
    let q21 = q20 + fin;
    asociar(y, q21, s22);
    let q22 = q21 + s22;
    asociar(y, q22, user);
    let q23 = q22 + user;
    asociar(y, q23, s24);
    let q24 = q23 + s24;
    assert(insercion_detalle(body, clave) == y + q24);
}

/// In the insert of a detail, `referencia` is encrypted as the JSON text of
/// the body's value, and `inicio`, `fin` and the user close the statement,
/// the two dates written as the JSON texts of the body's values.
pub proof fn detalle_con_fechas_en_json(body: Cuerpo, clave: Seq<char>)
    ensures
        exists|p: Seq<char>|
            insercion_detalle(body, clave) == p + "'),\n        AES_ENCRYPT("@ + body.json_de("referencia"@)
                + ",'"@ + clave + "'),\n        AES_ENCRYPT('"@ + body.texto_de("descripcion"@) + "','"@
                + clave + "'),\n        "@ + body.json_de("inicio"@) + ",\n        "@ + body.json_de(
                "fin"@,
            ) + ",\n        "@ + decimal_entero(body.i64_de("user"@) as int) + "\n    )"@,
{
    let h: Seq<char> = "INSERT INTO detalledoc (doc,dni,fecha,asunto,referencia,descripcion,inicio,fin,create_by) VALUES\n    (\n        "@;
    let doc: Seq<char> = decimal_entero(body.i64_de("doc"@) as int);
    let s2: Seq<char> = ",\n        '"@;
    let dni: Seq<char> = body.texto_de("dni"@);
    let s4: Seq<char> = "',\n        "@;
    let fecha: Seq<char> = body.json_de("fecha"@);
    let s6: Seq<char> = ",\n        AES_ENCRYPT('"@;
    let asunto: Seq<char> = body.texto_de("asunto"@);
    let s8: Seq<char> = "','"@;
    let s10: Seq<char> = "'),\n        AES_ENCRYPT("@;
    let referencia: Seq<char> = body.json_de("referencia"@);
    let s12: Seq<char> = ",'"@;
    let s14: Seq<char> = "'),\n        AES_ENCRYPT('"@;
    let descripcion: Seq<char> = body.texto_de("descripcion"@);
    let s16: Seq<char> = "','"@;
    let s18: Seq<char> = "'),\n        "@;
    let inicio: Seq<char> = body.json_de("inicio"@);
    let s20: Seq<char> = ",\n        "@;
    let fin: Seq<char> = body.json_de("fin"@);
    let s22: Seq<char> = ",\n        "@;
    let user: Seq<char> = decimal_entero(body.i64_de("user"@) as int);
    let s24: Seq<char> = "\n    )"@;
    let p = h + doc + s2 + dni + s4 + fecha + s6 + asunto + s8 + clave;
    assert(insercion_detalle(body, clave) == p + s10 + referencia + s12 + clave + s14 + descripcion
        + s16 + clave + s18 + inicio + s20 + fin + s22 + user + s24);
}

/// The statement, cut just before the JSON text of `fin`.
proof fn detalle_partido_en_fin(body: Cuerpo, clave: Seq<char>) -> (p: Seq<char>)
    ensures
        insercion_detalle(body, clave) == p + body.json_de("fin"@) + ",\n        "@ + decimal_entero(
            body.i64_de("user"@) as int,
        ) + "\n    )"@,
{
    "INSERT INTO detalledoc (doc,dni,fecha,asunto,referencia,descripcion,inicio,fin,create_by) VALUES\n    (\n        "@
        + decimal_entero(body.i64_de("doc"@) as int) + ",\n        '"@ + body.texto_de("dni"@)
        + "',\n        "@ + body.json_de("fecha"@) + ",\n        AES_ENCRYPT('"@ + body.texto_de(
        "asunto"@,
    ) + "','"@ + clave + "'),\n        AES_ENCRYPT("@ + body.json_de("referencia"@) + ",'"@ + clave
        + "'),\n        AES_ENCRYPT('"@ + body.texto_de("descripcion"@) + "','"@ + clave
        + "'),\n        "@ + body.json_de("inicio"@) + ",\n        "@
}

/// Replaces the middle of a text cut in three.
proof fn cambiar_medio(st: Seq<char>, p: Seq<char>, x: Seq<char>, y: Seq<char>, t: Seq<char>)
    requires
        st == p + x + t,
        x == y,
    ensures
        st == p + y + t,
{
}

/// In the insert of a detail, an end date sent as a string is written as a
/// quoted JSON string literal (its characters escaped as JSON asks), just
/// before the user.
pub proof fn detalle_con_fin_entre_comillas(body: Cuerpo, clave: Seq<char>)
    ensures
        body.texto_en("fin"@) ==> exists|p: Seq<char>|
            insercion_detalle(body, clave) == p + cadena_json(body.texto_de("fin"@)) + (",\n        "@
                + decimal_entero(body.i64_de("user"@) as int) + "\n    )"@),
{
    let p = detalle_partido_en_fin(body, clave);
    let t = ",\n        "@ + decimal_entero(body.i64_de("user"@) as int) + "\n    )"@;
    let x = body.json_de("fin"@);
    asociar(p + x, ",\n        "@, decimal_entero(body.i64_de("user"@) as int));
    asociar(p + x, ",\n        "@ + decimal_entero(body.i64_de("user"@) as int), "\n    )"@);
    json_de_cada_valor(body, "fin"@);
    if body.texto_en("fin"@) {
        cambiar_medio(insercion_detalle(body, clave), p, x, cadena_json(body.texto_de("fin"@)), t);
    }
}

/// `/doc/addetalle`, first step: a body lacking `dni`, `doc`, `fecha` or
/// `descripcion` is refused with "parametros incorrectos" (code 3); one
/// where `doc` or `user` is not an `i64`, or `asunto` not a string, with
/// "parametros f" (code 3); otherwise the insert statement is built with the
/// encryption key `clave`.
pub fn add_detalle(body: &Cuerpo, clave: &str) -> (r: Result<String, ResponseBody>)
    requires
        !add_detalle_aborta(*body),
    ensures
        !(body.presente("dni"@) && body.presente("doc"@) && body.presente("fecha"@)
            && body.presente("descripcion"@)) ==> (r matches Err(e) && e.es(
            "parametros incorrectos"@,
            "3"@,
        )),
        body.presente("dni"@) && body.presente("doc"@) && body.presente("fecha"@) && body.presente(
            "descripcion"@,
        ) ==> (if !(body.i64_en("doc"@) && body.texto_en("asunto"@) && body.i64_en("user"@)) {
            r matches Err(e) && e.es("parametros f"@, "3"@)
        } else {
            r matches Ok(sql) && sql@ == insercion_detalle(*body, clave@)
        }),
{
    if !body.tiene_clave("dni") || !body.tiene_clave("doc") || !body.tiene_clave("fecha")
        || !body.tiene_clave("descripcion") {
        return Err(ResponseBody::rechazo("parametros incorrectos", "3"));
    }
    if !body.es_i64_en("doc") || !body.es_texto_en("asunto") || !body.es_i64_en("user") {
        return Err(ResponseBody::rechazo("parametros f", "3"));
    }
    let mut q = String::from_str(
        "INSERT INTO detalledoc (doc,dni,fecha,asunto,referencia,descripcion,inicio,fin,create_by) VALUES\n    (\n        ",
    );
    q.append(decimal_i64(body.i64_o_cero("doc")).as_str());
    q.append(",\n        '");
    q.append(body.copia_texto("dni").as_str());
    q.append("',\n        ");
    q.append(body.mostrar_o_null("fecha").as_str());
    q.append(",\n        AES_ENCRYPT('");
    q.append(body.copia_texto("asunto").as_str());
    q.append("','");
    q.append(clave);
    q.append("'),\n        AES_ENCRYPT(");
    q.append(body.mostrar_o_null("referencia").as_str());
    q.append(",'");
    q.append(clave);
    q.append("'),\n        AES_ENCRYPT('");
    q.append(body.copia_texto("descripcion").as_str());
    q.append("','");
    q.append(clave);
    q.append("'),\n        ");
    q.append(body.mostrar_o_null("inicio").as_str());
    q.append(",\n        ");
    q.append(body.mostrar_o_null("fin").as_str());
    q.append(",\n        ");
    q.append(decimal_i64(body.i64_o_cero("user")).as_str());
    q.append("\n    )");
    Ok(q)
}

/// `/doc/addetalle`, after the insert: done answers a body whose message is
/// the new id in decimal and whose code is "1"; a database error is refused
/// as `rechazo_de_base` says; any other failure with "error desconocido"
/// (code 3).
pub fn add_detalle_respuesta(e: &Escritura) -> (r: Result<ResponseBody, ResponseBody>)
    ensures
        match *e {
            Escritura::Hecha { ultimo_id, .. } => r matches Ok(b) && b.es(
                decimal(ultimo_id as nat),
                "1"@,
            ),
            Escritura::FallaBase { clase, texto } => r matches Err(b) && rechazo_de_base(
                clase,
                texto@,
                b,
            ),
            Escritura::Falla => r matches Err(b) && b.es("error desconocido"@, "3"@),
        },
{
    match e {
        Escritura::Hecha { ultimo_id, .. } => {
            let codigo = String::from_str("1");
            Ok(ResponseBody { message: decimal_u64(*ultimo_id), code: Some(codigo) })
        },
        Escritura::FallaBase { clase, texto } => Err(rechazo_base(clase, texto)),
        Escritura::Falla => Err(ResponseBody::rechazo("error desconocido", "3")),
    }
}

/// `/doc/search`, first step: a body without `doc` is refused with
/// "parametros incorrectos" (code 3), one whose `doc` is not a string with
/// "parametros no validos" (code 3); otherwise the document is looked up by
/// that name.
pub fn buscar_doc(body: &Cuerpo) -> (r: Result<String, ResponseBody>)
    ensures
        !body.presente("doc"@) ==> (r matches Err(e) && e.es("parametros incorrectos"@, "3"@)),
        body.presente("doc"@) && !body.texto_en("doc"@) ==> (r matches Err(e) && e.es(
            "parametros no validos"@,
            "3"@,
        )),
        body.texto_en("doc"@) ==> (r matches Ok(n) && n@ == body.texto_de("doc"@)),
{
    if !body.tiene_clave("doc") {
        return Err(ResponseBody::rechazo("parametros incorrectos", "3"));
    }
    if !body.es_texto_en("doc") {
        return Err(ResponseBody::rechazo("parametros no validos", "3"));
    }
    Ok(body.copia_texto("doc"))
}

/// `/doc/search`, after the lookup: the document found is answered, none is
/// refused with "no hay datos" (code 2).
pub fn buscar_doc_respuesta<T>(fila: Option<T>) -> (r: Result<T, ResponseBody>)
    ensures
        match fila {
            Some(d) => r matches Ok(x) && x == d,
            None => r matches Err(e) && e.es("no hay datos"@, "2"@),
        },
{
    match fila {
        Some(d) => Ok(d),
        None => Err(ResponseBody::rechazo("no hay datos", "2")),
    }
}

/// Where `/doc/delete` panics: `id` is a number that does not fit an `i64`.
pub open spec fn delete_doc_aborta(body: Cuerpo) -> bool {
    body.numero_en("id"@) && !body.i64_en("id"@)
}

/// Tells whether `/doc/delete` panics on this body.
pub fn delete_doc_falla(body: &Cuerpo) -> (r: bool)
    ensures
        r == delete_doc_aborta(*body),
{
    body.es_numero_en("id") && !body.es_i64_en("id")
}

/// `/doc/delete`, first step: a body without `id` is refused with
/// "parametros incorrectos" (code 3), one whose `id` is not a number with
/// "parametros f" (code 3); otherwise the detail with that id is removed.
/// The answer afterwards is `comun::resultado_cambio`'s.
pub fn delete_doc(body: &Cuerpo) -> (r: Result<i64, ResponseBody>)
    requires
        !delete_doc_aborta(*body),
    ensures
        !body.presente("id"@) ==> (r matches Err(e) && e.es("parametros incorrectos"@, "3"@)),
        body.presente("id"@) && !body.numero_en("id"@) ==> (r matches Err(e) && e.es(
            "parametros f"@,
            "3"@,
        )),
        body.numero_en("id"@) ==> r == Ok::<i64, ResponseBody>(body.i64_de("id"@)),
{
    if !body.tiene_clave("id") {
        return Err(ResponseBody::rechazo("parametros incorrectos", "3"));
    }
    if !body.es_numero_en("id") {
        return Err(ResponseBody::rechazo("parametros f", "3"));
    }
    Ok(body.i64_o_cero("id"))
}

/// Where `/doc/anulardoc` panics: `id` is missing while `valor` is there;
/// or `id` is a number and `valor` is missing; or `id` is a number that does
/// not fit an `i64`.
pub open spec fn anular_doc_aborta(body: Cuerpo) -> bool {
    &&& body.presente("id"@) || body.presente("valor"@)
    &&& !body.presente("id"@) || (body.numero_en("id"@) && (!body.presente("valor"@)
        || !body.i64_en("id"@)))
}

/// Tells whether `/doc/anulardoc` panics on this body.
pub fn anular_doc_falla(body: &Cuerpo) -> (r: bool)
    ensures
        r == anular_doc_aborta(*body),
{
    let id = body.tiene_clave("id");
    let valor = body.tiene_clave("valor");
    if !id && !valor {
        return false;
    }
    if !id {
        return true;
    }
    body.es_numero_en("id") && (!valor || !body.es_i64_en("id"))
}

/// The statement that marks a detail active (`Y`) or void (`N`): void when
/// `valor` is a boolean, whichever its value.
pub open spec fn cambio_activo(body: Cuerpo) -> Seq<char> {
    "update detalledoc set active = '"@ + (if body.booleano_en("valor"@) {
        "N"@
    } else {
        "Y"@
    }) + "' where id = "@ + decimal_entero(body.i64_de("id"@) as int)
}

/// The update of `/doc/anulardoc` names exactly the requested detail: after
/// `update detalledoc set active = '`, the flag (`N` when `valor` is a
/// boolean, `Y` otherwise) and `' where id = `, the rest of the statement is
/// a numeral that reads back as the body's `id`.
pub proof fn anulacion_del_detalle_pedido(body: Cuerpo)
    ensures
        cambio_activo(body).len() > 46,
        cambio_activo(body).take(32) == "update detalledoc set active = '"@,
        cambio_activo(body)[32] == if body.booleano_en("valor"@) {
            'N'
        } else {
            'Y'
        },
        cambio_activo(body).subrange(33, 46) == "' where id = "@,
        leer_entero(cambio_activo(body).skip(46)) == body.i64_de("id"@),
{
    reveal_strlit("update detalledoc set active = '");
    reveal_strlit("' where id = ");
    reveal_strlit("N");
    reveal_strlit("Y");
    let numero = decimal_entero(body.i64_de("id"@) as int);
    decimal_entero_se_lee(body.i64_de("id"@) as int);
    let s = cambio_activo(body);
    assert(s.take(32) =~= "update detalledoc set active = '"@);
    assert(s.subrange(33, 46) =~= "' where id = "@);
    assert(s.skip(46) =~= numero);
}

/// `/doc/anulardoc`, first step: a body with neither `id` nor `valor` is
/// refused with "parametros incorrectos" (code 3), one whose `id` is not a
/// number with "parametros f" (code 3); otherwise the update statement is
/// built. The answer afterwards is `comun::resultado_cambio`'s.
pub fn anular_doc(body: &Cuerpo) -> (r: Result<String, ResponseBody>)
    requires
        !anular_doc_aborta(*body),
    ensures
        !body.presente("id"@) && !body.presente("valor"@) ==> (r matches Err(e) && e.es(
            "parametros incorrectos"@,
            "3"@,
        )),
        body.presente("id"@) && !body.numero_en("id"@) ==> (r matches Err(e) && e.es(
            "parametros f"@,
            "3"@,
        )),
        body.numero_en("id"@) ==> (r matches Ok(sql) && sql@ == cambio_activo(*body)),
{
    if !body.tiene_clave("id") && !body.tiene_clave("valor") {
        return Err(ResponseBody::rechazo("parametros incorrectos", "3"));
    }
    if !body.es_numero_en("id") {
        return Err(ResponseBody::rechazo("parametros f", "3"));
    }
    let anula = match body.get("valor") {
        Some(v) => v.is_boolean(),
        None => false,
    };
    let mut q = String::from_str("update detalledoc set active = '");
    if anula {
        q.append("N");
    } else {
        q.append("Y");
    }
    q.append("' where id = ");
    q.append(decimal_i64(body.i64_o_cero("id")).as_str());
    Ok(q)
}

} // verus!
