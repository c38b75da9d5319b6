//! Workers: searches, lookups by DNI, new contracts and resignations.

use vstd::prelude::*;
use vstd::string::*;
use crate::middleware::sa::ResponseBody;
use crate::modelos::trabajador::ResNuevoContrato;
use crate::texto::{
    contiene, decimal, decimal_entero, decimal_i64, decimal_u64, dni_valido, patron_contiene,
    es_cifra_decimal, solo_cifras, solo_cifras_son_las_diez, unir, unir_paso,
};
use crate::valor::Cuerpo;

verus! {

/// `/employ/search`: a body without `nombre` is refused with "parametros
/// incorrectos" (code 3), one whose `nombre` is not a string with
/// "parametros f" (code 3); otherwise the workers whose name contains it are
/// searched.
pub fn buscar_trabajadores(body: &Cuerpo) -> (r: Result<String, ResponseBody>)
    ensures
        !body.presente("nombre"@) ==> (r matches Err(e) && e.es("parametros incorrectos"@, "3"@)),
        body.presente("nombre"@) && !body.texto_en("nombre"@) ==> (r matches Err(e) && e.es(
            "parametros f"@,
            "3"@,
        )),
        body.texto_en("nombre"@) ==> (r matches Ok(p) && p@ == patron_contiene(
            body.texto_de("nombre"@),
        )),
{
    if !body.tiene_clave("nombre") {
        return Err(ResponseBody::rechazo("parametros incorrectos", "3"));
    }
    if !body.es_texto_en("nombre") {
        return Err(ResponseBody::rechazo("parametros f", "3"));
    }
    Ok(contiene(body.copia_texto("nombre").as_str()))
}

/// The check on the DNI in the path of the lookups by DNI: refused with
/// "formato de dni incorrecto" (code 1) unless it is eight decimal digits.
pub open spec fn dni_revisado(dni: &str, r: Result<(), ResponseBody>) -> bool {
    if dni.spec_bytes().len() == 8 && solo_cifras(dni@) {
        r is Ok
    } else {
        r matches Err(e) && e.es("formato de dni incorrecto"@, "1"@)
    }
}

/// The lookups by DNI go ahead exactly for a DNI of eight characters, each
/// one of the ten decimal digits `0` to `9`; every other DNI is refused with
/// "formato de dni incorrecto" (code 1).
pub proof fn dni_de_ocho_cifras(dni: &str, r: Result<(), ResponseBody>)
    requires
        dni_revisado(dni, r),
    ensures
        r is Ok <==> (dni@.len() == 8 && forall|i: int|
            0 <= i < 8 ==> es_cifra_decimal(#[trigger] dni@[i])),
        r matches Err(e) ==> e.es("formato de dni incorrecto"@, "1"@),
{
    solo_cifras_son_las_diez(dni@);
    if solo_cifras(dni@) {
        assert(vstd::utf8::is_ascii_chars(dni@)) by {
            assert forall|j: int| 0 <= j < dni@.len() implies '\0' <= #[trigger] dni@[j] <= '\u{7f}' by {
                assert('0' <= dni@[j] <= '9');
            }
        }
        vstd::utf8::is_ascii_chars_encode_utf8(dni@);
    }
}

fn revisar_dni(dni: &str) -> (r: Result<(), ResponseBody>)
    ensures
        dni_revisado(dni, r),
{
    if !dni_valido(dni) {
        return Err(ResponseBody::rechazo("formato de dni incorrecto", "1"));
    }
    Ok(())
}

/// `/employ/{dni}`: checks the DNI before the worker's data is read.
pub fn buscar_by_dni(dni: &str) -> (r: Result<(), ResponseBody>)
    ensures
        dni_revisado(dni, r),
{
    revisar_dni(dni)
}

/// `/employ/contrato/{dni}`: checks the DNI before the contracts are read.
pub fn contratos_by_dni(dni: &str) -> (r: Result<(), ResponseBody>)
    ensures
        dni_revisado(dni, r),
{
    revisar_dni(dni)
}

/// `/employ/info/{dni}`: checks the DNI before the basic data is read.
pub fn buscar_by_dni_basico(dni: &str) -> (r: Result<(), ResponseBody>)
    ensures
        dni_revisado(dni, r),
{
    revisar_dni(dni)
}

/// The answer of the lookups of one worker by DNI: the row found, or a
/// refusal with "trabajador no existe" (code 1).
pub fn respuesta_trabajador<T>(fila: Option<T>) -> (r: Result<T, ResponseBody>)
    ensures
        match fila {
            Some(d) => r matches Ok(x) && x == d,
            None => r matches Err(e) && e.es("trabajador no existe"@, "1"@),
        },
{
    match fila {
        Some(d) => Ok(d),
        None => Err(ResponseBody::rechazo("trabajador no existe", "1")),
    }
}

/// Where the searches of posts and areas panic: `nombre` is there and is
/// not a string.
pub open spec fn busqueda_nombre_aborta(body: Cuerpo) -> bool {
    body.presente("nombre"@) && !body.texto_en("nombre"@)
}

/// Tells whether the searches of posts and areas panic on this body.
pub fn busqueda_nombre_falla(body: &Cuerpo) -> (r: bool)
    ensures
        r == busqueda_nombre_aborta(*body),
{
    body.tiene_clave("nombre") && !body.es_texto_en("nombre")
}

/// The search by part of a name shared by posts and areas: a body without
/// `nombre` is refused with "parametros incorrectos" (code 3); otherwise the
/// rows whose name contains it are searched.
pub open spec fn busqueda_nombre_correcta(body: Cuerpo, r: Result<String, ResponseBody>) -> bool {
    if !body.presente("nombre"@) {
        r matches Err(e) && e.es("parametros incorrectos"@, "3"@)
    } else {
        r matches Ok(p) && p@ == patron_contiene(body.texto_de("nombre"@))
    }
}

fn busqueda_nombre(body: &Cuerpo) -> (r: Result<String, ResponseBody>)
    requires
        !busqueda_nombre_aborta(*body),
    ensures
        busqueda_nombre_correcta(*body, r),
{
    if !body.tiene_clave("nombre") {
        return Err(ResponseBody::rechazo("parametros incorrectos", "3"));
    }
    Ok(contiene(body.copia_texto("nombre").as_str()))
}

/// `/employ/cargo`: the search of posts by part of their name.
pub fn buscar_cargo(body: &Cuerpo) -> (r: Result<String, ResponseBody>)
    requires
        !busqueda_nombre_aborta(*body),
    ensures
        busqueda_nombre_correcta(*body, r),
{
    busqueda_nombre(body)
}

/// `/employ/area`: the search of areas by part of their name.
pub fn buscar_area(body: &Cuerpo) -> (r: Result<String, ResponseBody>)
    requires
        !busqueda_nombre_aborta(*body),
    ensures
        busqueda_nombre_correcta(*body, r),
{
    busqueda_nombre(body)
}

/// Where `/employ/adenda` panics: `dni` is there and is not a string.
pub open spec fn buscar_adenda_aborta(body: Cuerpo) -> bool {
    body.presente("dni"@) && !body.texto_en("dni"@)
}

/// Tells whether `/employ/adenda` panics on this body.
pub fn buscar_adenda_falla(body: &Cuerpo) -> (r: bool)
    ensures
        r == buscar_adenda_aborta(*body),
{
    body.tiene_clave("dni") && !body.es_texto_en("dni")
}

/// `/employ/adenda`: a body without `dni` is refused with "parametros
/// incorrectos" (code 3); otherwise the worker's first contract is read.
pub fn buscar_adenda(body: &Cuerpo) -> (r: Result<String, ResponseBody>)
    requires
        !buscar_adenda_aborta(*body),
    ensures
        !body.presente("dni"@) ==> (r matches Err(e) && e.es("parametros incorrectos"@, "3"@)),
        body.presente("dni"@) ==> (r matches Ok(d) && d@ == body.texto_de("dni"@)),
{
    if !body.tiene_clave("dni") {
        return Err(ResponseBody::rechazo("parametros incorrectos", "3"));
    }
    Ok(body.copia_texto("dni"))
}

/// The column names `f1` to `fn` for `n` duties.
pub open spec fn columnas_funciones(n: nat) -> Seq<Seq<char>> {
    Seq::new(n, |i: int| "f"@ + decimal((i + 1) as nat))
}

/// The duties, each between single quotes.
pub open spec fn valores_funciones(fs: Seq<String>) -> Seq<Seq<char>> {
    fs.map_values(|f: String| "'"@ + f@ + "'"@)
}

/// The statement that stores the duties of a contract, one column each.
pub open spec fn insercion_funciones(fs: Seq<String>) -> Seq<char> {
    "insert into funciones_contratos("@ + unir(columnas_funciones(fs.len()), ","@)
        + ") values ("@ + unir(valores_funciones(fs), ","@) + ")"@
}

/// The statement that stores a contract whose duties have id `funcion`.
pub open spec fn insercion_contrato(body: ResNuevoContrato, funcion: u64) -> Seq<char> {
    "INSERT INTO contrato (dni,numero,ingreso,convocatoria_s,area,cargo,regimen,funcion,sueldo) VALUES\n    (\n        '"@
        + body.dni@ + "',"@ + decimal_entero(body.contrato as int) + ",'"@ + body.ingreso@ + "','"@
        + (match body.convocatoria {
        Some(c) => c@,
        None => Seq::empty(),
    }) + "',"@ + decimal_entero(body.area as int) + ","@ + decimal_entero(body.cargo as int) + ","@
        + decimal_entero(body.regimen as int) + ","@ + decimal(funcion as nat) + ","@
        + decimal_entero(body.sueldo as int) + "\n    )"@
}

fn sql_funciones(fs: &Vec<String>) -> (r: String)
    ensures
        r@ == insercion_funciones(fs@),
{
    let n = fs.len();
    let ghost cols = columnas_funciones(n as nat);
    let ghost vals = valores_funciones(fs@);
    let mut c = String::new();
    let mut v = String::new();
    for i in 0..n
        invariant
            n == fs@.len(),
            cols == columnas_funciones(n as nat),
            vals == valores_funciones(fs@),
            c@ == unir(cols.take(i as int), ","@),
            v@ == unir(vals.take(i as int), ","@),
    {
        proof {
            unir_paso(cols, ","@, i as int);
            unir_paso(vals, ","@, i as int);
        }
        if i > 0 {
            c.append(",");
            v.append(",");
        }
        c.append("f");
        c.append(decimal_u64((i + 1) as u64).as_str());
        v.append("'");
        v.append(fs[i].as_str());
        v.append("'");
    }
    proof {
        assert(cols.take(n as int) =~= cols);
        assert(vals.take(n as int) =~= vals);
    }
    let mut q = String::from_str("insert into funciones_contratos(");
    q.append(c.as_str());
    q.append(") values (");
    q.append(v.as_str());
    q.append(")");
    q
}

/// Builds the statement that stores a contract whose duties have id `funcion`.
pub fn add_contrato_con_funcion(body: &ResNuevoContrato, funcion: u64) -> (r: String)
    ensures
        r@ == insercion_contrato(*body, funcion),
{
    let mut q = String::from_str(
        "INSERT INTO contrato (dni,numero,ingreso,convocatoria_s,area,cargo,regimen,funcion,sueldo) VALUES\n    (\n        '",
    );
    q.append(body.dni.as_str());
    q.append("',");
    q.append(decimal_i64(body.contrato).as_str());
    q.append(",'");
    q.append(body.ingreso.as_str());
    q.append("','");
    match &body.convocatoria {
        Some(c) => q.append(c.as_str()),
        None => {},
    }
    q.append("',");
    q.append(decimal_i64(body.area).as_str());
    q.append(",");
    q.append(decimal_i64(body.cargo).as_str());
    q.append(",");
    q.append(decimal_i64(body.regimen).as_str());
    q.append(",");
    q.append(decimal_u64(funcion).as_str());
    q.append(",");
    q.append(decimal_i64(body.sueldo).as_str());
    q.append("\n    )");
    q
}

/// The first write of `/employ/addcontrato`.
#[derive(Debug)]
pub enum PasoContrato {
    /// Store the duties; then store the contract with the id they got.
    InsertarFunciones(String),
    /// Store the contract.
    InsertarContrato(String),
}

/// `/employ/addcontrato`, first step: with duties, they are stored first;
/// without, the contract is stored at once, with duties id 1.
pub fn add_contrato(body: &ResNuevoContrato) -> (p: PasoContrato)
    ensures
        match body.funciones {
            Some(fs) => p matches PasoContrato::InsertarFunciones(sql) && sql@
                == insercion_funciones(fs@),
            None => p matches PasoContrato::InsertarContrato(sql) && sql@ == insercion_contrato(
                *body,
                1,
            ),
        },
{
    match &body.funciones {
        Some(fs) => PasoContrato::InsertarFunciones(sql_funciones(fs)),
        None => PasoContrato::InsertarContrato(add_contrato_con_funcion(body, 1)),
    }
}

/// `/employ/addcontrato`, after storing the contract: its id, or a refusal
/// with the error's text (code 3).
pub fn add_contrato_respuesta(r: Result<u64, String>) -> (a: Result<u64, ResponseBody>)
    ensures
        match r {
            Ok(id) => a == Ok::<u64, ResponseBody>(id),
            Err(t) => a matches Err(e) && e.es(t@, "3"@),
        },
{
    match r {
        Ok(id) => Ok(id),
        Err(t) => Err(ResponseBody::rechazo(t.as_str(), "3")),
    }
}

/// Where `/employ/addrenuncia` panics: `id` is a number and `renuncia` is
/// missing or not a string, or `id` does not fit an `i64`.
pub open spec fn agregar_renuncia_aborta(body: Cuerpo) -> bool {
    body.numero_en("id"@) && (!body.texto_en("renuncia"@) || !body.i64_en("id"@))
}

/// Tells whether `/employ/addrenuncia` panics on this body.
pub fn agregar_renuncia_falla(body: &Cuerpo) -> (r: bool)
    ensures
        r == agregar_renuncia_aborta(*body),
{
    body.es_numero_en("id") && (!body.es_texto_en("renuncia") || !body.es_i64_en("id"))
}

/// A resignation: its date and the contract it ends.
#[derive(Debug)]
pub struct Renuncia {
    pub renuncia: String,
    pub id: i64,
}

/// `/employ/addrenuncia`, first step: a body without `id` is refused with
/// "parametros incorrectos" (code 3), one whose `id` is not a number with
/// "parametros f" (code 3); otherwise the contract is ended on the date
/// `renuncia`. The answer afterwards is `comun::resultado_cambio`'s.
pub fn agregar_renuncia(body: &Cuerpo) -> (r: Result<Renuncia, ResponseBody>)
    requires
        !agregar_renuncia_aborta(*body),
    ensures
        !body.presente("id"@) ==> (r matches Err(e) && e.es("parametros incorrectos"@, "3"@)),
        body.presente("id"@) && !body.numero_en("id"@) ==> (r matches Err(e) && e.es(
            "parametros f"@,
            "3"@,
        )),
        body.numero_en("id"@) ==> (r matches Ok(x) && x.renuncia@ == body.texto_de("renuncia"@)
            && x.id == body.i64_de("id"@)),
{
    if !body.tiene_clave("id") {
        return Err(ResponseBody::rechazo("parametros incorrectos", "3"));
    }
    if !body.es_numero_en("id") {
        return Err(ResponseBody::rechazo("parametros f", "3"));
    }
    Ok(Renuncia { renuncia: body.copia_texto("renuncia"), id: body.i64_o_cero("id") })
}

} // verus!
