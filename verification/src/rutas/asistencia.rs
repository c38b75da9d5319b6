//! Attendance: looking up a month, and replacing a month's records.

use vstd::prelude::*;
use vstd::string::*;
use crate::middleware::sa::ResponseBody;
use crate::modelos::asistencia::CreateAsistenciaRegistro;
use crate::texto::{decimal_entero, decimal_i64};
use crate::valor::Cuerpo;

verus! {

/// The parameters of a monthly lookup: a worker and a month of a year.
#[derive(Debug)]
pub struct ConsultaMes {
    pub dni: String,
    pub year: i64,
    pub mes: i64,
}

/// The checks shared by the monthly lookups: a body lacking `dni`, `mes` or
/// `year` is refused with "parametros incorrectos" (code 3); one where `dni`
/// is not a string, or `mes` or `year` not an `i64`, with "parametros f"
/// (code 3); otherwise the lookup takes those three values.
pub open spec fn consulta_mes_correcta(body: Cuerpo, r: Result<ConsultaMes, ResponseBody>) -> bool {
    if !(body.presente("dni"@) && body.presente("mes"@) && body.presente("year"@)) {
        r matches Err(e) && e.es("parametros incorrectos"@, "3"@)
    } else if !(body.texto_en("dni"@) && body.i64_en("mes"@) && body.i64_en("year"@)) {
        r matches Err(e) && e.es("parametros f"@, "3"@)
    } else {
        r matches Ok(c) && c.dni@ == body.texto_de("dni"@) && c.mes == body.i64_de("mes"@) && c.year
            == body.i64_de("year"@)
    }
}

/// Reads the worker and month of a monthly lookup.
pub fn consulta_mes(body: &Cuerpo) -> (r: Result<ConsultaMes, ResponseBody>)
    ensures
        consulta_mes_correcta(*body, r),
{
    if !body.tiene_clave("dni") || !body.tiene_clave("mes") || !body.tiene_clave("year") {
        return Err(ResponseBody::rechazo("parametros incorrectos", "3"));
    }
    if !body.es_texto_en("dni") || !body.es_i64_en("mes") || !body.es_i64_en("year") {
        return Err(ResponseBody::rechazo("parametros f", "3"));
    }
    Ok(
        ConsultaMes {
            dni: body.copia_texto("dni"),
            year: body.i64_o_cero("year"),
            mes: body.i64_o_cero("mes"),
        },
    )
}

/// `/asistencia/`: checks the request for a month of attendance.
pub fn buscar_asistencia(body: &Cuerpo) -> (r: Result<ConsultaMes, ResponseBody>)
    ensures
        consulta_mes_correcta(*body, r),
{
    consulta_mes(body)
}

/// The statement that clears a worker's records for a month before the new
/// ones are written.
pub open spec fn borrado_mes(body: CreateAsistenciaRegistro) -> Seq<char> {
    "delete from asistencia where dni = '"@ + body.dni@ + "' and month(fecha) = "@
        + decimal_entero(body.mes as int) + " and year(fecha) = "@ + decimal_entero(
        body.year as int,
    )
}

/// `/asistencia/agregar`, first step: the statement that clears the month.
pub fn agregar_asistencia(body: &CreateAsistenciaRegistro) -> (sql: String)
    ensures
        sql@ == borrado_mes(*body),
{
    let mut s = String::from_str("delete from asistencia where dni = '");
    s.append(body.dni.as_str());
    s.append("' and month(fecha) = ");
    s.append(decimal_i64(body.mes as i64).as_str());
    s.append(" and year(fecha) = ");
    s.append(decimal_i64(body.year as i64).as_str());
    s
}

/// What to do next while writing a month's records.
#[derive(Debug)]
pub enum PasoAsistencia {
    /// Insert the record at this index.
    Insertar(usize),
    /// All records written: answer "Guardado".
    Guardado,
    /// An insert failed: refuse with this body.
    Fallo(ResponseBody),
}

/// The next step, as a value: insert record `i`, answer "Guardado", or
/// refuse.
pub ghost enum Siguiente {
    Insertar(nat),
    Guardado,
    Fallo,
}

/// The next step of writing `n` records, once `hechos` are done and the
/// last write succeeded when `ultimo_ok`: a failure stops; otherwise the
/// records are inserted in order until all are.
pub open spec fn siguiente(n: nat, hechos: nat, ultimo_ok: bool) -> Siguiente {
    if !ultimo_ok {
        Siguiente::Fallo
    } else if hechos < n {
        Siguiente::Insertar(hechos)
    } else {
        Siguiente::Guardado
    }
}

/// `/asistencia/agregar`, next step after the month was cleared (`hechos`
/// is 0, `ultimo_ok` true) or after an insert (`hechos` records done, the
/// last one succeeded when `ultimo_ok`): as `siguiente` says, a failure
/// being refused with "error en los insert" (code 3).
pub fn agregar_asistencia_paso(
    body: &CreateAsistenciaRegistro,
    hechos: usize,
    ultimo_ok: bool,
) -> (p: PasoAsistencia)
    requires
        hechos <= body.cantidad(),
    ensures
        match siguiente(body.cantidad(), hechos as nat, ultimo_ok) {
            Siguiente::Insertar(i) => p matches PasoAsistencia::Insertar(j) && j == i,
            Siguiente::Guardado => p is Guardado,
            Siguiente::Fallo => p matches PasoAsistencia::Fallo(e) && e.es(
                "error en los insert"@,
                "3"@,
            ),
        },
{
    if !ultimo_ok {
        return PasoAsistencia::Fallo(ResponseBody::rechazo("error en los insert", "3"));
    }
    let total = match &body.registros {
        Some(v) => v.len(),
        None => 0,
    };
    if hechos < total {
        PasoAsistencia::Insertar(hechos)
    } else {
        PasoAsistencia::Guardado
    }
}

/// Drives the steps from `hechos` on, insert `i` ending as `resultados[i]`
/// says: the indices inserted, in order, and whether the answer is
/// "Guardado".
pub open spec fn recorrido(n: nat, resultados: Seq<bool>, hechos: nat, ultimo_ok: bool) -> (Seq<
    nat,
>, bool)
    decreases n - hechos,
{
    match siguiente(n, hechos, ultimo_ok) {
        Siguiente::Insertar(i) => {
            let resto = recorrido(n, resultados, hechos + 1, resultados[i as int]);
            (seq![i] + resto.0, resto.1)
        },
        Siguiente::Guardado => (seq![], true),
        Siguiente::Fallo => (seq![], false),
    }
}

/// Writing a month's `n` records inserts them in order, one at a time,
/// stopping at the first failure, and answers "Guardado" exactly when every
/// insert succeeded.
pub proof fn escritura_en_orden(n: nat, resultados: Seq<bool>)
    requires
        resultados.len() >= n,
    ensures
        recorrido(n, resultados, 0, true).1 <==> forall|i: int|
            0 <= i < n ==> #[trigger] resultados[i],
        recorrido(n, resultados, 0, true).0.len() <= n,
        forall|j: int|
            0 <= j < recorrido(n, resultados, 0, true).0.len() ==> #[trigger] recorrido(
                n,
                resultados,
                0,
                true,
            ).0[j] == j,
        forall|j: int|
            0 <= j < recorrido(n, resultados, 0, true).0.len() - 1 ==> #[trigger] resultados[j],
{
    recorrido_desde(n, resultados, 0);
    let r = recorrido(n, resultados, 0, true);
    assert forall|j: int| 0 <= j < r.0.len() - 1 implies #[trigger] resultados[j] by {
        assert(resultados[0 + j]);
    }
}

proof fn recorrido_desde(n: nat, resultados: Seq<bool>, h: nat)
    requires
        resultados.len() >= n,
        h <= n,
    ensures
        recorrido(n, resultados, h, true).1 <==> forall|i: int|
            h <= i < n ==> #[trigger] resultados[i],
        recorrido(n, resultados, h, true).0.len() <= n - h,
        forall|j: int|
            0 <= j < recorrido(n, resultados, h, true).0.len() ==> #[trigger] recorrido(
                n,
                resultados,
                h,
                true,
            ).0[j] == h + j,
        forall|j: int|
            0 <= j < recorrido(n, resultados, h, true).0.len() - 1 ==> #[trigger] resultados[h
                + j],
    decreases n - h,
{
    if h < n {
        let r = recorrido(n, resultados, h, true);
        if resultados[h as int] {
            recorrido_desde(n, resultados, h + 1);
            let s = recorrido(n, resultados, h + 1, true);
            assert(r.0 == seq![h] + s.0);
            assert forall|j: int| 0 <= j < r.0.len() implies #[trigger] r.0[j] == h + j by {
                if j > 0 {
                    assert(r.0[j] == s.0[j - 1]);
                }
            }
            assert forall|j: int| 0 <= j < r.0.len() - 1 implies #[trigger] resultados[h + j] by {
                if j > 0 {
                    assert(resultados[(h + 1) + (j - 1)]);
                }
            }
        } else {
            assert(recorrido(n, resultados, h + 1, false) == (Seq::<nat>::empty(), false));
            assert(r.0 =~= seq![h]);
        }
    }
}

} // verus!
