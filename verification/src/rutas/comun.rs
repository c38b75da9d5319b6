//! Outcomes of database writes, and the answers shared by several routes.

use vstd::prelude::*;
use crate::middleware::sa::ResponseBody;

verus! {

/// The kind of a database error.
#[derive(Debug)]
pub enum ClaseFalla {
    /// A foreign key violation.
    ClaveForanea,
    /// A check constraint violation.
    Verificacion,
    /// Any other database error.
    Otra,
}

/// How a write to the database ended.
#[derive(Debug)]
pub enum Escritura {
    /// Done: the id it generated and the number of rows it touched.
    Hecha { ultimo_id: u64, filas: u64 },
    /// The database refused it: the kind of error and its text.
    FallaBase { clase: ClaseFalla, texto: String },
    /// It failed without reaching the database.
    Falla,
}

/// The answer to a change of existing rows (removing a document, voiding
/// it, recording a resignation): no row touched is refused with "no hay
/// datos" (code 2), any failure with "error desconocido" (code 2); otherwise
/// the change is confirmed.
pub open spec fn cambio_correcto(e: Escritura, r: Result<(), ResponseBody>) -> bool {
    match e {
        Escritura::Hecha { filas, .. } => if filas == 0 {
            r matches Err(b) && b.es("no hay datos"@, "2"@)
        } else {
            r is Ok
        },
        _ => r matches Err(b) && b.es("error desconocido"@, "2"@),
    }
}

/// Answers a change of existing rows from how the write ended.
pub fn resultado_cambio(e: &Escritura) -> (r: Result<(), ResponseBody>)
    ensures
        cambio_correcto(*e, r),
{
    match e {
        Escritura::Hecha { filas, .. } => if *filas == 0 {
            Err(ResponseBody::rechazo("no hay datos", "2"))
        } else {
            Ok(())
        },
        _ => Err(ResponseBody::rechazo("error desconocido", "2")),
    }
}

/// The refusal for a database error while inserting: a foreign key
/// violation gives "documento id no existe" (code 1), a check violation
/// "validacion de datos incorrecta" (code 2), any other the error's text
/// (code 3).
pub open spec fn rechazo_de_base(clase: ClaseFalla, texto: Seq<char>, b: ResponseBody) -> bool {
    match clase {
        ClaseFalla::ClaveForanea => b.es("documento id no existe"@, "1"@),
        ClaseFalla::Verificacion => b.es("validacion de datos incorrecta"@, "2"@),
        ClaseFalla::Otra => b.es(texto, "3"@),
    }
}

/// Builds the refusal for a database error while inserting.
pub fn rechazo_base(clase: &ClaseFalla, texto: &String) -> (b: ResponseBody)
    ensures
        rechazo_de_base(*clase, texto@, b),
{
    match clase {
        ClaseFalla::ClaveForanea => ResponseBody::rechazo("documento id no existe", "1"),
        ClaseFalla::Verificacion => ResponseBody::rechazo("validacion de datos incorrecta", "2"),
        ClaseFalla::Otra => ResponseBody::rechazo(texto.as_str(), "3"),
    }
}

} // verus!
