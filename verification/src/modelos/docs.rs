//! Documents attached to workers: dated ones and ones that cover a range.

use vstd::prelude::*;
use super::asistencia::Fecha;

verus! {

/// A document row as the search reads it: dated when `fecha` is set,
/// otherwise covering `inicio` to `fin`.
#[derive(Debug)]
pub struct Docs {
    pub dni: String,
    pub doc: i32,
    pub id: i32,
    pub nombre: Option<String>,
    pub fecha: Option<Fecha>,
    pub asunto: Option<String>,
    pub descripcion: Option<String>,
    pub referencia: Option<String>,
    pub inicio: Option<Fecha>,
    pub fin: Option<Fecha>,
}

/// A dated document.
#[derive(Debug)]
pub struct DocSs {
    pub dni: String,
    pub doc: i32,
    pub nombre: Option<String>,
    pub id: i32,
    pub fecha: Option<Fecha>,
    pub asunto: Option<String>,
    pub descripcion: Option<String>,
    pub referencia: Option<String>,
}

/// A document that covers a range of dates.
#[derive(Debug)]
pub struct DocsRange {
    pub dni: String,
    pub doc: i32,
    pub nombre: Option<String>,
    pub id: i32,
    pub inicio: Option<Fecha>,
    pub fin: Option<Fecha>,
    pub asunto: Option<String>,
    pub descripcion: Option<String>,
    pub referencia: Option<String>,
}

/// `r` carries every field of row `d` as a range document: the same DNI,
/// document, name, id, start and end dates, subject, description and
/// reference.
pub open spec fn rango_de_fila(r: DocsRange, d: Docs) -> bool {
    &&& r.dni == d.dni
    &&& r.doc == d.doc
    &&& r.nombre == d.nombre
    &&& r.id == d.id
    &&& r.inicio == d.inicio
    &&& r.fin == d.fin
    &&& r.asunto == d.asunto
    &&& r.descripcion == d.descripcion
    &&& r.referencia == d.referencia
}

/// `r` carries every field of row `d` as a dated document: the same DNI,
/// document, name, id, date, subject, description and reference.
pub open spec fn documento_de_fila(r: DocSs, d: Docs) -> bool {
    &&& r.dni == d.dni
    &&& r.doc == d.doc
    &&& r.nombre == d.nombre
    &&& r.id == d.id
    &&& r.fecha == d.fecha
    &&& r.asunto == d.asunto
    &&& r.descripcion == d.descripcion
    &&& r.referencia == d.referencia
}

/// The dated document that a row gives.
pub open spec fn como_doc(d: Docs) -> DocSs {
    DocSs {
        dni: d.dni,
        doc: d.doc,
        nombre: d.nombre,
        id: d.id,
        fecha: d.fecha,
        asunto: d.asunto,
        descripcion: d.descripcion,
        referencia: d.referencia,
    }
}

/// The range document that a row gives.
pub open spec fn como_rango(d: Docs) -> DocsRange {
    DocsRange {
        dni: d.dni,
        doc: d.doc,
        nombre: d.nombre,
        id: d.id,
        inicio: d.inicio,
        fin: d.fin,
        asunto: d.asunto,
        descripcion: d.descripcion,
        referencia: d.referencia,
    }
}

/// A row goes to the dated documents when it has a date.
pub open spec fn si_fechado(d: Docs) -> Option<DocSs> {
    if d.fecha is Some {
        Some(como_doc(d))
    } else {
        None
    }
}

/// A row goes to the range documents when it has no date.
pub open spec fn si_rango(d: Docs) -> Option<DocsRange> {
    if d.fecha is None {
        Some(como_rango(d))
    } else {
        None
    }
}

} // verus!
