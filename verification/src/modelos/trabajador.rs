//! Workers and their contracts.

use vstd::prelude::*;

verus! {

/// The basic data of a worker.
#[derive(Debug)]
pub struct TrabajadorBasic {
    pub dni: String,
    pub sexo: Option<String>,
    pub nombre: String,
    pub area: String,
    pub cargo: String,
}

/// A new contract: the worker, the contract number, the start date, the
/// call for applications, the area, post and regime ids, the salary, and the
/// duties, if any.
#[derive(Debug)]
pub struct ResNuevoContrato {
    pub dni: String,
    pub contrato: i64,
    pub ingreso: String,
    pub convocatoria: Option<String>,
    pub area: i64,
    pub cargo: i64,
    pub regimen: i64,
    pub sueldo: i64,
    pub funciones: Option<Vec<String>>,
}

} // verus!
