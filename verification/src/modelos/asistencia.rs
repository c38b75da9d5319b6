//! Attendance records sent by the clients.

use vstd::prelude::*;

verus! {

/// A calendar date, as year, month and day.
#[derive(Debug, Clone, Copy)]
pub struct Fecha {
    pub year: i32,
    pub month: u32,
    pub day: u32,
}

/// One day of attendance: minutes late, the date, and whether it was an absence.
#[derive(Debug)]
pub struct Registros {
    pub tardanza: Option<i32>,
    pub fecha: Fecha,
    pub falta: bool,
}

/// The attendance of one worker for one month.
#[derive(Debug)]
pub struct CreateAsistenciaRegistro {
    pub dni: String,
    pub mes: i32,
    pub year: i32,
    pub registros: Option<Vec<Registros>>,
}

impl CreateAsistenciaRegistro {
    /// How many day records the request carries.
    pub open spec fn cantidad(self) -> nat {
        match self.registros {
            Some(v) => v@.len(),
            None => 0,
        }
    }
}

} // verus!
