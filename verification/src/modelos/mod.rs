pub mod asistencia;
pub mod docs;
pub mod model;
pub mod trabajador;
