pub mod login;
pub mod asistencia;
pub mod comun;
pub mod documentos;
pub mod empleados;
