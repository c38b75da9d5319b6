//! Verified core of a small human-resources web service: request checks,
//! SQL text building, response decisions and session-token rules.

pub mod texto;
pub mod valor;
pub mod middleware;
pub mod modelos;
pub mod rutas;
