pub mod jwt;
pub mod sa;
