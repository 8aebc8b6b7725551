pub mod jwt;
pub mod ids;
