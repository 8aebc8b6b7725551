pub mod request;
pub mod session;
pub mod user;
