pub mod dto;
pub mod login;
pub mod register;
pub mod session;
pub mod validate_jwt;
