pub mod auth;
pub mod groups;
pub mod keys;
pub mod users;
