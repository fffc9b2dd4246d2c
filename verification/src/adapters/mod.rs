pub mod api;
pub mod auth;
pub mod db;
