pub mod error;
pub mod extract;
pub mod middleware;
pub mod rate_limit;
pub mod routes;
