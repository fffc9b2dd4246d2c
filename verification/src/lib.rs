//! Halo server core: the domain model, the end-to-end encryption primitives
//! (X3DH and the double ratchet), and the request-level rules of the HTTP API,
//! each with a stated and proved contract.
pub mod domain;
pub mod adapters;
pub mod application;
pub mod ports;
pub mod config;
