pub mod error;
pub mod value_objects;
pub mod crypto;
pub mod user;
pub mod session;
pub mod conversation;
pub mod message;
pub mod group;
pub mod pre_key;
