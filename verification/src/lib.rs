//! Issuance of verifiable learning certificates: a store that binds bearer
//! values to certificate records, and the rules that turn a record into a
//! credential document.

pub mod bindings;
pub mod certificate_data;
pub mod config;
pub mod credential;
pub mod error;
pub mod health;
pub mod issuance;
pub mod laws;
pub mod qr;
pub mod services;
pub mod storage;
pub mod text;
