//! The services built on the certificate store.

pub mod certificate_service;
