//! Certificates.

pub mod work;
