//! What the control plane answers its callers.

pub mod admission;
pub mod laws;
pub mod proxy;
pub mod status;
pub mod stream;
