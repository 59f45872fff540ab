pub mod fingerprint;
pub mod metadata;
pub mod render;
pub mod session;
