pub mod about;
pub mod amplitude;
pub mod error;
pub mod session;
pub mod source;
pub mod variant;
