//! Controllers.
pub mod platform_instance;
