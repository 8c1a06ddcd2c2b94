//! The `PlatformInstance` custom resource model.
pub mod platform_instance;

pub use platform_instance::PlatformInstance;
