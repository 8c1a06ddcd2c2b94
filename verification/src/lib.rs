//! Verified core of the stardelt platform operator.
pub mod api;
pub mod config;
pub mod controllers;
pub mod json;
pub mod readiness;
pub mod resources;
