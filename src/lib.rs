//! Configuration and static-asset logic of a small single-page-application backend.
pub mod decimal;
pub mod config;
pub mod assets;
