//! Verified core of the Herdr plugin that reports Jcode lifecycle state.
pub mod cli;
pub mod config;
pub mod doctor;
pub mod document;
pub mod herdr;
pub mod hooks;
pub mod json;
pub mod lifecycle;
pub mod model;
pub mod laws;
pub mod lifecycle_laws;
pub mod text;
