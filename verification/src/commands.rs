//! The decisions behind each command of the client.

pub mod build_laws;
pub mod build_model;
pub mod build_package;
pub mod config;
pub mod upload;
