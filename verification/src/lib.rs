//! The rules of an adapter between clients of the Agent Client Protocol and the
//! `agy` command line agent. Reading and writing files, running processes and
//! exchanging messages is left to the caller.

pub mod adapter;
pub mod config;
pub mod handlers;
pub mod json;
pub mod laws;
pub mod log_laws;
pub mod log_run;
pub mod log_scan;
pub mod model_laws;
pub mod models;
pub mod narration;
pub mod narration_laws;
pub mod option_laws;
pub mod outside;
pub mod paths;
pub mod place_laws;
pub mod prompt;
pub mod request_laws;
pub mod scan_laws;
pub mod table;
pub mod text;
pub mod text_laws;
pub mod turn_laws;
pub mod types;
