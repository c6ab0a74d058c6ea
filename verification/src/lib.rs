//! Request composition and response-event streaming for a client of a
//! streaming model API, with machine-checked contracts.

pub mod client_common;
pub mod config_types;
pub mod error;
pub mod model_family;
pub mod models;
pub mod openai_tools;
pub mod protocol;
pub mod response_stream;
pub mod security_advisor;
pub mod text;
