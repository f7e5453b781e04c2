//! Session snapshot storage: what is kept of a session between two runs, how a
//! snapshot follows the input documents and the transcript of its session, and
//! where it is stored.

pub mod clock;
pub mod config;
pub mod cost;
pub mod cost_laws;
pub mod document;
pub mod document_laws;
pub mod input;
pub mod json;
pub mod laws;
pub mod manager;
pub mod models;
pub mod sanitize;
pub mod session;
pub mod snapshot_laws;
pub mod text;
pub mod transcript;
pub mod transcript_laws;
pub mod update;
pub mod usd;
