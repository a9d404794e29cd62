//! A small library for watching the health of a Jenkins-style CI server.
//!
//! The heart of the library is a severity lattice over per-job build states:
//! every job colour maps to one of five aggregate statuses, and a commutative,
//! associative merge folds a whole job list into a single worst-case-wins
//! summary. Around it sit the decoder for the server's JSON job listing, the
//! query-URL builder, and the single-slot outbox through which a background
//! poller hands the freshest status to a display consumer.

pub mod client;
pub mod config;
pub mod decode;
pub mod error;
pub mod laws;
pub mod poller;
pub mod status;
pub mod tray;

pub use config::{Config, JenkinsConfig};
pub use decode::decode_job_list;
pub use error::JenkinsError;
pub use poller::Outbox;
pub use status::{aggregate_status, Build, BuildResult, Color, JenkinsStatus, Job};
pub use tray::TrayStatus;
