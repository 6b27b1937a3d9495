//! The rules of a file manager for remote connections: how files are downloaded,
//! uploaded, copied and renamed, what survives a crash, and which services are
//! open.
//!
//! Work that waits for a server or a disk is cut into steps. A step is a value
//! that says what is due; it takes the reply and gives the next step, or the
//! failure that ends the work.

pub mod adapter;
pub mod anchored;
pub mod backend;
pub mod cleanup;
pub mod connection_fingerprint;
pub mod content;
pub mod digest;
pub mod download;
pub mod endpoint;
pub mod failure;
pub mod fingerprint;
pub mod finish;
pub mod hadoop;
pub mod line;
pub mod local_path;
pub mod local_source;
pub mod models;
pub mod opening;
pub mod operations;
pub mod ownership;
pub mod path_locks;
pub mod policy;
pub mod progress;
pub mod publish;
pub mod reconcile;
pub mod record;
pub mod recovery;
pub mod registry;
pub mod relay;
pub mod remote;
pub mod reply;
pub mod retry;
pub mod runtime;
pub mod secrets;
pub mod server_side;
pub mod start;
pub mod text;
pub mod text_map;
pub mod upload;
pub mod worker;
