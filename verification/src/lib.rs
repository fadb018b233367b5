//! A small adapter that exposes two read-only backup-management operations,
//! `get_backup_info` and `list_backups`, as callable tools behind a routing
//! table. Incoming parameter objects are decoded into typed requests, routed
//! to the matching operation, and backend failures are translated into a
//! small, stable error taxonomy.
//!
//! The backend itself (the network client that talks to the backup daemon)
//! is an external collaborator: this crate decides *which* backend call to
//! make and *how* to report its outcome, while the embedding server performs
//! the call and hands the outcome back.

pub mod constant;
pub mod error;
pub mod handler;
pub mod laws;
pub mod params;
pub mod request;
pub mod router;
pub mod server;

pub use constant::Sort;
pub use error::ToolError;
pub use params::{ParamValue, RawParams};
pub use request::{InfoRequest, ListBackupsRequest};
pub use server::Info;
pub use handler::BackendCall;
