//! A small HTTP gateway over a remote cloud-storage backend: list the files
//! of a folder, upload a file into a folder, download a file by identifier.
//!
//! This crate holds the gateway's decision logic: validating request
//! parameters, building the plans for the remote calls, projecting remote
//! file records onto the fields the gateway exposes, and rendering the JSON
//! response bodies. The surrounding process (HTTP server, OAuth2 client,
//! remote transport) feeds it plain values and carries its replies out.

pub mod download;
pub mod json;
pub mod list;
pub mod query;
pub mod records;
pub mod reply;
pub mod upload;
