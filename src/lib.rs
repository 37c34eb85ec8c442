//! Provisioning of remote archives onto a local machine: locating the install
//! root, planning bounded-concurrency downloads and extractions, and sequencing
//! each package group through staging, download, extraction and cleanup.
//!
//! The library holds the decisions; the file system, the network and the
//! archive format are handled by the caller, which reports outcomes back.
pub mod paths;
pub mod scheduler;
pub mod resolver;
pub mod volumes;
pub mod progress;
pub mod download;
pub mod extract;
pub mod pipeline;
