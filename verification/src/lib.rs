//! Orchestration core of a continuously-running archival worker.
//!
//! The worker pulls a video identifier from a task queue, fetches the media
//! and side artifacts, packages metadata, uploads the result to cold storage
//! and registers it in a catalog, skipping work already done.  This crate
//! holds the verified core: the pipeline state machine, the retry/backoff
//! policy, the fetch-coordination and install decisions, and the metadata
//! packaging.  The unverified shell around it performs the HTTP calls,
//! subprocess launches and filesystem work and feeds the results back in as
//! plain values.

pub mod archive;
pub mod archiver;
pub mod backoff;
pub mod doubles;
pub mod github;
pub mod metadata;
pub mod metrics;
pub mod rclone;
pub mod tasq;
pub mod text;
pub mod util;
pub mod ytdl;
