//! Verified core of a link-to-media delivery pipeline: a task takes a short
//! link, downloads the media through an external extraction tool, and hands
//! the produced file to one of two transports chosen by file size.  This
//! library holds the decision logic of that pipeline — deduplication of
//! in-flight work, per-recipient rate limiting, bounded upload concurrency,
//! progress throttling, retry with backoff, and failure classification —
//! with contracts proved by Verus.  The surrounding process (network,
//! subprocess and database I/O) drives these state machines from outside.

pub mod admin;
pub mod binaries;
pub mod broadcast;
pub mod classify;
pub mod commands;
pub mod fetcher;
pub mod fingerprint;
pub mod limits;
pub mod peers;
pub mod pipeline;
pub mod progress;
pub mod retry;
pub mod scan;
pub mod text;
pub mod uploader;
pub mod ui;
