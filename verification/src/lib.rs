//! Archive of a live chat stream: extraction of message records from tagged
//! protocol events, soft-delete bookkeeping, daily per-channel text logs and
//! bounded, filtered search.
pub mod archive;
pub mod config;
pub mod error;
pub mod export;
pub mod messages;
pub mod process;
pub mod rollup;
pub mod server;
pub mod table;
pub mod tags;
pub mod text;
pub mod timestamp;
pub mod token;
pub mod transcript;
