//! Client-side logic of the Usermon telemetry SDK and CLI: the wire
//! enumerations and events, endpoint normalisation and the ingest requests,
//! the browser login hand-off, project linking and stack detection, and the
//! grouping of piped log lines, each with its contract.

pub mod auth;
pub mod cli;
pub mod client;
pub mod error;
pub mod project;
pub mod text;
pub mod types;

pub use client::UsermonClient;
pub use error::{Result, UsermonError};
pub use types::{
    ApiSpan, Exception, IngestBatch, IssueLevel, LogEvent, LogLevel, Platform, RumEvent,
    RumEventType, Session,
};
