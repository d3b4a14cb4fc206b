//! Execution-dispatch core of a build engine's process-running subsystem.
//!
//! The crate defines the canonical description of one executable unit of
//! work ([`request::ExecuteProcessRequest`]), the result every execution
//! backend must produce ([`process_result::FallibleExecuteProcessResult`]),
//! the statistics accumulated per attempt ([`stats::ExecutionStats`]), and a
//! concurrency-bounding dispatcher ([`dispatcher::BoundedCommandRunner`])
//! that admits at most a fixed number of executions at once and releases
//! capacity deterministically on success, failure and cancellation alike.

pub mod digest;
pub mod dispatcher;
pub mod process_result;
pub mod request;
pub mod stats;
pub mod time_span;

pub use digest::Digest;
pub use dispatcher::BoundedCommandRunner;
pub use dispatcher::CommandRunner;
pub use dispatcher::WorkUnitStore;
pub use process_result::FallibleExecuteProcessResult;
pub use request::ExecuteProcessRequest;
pub use request::ExecuteProcessRequestMetadata;
pub use stats::ExecutionStats;
pub use stats::UploadSummary;
pub use time_span::TimeSpan;
