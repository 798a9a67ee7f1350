//! Job orchestration and log streaming for an image build service.
//!
//! The crate holds the decision logic of the service: the job registry and
//! its status transitions, the per-job log sink with its readers, the
//! rendering of a build configuration into the environment of the build
//! script, the plans that tell the runtime which files to write and which
//! command to start, and the small parsers behind the listing endpoints.
//! Everything that touches a socket, a file or a child process lives with
//! the caller.

pub mod env;
pub mod error;
pub mod gateway;
pub mod listing;
pub mod log_sink;
pub mod model;
pub mod orchestrator;
pub mod plan;
pub mod registry;
pub mod run;
pub mod text;
pub mod trusted;
pub mod upload;

pub use error::AppError;
pub use model::{BoardType, BuildJob, BuildMode, Device, ImageConfig, JobStatus, PresetImage};
