//! Drives `cargo` to build a dynamic library and finds the produced file.
//!
//! The crate holds the decisions of that pipeline: which arguments a build is
//! started with, how the messages on the build's standard output are read,
//! which of the reported files is the dynamic library, and how the answer to a
//! metadata query is decoded. Starting the process is left to the caller, who
//! hands the captured output back as plain values.

pub mod artifact;
pub mod command;
pub mod error;
pub mod metadata;
pub mod output;
pub mod stream;
pub mod text;

pub use artifact::{is_library, select_cdylib};
pub use command::{
    build_cdylib, build_example, build_self_cdylib, cargo_build, cargo_supports_offline,
    feature_args, metadata_query, offline_probe, EnvPath, Invocation, Project,
};
pub use error::BuildError;
pub use metadata::{decode_metadata, metadata, metadata_from_members, Metadata};
pub use output::{parse_output, report_build, report_messages, BuildReport, ProcessResult};
pub use stream::{read_messages, CompilerMessage};
