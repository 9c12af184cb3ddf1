//! Checksums of files: which digest to compute, how a result line reads,
//! and how a line is recorded in a text log.

pub mod algorithm;
pub mod cli;
pub mod digest;
pub mod error;
pub mod hex;
pub mod log;
pub mod record;
pub mod resolve;

pub use algorithm::ChecksumType;
pub use cli::{check_valid_output_file_type, Cli, Command};
pub use digest::checksum;
pub use error::{ChecksumError, WriteMode};
pub use log::OutputLog;
pub use record::{process_checksum, Outcome, OutputFile, SourceFile};
pub use resolve::{resolve_files, DirEntry, PathKind};
