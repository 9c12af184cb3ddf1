//! What can go wrong in a run, and how each failure is worded.

use vstd::prelude::*;
use vstd::string::StringExecFns;

verus! {

/// How a line reaches the output file.
#[derive(Clone, Copy, Debug, PartialEq, Eq, Structural)]
pub enum WriteMode {
    /// The line is added after what the file already holds.
    Append,
    /// The file is created, or emptied if it exists, before the line is written.
    Truncate,
}

/// A failure. Every one of them ends the run.
#[derive(Clone, Debug, PartialEq, Eq)]
pub enum ChecksumError {
    /// The path to hash does not exist.
    PathNotFound { path: String },
    /// The output path does not end in `.txt`.
    InvalidOutputExtension,
    /// A path handed over as a file is a directory.
    IsDirectory { path: String },
    /// The file's name is missing or is not text.
    FileName,
    /// The file's content could not be read.
    Read,
    /// The entries of a directory could not be listed.
    DirectoryListing { path: String },
    /// One entry of a directory could not be read.
    DirectoryEntry,
    /// The directory of the output file could not be created.
    OutputDirectory,
    /// The output file could not be opened, or the line could not be written
    /// to it. `cause` is the system's description of a failed write; it is
    /// absent where the file could not even be opened.
    OutputWrite { mode: WriteMode, cause: Option<String> },
}

impl ChecksumError {
    /// The wording of the failure.
    pub open spec fn spec_message(self) -> Seq<char> {
        match self {
            ChecksumError::PathNotFound { path } => "Path \""@ + path@ + "\" does not exist"@,
            ChecksumError::InvalidOutputExtension => "Output file must be a .txt file"@,
            ChecksumError::IsDirectory { path } => "\""@ + path@
                + "\" is a direcotry and cannot be opened as a file"@,
            ChecksumError::FileName => "Error getting file name"@,
            ChecksumError::Read => "Error opening file"@,
            ChecksumError::DirectoryListing { path } => "Error processing files in \""@ + path@
                + "\" directory"@,
            ChecksumError::DirectoryEntry => "Error reading file"@,
            ChecksumError::OutputDirectory => "Error creating directory"@,
            ChecksumError::OutputWrite { mode: WriteMode::Append, cause: None } =>
                "Error opening file"@,
            ChecksumError::OutputWrite { mode: WriteMode::Append, cause: Some(cause) } =>
                "Couldn't write to file: "@ + cause@,
            ChecksumError::OutputWrite { mode: WriteMode::Truncate, cause: None } =>
                "Error writing file"@,
            ChecksumError::OutputWrite { mode: WriteMode::Truncate, cause: Some(cause) } =>
                "Error writing file: "@ + cause@,
        }
    }

    /// The text that is shown for the failure.
    pub fn message(&self) -> (text: String)
        ensures
            text@ == self.spec_message(),
    {
        match self {
            ChecksumError::PathNotFound { path } => {
                let mut text = String::from_str("Path \"");
                text.append(path.as_str());
                text.append("\" does not exist");
                text
            },
            ChecksumError::InvalidOutputExtension => String::from_str(
                "Output file must be a .txt file",
            ),
            ChecksumError::IsDirectory { path } => {
                let mut text = String::from_str("\"");
                text.append(path.as_str());
                text.append("\" is a direcotry and cannot be opened as a file");
                text
            },
            ChecksumError::FileName => String::from_str("Error getting file name"),
            ChecksumError::Read => String::from_str("Error opening file"),
            ChecksumError::DirectoryListing { path } => {
                let mut text = String::from_str("Error processing files in \"");
                text.append(path.as_str());
                text.append("\" directory");
                text
            },
            ChecksumError::DirectoryEntry => String::from_str("Error reading file"),
            ChecksumError::OutputDirectory => String::from_str("Error creating directory"),
            ChecksumError::OutputWrite { mode: WriteMode::Append, cause: None } => String::from_str(
                "Error opening file",
            ),
            ChecksumError::OutputWrite { mode: WriteMode::Append, cause: Some(cause) } => {
                let mut text = String::from_str("Couldn't write to file: ");
                text.append(cause.as_str());
                text
            },
            ChecksumError::OutputWrite { mode: WriteMode::Truncate, cause: None } =>
                String::from_str("Error writing file"),
            ChecksumError::OutputWrite { mode: WriteMode::Truncate, cause: Some(cause) } => {
                let mut text = String::from_str("Error writing file: ");
                text.append(cause.as_str());
                text
            },
        }
    }
}

} // verus!
