//! The work done for one file: its checksum line, whether and how the line
//! is written to the output file, and whether it is shown on the console.

use vstd::prelude::*;
use vstd::string::StringExecFns;
use crate::algorithm::ChecksumType;
use crate::digest::{checksum, checksum_of};
use crate::error::{ChecksumError, WriteMode};

verus! {

/// A file to hash, as it was found: plain facts gathered by the caller.
#[derive(Clone, Debug, PartialEq, Eq)]
pub struct SourceFile {
    /// The path, as it is shown in messages.
    pub path: String,
    /// Whether the path is a directory.
    pub is_dir: bool,
    /// The last component of the path, if there is one and it is text.
    pub name: Option<String>,
    /// Every byte of the file, or nothing if it could not be read.
    pub content: Option<Vec<u8>>,
}

/// The output file, as it was found before a line is written.
#[derive(Clone, Copy, Debug, PartialEq, Eq, Structural)]
pub struct OutputFile {
    /// Whether the file exists.
    pub exists: bool,
}

/// What is to be done with the checksum line of one file.
#[derive(Clone, Debug, PartialEq, Eq)]
pub struct Outcome {
    /// The checksum line, without a line end.
    pub line: String,
    /// How the line is written to the output file; nothing if there is none.
    pub write: Option<WriteMode>,
    /// Whether the line is shown on the console.
    pub echo: bool,
}

/// The line for one file: the algorithm's name, the checksum and the file's
/// name, as in `sha256 checksum: 9f86d0 - notes.txt`.
pub open spec fn spec_format_line(
    algorithm: ChecksumType,
    checksum: Seq<char>,
    file_name: Seq<char>,
) -> Seq<char> {
    algorithm.spec_name() + " checksum: "@ + checksum + " - "@ + file_name
}

/// A line is appended only where the file exists and is not to be
/// overwritten; in every other case the file is created or emptied first.
pub open spec fn spec_write_mode(overwrite: bool, exists: bool) -> WriteMode {
    if !overwrite && exists {
        WriteMode::Append
    } else {
        WriteMode::Truncate
    }
}

/// A line is shown on the console where there is no output file, and also
/// where there is one but the run is verbose.
pub open spec fn spec_echoes(has_output: bool, verbose: bool) -> bool {
    !has_output || verbose
}

impl SourceFile {
    /// Why the file cannot be hashed, if it cannot. A directory is refused
    /// first, then a file without a readable name, then one without content.
    pub open spec fn failure(self) -> Option<ChecksumError> {
        if self.is_dir {
            Some(ChecksumError::IsDirectory { path: self.path })
        } else if self.name is None {
            Some(ChecksumError::FileName)
        } else if self.content is None {
            Some(ChecksumError::Read)
        } else {
            None
        }
    }

    /// The checksum line of a file that can be hashed.
    pub open spec fn line(self, algorithm: ChecksumType) -> Seq<char>
        recommends
            self.failure() is None,
    {
        spec_format_line(
            algorithm,
            checksum_of(algorithm, self.content.unwrap()@),
            self.name.unwrap()@,
        )
    }
}

/// Puts a checksum line together.
pub fn format_line(algorithm: ChecksumType, checksum: &str, file_name: &str) -> (line: String)
    ensures
        line@ == spec_format_line(algorithm, checksum@, file_name@),
{
    let mut line = algorithm.name();
    line.append(" checksum: ");
    line.append(checksum);
    line.append(" - ");
    line.append(file_name);
    line
}

/// Chooses between appending to the output file and replacing it. The choice
/// is made anew for every line written.
pub fn write_mode(overwrite: bool, exists: bool) -> (mode: WriteMode)
    ensures
        mode == spec_write_mode(overwrite, exists),
{
    if !overwrite && exists {
        WriteMode::Append
    } else {
        WriteMode::Truncate
    }
}

/// Whether a line is shown on the console.
pub fn echoes(has_output: bool, verbose: bool) -> (shown: bool)
    ensures
        shown == spec_echoes(has_output, verbose),
{
    !has_output || verbose
}

/// With an output file a line is shown only in a verbose run; without one
/// it is always shown.
pub proof fn lemma_echo_rule(verbose: bool)
    ensures
        !spec_echoes(true, false),
        spec_echoes(true, true),
        spec_echoes(false, verbose),
{
}

/// Works out what is to be done for one file.
///
/// Fails if the path is a directory, if the file has no readable name, or if
/// its content could not be read, in that order. Otherwise the outcome holds
/// the checksum line, the way it is written to the output file if there is
/// one, and whether it is shown on the console.
pub fn process_checksum(
    file: &SourceFile,
    output_file: &Option<OutputFile>,
    checksum_type: &ChecksumType,
    overwrite: bool,
    verbose: bool,
) -> (outcome: Result<Outcome, ChecksumError>)
    ensures
        match outcome {
            Ok(done) => {
                &&& file.failure() is None
                &&& done.line@ == file.line(*checksum_type)
                &&& done.write == match *output_file {
                    Some(found) => Some(spec_write_mode(overwrite, found.exists)),
                    None => None,
                }
                &&& done.echo == spec_echoes(output_file is Some, verbose)
            },
            Err(error) => file.failure() == Some(error),
        },
{
    if file.is_dir {
        return Err(ChecksumError::IsDirectory { path: file.path.clone() });
    }
    let file_name = match &file.name {
        Some(name) => name,
        None => {
            return Err(ChecksumError::FileName);
        },
    };
    let hash = match &file.content {
        Some(bytes) => checksum(*checksum_type, bytes.as_slice()),
        None => {
            return Err(ChecksumError::Read);
        },
    };
    let line = format_line(*checksum_type, hash.as_str(), file_name.as_str());
    let write = match output_file {
        Some(found) => Some(write_mode(overwrite, found.exists)),
        None => None,
    };
    let echo = echoes(output_file.is_some(), verbose);
    Ok(Outcome { line, write, echo })
}

} // verus!
