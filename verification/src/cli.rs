//! The request of a run, and what is checked of it before any file is read.

use vstd::prelude::*;
use vstd::string::StringExecFns;
use crate::algorithm::ChecksumType;
use crate::error::ChecksumError;

verus! {

/// What the command line asks for.
#[derive(Clone, Debug, PartialEq, Eq)]
pub struct Cli {
    pub command: Command,
}

/// The commands on offer.
#[derive(Clone, Debug, PartialEq, Eq)]
pub enum Command {
    /// Generate checksums for files.
    Generate {
        /// The file to hash, or the directory whose files are hashed.
        checksum_path: String,
        /// The text file to which the lines are written. Without it they
        /// are shown on the console and not kept.
        output_file: Option<String>,
        /// The digest algorithm.
        checksum_type: ChecksumType,
        /// Replace the output file with each line instead of appending.
        overwrite: bool,
        /// Show each line on the console even where it is written to a file.
        verbose: bool,
    },
}

/// The extension of `path` as `std::path::Path` reads it where the crate is
/// built: the part of the last component behind its last dot, if it has one.
pub uninterp spec fn path_extension(path: Seq<char>) -> Option<Seq<char>>;

/// The one extension an output file may have.
pub open spec fn output_extension() -> Seq<char> {
    "txt"@
}

/// Whether `extension` is the one an output file must have. The comparison
/// is exact: `TXT` is not accepted.
pub open spec fn is_output_extension(extension: Option<Seq<char>>) -> bool {
    extension == Some(output_extension())
}

/// Calls `std::path::Path::extension` on `path` and hands the extension out
/// as text. The result depends on the characters of `path` alone.
#[verifier::external_body]
fn extension_of(path: &str) -> (extension: Option<String>)
    ensures
        extension.deep_view() == path_extension(path@),
{
    match std::path::Path::new(path).extension() {
        Some(found) => found.to_str().map(String::from),
        None => None,
    }
}

/// Accepts the extension `txt` and refuses every other one, and a path
/// without extension.
pub fn check_extension(extension: &Option<String>) -> (checked: Result<(), ChecksumError>)
    ensures
        checked is Ok <==> is_output_extension(extension.deep_view()),
        checked is Err ==> checked == Err::<(), ChecksumError>(
            ChecksumError::InvalidOutputExtension,
        ),
{
    match extension {
        Some(found) => {
            let wanted = String::from_str("txt");
            if *found == wanted {
                Ok(())
            } else {
                Err(ChecksumError::InvalidOutputExtension)
            }
        },
        None => Err(ChecksumError::InvalidOutputExtension),
    }
}

/// Checks that an output path names a `.txt` file.
pub fn check_valid_output_file_type(file_name: &str) -> (checked: Result<(), ChecksumError>)
    ensures
        checked is Ok <==> is_output_extension(path_extension(file_name@)),
        checked is Err ==> checked == Err::<(), ChecksumError>(
            ChecksumError::InvalidOutputExtension,
        ),
{
    let extension = extension_of(file_name);
    check_extension(&extension)
}

impl Command {
    /// What stands in the way of the run before any file is read: a path
    /// that does not exist, or else an output file that is no `.txt` file.
    pub open spec fn refusal(self, path_exists: bool) -> Option<ChecksumError> {
        match self {
            Command::Generate { checksum_path, output_file, .. } => {
                if !path_exists {
                    Some(ChecksumError::PathNotFound { path: checksum_path })
                } else if output_file is Some && !is_output_extension(
                    path_extension(output_file.unwrap()@),
                ) {
                    Some(ChecksumError::InvalidOutputExtension)
                } else {
                    None
                }
            },
        }
    }

    /// Checks the request before any file is read. `path_exists` tells
    /// whether the path to hash was found.
    pub fn validate(&self, path_exists: bool) -> (checked: Result<(), ChecksumError>)
        ensures
            match checked {
                Ok(_) => self.refusal(path_exists) is None,
                Err(error) => self.refusal(path_exists) == Some(error),
            },
    {
        match self {
            Command::Generate { checksum_path, output_file, .. } => {
                if !path_exists {
                    return Err(ChecksumError::PathNotFound { path: checksum_path.clone() });
                }
                match output_file {
                    Some(file_name) => check_valid_output_file_type(file_name.as_str()),
                    None => Ok(()),
                }
            },
        }
    }
}

} // verus!
