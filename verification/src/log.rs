//! The output file as a text log: what it holds after a line is written.

use vstd::prelude::*;
use vstd::string::StringExecFns;
use crate::algorithm::ChecksumType;
use crate::digest::checksum_of;
use crate::error::{ChecksumError, WriteMode};
use crate::record::{spec_format_line, spec_write_mode, write_mode, OutputFile, SourceFile};

verus! {

/// What the file holds after `line` is written in the given way to a file
/// that held `before` (nothing: the file did not exist). Every line ends
/// with a line feed. Nothing can be appended to a file that does not exist.
pub open spec fn written(before: Option<Seq<char>>, mode: WriteMode, line: Seq<char>) -> Option<
    Seq<char>,
> {
    match mode {
        WriteMode::Truncate => Some(line + "\n"@),
        WriteMode::Append => match before {
            Some(text) => Some(text + line + "\n"@),
            None => None,
        },
    }
}

/// What the file holds after `line` is recorded under the given `overwrite`
/// flag: the way of writing is chosen by what is found, then the line is
/// written.
pub open spec fn recorded(before: Option<Seq<char>>, overwrite: bool, line: Seq<char>) -> Option<
    Seq<char>,
> {
    written(before, spec_write_mode(overwrite, before is Some), line)
}

/// Whether `part` stands somewhere in `text`, unbroken.
pub open spec fn occurs_in(part: Seq<char>, text: Seq<char>) -> bool {
    exists|at: int|
        0 <= at && at + part.len() <= text.len() && #[trigger] text.subrange(
            at,
            at + part.len(),
        ) == part
}

/// A text log held in memory. It stands for the output file: it is absent
/// until a first line is written, and then holds one line per file.
#[derive(Clone, Debug, PartialEq, Eq)]
pub struct OutputLog {
    /// The text of the log; nothing while the log does not exist.
    pub content: Option<String>,
}

impl View for OutputLog {
    type V = Option<Seq<char>>;

    open spec fn view(&self) -> Option<Seq<char>> {
        match self.content {
            Some(text) => Some(text@),
            None => None,
        }
    }
}

impl OutputLog {
    /// A log that does not exist yet.
    pub fn new() -> (log: OutputLog)
        ensures
            log@ is None,
    {
        OutputLog { content: None }
    }

    /// The log as an output file: whether it exists.
    pub fn found(&self) -> (file: OutputFile)
        ensures
            file.exists == (self@ is Some),
    {
        OutputFile { exists: self.content.is_some() }
    }

    /// Writes `line` and a line feed in the given way. Appending to a log
    /// that does not exist fails and leaves it absent.
    pub fn write(&mut self, mode: WriteMode, line: &str) -> (done: Result<(), ChecksumError>)
        ensures
            final(self)@ == written(old(self)@, mode, line@),
            done is Ok <==> final(self)@ is Some,
            done is Err ==> done == Err::<(), ChecksumError>(
                ChecksumError::OutputWrite { mode: WriteMode::Append, cause: None },
            ),
    {
        match mode {
            WriteMode::Truncate => {
                let mut text = String::from_str(line);
                text.append("\n");
                self.content = Some(text);
                Ok(())
            },
            WriteMode::Append => {
                match self.content.take() {
                    Some(mut text) => {
                        text.append(line);
                        text.append("\n");
                        self.content = Some(text);
                        Ok(())
                    },
                    None => Err(ChecksumError::OutputWrite { mode: WriteMode::Append, cause: None }),
                }
            },
        }
    }

    /// Records `line` under the given `overwrite` flag and tells how it was
    /// written: appended where the log exists and is not to be overwritten,
    /// else on a fresh log.
    pub fn record(&mut self, overwrite: bool, line: &str) -> (mode: WriteMode)
        ensures
            mode == spec_write_mode(overwrite, old(self)@ is Some),
            final(self)@ == recorded(old(self)@, overwrite, line@),
            final(self)@ is Some,
    {
        let mode = write_mode(overwrite, self.content.is_some());
        let _ = self.write(mode, line);
        mode
    }
}

/// Recording never fails, and the log then ends with the new line. Without
/// the overwrite flag an existing log keeps all it held; in every other case
/// the new line is all it holds.
pub proof fn lemma_recorded(before: Option<Seq<char>>, overwrite: bool, line: Seq<char>)
    ensures
        recorded(before, overwrite, line) == Some(
            if !overwrite && before is Some {
                before.unwrap() + line + "\n"@
            } else {
                line + "\n"@
            },
        ),
{
}

/// Two lines recorded in turn with the overwrite flag leave only the second,
/// whatever the log held before.
pub proof fn lemma_overwrite_keeps_last(
    before: Option<Seq<char>>,
    first: Seq<char>,
    second: Seq<char>,
)
    ensures
        recorded(recorded(before, true, first), true, second) == Some(second + "\n"@),
{
}

/// Two lines recorded in turn without the overwrite flag, on a log that did
/// not exist, are both kept, in order: the first creates the log, the second
/// is appended.
pub proof fn lemma_append_keeps_both(first: Seq<char>, second: Seq<char>)
    ensures
        recorded(recorded(None, false, first), false, second) == Some(
            first + "\n"@ + second + "\n"@,
        ),
{
}

/// Without the overwrite flag, only the first line of a run can find the
/// log absent: each later line is appended to what the earlier ones left.
pub proof fn lemma_later_lines_append(before: Option<Seq<char>>, first: Seq<char>, second: Seq<char>)
    ensures
        recorded(before, false, first) is Some,
        recorded(recorded(before, false, first), false, second) == Some(
            recorded(before, false, first).unwrap() + second + "\n"@,
        ),
{
}

/// Once the line of a file is recorded, the log exists and holds the
/// checksum of the file's content, whatever it held before and whatever the
/// overwrite flag.
pub proof fn lemma_recorded_holds_checksum(
    before: Option<Seq<char>>,
    overwrite: bool,
    file: SourceFile,
    algorithm: ChecksumType,
)
    requires
        file.failure() is None,
    ensures
        recorded(before, overwrite, file.line(algorithm)) is Some,
        occurs_in(
            checksum_of(algorithm, file.content.unwrap()@),
            recorded(before, overwrite, file.line(algorithm)).unwrap(),
        ),
{
    let sum = checksum_of(algorithm, file.content.unwrap()@);
    let line = file.line(algorithm);
    let text = recorded(before, overwrite, line).unwrap();
    let lead = algorithm.spec_name() + " checksum: "@;
    assert(line == spec_format_line(algorithm, sum, file.name.unwrap()@));
    let kept: Seq<char> = if !overwrite && before is Some {
        before.unwrap()
    } else {
        Seq::empty()
    };
    assert(text =~= kept + line + "\n"@);
    let at = (kept.len() + lead.len()) as int;
    assert(text.subrange(at, at + sum.len()) =~= sum);
}

} // verus!
