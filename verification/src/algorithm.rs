//! The digest algorithms on offer.

use vstd::prelude::*;
use vstd::string::StringExecFns;

verus! {

/// A digest algorithm. One is chosen for a run and applied to every file.
#[derive(Clone, Copy, Debug, PartialEq, Eq, Structural)]
pub enum ChecksumType {
    Md5,
    Sha1,
    Sha256,
}

impl ChecksumType {
    /// The lower-case name under which the algorithm is selected and shown.
    pub open spec fn spec_name(self) -> Seq<char> {
        match self {
            ChecksumType::Md5 => seq!['m', 'd', '5'],
            ChecksumType::Sha1 => seq!['s', 'h', 'a', '1'],
            ChecksumType::Sha256 => seq!['s', 'h', 'a', '2', '5', '6'],
        }
    }

    /// The number of bytes in a digest of this algorithm.
    pub open spec fn spec_digest_len(self) -> nat {
        match self {
            ChecksumType::Md5 => 16,
            ChecksumType::Sha1 => 20,
            ChecksumType::Sha256 => 32,
        }
    }

    /// The algorithm's display name: `md5`, `sha1` or `sha256`.
    pub fn name(&self) -> (text: String)
        ensures
            text@ == self.spec_name(),
    {
        proof {
            reveal_strlit("md5");
            reveal_strlit("sha1");
            reveal_strlit("sha256");
        }
        let text = match self {
            ChecksumType::Md5 => String::from_str("md5"),
            ChecksumType::Sha1 => String::from_str("sha1"),
            ChecksumType::Sha256 => String::from_str("sha256"),
        };
        assert(text@ =~= self.spec_name());
        text
    }

    /// The number of bytes in a digest of this algorithm.
    pub fn digest_len(&self) -> (len: usize)
        ensures
            len == self.spec_digest_len(),
    {
        match self {
            ChecksumType::Md5 => 16,
            ChecksumType::Sha1 => 20,
            ChecksumType::Sha256 => 32,
        }
    }
}

impl Default for ChecksumType {
    /// SHA-256 is used where no algorithm is chosen.
    fn default() -> (algorithm: ChecksumType)
        ensures
            algorithm == ChecksumType::Sha256,
    {
        ChecksumType::Sha256
    }
}

} // verus!
