//! The four-part version of an installed executable.

use crate::error::{OpError, OpErrorView};
use crate::text::{
    i32_of, lemma_first_occurrence_of_char, lemma_no_occurrence_of_char,
    lemma_signed_decimal_reads_back, parse_i32, piece, piece_from, pieces, push_signed_decimal,
    signed_decimal,
};
use vstd::prelude::*;
use vstd::string::*;

verus! {

/// What separates the parts of a version.
pub const VERSION_SEPARATOR: &'static str = ".";

/// The part that stands for one that is missing or is no number.
pub const NO_PART: i32 = -1;

/// A version: major, minor, build and revision.
#[derive(Clone, Copy, PartialEq, Eq, Debug, Structural)]
pub struct Version {
    pub major: i32,
    pub minor: i32,
    pub build: i32,
    pub revision: i32,
}

/// Part number `k` of a version text: the number between the separators, or
/// [`NO_PART`] where the part is missing or is no 32-bit number.
pub open spec fn version_part(text: Seq<char>, k: nat) -> i32 {
    match i32_of(piece(text, VERSION_SEPARATOR@, k)) {
        Some(n) => n,
        None => NO_PART,
    }
}

/// The version that a text denotes.
pub open spec fn version_of(text: Seq<char>) -> Version {
    Version {
        major: version_part(text, 0),
        minor: version_part(text, 1),
        build: version_part(text, 2),
        revision: version_part(text, 3),
    }
}

/// The 16 high bits of a word.
pub open spec fn high_word(x: u32) -> i32 {
    (x / 0x1_0000) as i32
}

/// The 16 low bits of a word.
pub open spec fn low_word(x: u32) -> i32 {
    (x % 0x1_0000) as i32
}

impl Version {
    /// The version written out: the four parts with separators between.
    pub open spec fn text(self) -> Seq<char> {
        signed_decimal(self.major as int) + VERSION_SEPARATOR@ + signed_decimal(self.minor as int)
            + VERSION_SEPARATOR@ + signed_decimal(self.build as int) + VERSION_SEPARATOR@
            + signed_decimal(self.revision as int)
    }

    /// Reads a version. Never fails: a part that is missing or is no number
    /// is [`NO_PART`], and what follows the fourth part is ignored.
    pub fn parse(text: &str) -> (v: Version)
        ensures
            v == version_of(text@),
    {
        let parts = pieces(text, VERSION_SEPARATOR, 4);
        Version {
            major: Self::part(parts[0].as_str()),
            minor: Self::part(parts[1].as_str()),
            build: Self::part(parts[2].as_str()),
            revision: Self::part(parts[3].as_str()),
        }
    }

    fn part(text: &str) -> (n: i32)
        ensures
            n == match i32_of(text@) {
                Some(n) => n,
                None => NO_PART,
            },
    {
        match parse_i32(text) {
            Some(n) => n,
            None => NO_PART,
        }
    }

    /// The version that the two words of an executable's fixed file
    /// information hold: major and minor in the halves of the first, build
    /// and revision in the halves of the second.
    pub fn from_file_info(most_significant: u32, least_significant: u32) -> (v: Version)
        ensures
            v == (Version {
                major: high_word(most_significant),
                minor: low_word(most_significant),
                build: high_word(least_significant),
                revision: low_word(least_significant),
            }),
    {
        Version {
            major: (most_significant / 0x1_0000) as i32,
            minor: (most_significant % 0x1_0000) as i32,
            build: (least_significant / 0x1_0000) as i32,
            revision: (least_significant % 0x1_0000) as i32,
        }
    }

    /// The version written out.
    pub fn to_string(&self) -> (s: String)
        ensures
            s@ == self.text(),
    {
        let mut s = String::new();
        push_signed_decimal(&mut s, self.major as i64);
        s.append(VERSION_SEPARATOR);
        push_signed_decimal(&mut s, self.minor as i64);
        s.append(VERSION_SEPARATOR);
        push_signed_decimal(&mut s, self.build as i64);
        s.append(VERSION_SEPARATOR);
        push_signed_decimal(&mut s, self.revision as i64);
        s
    }
}

impl vstd::std_specs::convert::FromSpecImpl<String> for Version {
    open spec fn obeys_from_spec() -> bool {
        true
    }

    open spec fn from_spec(v: String) -> Version {
        version_of(v@)
    }
}

impl From<String> for Version {
    fn from(version: String) -> (v: Version)
        ensures
            v == version_of(version@),
    {
        Version::parse(version.as_str())
    }
}

/// What is written is read back: reading the text of a version gives the
/// version.
pub proof fn law_version_reads_back(v: Version)
    ensures
        version_of(v.text()) == v,
{
    reveal_strlit(".");
    let dot = VERSION_SEPARATOR@;
    assert(dot =~= seq!['.']);
    let a = signed_decimal(v.major as int);
    let b = signed_decimal(v.minor as int);
    let c = signed_decimal(v.build as int);
    let d = signed_decimal(v.revision as int);
    lemma_signed_decimal_reads_back(v.major as int);
    lemma_signed_decimal_reads_back(v.minor as int);
    lemma_signed_decimal_reads_back(v.build as int);
    lemma_signed_decimal_reads_back(v.revision as int);
    let text = v.text();
    let first = a.len() as int;
    let second = first + 1 + b.len();
    let third = second + 1 + c.len();
    lemma_first_occurrence_of_char(text, '.', 0, first);
    lemma_first_occurrence_of_char(text, '.', first + 1, second);
    lemma_first_occurrence_of_char(text, '.', second + 1, third);
    lemma_no_occurrence_of_char(text, '.', third + 1);
    reveal_with_fuel(piece_from, 5);
    assert(piece(text, dot, 0) =~= a);
    assert(piece(text, dot, 1) =~= b);
    assert(piece(text, dot, 2) =~= c);
    assert(piece(text, dot, 3) =~= d);
}

/// Why the version of an executable could not be read.
#[derive(Clone, Copy, PartialEq, Eq, Debug, Structural)]
pub enum VersionFailure {
    /// The system gave no size for the version information.
    NoSize,
    /// The version information could not be read.
    NotRead,
    /// The version information holds no fixed file information.
    NotTransformed,
    /// The fixed file information is empty.
    NoValue,
}

impl VersionFailure {
    /// What the error says.
    pub open spec fn message(self) -> Seq<char> {
        match self {
            VersionFailure::NoSize => "failed to get file version size"@,
            VersionFailure::NotRead => "could not read file version"@,
            VersionFailure::NotTransformed => "could not transform file version"@,
            VersionFailure::NoValue => "ver_query_value_w buffer length"@,
        }
    }

    /// The error of a version that could not be read. It is never severe:
    /// the version is for display only.
    pub fn error(self) -> (e: OpError)
        ensures
            e@ == (OpErrorView { message: self.message(), severe: false }),
    {
        match self {
            VersionFailure::NoSize => OpError::new("failed to get file version size", false),
            VersionFailure::NotRead => OpError::new("could not read file version", false),
            VersionFailure::NotTransformed => OpError::new(
                "could not transform file version",
                false,
            ),
            VersionFailure::NoValue => OpError::new("ver_query_value_w buffer length", false),
        }
    }
}

} // verus!
