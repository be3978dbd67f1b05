//! Semantic versions, as the `semver` crate reads and orders them.

use vstd::prelude::*;
use vstd::string::*;

verus! {

/// `semver::Version`, a parsed version, as a type whose inside the verifier does not see.
#[verifier::external_type_specification]
#[verifier::external_body]
pub struct ExVersion(semver::Version);

/// `semver::Error`, why a text was refused, as a type whose inside the verifier does not
/// see.
#[verifier::external_type_specification]
#[verifier::external_body]
pub struct ExVersionError(semver::Error);

/// What a semantic version holds: three numbers, the pre-release identifiers and the
/// build metadata.
pub struct SemVer {
    pub major: u64,
    pub minor: u64,
    pub patch: u64,
    pub pre: Seq<char>,
    pub build: Seq<char>,
}

/// What a `semver::Version` holds.
pub uninterp spec fn semver_of(version: semver::Version) -> SemVer;

/// The version that `semver::Version::parse` reads from a text, if it accepts the text.
pub uninterp spec fn semver_parsed(text: Seq<char>) -> Option<SemVer>;

/// Whether one version comes before another in the order of `semver::Version`.
pub uninterp spec fn semver_precedes(earlier: SemVer, later: SemVer) -> bool;

/// The outcome of `semver::Version::parse` is a function of the text, [`semver_parsed`]:
/// none where the text is refused, else what the returned version holds.
pub assume_specification[ semver::Version::parse ](text: &str) -> (r: Result<
    semver::Version,
    semver::Error,
>)
    ensures
        match r {
            Ok(version) => semver_parsed(text@) == Some(semver_of(version)),
            Err(_) => semver_parsed(text@) is None,
        },
;

/// Compares two versions with `<` of `semver::Version`. Not proved: that the answer is a
/// function, [`semver_precedes`], of what the two versions hold.
#[verifier::external_body]
pub(crate) fn version_precedes(earlier: &semver::Version, later: &semver::Version) -> (r: bool)
    ensures
        r == semver_precedes(semver_of(*earlier), semver_of(*later)),
{
    earlier < later
}

/// Whether a character is one of the ten ASCII digits.
pub open spec fn is_digit(c: char) -> bool {
    '0' <= c && c <= '9'
}

/// The index of the first digit at or after `from`, or the length if there is none.
pub open spec fn first_digit(text: Seq<char>, from: int) -> int
    decreases text.len() - from,
{
    if from >= text.len() {
        text.len() as int
    } else if is_digit(text[from]) {
        from
    } else {
        first_digit(text, from + 1)
    }
}

/// The text from its first digit on: empty if it holds no digit.
pub open spec fn from_first_digit(text: Seq<char>) -> Seq<char> {
    text.skip(first_digit(text, 0))
}

/// The first digit's index is the least one that holds a digit: no character before it
/// is a digit, and it holds a digit unless the text has none.
pub proof fn lemma_first_digit(text: Seq<char>, from: int)
    requires
        0 <= from <= text.len(),
    ensures
        from <= first_digit(text, from) <= text.len(),
        forall|at: int| from <= at < first_digit(text, from) ==> !is_digit(text[at]),
        first_digit(text, from) < text.len() ==> is_digit(text[first_digit(text, from)]),
    decreases text.len() - from,
{
    if from < text.len() && !is_digit(text[from]) {
        lemma_first_digit(text, from + 1);
    }
}

/// Removes the characters before the first digit, such as the operator of a version
/// range. The text is read character by character from its start.
pub fn strip_to_first_digit(text: &str) -> (r: &str)
    ensures
        r@ == from_first_digit(text@),
{
    let length: usize = text.unicode_len();
    let mut at: usize = 0;
    while at < length
        invariant
            at <= length,
            length == text@.len(),
            first_digit(text@, 0) == first_digit(text@, at as int),
        ensures
            first_digit(text@, 0) == at,
        decreases length - at,
    {
        let c = text.get_char(at);
        if '0' <= c && c <= '9' {
            break;
        }
        at = at + 1;
    }
    text.substring_char(at, length)
}

} // verus!
