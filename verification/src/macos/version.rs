//! The version of the operating system.

use vstd::prelude::*;

verus! {

/// A version: its parts, from the most significant down.
#[derive(Clone, Copy, Debug, PartialEq, Eq, Structural)]
pub struct OsVersion {
    pub major: u64,
    pub minor: u64,
    pub patch: u64,
}

impl OsVersion {
    /// Whether a version is not earlier than another.
    pub open spec fn reaches(self, other: OsVersion) -> bool {
        self.major > other.major || (self.major == other.major && (self.minor > other.minor || (
        self.minor == other.minor && self.patch >= other.patch)))
    }

    /// Whether this version is not earlier than the given one.
    pub fn at_least(self, major: u64, minor: u64, patch: u64) -> (reached: bool)
        ensures
            reached == self.reaches(OsVersion { major, minor, patch }),
    {
        not_earlier(self, OsVersion { major, minor, patch })
    }
}

/// Calls `semver::Version::new` for each of the two, and compares them with `>=`:
/// versions without labels are ordered by their parts, the most significant first.
#[verifier::external_body]
fn not_earlier(a: OsVersion, b: OsVersion) -> (result: bool)
    ensures
        result == a.reaches(b),
{
    semver::Version::new(a.major, a.minor, a.patch) >= semver::Version::new(
        b.major,
        b.minor,
        b.patch,
    )
}

/// Versions are in order, as numbers are: of two one reaches the other, both do exactly
/// where they are the same, and what reaches a version reaches what that one reaches. A
/// larger part counts for more than all the parts behind it.
pub proof fn versions_are_in_order(a: OsVersion, b: OsVersion, c: OsVersion)
    ensures
        a.reaches(a),
        a.reaches(b) || b.reaches(a),
        a.reaches(b) && b.reaches(a) ==> a == b,
        a.reaches(b) && b.reaches(c) ==> a.reaches(c),
        a.major > b.major ==> a.reaches(b) && !b.reaches(a),
        a.major == b.major && a.minor > b.minor ==> a.reaches(b) && !b.reaches(a),
        a.major == b.major && a.minor == b.minor && a.patch > b.patch ==> a.reaches(b)
            && !b.reaches(a),
        b.minor == 0 && b.patch == 0 ==> (a.reaches(b) <==> a.major >= b.major),
{
}

} // verus!
