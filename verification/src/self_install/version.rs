//! Release versions as the `semver` crate reads, prints and orders them.
//! A [`SemVer`] keeps the text it was read from; every question about it is
//! answered by `semver` on that text.

use crate::text::owned;
use vstd::prelude::*;

verus! {

/// Whether `semver::Version::parse` accepts the text.
pub uninterp spec fn semver_parses(text: Seq<char>) -> bool;

/// The `Display` text of the error `semver::Version::parse` gives.
pub uninterp spec fn semver_error(text: Seq<char>) -> Seq<char>;

/// The `Display` text of the version parsed from the text.
pub uninterp spec fn semver_text(text: Seq<char>) -> Seq<char>;

/// Whether the version parsed from the text has a prerelease part.
pub uninterp spec fn semver_has_pre(text: Seq<char>) -> bool;

/// How `semver::Version`'s `Ord` compares the versions parsed from two
/// texts: -1, 0 or 1.
pub uninterp spec fn semver_cmp(a: Seq<char>, b: Seq<char>) -> int;

/// `semver::Version::parse`, then the version's `Display` text and whether
/// its prerelease part is non-empty; or the error's `Display` text.
#[verifier::external_body]
fn semver_read(text: &str) -> (r: Result<(String, bool), String>)
    ensures
        r is Ok <==> semver_parses(text@),
        r matches Ok(p) ==> p.0@ == semver_text(text@) && p.1 == semver_has_pre(text@),
        r matches Err(e) ==> e@ == semver_error(text@),
{
    match semver::Version::parse(text) {
        Ok(v) => Ok((v.to_string(), !v.pre.is_empty())),
        Err(e) => Err(e.to_string()),
    }
}

/// The `Ord` of the versions two texts parse to, as -1, 0 or 1. `Ord` is a
/// total order: comparing the other way round gives the opposite answer,
/// and a text compares equal to itself.
#[verifier::external_body]
fn semver_compare(a: &str, b: &str) -> (r: i8)
    requires
        semver_parses(a@),
        semver_parses(b@),
    ensures
        r == semver_cmp(a@, b@),
        -1 <= r <= 1,
        r == -semver_cmp(b@, a@),
        a@ == b@ ==> r == 0,
{
    match (semver::Version::parse(a), semver::Version::parse(b)) {
        (Ok(x), Ok(y)) => match x.cmp(&y) {
            std::cmp::Ordering::Less => -1,
            std::cmp::Ordering::Equal => 0,
            std::cmp::Ordering::Greater => 1,
        },
        _ => 0,
    }
}

/// A version `semver` accepted, with the text it was read from.
#[derive(Debug)]
pub struct SemVer {
    source: String,
    text: String,
    pre: bool,
}

impl SemVer {
    #[verifier::type_invariant]
    closed spec fn wf(self) -> bool {
        &&& semver_parses(self.source@)
        &&& self.text@ == semver_text(self.source@)
        &&& self.pre == semver_has_pre(self.source@)
    }

    /// The text the version was read from.
    pub closed spec fn source(self) -> Seq<char> {
        self.source@
    }

    /// Read a version.
    pub fn parse(text: &str) -> (r: Result<SemVer, String>)
        ensures
            r is Ok <==> semver_parses(text@),
            r matches Ok(v) ==> v.source() == text@,
            r matches Err(e) ==> e@ == semver_error(text@),
    {
        match semver_read(text) {
            Ok((shown, pre)) => Ok(SemVer { source: owned(text), text: shown, pre }),
            Err(e) => Err(e),
        }
    }

    /// How the version prints.
    pub fn text(&self) -> (r: &str)
        ensures
            r@ == semver_text(self.source()),
    {
        proof {
            use_type_invariant(self);
        }
        self.text.as_str()
    }

    /// Whether the version has a prerelease part.
    pub fn has_pre(&self) -> (r: bool)
        ensures
            r == semver_has_pre(self.source()),
    {
        proof {
            use_type_invariant(self);
        }
        self.pre
    }

    /// The order of two versions: -1, 0 or 1.
    pub fn compare(&self, other: &SemVer) -> (r: i8)
        ensures
            r == semver_cmp(self.source(), other.source()),
    {
        proof {
            use_type_invariant(self);
            use_type_invariant(other);
        }
        semver_compare(self.source.as_str(), other.source.as_str())
    }

    /// A copy.
    pub fn copy(&self) -> (r: SemVer)
        ensures
            r.source() == self.source(),
    {
        proof {
            use_type_invariant(self);
        }
        SemVer { source: owned(self.source.as_str()), text: owned(self.text.as_str()), pre: self.pre }
    }
}

} // verus!
