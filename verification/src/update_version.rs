//! Whether a released version is newer than the running one, by the
//! `semver` crate's parsing and precedence.

use vstd::prelude::*;

verus! {

/// `semver::Version`, carried through as an opaque value.
#[verifier::external_type_specification]
#[verifier::external_body]
pub struct ExSemverVersion(semver::Version);

/// `semver::Error`, carried through as an opaque value.
#[verifier::external_type_specification]
#[verifier::external_body]
pub struct ExSemverError(semver::Error);

/// What `semver::Version::parse` makes of a text: its major, minor and
/// patch numbers and the texts of its pre-release and build parts; `None`
/// when the text is refused.
pub uninterp spec fn semver_parse(text: Seq<char>) -> Option<(u64, u64, u64, Seq<char>, Seq<char>)>;

/// Whether `semver` orders the version parsed from `a` after the one parsed
/// from `b`.
pub uninterp spec fn semver_gt(a: Seq<char>, b: Seq<char>) -> bool;

/// A version parsed from a text, with its parts.
pub struct ParsedVersion {
    text: String,
    major: u64,
    minor: u64,
    patch: u64,
    pre: String,
    build: String,
    version: semver::Version,
}

impl View for ParsedVersion {
    type V = Seq<char>;

    /// The text the version was parsed from.
    closed spec fn view(&self) -> Seq<char> {
        self.text@
    }
}

impl ParsedVersion {
    /// The parts of the version: major, minor, patch, pre-release, build.
    pub closed spec fn parts(&self) -> (u64, u64, u64, Seq<char>, Seq<char>) {
        (self.major, self.minor, self.patch, self.pre@, self.build@)
    }

    /// A version without pre-release or build parts.
    pub open spec fn is_plain(&self) -> bool {
        self.parts().3.len() == 0 && self.parts().4.len() == 0
    }
}

/// Parses a version with `semver::Version::parse`. The contract claims
/// that the outcome is the named `semver` outcome for the text, with the
/// numbers and the pre-release and build texts copied out; which texts
/// `semver` accepts is not restated.
#[verifier::external_body]
fn parse_version(text: &str) -> (r: Result<ParsedVersion, semver::Error>)
    ensures
        match r {
            Ok(v) => v@ == text@ && semver_parse(text@) == Some(v.parts()),
            Err(_) => semver_parse(text@) is None,
        },
{
    let v = semver::Version::parse(text)?;
    Ok(ParsedVersion {
        text: text.to_string(),
        major: v.major,
        minor: v.minor,
        patch: v.patch,
        pre: v.pre.as_str().to_string(),
        build: v.build.as_str().to_string(),
        version: v,
    })
}

/// Whether `a` comes after `b` in `semver` precedence (`>` on
/// `semver::Version`). The contract claims that the result is the named
/// comparison of the two parsed texts and, as `semver`'s derived order on
/// major, minor, patch, pre-release and build shows, that for versions
/// without pre-release or build parts it is the order of their numbers.
#[verifier::external_body]
fn version_gt(a: &ParsedVersion, b: &ParsedVersion) -> (r: bool)
    ensures
        r == semver_gt(a@, b@),
        a.is_plain() && b.is_plain() ==> r == (a.parts().0 > b.parts().0 || (a.parts().0
            == b.parts().0 && (a.parts().1 > b.parts().1 || (a.parts().1 == b.parts().1
            && a.parts().2 > b.parts().2)))),
{
    a.version > b.version
}

/// Why versions could not be compared.
#[derive(Clone, Copy, Debug, PartialEq, Eq, Structural)]
pub enum VersionError {
    /// The text is not a semantic version.
    InvalidVersion,
}

/// The numbers of a parsed version, when it has no pre-release or build
/// part.
pub open spec fn plain_numbers(text: Seq<char>) -> Option<(u64, u64, u64)> {
    match semver_parse(text) {
        Some((major, minor, patch, pre, build)) => if pre.len() == 0 && build.len() == 0 {
            Some((major, minor, patch))
        } else {
            None
        },
        None => None,
    }
}

/// Whether the `latest` released version is newer than the `current` one.
/// Both must parse; the latest is parsed first.
pub fn bump_is_greater(current: &str, latest: &str) -> (r: Result<bool, VersionError>)
    ensures
        r is Ok <==> semver_parse(latest@) is Some && semver_parse(current@) is Some,
        r matches Err(e) ==> e == VersionError::InvalidVersion,
        r matches Ok(b) ==> b == semver_gt(latest@, current@),
        r matches Ok(b) ==> match (plain_numbers(latest@), plain_numbers(current@)) {
            (Some(l), Some(c)) => b == (l.0 > c.0 || (l.0 == c.0 && (l.1 > c.1 || (l.1 == c.1
                && l.2 > c.2)))),
            _ => true,
        },
{
    let l = match parse_version(latest) {
        Ok(v) => v,
        Err(_) => return Err(VersionError::InvalidVersion),
    };
    let c = match parse_version(current) {
        Ok(v) => v,
        Err(_) => return Err(VersionError::InvalidVersion),
    };
    Ok(version_gt(&l, &c))
}

} // verus!
