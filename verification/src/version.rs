//! Versions of the protocol.
use vstd::prelude::*;

use crate::text;

verus! {

/// What can be wrong with a version: its text is not of the form `major.minor`.
#[derive(Debug, Clone, Copy, PartialEq, Eq, Structural)]
pub enum Error {
    InvalidVersion,
}

/// A version of the protocol.
#[derive(Debug, Clone, Copy, PartialEq, Eq, Structural)]
pub struct Version {
    pub major: i64,
    pub minor: i64,
}

/// The version that a text `major.minor` denotes.
pub open spec fn version_of(s: Seq<char>) -> Option<Version> {
    match text::cut_at_only(s, '.') {
        Some((major, minor)) => match (text::parsed_i64(major), text::parsed_i64(minor)) {
            (Some(major), Some(minor)) => Some(Version { major, minor }),
            _ => None,
        },
        None => None,
    }
}

impl Version {
    /// Whether a version is no later than another.
    pub open spec fn at_most(self, other: Version) -> bool {
        self.major < other.major || (self.major == other.major && self.minor <= other.minor)
    }

    /// Reads a text `major.minor`.
    pub fn parse(s: &str) -> (res: Option<Version>)
        ensures
            res == version_of(s@),
    {
        match text::split_at_only(s, '.') {
            Some((major, minor)) => match (
                text::parse_i64(major.as_str()),
                text::parse_i64(minor.as_str()),
            ) {
                (Some(major), Some(minor)) => Some(Version { major, minor }),
                _ => None,
            },
            None => None,
        }
    }
}

/// Whether the library speaks the version that a text denotes: any with major number 0 or 1.
pub open spec fn supported(s: Seq<char>) -> bool {
    version_of(s) matches Some(v) && (v.major == 0 || v.major == 1)
}

/// The lower of two versions, the first if they are equal; `None` if either text is no
/// version.
pub open spec fn lower_version(version1: Seq<char>, version2: Seq<char>) -> Option<Seq<char>> {
    match (version_of(version1), version_of(version2)) {
        (Some(v1), Some(v2)) => Some(
            if v1.at_most(v2) {
                version1
            } else {
                version2
            },
        ),
        _ => None,
    }
}

/// The lower of two versions is one of the two and is no later than either, and it denotes
/// the same version whichever of the two comes first.
pub proof fn lower_version_is_least(version1: Seq<char>, version2: Seq<char>)
    ensures
        lower_version(version1, version2) is Some <==> version_of(version1) is Some && version_of(
            version2,
        ) is Some,
        lower_version(version1, version2) matches Some(v) ==> {
            &&& v == version1 || v == version2
            &&& version_of(v)->0.at_most(version_of(version1)->0)
            &&& version_of(v)->0.at_most(version_of(version2)->0)
            &&& version_of(v) == version_of(lower_version(version2, version1)->0)
        },
{
}

/// The lower of a supported version and another that the library speaks is supported.
pub proof fn lower_version_is_supported(version1: Seq<char>, version2: Seq<char>)
    requires
        supported(version1),
        supported(version2),
    ensures
        lower_version(version1, version2) matches Some(v) && supported(v),
{
}

/// The latest version of the protocol.
pub fn uma_protocol_version() -> (res: String)
    ensures
        res@ == "1.0"@,
{
    "1.0".to_owned()
}

/// Whether the library speaks a version.
pub fn is_version_supported(version: &str) -> (res: bool)
    ensures
        res == supported(version@),
{
    match Version::parse(version) {
        Some(v) => v.major == 0 || v.major == 1,
        None => false,
    }
}

/// Picks the lower of two versions.
pub fn select_lower_version(version1: &str, version2: &str) -> (res: Result<String, Error>)
    ensures
        match res {
            Ok(v) => lower_version(version1@, version2@) == Some(v@),
            Err(e) => lower_version(version1@, version2@) is None && e == Error::InvalidVersion,
        },
{
    match (Version::parse(version1), Version::parse(version2)) {
        (Some(v1), Some(v2)) => {
            if v1.major < v2.major || (v1.major == v2.major && v1.minor <= v2.minor) {
                Ok(version1.to_owned())
            } else {
                Ok(version2.to_owned())
            }
        },
        _ => Err(Error::InvalidVersion),
    }
}

} // verus!
