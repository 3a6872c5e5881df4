use vstd::prelude::*;

verus! {

/// The numeric components of a semantic version: everything the
/// classification logic reads. Pre-release and build metadata take no part
/// in the component comparison and are not kept.
#[derive(Clone, Copy, Debug, PartialEq, Eq, Structural)]
pub struct SemVer {
    pub major: u64,
    pub minor: u64,
    pub patch: u64,
}

/// What `semver::Version::parse` makes of a string: `None` where the string
/// is not a valid semantic version, otherwise its (major, minor, patch)
/// triple. The outcome depends on the string alone.
pub uninterp spec fn parse_semver(s: Seq<char>) -> Option<(u64, u64, u64)>;

/// Relies on `semver::Version::parse`: a pure function of its argument that
/// returns the parsed version, or an error whose display text becomes the
/// message handed back here.
#[verifier::external_body]
pub(crate) fn parse_version(s: &str) -> (r: Result<SemVer, String>)
    ensures
        r is Ok <==> parse_semver(s@) is Some,
        r is Ok ==> (r->Ok_0.major, r->Ok_0.minor, r->Ok_0.patch) == parse_semver(s@)->Some_0,
{
    match semver::Version::parse(s) {
        Ok(v) => Ok(SemVer { major: v.major, minor: v.minor, patch: v.patch }),
        Err(e) => Err(e.to_string()),
    }
}

} // verus!
