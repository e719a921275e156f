//! Semantic versions and version requirements, parsed and compared by the
//! `semver` crate. Both keep the text they were parsed from, which is how the
//! contracts speak of them.

use vstd::prelude::*;

verus! {

#[verifier::external_type_specification]
#[verifier::external_body]
pub struct ExSemverVersionReq(semver::VersionReq);

#[verifier::external_type_specification]
#[verifier::external_body]
pub struct ExSemverVersion(semver::Version);

#[verifier::external_type_specification]
#[verifier::external_body]
pub struct ExSemverError(semver::Error);

/// Whether `semver::VersionReq::parse` accepts the text.
pub uninterp spec fn semver_req_valid(text: Seq<char>) -> bool;

/// Whether `semver::Version::parse` accepts the text.
pub uninterp spec fn semver_version_valid(text: Seq<char>) -> bool;

/// Whether the requirement parsed from `req` matches the version parsed from
/// `version` (`semver::VersionReq::matches`).
pub uninterp spec fn semver_matches(req: Seq<char>, version: Seq<char>) -> bool;

/// Calls `semver::VersionReq::parse`. Claimed: it succeeds exactly on the
/// texts named by `semver_req_valid`, a function of the text alone.
#[verifier::external_body]
fn parse_semver_req(text: &str) -> (r: Result<semver::VersionReq, semver::Error>)
    ensures
        r is Ok <==> semver_req_valid(text@),
{
    semver::VersionReq::parse(text)
}

/// Calls `semver::Version::parse`. Claimed: it succeeds exactly on the texts
/// named by `semver_version_valid`, a function of the text alone.
#[verifier::external_body]
fn parse_semver_version(text: &str) -> (r: Result<semver::Version, semver::Error>)
    ensures
        r is Ok <==> semver_version_valid(text@),
{
    semver::Version::parse(text)
}

/// A version requirement (such as `>=0.4` or `=1.2.3`) with its text.
pub struct VersionRequirement {
    text: String,
    parsed: semver::VersionReq,
}

/// A version (such as `3.12.1`) with its text.
pub struct SemanticVersion {
    text: String,
    parsed: semver::Version,
}

impl View for VersionRequirement {
    type V = Seq<char>;

    closed spec fn view(&self) -> Seq<char> {
        self.text@
    }
}

impl View for SemanticVersion {
    type V = Seq<char>;

    closed spec fn view(&self) -> Seq<char> {
        self.text@
    }
}

/// The failure to parse a version or a version requirement.
pub struct VersionParseError {
    pub text: String,
}

impl VersionRequirement {
    /// Parses a version requirement.
    pub fn parse(text: &str) -> (r: Result<VersionRequirement, VersionParseError>)
        ensures
            r is Ok <==> semver_req_valid(text@),
            r matches Ok(v) ==> v@ == text@,
            r matches Err(e) ==> e.text@ == text@,
    {
        match parse_semver_req(text) {
            Ok(parsed) => Ok(VersionRequirement { text: text.to_owned(), parsed }),
            Err(_) => Err(VersionParseError { text: text.to_owned() }),
        }
    }

    /// The text the requirement was parsed from.
    pub fn as_str(&self) -> (s: &str)
        ensures
            s@ == self@,
    {
        self.text.as_str()
    }

    /// Calls `semver::VersionReq::matches` on the parsed requirement and
    /// version. Claimed: the answer is `semver_matches` of the two texts they
    /// were parsed from (both types are only built by parsing their text).
    #[verifier::external_body]
    pub(crate) fn matches(&self, version: &SemanticVersion) -> (b: bool)
        ensures
            b == semver_matches(self@, version@),
    {
        self.parsed.matches(&version.parsed)
    }
}

impl SemanticVersion {
    /// Parses a version.
    pub fn parse(text: &str) -> (r: Result<SemanticVersion, VersionParseError>)
        ensures
            r is Ok <==> semver_version_valid(text@),
            r matches Ok(v) ==> v@ == text@,
            r matches Err(e) ==> e.text@ == text@,
    {
        match parse_semver_version(text) {
            Ok(parsed) => Ok(SemanticVersion { text: text.to_owned(), parsed }),
            Err(_) => Err(VersionParseError { text: text.to_owned() }),
        }
    }

    /// The text the version was parsed from.
    pub fn as_str(&self) -> (s: &str)
        ensures
            s@ == self@,
    {
        self.text.as_str()
    }
}

} // verus!
