//! Semantic versions reported by tools, and the requirements they must meet.
use vstd::prelude::*;

use crate::text::{decimal, last_token, last_word, to_decimal};

verus! {

/// `semver::Version`, held beside the fields read from it.
#[verifier::external_type_specification]
#[verifier::external_body]
pub struct ExSemverVersion(semver::Version);

/// `semver::VersionReq`, held beside the text it was parsed from.
#[verifier::external_type_specification]
#[verifier::external_body]
pub struct ExSemverVersionReq(semver::VersionReq);

/// `std::io::Error`: why a tool could not be run; carried, never inspected.
#[verifier::external_type_specification]
#[verifier::external_body]
pub struct ExIoError(std::io::Error);

/// The fields of a version: major, minor, patch, pre-release and build
/// metadata.
pub type VersionFields = (u64, u64, u64, Seq<char>, Seq<char>);

/// What `semver::Version::parse` yields on `text`, as fields; `None` where it
/// refuses the text.
pub uninterp spec fn semver_fields(text: Seq<char>) -> Option<(u64, u64, u64, Seq<char>, Seq<char>)>;

/// Whether `semver::VersionReq::parse` accepts `text`.
pub uninterp spec fn requirement_valid(text: Seq<char>) -> bool;

/// Whether the requirement parsed from `req` matches the version with these
/// fields, as `semver::VersionReq::matches` decides it.
pub uninterp spec fn requirement_admits(req: Seq<char>, version: (u64, u64, u64, Seq<char>, Seq<char>)) -> bool;

/// A version written out: `major.minor.patch`, then `-pre` and `+build`
/// where those are present.
pub open spec fn version_text(f: VersionFields) -> Seq<char> {
    decimal(f.0 as nat) + "."@ + decimal(f.1 as nat) + "."@ + decimal(f.2 as nat)
        + (if f.3.len() > 0 { "-"@ + f.3 } else { Seq::empty() })
        + (if f.4.len() > 0 { "+"@ + f.4 } else { Seq::empty() })
}

/// A semantic version, with its numeric and textual fields. Only
/// `parse_semver` builds one, so `parsed` is always the version that the
/// fields were read from.
#[derive(Debug)]
pub struct SemVer {
    major: u64,
    minor: u64,
    patch: u64,
    pre: String,
    build: String,
    parsed: semver::Version,
}

impl SemVer {
    pub closed spec fn fields(&self) -> VersionFields {
        (self.major, self.minor, self.patch, self.pre@, self.build@)
    }

    pub fn major(&self) -> (r: u64)
        ensures
            r == self.fields().0,
    {
        self.major
    }

    pub fn minor(&self) -> (r: u64)
        ensures
            r == self.fields().1,
    {
        self.minor
    }

    pub fn patch(&self) -> (r: u64)
        ensures
            r == self.fields().2,
    {
        self.patch
    }

    /// The pre-release identifier; empty where there is none.
    pub fn pre(&self) -> (r: &str)
        ensures
            r@ == self.fields().3,
    {
        self.pre.as_str()
    }

    /// The version written out, as `major.minor.patch[-pre][+build]`.
    pub fn to_text(&self) -> (r: String)
        ensures
            r@ == version_text(self.fields()),
    {
        let mut s = to_decimal(self.major);
        s.append(".");
        s.append(to_decimal(self.minor).as_str());
        s.append(".");
        s.append(to_decimal(self.patch).as_str());
        if self.pre.as_str().unicode_len() > 0 {
            s.append("-");
            s.append(self.pre.as_str());
        }
        if self.build.as_str().unicode_len() > 0 {
            s.append("+");
            s.append(self.build.as_str());
        }
        s
    }

    /// The build metadata; empty where there is none.
    pub fn build(&self) -> (r: &str)
        ensures
            r@ == self.fields().4,
    {
        self.build.as_str()
    }
}

/// A version requirement such as `>=1.5.1, <2.0.0`, with the text it was
/// read from. Only `parse_requirement` builds one, so `parsed` is always what
/// the text reads as.
#[derive(Debug)]
pub struct Requirement {
    text: String,
    parsed: semver::VersionReq,
}

impl View for Requirement {
    type V = Seq<char>;

    closed spec fn view(&self) -> Seq<char> {
        self.text@
    }
}

impl Requirement {
    pub fn as_str(&self) -> (r: &str)
        ensures
            r@ == self@,
    {
        self.text.as_str()
    }
}

/// Relies on `semver::Version::parse`, and on the public fields of the
/// version it returns.
#[verifier::external_body]
fn parse_semver(text: &str) -> (r: Option<SemVer>)
    ensures
        match r {
            Some(v) => semver_fields(text@) == Some(v.fields()),
            None => semver_fields(text@).is_none(),
        },
{
    match semver::Version::parse(text) {
        Ok(v) => Some(SemVer {
            major: v.major,
            minor: v.minor,
            patch: v.patch,
            pre: v.pre.as_str().to_string(),
            build: v.build.as_str().to_string(),
            parsed: v,
        }),
        Err(_) => None,
    }
}

/// Relies on `semver::VersionReq::parse`; the text is kept beside the result.
#[verifier::external_body]
fn parse_requirement(text: &str) -> (r: Option<Requirement>)
    ensures
        r.is_some() == requirement_valid(text@),
        r matches Some(q) ==> q@ == text@,
{
    match semver::VersionReq::parse(text) {
        Ok(parsed) => Some(Requirement { text: text.to_string(), parsed }),
        Err(_) => None,
    }
}

/// Relies on `semver::VersionReq::matches`.
#[verifier::external_body]
fn semver_matches(req: &Requirement, v: &SemVer) -> (r: bool)
    ensures
        r == requirement_admits(req@, v.fields()),
{
    req.parsed.matches(&v.parsed)
}

/// Why a tool could not be accepted.
#[derive(Debug)]
pub enum ToolError {
    /// Neither the environment variable nor the search path named the tool.
    Resolution { env_key: String, prog_name: String },
    /// The tool could not be run, or its output could not be captured.
    Invocation,
    /// The tool's output did not end in a semantic version.
    VersionParse,
    /// The tool's version lies outside the required range.
    VersionMismatch { version: SemVer, requirement: Requirement },
    /// The required range is not a well-formed version requirement.
    InvalidRequirement,
}

/// The version that output `out` reports: the fields of its last word.
pub open spec fn reported_version(out: Seq<char>) -> Option<VersionFields> {
    match last_token(out) {
        Some(t) => semver_fields(t),
        None => None,
    }
}

/// Reads the version that a tool's `--version` output reports in its last
/// word.
pub fn parse_reported_version(out: &str) -> (r: Option<SemVer>)
    ensures
        match r {
            Some(v) => reported_version(out@) == Some(v.fields()),
            None => reported_version(out@).is_none(),
        },
{
    match last_word(out) {
        Some(w) => parse_semver(w.as_str()),
        None => None,
    }
}

/// Checks a tool's `--version` output against the requirement `req_string`.
/// The version comes from the last word of the output; it must parse and lie
/// in the required range.
pub fn check_version_constraints(req_string: &str, prog_output: Result<String, std::io::Error>) -> (r: Result<SemVer, ToolError>)
    ensures
        prog_output.is_err() ==> r matches Err(ToolError::Invocation),
        prog_output matches Ok(out) ==> {
            match reported_version(out@) {
                None => r matches Err(ToolError::VersionParse),
                Some(f) => if !requirement_valid(req_string@) {
                    r matches Err(ToolError::InvalidRequirement)
                } else if requirement_admits(req_string@, f) {
                    r matches Ok(v) && v.fields() == f
                } else {
                    r matches Err(ToolError::VersionMismatch { version, requirement })
                        && version.fields() == f && requirement@ == req_string@
                },
            }
        },
{
    let out = match prog_output {
        Ok(out) => out,
        Err(_) => return Err(ToolError::Invocation),
    };
    let version = match parse_reported_version(out.as_str()) {
        Some(v) => v,
        None => return Err(ToolError::VersionParse),
    };
    let requirement = match parse_requirement(req_string) {
        Some(q) => q,
        None => return Err(ToolError::InvalidRequirement),
    };
    if semver_matches(&requirement, &version) {
        Ok(version)
    } else {
        Err(ToolError::VersionMismatch { version, requirement })
    }
}

} // verus!
