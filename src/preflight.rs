//! Finding the three required tools and confirming their versions.
use vstd::prelude::*;

use crate::version::{check_version_constraints, reported_version, requirement_admits, requirement_valid, SemVer, ToolError, VersionFields};

verus! {

/// Where a tool's path came from.
#[derive(PartialEq, Eq, Structural, Clone, Copy, Debug)]
pub enum PathSource {
    Environment,
    SearchPath,
}

/// A tool's path, and where it was found.
#[derive(Debug)]
pub struct Resolved {
    pub path: String,
    pub source: PathSource,
}

/// Decides where a tool lives. The value of the environment variable
/// `env_key`, when set, is taken as the path as it stands; otherwise the hit of
/// the search path for `prog_name` is taken; with neither, the tool is
/// unresolved.
pub fn search_for_executable(env_key: &str, prog_name: &str, env_value: Option<String>, path_hit: Option<String>) -> (r: Result<Resolved, ToolError>)
    ensures
        env_value matches Some(p) ==> (r matches Ok(t) && t.path@ == p@ && t.source == PathSource::Environment),
        env_value.is_none() ==> (path_hit matches Some(p) ==> (r matches Ok(t) && t.path@ == p@ && t.source == PathSource::SearchPath)),
        env_value.is_none() && path_hit.is_none() ==> (r matches Err(ToolError::Resolution { env_key: k, prog_name: n })
            && k@ == env_key@ && n@ == prog_name@),
{
    match env_value {
        Some(p) => Ok(Resolved { path: p, source: PathSource::Environment }),
        None => match path_hit {
            Some(p) => Ok(Resolved { path: p, source: PathSource::SearchPath }),
            None => Err(ToolError::Resolution { env_key: String::from_str(env_key), prog_name: String::from_str(prog_name) }),
        },
    }
}

/// The paths of the programs that the workflow runs.
#[derive(Debug, Clone)]
pub struct ReqProgs {
    pub salmon: Option<String>,
    pub alevin_fry: Option<String>,
    pub pyroe: Option<String>,
}

/// The number of required tools.
pub const TOOL_COUNT: usize = 3;

/// The environment variable that overrides the search for tool `k`.
pub open spec fn spec_env_key(k: int) -> Seq<char> {
    if k == 0 { "SALMON"@ } else if k == 1 { "ALEVIN_FRY"@ } else { "PYROE"@ }
}

/// The executable name of tool `k`.
pub open spec fn spec_prog_name(k: int) -> Seq<char> {
    if k == 0 { "salmon"@ } else if k == 1 { "alevin-fry"@ } else { "pyroe"@ }
}

/// The versions that tool `k` must have.
pub open spec fn spec_requirement(k: int) -> Seq<char> {
    if k == 0 { ">=1.5.1, <2.0.0"@ } else if k == 1 { ">=0.4.1, <1.0.0"@ } else { ">=0.6.2, <1.0.0"@ }
}

pub fn env_key(k: usize) -> (r: &'static str)
    requires
        k < TOOL_COUNT,
    ensures
        r@ == spec_env_key(k as int),
{
    if k == 0 { "SALMON" } else if k == 1 { "ALEVIN_FRY" } else { "PYROE" }
}

pub fn prog_name(k: usize) -> (r: &'static str)
    requires
        k < TOOL_COUNT,
    ensures
        r@ == spec_prog_name(k as int),
{
    if k == 0 { "salmon" } else if k == 1 { "alevin-fry" } else { "pyroe" }
}

pub fn version_requirement(k: usize) -> (r: &'static str)
    requires
        k < TOOL_COUNT,
    ensures
        r@ == spec_requirement(k as int),
{
    if k == 0 { ">=1.5.1, <2.0.0" } else if k == 1 { ">=0.4.1, <1.0.0" } else { ">=0.6.2, <1.0.0" }
}

/// The tool that phase `p` concerns.
pub open spec fn phase_tool(p: Phase) -> int {
    match p {
        Phase::LookupEnv(k) | Phase::SearchPath(k) | Phase::QueryVersion(k) => k as int,
        _ => TOOL_COUNT as int,
    }
}

/// The phase after tool `k` was located.
pub open spec fn after_located(k: int) -> Phase {
    if k + 1 < TOOL_COUNT { Phase::LookupEnv((k + 1) as usize) } else { Phase::QueryVersion(0) }
}

/// The phase after the version of tool `k` was confirmed.
pub open spec fn after_checked(k: int) -> Phase {
    if k + 1 < TOOL_COUNT { Phase::QueryVersion((k + 1) as usize) } else { Phase::Ready }
}

fn located_phase(k: usize) -> (r: Phase)
    requires
        k < TOOL_COUNT,
    ensures
        r == after_located(k as int),
{
    if k + 1 < TOOL_COUNT { Phase::LookupEnv(k + 1) } else { Phase::QueryVersion(0) }
}

/// Where the pre-flight checks stand.
#[derive(PartialEq, Eq, Structural, Clone, Copy, Debug)]
pub enum Phase {
    /// The environment is to be asked for tool `k`.
    LookupEnv(usize),
    /// The search path is to be asked for tool `k`.
    SearchPath(usize),
    /// Tool `k` is to report its version.
    QueryVersion(usize),
    /// Every tool was found and has a version in range.
    Ready,
    /// A check failed; nothing more is done.
    Aborted,
}

/// The outside work that the pre-flight checks ask for next.
#[derive(Debug)]
pub enum PreflightAction {
    /// Read the environment variable `key`, and hand its value to
    /// `env_looked_up`.
    LookupEnv { key: String },
    /// Search the executable path for `prog`, and hand the hit to
    /// `path_searched`.
    SearchPath { prog: String },
    /// Run `path --version`, and hand its output to `version_reported`.
    QueryVersion { path: String },
    /// Nothing is left to do.
    Finished,
}

/// The pre-flight checks as a state machine: every tool is first located, in
/// order, and then each reports its version, in the same order. The first
/// failure ends the run.
pub struct Preflight {
    phase: Phase,
    paths: Vec<String>,
    sources: Vec<PathSource>,
    versions: Vec<SemVer>,
    error: Option<ToolError>,
}

impl Preflight {
    pub closed spec fn phase_spec(&self) -> Phase {
        self.phase
    }

    /// The paths found so far, in tool order.
    pub closed spec fn paths_spec(&self) -> Seq<Seq<char>> {
        self.paths@.map_values(|p: String| p@)
    }

    /// Where each path found so far came from.
    pub closed spec fn sources_spec(&self) -> Seq<PathSource> {
        self.sources@
    }

    /// The versions confirmed so far, in tool order.
    pub closed spec fn versions_spec(&self) -> Seq<VersionFields> {
        self.versions@.map_values(|v: SemVer| v.fields())
    }

    pub closed spec fn error_spec(&self) -> Option<ToolError> {
        self.error
    }

    pub closed spec fn wf(&self) -> bool {
        &&& self.paths@.len() == self.sources@.len()
        &&& match self.phase {
            Phase::LookupEnv(k) | Phase::SearchPath(k) => k < TOOL_COUNT && self.paths@.len() == k
                && self.versions@.len() == 0 && self.error.is_none(),
            Phase::QueryVersion(k) => k < TOOL_COUNT && self.paths@.len() == TOOL_COUNT
                && self.versions@.len() == k && self.error.is_none(),
            Phase::Ready => self.paths@.len() == TOOL_COUNT && self.versions@.len() == TOOL_COUNT
                && self.error.is_none(),
            Phase::Aborted => self.paths@.len() <= TOOL_COUNT && self.versions@.len() <= TOOL_COUNT
                && self.error.is_some(),
        }
    }

    /// The checks before any tool was looked for.
    pub fn new() -> (r: Preflight)
        ensures
            r.wf(),
            r.phase_spec() == Phase::LookupEnv(0),
            r.paths_spec().len() == 0,
            r.versions_spec().len() == 0,
    {
        Preflight { phase: Phase::LookupEnv(0), paths: Vec::new(), sources: Vec::new(), versions: Vec::new(), error: None }
    }

    pub fn phase(&self) -> (r: Phase)
        ensures
            r == self.phase_spec(),
    {
        self.phase
    }

    /// What to do next.
    pub fn next_action(&self) -> (r: PreflightAction)
        requires
            self.wf(),
        ensures
            self.phase_spec() matches Phase::LookupEnv(k) ==> (r matches PreflightAction::LookupEnv { key }
                && key@ == spec_env_key(k as int)),
            self.phase_spec() matches Phase::SearchPath(k) ==> (r matches PreflightAction::SearchPath { prog }
                && prog@ == spec_prog_name(k as int)),
            self.phase_spec() matches Phase::QueryVersion(k) ==> (r matches PreflightAction::QueryVersion { path }
                && path@ == self.paths_spec()[k as int]),
            (self.phase_spec() == Phase::Ready || self.phase_spec() == Phase::Aborted) ==> r
                matches PreflightAction::Finished,
    {
        match self.phase {
            Phase::LookupEnv(k) => PreflightAction::LookupEnv { key: String::from_str(env_key(k)) },
            Phase::SearchPath(k) => PreflightAction::SearchPath { prog: String::from_str(prog_name(k)) },
            Phase::QueryVersion(k) => {
                let path = self.paths[k].clone();
                proof {
                    assert(self.paths_spec()[k as int] == self.paths@[k as int]@);
                }
                PreflightAction::QueryVersion { path }
            },
            _ => PreflightAction::Finished,
        }
    }

    /// Records the value of the environment variable of the tool being
    /// looked for. A value is taken as the tool's path as it stands, and the
    /// search path is then not consulted; without one the search path is asked.
    pub fn env_looked_up(&mut self, value: Option<String>)
        requires
            old(self).wf(),
            old(self).phase_spec() is LookupEnv,
        ensures
            final(self).wf(),
            final(self).versions_spec() == old(self).versions_spec(),
            value matches Some(p) ==> {
                &&& final(self).paths_spec() == old(self).paths_spec().push(p@)
                &&& final(self).sources_spec() == old(self).sources_spec().push(PathSource::Environment)
                &&& final(self).phase_spec() == after_located(phase_tool(old(self).phase_spec()))
            },
            value.is_none() ==> {
                &&& final(self).paths_spec() == old(self).paths_spec()
                &&& final(self).sources_spec() == old(self).sources_spec()
                &&& final(self).phase_spec() == Phase::SearchPath(phase_tool(old(self).phase_spec()) as usize)
            },
    {
        let k = match self.phase {
            Phase::LookupEnv(k) => k,
            _ => 0,
        };
        match value {
            Some(p) => {
                let ghost before = self.paths@;
                self.paths.push(p);
                self.sources.push(PathSource::Environment);
                self.phase = located_phase(k);
                proof {
                    assert(self.paths@.map_values(|p: String| p@) =~= before.map_values(|p: String| p@).push(
                        self.paths@[k as int]@,
                    ));
                }
            },
            None => {
                self.phase = Phase::SearchPath(k);
            },
        }
    }

    /// Records what the search path gave for the tool being looked for: its
    /// path, or nothing, which ends the checks with a resolution error naming
    /// the tool and its environment variable.
    pub fn path_searched(&mut self, hit: Option<String>)
        requires
            old(self).wf(),
            old(self).phase_spec() is SearchPath,
        ensures
            final(self).wf(),
            final(self).versions_spec() == old(self).versions_spec(),
            hit matches Some(p) ==> {
                &&& final(self).paths_spec() == old(self).paths_spec().push(p@)
                &&& final(self).sources_spec() == old(self).sources_spec().push(PathSource::SearchPath)
                &&& final(self).phase_spec() == after_located(phase_tool(old(self).phase_spec()))
            },
            hit.is_none() ==> {
                &&& final(self).phase_spec() == Phase::Aborted
                &&& final(self).error_spec() matches Some(ToolError::Resolution { env_key: ek, prog_name: pn })
                &&& ek@ == spec_env_key(phase_tool(old(self).phase_spec()))
                &&& pn@ == spec_prog_name(phase_tool(old(self).phase_spec()))
            },
    {
        let k = match self.phase {
            Phase::SearchPath(k) => k,
            _ => 0,
        };
        match search_for_executable(env_key(k), prog_name(k), None, hit) {
            Ok(t) => {
                let ghost before = self.paths@;
                self.paths.push(t.path);
                self.sources.push(t.source);
                self.phase = located_phase(k);
                proof {
                    assert(self.paths@.map_values(|p: String| p@) =~= before.map_values(|p: String| p@).push(
                        self.paths@[k as int]@,
                    ));
                }
            },
            Err(e) => {
                self.error = Some(e);
                self.phase = Phase::Aborted;
            },
        }
    }

    /// Records the `--version` output of the tool being checked. The version
    /// in its last word must lie in the tool's required range; otherwise the
    /// checks end with the error that `check_version_constraints` gives.
    pub fn version_reported(&mut self, output: Result<String, std::io::Error>)
        requires
            old(self).wf(),
            old(self).phase_spec() is QueryVersion,
        ensures
            final(self).wf(),
            final(self).paths_spec() == old(self).paths_spec(),
            final(self).sources_spec() == old(self).sources_spec(),
            ({
                let k = phase_tool(old(self).phase_spec());
                let req = spec_requirement(k);
                match output {
                    Err(_) => final(self).phase_spec() == Phase::Aborted
                        && final(self).error_spec() matches Some(ToolError::Invocation),
                    Ok(out) => match reported_version(out@) {
                        None => final(self).phase_spec() == Phase::Aborted
                            && final(self).error_spec() matches Some(ToolError::VersionParse),
                        Some(f) => if !requirement_valid(req) {
                            final(self).phase_spec() == Phase::Aborted
                                && final(self).error_spec() matches Some(ToolError::InvalidRequirement)
                        } else if requirement_admits(req, f) {
                            &&& final(self).versions_spec() == old(self).versions_spec().push(f)
                            &&& final(self).phase_spec() == after_checked(k)
                        } else {
                            &&& final(self).phase_spec() == Phase::Aborted
                            &&& final(self).error_spec() matches Some(ToolError::VersionMismatch { version, requirement })
                            &&& version.fields() == f
                            &&& requirement@ == req
                        },
                    },
                }
            }),
    {
        let k = match self.phase {
            Phase::QueryVersion(k) => k,
            _ => 0,
        };
        match check_version_constraints(version_requirement(k), output) {
            Ok(v) => {
                let ghost before = self.versions@;
                self.versions.push(v);
                self.phase = if k + 1 < TOOL_COUNT { Phase::QueryVersion(k + 1) } else { Phase::Ready };
                proof {
                    assert(self.versions@.map_values(|v: SemVer| v.fields()) =~= before.map_values(
                        |v: SemVer| v.fields(),
                    ).push(self.versions@[k as int].fields()));
                }
            },
            Err(e) => {
                self.error = Some(e);
                self.phase = Phase::Aborted;
            },
        }
    }

    /// The outcome of finished checks: the three paths and versions, or the
    /// error that ended them.
    pub fn finish(self) -> (r: Result<(ReqProgs, Vec<SemVer>), ToolError>)
        requires
            self.wf(),
            self.phase_spec() == Phase::Ready || self.phase_spec() == Phase::Aborted,
        ensures
            self.phase_spec() == Phase::Ready ==> (r matches Ok((progs, versions)) && {
                &&& progs.salmon matches Some(p) && p@ == self.paths_spec()[0]
                &&& progs.alevin_fry matches Some(p) && p@ == self.paths_spec()[1]
                &&& progs.pyroe matches Some(p) && p@ == self.paths_spec()[2]
                &&& versions@.map_values(|v: SemVer| v.fields()) == self.versions_spec()
            }),
            self.phase_spec() == Phase::Aborted ==> r == Err::<(ReqProgs, Vec<SemVer>), ToolError>(
                self.error_spec().unwrap(),
            ),
    {
        match self.error {
            Some(e) => Err(e),
            None => {
                let progs = ReqProgs {
                    salmon: Some(self.paths[0].clone()),
                    alevin_fry: Some(self.paths[1].clone()),
                    pyroe: Some(self.paths[2].clone()),
                };
                Ok((progs, self.versions))
            },
        }
    }
}

} // verus!
