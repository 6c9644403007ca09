//! Planning the launch: how the child process is to be spawned once a
//! candidate is selected, and the whole launch decision from the probe
//! results down to either a spawn plan or an absorbed failure.

use vstd::prelude::*;
use crate::platform::{Platform, separator};
use crate::paths::{
    join_path_spec, last_sep_before, last_separator_index, parent_dir_spec, parent_directory,
};
use crate::resolve::{
    FileProbe, ResolveOutcome, find_service_executable, first_executable, no_executable_candidate,
    skipped_before,
};
use crate::events::{LaunchError, LogLevel, LogMessage, LogRecord, candidate_skip_record};

verus! {

/// How one of the child's standard streams is set up.
#[derive(Clone, Copy, Debug, PartialEq, Eq, Structural)]
pub enum StdioMode {
    Piped,
    Null,
}

/// Everything the operating system needs to spawn the child: the program
/// path, the working directory (the program's containing directory, or
/// inherited when the path has no parent), piped output streams and a
/// closed stdin.
#[derive(Debug, PartialEq, Eq)]
pub struct SpawnPlan {
    pub program: String,
    pub working_dir: Option<String>,
    pub stdin: StdioMode,
    pub stdout: StdioMode,
    pub stderr: StdioMode,
}

/// `plan` spawns the program at `path` as the launcher requires: output
/// streams piped, stdin closed, working directory the program's containing
/// directory when it has one.
pub open spec fn spawn_plan_for(platform: Platform, plan: SpawnPlan, path: Seq<char>) -> bool {
    &&& plan.program@ == path
    &&& plan.stdin is Null
    &&& plan.stdout is Piped
    &&& plan.stderr is Piped
    &&& plan.working_dir is Some <==> parent_dir_spec(platform, path) is Some
    &&& plan.working_dir matches Some(d) ==> Some(d@) == parent_dir_spec(platform, path)
}

/// Builds the spawn plan for the selected executable.
pub fn build_spawn_plan(platform: Platform, path: &str) -> (plan: SpawnPlan)
    ensures
        spawn_plan_for(platform, plan, path@),
{
    SpawnPlan {
        program: String::from_str(path),
        working_dir: parent_directory(platform, path),
        stdin: StdioMode::Null,
        stdout: StdioMode::Piped,
        stderr: StdioMode::Piped,
    }
}

/// If a separator stands at `i` and none stands between `i` and `n`, then
/// `i` is the last separator position below `n`.
proof fn lemma_last_sep_before_pinpoint(platform: Platform, path: Seq<char>, n: int, i: int)
    requires
        0 <= i < n <= path.len(),
        path[i] == separator(platform),
        forall|j: int| i < j < n ==> path[j] != separator(platform),
    ensures
        last_sep_before(platform, path, n) == i,
    decreases n,
{
    if n - 1 > i {
        lemma_last_sep_before_pinpoint(platform, path, n - 1, i);
    }
}

/// Joining a separator-free name onto a base directory that does not end
/// with the separator yields a path whose containing directory is exactly
/// the base directory: the child's working directory is where the
/// executable was found.
pub proof fn lemma_parent_of_join(platform: Platform, base: Seq<char>, name: Seq<char>)
    requires
        base.len() > 0,
        base.last() != separator(platform),
        forall|j: int| 0 <= j < name.len() ==> name[j] != separator(platform),
    ensures
        parent_dir_spec(platform, join_path_spec(platform, base, name)) == Some(base),
{
    let joined = join_path_spec(platform, base, name);
    assert(joined == base.push(separator(platform)) + name);
    assert(joined.len() == base.len() + 1 + name.len());
    assert(joined[base.len() as int] == separator(platform));
    assert forall|j: int| base.len() < j < joined.len() implies joined[j] != separator(platform) by {
        assert(joined[j] == name[j - base.len() - 1]);
    }
    lemma_last_sep_before_pinpoint(platform, joined, joined.len() as int, base.len() as int);
    assert(last_separator_index(platform, joined) == base.len());
    assert(joined.subrange(0, base.len() as int) =~= base);
}

/// What the launcher decides to do: spawn the selected candidate, or abort
/// the attempt with an absorbed error.
#[derive(Debug, PartialEq, Eq)]
pub enum LaunchAction {
    Spawn { index: usize, plan: SpawnPlan },
    Abort(LaunchError),
}

/// The launch decision, together with the warning records for candidates
/// that were passed over for lacking an execute bit.
#[derive(Debug, PartialEq, Eq)]
pub struct LaunchPlan {
    pub action: LaunchAction,
    pub warnings: Vec<LogRecord>,
}

/// `warnings` holds exactly one skip warning per passed-over candidate, in
/// candidate order.
pub open spec fn skip_warnings_match(warnings: Seq<LogRecord>, skipped: Seq<usize>) -> bool {
    &&& warnings.len() == skipped.len()
    &&& forall|k: int|
        0 <= k < skipped.len() ==> warnings[k] == (LogRecord {
            level: LogLevel::Warn,
            message: LogMessage::CandidateNotExecutable { index: skipped[k] },
        })
}

/// The whole launch decision.  `probes[i]` reports what the filesystem said
/// about `names[i]` joined onto the resource directory.  With no resource
/// directory the attempt aborts at once; otherwise the first existing and
/// executable candidate is spawned from its own directory with piped
/// output, and if none qualifies the attempt aborts with the searched
/// directory.  Candidates passed over for lacking an execute bit each get
/// one warning record.
pub fn plan_launch(
    platform: Platform,
    resource_dir: Option<&str>,
    names: &Vec<String>,
    probes: &Vec<FileProbe>,
) -> (r: LaunchPlan)
    requires
        names@.len() == probes@.len(),
    ensures
        resource_dir is None ==> r.action == LaunchAction::Abort(
            LaunchError::ResourceDirectoryUnavailable,
        ) && r.warnings@.len() == 0,
        resource_dir matches Some(dir) ==> {
            &&& (r.action matches LaunchAction::Spawn { index, plan } ==> {
                &&& first_executable(platform, probes@, index as int)
                &&& spawn_plan_for(
                    platform,
                    plan,
                    join_path_spec(platform, dir@, names@[index as int]@),
                )
                &&& skip_warnings_match(
                    r.warnings@,
                    skipped_before(platform, probes@, index as int),
                )
            })
            &&& (r.action matches LaunchAction::Abort(e) ==> {
                &&& e matches LaunchError::NotFound { directory } && directory@ == dir@
                &&& no_executable_candidate(platform, probes@)
                &&& skip_warnings_match(
                    r.warnings@,
                    skipped_before(platform, probes@, probes@.len() as int),
                )
            })
            &&& ((r.action matches LaunchAction::Spawn { .. }) <==> !no_executable_candidate(
                platform,
                probes@,
            ))
        },
{
    match resource_dir {
        None => LaunchPlan {
            action: LaunchAction::Abort(LaunchError::ResourceDirectoryUnavailable),
            warnings: Vec::new(),
        },
        Some(dir) => {
            let res = find_service_executable(platform, dir, names, probes);
            let mut warnings: Vec<LogRecord> = Vec::new();
            let mut k: usize = 0;
            while k < res.skipped.len()
                invariant
                    k <= res.skipped@.len(),
                    skip_warnings_match(warnings@, res.skipped@.subrange(0, k as int)),
                decreases res.skipped@.len() - k,
            {
                warnings.push(candidate_skip_record(res.skipped[k]));
                proof {
                    assert(res.skipped@.subrange(0, k + 1).drop_last() =~= res.skipped@.subrange(
                        0,
                        k as int,
                    ));
                }
                k = k + 1;
            }
            proof {
                assert(res.skipped@.subrange(0, res.skipped@.len() as int) =~= res.skipped@);
            }
            match res.outcome {
                ResolveOutcome::Found { index, path } => {
                    let plan = build_spawn_plan(platform, path.as_str());
                    LaunchPlan { action: LaunchAction::Spawn { index, plan }, warnings }
                },
                ResolveOutcome::NotFound => LaunchPlan {
                    action: LaunchAction::Abort(
                        LaunchError::NotFound { directory: String::from_str(dir) },
                    ),
                    warnings,
                },
            }
        },
    }
}

} // verus!
