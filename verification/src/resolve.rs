//! Resolution of the sidecar executable: given what the filesystem reported
//! about each candidate path, pick the first candidate that exists and is
//! executable, and record the candidates that were passed over because they
//! exist but lack an execute permission bit.

use vstd::prelude::*;
use crate::platform::Platform;
use crate::paths::{join_path, join_path_spec};

verus! {

/// What probing one candidate path reported.  `Present` carries the POSIX
/// permission bits; `PresentUnknownPermissions` stands for a file that
/// exists but whose metadata could not be read (and for platforms without
/// execute bits, where mere existence suffices).
#[derive(Clone, Copy, Debug, PartialEq, Eq, Structural)]
pub enum FileProbe {
    Absent,
    Present { mode: u32 },
    PresentUnknownPermissions,
}

/// Whether a probed candidate qualifies for launching: it must exist, and
/// on POSIX at least one execute bit must be set.  A file whose permissions
/// could not be read is given the benefit of the doubt.
pub open spec fn executable_candidate(platform: Platform, probe: FileProbe) -> bool {
    match probe {
        FileProbe::Absent => false,
        FileProbe::PresentUnknownPermissions => true,
        FileProbe::Present { mode } => platform is Windows || mode & 0o111 != 0,
    }
}

/// Whether a probed candidate is passed over with a warning: it exists but
/// no execute bit is set.
pub open spec fn skipped_candidate(platform: Platform, probe: FileProbe) -> bool {
    platform is Posix && (probe matches FileProbe::Present { mode } && mode & 0o111 == 0)
}

/// No candidate in `probes` qualifies for launching.
pub open spec fn no_executable_candidate(platform: Platform, probes: Seq<FileProbe>) -> bool {
    forall|j: int| 0 <= j < probes.len() ==> !executable_candidate(platform, probes[j])
}

/// `i` is the first candidate in `probes` that qualifies for launching.
pub open spec fn first_executable(platform: Platform, probes: Seq<FileProbe>, i: int) -> bool {
    &&& 0 <= i < probes.len()
    &&& executable_candidate(platform, probes[i])
    &&& forall|j: int| 0 <= j < i ==> !executable_candidate(platform, probes[j])
}

/// The indices below `n` of candidates passed over for lacking an execute
/// bit, in increasing order.
pub open spec fn skipped_before(platform: Platform, probes: Seq<FileProbe>, n: int) -> Seq<usize>
    recommends
        n <= probes.len(),
    decreases n,
{
    if n <= 0 {
        Seq::empty()
    } else if skipped_candidate(platform, probes[n - 1]) {
        skipped_before(platform, probes, n - 1).push((n - 1) as usize)
    } else {
        skipped_before(platform, probes, n - 1)
    }
}

/// Every index in `skipped_before` lies below `n` and names a candidate
/// that was passed over for lacking an execute bit.
pub proof fn lemma_skipped_before_range(platform: Platform, probes: Seq<FileProbe>, n: int)
    requires
        0 <= n <= probes.len(),
        n <= usize::MAX,
    ensures
        forall|k: int|
            0 <= k < skipped_before(platform, probes, n).len()
                ==> #[trigger] skipped_before(platform, probes, n)[k] < n && skipped_candidate(
                platform,
                probes[skipped_before(platform, probes, n)[k] as int],
            ),
    decreases n,
{
    if n > 0 {
        lemma_skipped_before_range(platform, probes, n - 1);
        let s = skipped_before(platform, probes, n);
        let prev = skipped_before(platform, probes, n - 1);
        if skipped_candidate(platform, probes[n - 1]) {
            assert forall|k: int|
                0 <= k < s.len() implies #[trigger] s[k] < n && skipped_candidate(
                platform,
                probes[s[k] as int],
            ) by {
                if k < prev.len() {
                    assert(s[k] == prev[k]);
                } else {
                    assert(s[k] == (n - 1) as usize);
                }
            }
        }
    }
}

/// A candidate index below `n` appears in `skipped_before` exactly when it
/// was passed over for lacking an execute bit.
pub proof fn lemma_skipped_before_contains(
    platform: Platform,
    probes: Seq<FileProbe>,
    n: int,
    j: usize,
)
    requires
        0 <= j < n <= probes.len(),
        n <= usize::MAX,
    ensures
        skipped_candidate(platform, probes[j as int]) <==> skipped_before(
            platform,
            probes,
            n,
        ).contains(j),
    decreases n,
{
    let s = skipped_before(platform, probes, n);
    let prev = skipped_before(platform, probes, n - 1);
    if j < n - 1 {
        lemma_skipped_before_contains(platform, probes, n - 1, j);
        if prev.contains(j) {
            let k = choose|k: int| 0 <= k < prev.len() && prev[k] == j;
            assert(s[k] == j);
            assert(s.contains(j));
        }
        if s.contains(j) && !prev.contains(j) {
            let k = choose|k: int| 0 <= k < s.len() && s[k] == j;
            if skipped_candidate(platform, probes[n - 1]) {
                if k < prev.len() {
                    assert(prev[k] == j);
                    assert(prev.contains(j));
                } else {
                    assert(s[k] == (n - 1) as usize);
                }
            }
            assert(false);
        }
    } else {
        lemma_skipped_before_range(platform, probes, n - 1);
        if skipped_candidate(platform, probes[j as int]) {
            assert(s[s.len() - 1] == j);
            assert(s.contains(j));
        } else if s.contains(j) {
            let k = choose|k: int| 0 <= k < s.len() && s[k] == j;
            assert(prev[k] < n - 1);
            assert(false);
        }
    }
}

/// The result of resolution: either the first qualifying candidate together
/// with its full path, or a report that none qualified.
pub enum ResolveOutcome {
    Found { index: usize, path: String },
    NotFound,
}

/// The resolution result together with the candidates that were passed over
/// for lacking an execute bit (each of which deserves a warning).
pub struct Resolution {
    pub outcome: ResolveOutcome,
    pub skipped: Vec<usize>,
}

/// Whether a probed candidate qualifies for launching.
pub fn is_executable_candidate(platform: Platform, probe: FileProbe) -> (r: bool)
    ensures
        r == executable_candidate(platform, probe),
{
    match probe {
        FileProbe::Absent => false,
        FileProbe::PresentUnknownPermissions => true,
        FileProbe::Present { mode } => match platform {
            Platform::Windows => true,
            Platform::Posix => mode & 0o111 != 0,
        },
    }
}

/// Whether a probed candidate is passed over with a warning.
pub fn is_skipped_candidate(platform: Platform, probe: FileProbe) -> (r: bool)
    ensures
        r == skipped_candidate(platform, probe),
{
    match platform {
        Platform::Windows => false,
        Platform::Posix => match probe {
            FileProbe::Present { mode } => mode & 0o111 == 0,
            _ => false,
        },
    }
}

/// Selects the first candidate that exists and is executable.  `probes[i]`
/// reports what the filesystem said about `names[i]` joined onto
/// `base_dir`.  The first qualifying candidate wins; candidates that exist
/// without an execute bit are recorded as skipped, and `NotFound` is
/// returned exactly when no candidate qualifies.
pub fn find_service_executable(
    platform: Platform,
    base_dir: &str,
    names: &Vec<String>,
    probes: &Vec<FileProbe>,
) -> (r: Resolution)
    requires
        names@.len() == probes@.len(),
    ensures
        r.outcome matches ResolveOutcome::Found { index, path } ==> {
            &&& first_executable(platform, probes@, index as int)
            &&& path@ == join_path_spec(platform, base_dir@, names@[index as int]@)
            &&& r.skipped@ == skipped_before(platform, probes@, index as int)
        },
        r.outcome is NotFound ==> r.skipped@ == skipped_before(
            platform,
            probes@,
            probes@.len() as int,
        ),
        r.outcome is NotFound <==> no_executable_candidate(platform, probes@),
{
    let mut skipped: Vec<usize> = Vec::new();
    let mut i: usize = 0;
    while i < probes.len()
        invariant
            i <= probes@.len(),
            names@.len() == probes@.len(),
            forall|j: int| 0 <= j < i ==> !executable_candidate(platform, probes@[j]),
            skipped@ == skipped_before(platform, probes@, i as int),
        decreases probes@.len() - i,
    {
        if is_executable_candidate(platform, probes[i]) {
            let path = join_path(platform, base_dir, names[i].as_str());
            return Resolution { outcome: ResolveOutcome::Found { index: i, path }, skipped };
        }
        if is_skipped_candidate(platform, probes[i]) {
            skipped.push(i);
        }
        i = i + 1;
    }
    Resolution { outcome: ResolveOutcome::NotFound, skipped }
}

/// A directory with no matching file at all resolves to nothing: absent
/// candidates never qualify.
pub proof fn lemma_all_absent_resolves_not_found(platform: Platform, probes: Seq<FileProbe>)
    requires
        forall|j: int| 0 <= j < probes.len() ==> probes[j] is Absent,
    ensures
        no_executable_candidate(platform, probes),
{
}

/// On POSIX, a candidate that exists without an execute bit never
/// qualifies; if every candidate is absent or lacks an execute bit, none
/// qualifies and resolution reports that nothing was found.
pub proof fn lemma_non_executable_candidates_skipped(platform: Platform, probes: Seq<FileProbe>)
    requires
        forall|j: int|
            0 <= j < probes.len() ==> (probes[j] is Absent || skipped_candidate(
                platform,
                probes[j],
            )),
    ensures
        no_executable_candidate(platform, probes),
        forall|j: int|
            0 <= j < probes.len() && skipped_candidate(platform, probes[j])
                ==> !executable_candidate(platform, probes[j]),
{
}

} // verus!
