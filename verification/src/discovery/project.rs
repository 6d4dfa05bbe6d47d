//! A project that was found on disk.

use vstd::prelude::*;
use vstd::std_specs::cmp::PartialEqSpecImpl;
use crate::metrics::{
    clone_opt_text, opt_state, opt_text, ProjectStatistics, WorkflowState, WorkflowStateView,
};
use crate::sorting::SortKey;
use crate::timestamp::{current_time, Timestamp};

verus! {

/// A project: a directory that holds a metadata directory. Its identity is
/// the path of its root; the name is for display.
#[derive(Debug, Clone)]
pub struct DiscoveredProject {
    /// Name of the project (the name of its directory).
    pub name: String,
    /// Path of the project's root.
    pub project_path: String,
    /// Path of the metadata directory.
    pub hegel_dir: String,
    /// The workflow state, where the state file holds one.
    pub workflow_state: Option<WorkflowState>,
    /// The newest modification inside the metadata directory.
    pub last_activity: Timestamp,
    /// When the project was found.
    pub discovered_at: Timestamp,
    /// Why the state is unknown, where the state file could not be read.
    pub error: Option<String>,
    /// The heavy statistics, once they were loaded.
    pub statistics: Option<ProjectStatistics>,
}

/// A project as mathematical data.
pub struct DiscoveredProjectView {
    pub name: Seq<char>,
    pub project_path: Seq<char>,
    pub hegel_dir: Seq<char>,
    pub workflow_state: Option<WorkflowStateView>,
    pub last_activity: Timestamp,
    pub discovered_at: Timestamp,
    pub error: Option<Seq<char>>,
    pub statistics: Option<ProjectStatistics>,
}

impl View for DiscoveredProject {
    type V = DiscoveredProjectView;

    open spec fn view(&self) -> DiscoveredProjectView {
        DiscoveredProjectView {
            name: self.name@,
            project_path: self.project_path@,
            hegel_dir: self.hegel_dir@,
            workflow_state: opt_state(self.workflow_state),
            last_activity: self.last_activity,
            discovered_at: self.discovered_at,
            error: opt_text(self.error),
            statistics: self.statistics,
        }
    }
}

/// The projects of a list as mathematical data.
pub open spec fn project_views(v: Seq<DiscoveredProject>) -> Seq<DiscoveredProjectView> {
    Seq::new(v.len(), |i: int| v[i]@)
}

/// What is kept of a project on disk: everything but the heavy fields, the
/// workflow state and the statistics.
pub open spec fn stored(p: DiscoveredProjectView) -> DiscoveredProjectView {
    DiscoveredProjectView { workflow_state: None, statistics: None, ..p }
}

/// The latest of the Unix epoch and the first `n` of the points in time.
pub open spec fn latest_of(times: Seq<Timestamp>, n: int) -> Timestamp
    decreases n,
{
    if n <= 0 {
        Timestamp { secs_since_epoch: 0, nanos_since_epoch: 0 }
    } else {
        let rest = latest_of(times, n - 1);
        if rest.at_most(times[n - 1]) {
            times[n - 1]
        } else {
            rest
        }
    }
}

/// The latest is none of the points in time exceeds, and it is one of them
/// or the epoch.
pub proof fn lemma_latest_of(times: Seq<Timestamp>, n: int)
    requires
        0 <= n <= times.len(),
    ensures
        forall|i: int| 0 <= i < n ==> (#[trigger] times[i]).at_most(latest_of(times, n)),
        latest_of(times, n) == (Timestamp { secs_since_epoch: 0, nanos_since_epoch: 0 }) || exists|
            i: int,
        |
            0 <= i < n && #[trigger] times[i] == latest_of(times, n),
    decreases n,
{
    if n > 0 {
        lemma_latest_of(times, n - 1);
        let rest = latest_of(times, n - 1);
        let last = times[n - 1];
        if rest.at_most(last) {
            assert forall|i: int| 0 <= i < n implies (#[trigger] times[i]).at_most(last) by {
                if i < n - 1 {
                    assert(times[i].at_most(rest));
                }
            }
        } else {
            if rest != (Timestamp { secs_since_epoch: 0, nanos_since_epoch: 0 }) {
                let i = choose|i: int| 0 <= i < n - 1 && #[trigger] times[i] == rest;
                assert(times[i] == latest_of(times, n));
            }
        }
    }
}

impl DiscoveredProject {
    /// A project found at the given point in time, its statistics not yet
    /// loaded.
    pub fn found_at(
        name: String,
        project_path: String,
        hegel_dir: String,
        workflow_state: Option<WorkflowState>,
        last_activity: Timestamp,
        error: Option<String>,
        discovered_at: Timestamp,
    ) -> (p: DiscoveredProject)
        ensures
            p@ == (DiscoveredProjectView {
                name: name@,
                project_path: project_path@,
                hegel_dir: hegel_dir@,
                workflow_state: opt_state(workflow_state),
                last_activity,
                discovered_at,
                error: opt_text(error),
                statistics: None,
            }),
    {
        DiscoveredProject {
            name,
            project_path,
            hegel_dir,
            workflow_state,
            last_activity,
            discovered_at,
            error,
            statistics: None,
        }
    }

    /// A project found now, its statistics not yet loaded. The moment of
    /// discovery is read from the clock.
    pub fn new(
        name: String,
        project_path: String,
        hegel_dir: String,
        workflow_state: Option<WorkflowState>,
        last_activity: Timestamp,
        error: Option<String>,
    ) -> (p: DiscoveredProject)
        ensures
            p@ == (DiscoveredProjectView {
                name: name@,
                project_path: project_path@,
                hegel_dir: hegel_dir@,
                workflow_state: opt_state(workflow_state),
                last_activity,
                discovered_at: p.discovered_at,
                error: opt_text(error),
                statistics: None,
            }),
    {
        let now = current_time();
        DiscoveredProject::found_at(
            name,
            project_path,
            hegel_dir,
            workflow_state,
            last_activity,
            error,
            now,
        )
    }

    /// The last activity of a project, from the modification times of the
    /// files in its metadata directory: the latest of them, and the Unix
    /// epoch where there is none.
    pub fn calculate_last_activity(modified: &Vec<Timestamp>) -> (latest: Timestamp)
        ensures
            latest == latest_of(modified@, modified@.len() as int),
    {
        let mut latest = Timestamp::epoch();
        let mut i: usize = 0;
        while i < modified.len()
            invariant
                i <= modified.len(),
                latest == latest_of(modified@, i as int),
            decreases modified.len() - i,
        {
            latest = latest.latest(modified[i]);
            i += 1;
        }
        latest
    }

    /// Whether the state file could not be read.
    pub fn has_error(&self) -> (r: bool)
        ensures
            r == self.error.is_some(),
    {
        self.error.is_some()
    }

    /// Whether the project has a workflow state.
    pub fn has_state(&self) -> (r: bool)
        ensures
            r == self.workflow_state.is_some(),
    {
        self.workflow_state.is_some()
    }

    /// Whether the statistics were loaded.
    pub fn has_statistics(&self) -> (r: bool)
        ensures
            r == self.statistics.is_some(),
    {
        self.statistics.is_some()
    }

    /// The copy that is kept on disk: without workflow state and statistics.
    pub fn stored_copy(&self) -> (r: DiscoveredProject)
        ensures
            r@ == stored(self@),
    {
        DiscoveredProject {
            name: self.name.clone(),
            project_path: self.project_path.clone(),
            hegel_dir: self.hegel_dir.clone(),
            workflow_state: None,
            last_activity: self.last_activity,
            discovered_at: self.discovered_at,
            error: clone_opt_text(&self.error),
            statistics: None,
        }
    }

    /// What projects are ordered by: the last activity.
    pub fn recency_key(&self) -> (k: SortKey)
        ensures
            k@ == crate::sorting::Rank::Number(self.last_activity.rank()),
    {
        SortKey::Number(self.last_activity.rank_value())
    }
}

impl PartialEq for DiscoveredProject {
    /// Two records are the same project where their root paths are the same.
    fn eq(&self, other: &Self) -> (r: bool) {
        self.project_path == other.project_path
    }
}

impl PartialEqSpecImpl for DiscoveredProject {
    open spec fn obeys_eq_spec() -> bool {
        true
    }

    open spec fn eq_spec(&self, other: &Self) -> bool {
        self.project_path@ == other.project_path@
    }
}

} // verus!
