//! Making project records from what a scan found.

use vstd::prelude::*;
use vstd::string::*;
use crate::discovery::cache::probed_activity;
use crate::discovery::project::{DiscoveredProject, DiscoveredProjectView};
use crate::discovery::state::{error_of, state_and_error, state_of, StateRead};
use crate::sorting::{
    is_stable_sort, items_of, keys_of, may_precede, reorder, stable_order, stable_sort_by_key, Rank,
    SortKey,
};
use crate::timestamp::{lemma_rank_orders, Timestamp};

verus! {

/// What was found at a project root that a scan returned.
#[derive(Debug, Clone)]
pub struct ProjectProbe {
    /// The path of the project's root.
    pub project_path: String,
    /// The name of the root directory, where it has one that is valid text.
    pub name: Option<String>,
    /// The path of the metadata directory.
    pub hegel_dir: String,
    /// What was found where the state file should be.
    pub state: StateRead,
    /// The modification times of the files in the metadata directory, or
    /// nothing where they could not be listed.
    pub modified: Option<Vec<Timestamp>>,
}

/// The record for what was found at a root, discovered at the given moment.
/// A root without a usable name is called `unknown`.
pub open spec fn record_of(probe: ProjectProbe, at: Timestamp) -> DiscoveredProjectView {
    DiscoveredProjectView {
        name: match probe.name {
            Some(n) => n@,
            None => "unknown"@,
        },
        project_path: probe.project_path@,
        hegel_dir: probe.hegel_dir@,
        workflow_state: state_of(probe.state),
        last_activity: probed_activity(probe.modified),
        discovered_at: at,
        error: error_of(probe.state),
        statistics: None,
    }
}

/// What the projects of a list are ordered by: the last activity of each.
pub open spec fn recency_ranks(ps: Seq<DiscoveredProject>) -> Seq<Rank> {
    Seq::new(ps.len(), |i: int| Rank::Number(ps[i].last_activity.rank()))
}

/// Sorts the projects by recency: the most recent activity first, projects
/// of the same activity in the order they came in.
pub fn sort_by_recency(projects: Vec<DiscoveredProject>) -> (sorted: Vec<DiscoveredProject>)
    ensures
        is_stable_sort(recency_ranks(projects@), true, stable_order(recency_ranks(projects@), true)),
        sorted@ == reorder(projects@, stable_order(recency_ranks(projects@), true)),
        forall|i: int, j: int|
            0 <= i < j < sorted.len() ==> (#[trigger] sorted@[j]).last_activity.at_most(
                (#[trigger] sorted@[i]).last_activity,
            ),
{
    let ghost ps = projects@;
    let mut pairs: Vec<(SortKey, DiscoveredProject)> = Vec::new();
    for p in it: projects
        invariant
            it.seq() == ps,
            pairs.len() == it.index(),
            forall|k: int|
                0 <= k < pairs.len() ==> (#[trigger] pairs@[k]).0@ == Rank::Number(
                    ps[k].last_activity.rank(),
                ) && pairs@[k].1 == ps[k],
    {
        let key = p.recency_key();
        pairs.push((key, p));
    }
    assert(keys_of(pairs@) =~= recency_ranks(ps));
    assert(items_of(pairs@) =~= ps);
    let sorted = stable_sort_by_key(pairs, true);
    proof {
        let order = stable_order(recency_ranks(ps), true);
        assert forall|i: int, j: int| 0 <= i < j < sorted.len() implies (#[trigger] sorted@[j])
            .last_activity.at_most((#[trigger] sorted@[i]).last_activity) by {
            assert(0 <= order[i] < ps.len());
            assert(0 <= order[j] < ps.len());
            assert(may_precede(recency_ranks(ps)[order[i]], recency_ranks(ps)[order[j]], true));
            lemma_rank_orders(ps[order[j]].last_activity, ps[order[i]].last_activity);
        }
    }
    sorted
}

/// Whether `records` are the records for `probes`, each discovered at the
/// moment that it carries.
pub open spec fn are_records_of(records: Seq<DiscoveredProject>, probes: Seq<ProjectProbe>) -> bool {
    &&& records.len() == probes.len()
    &&& forall|k: int|
        0 <= k < records.len() ==> (#[trigger] records[k])@ == record_of(
            probes[k],
            records[k].discovered_at,
        )
}

/// Makes the records for what was found at the roots that a scan returned,
/// one for each in the order given. A state file that cannot be read leaves
/// an error on the record and no state. The moment of discovery of each
/// record is read from the clock.
pub fn make_records(probes: Vec<ProjectProbe>) -> (records: Vec<DiscoveredProject>)
    ensures
        are_records_of(records@, probes@),
{
    let ghost ps = probes@;
    let mut records: Vec<DiscoveredProject> = Vec::new();
    for probe in it: probes
        invariant
            it.seq() == ps,
            records.len() == it.index(),
            forall|k: int|
                0 <= k < records.len() ==> (#[trigger] records@[k])@ == record_of(
                    ps[k],
                    records@[k].discovered_at,
                ),
    {
        let ghost probe0 = probe;
        let name = match probe.name {
            Some(n) => n,
            None => String::from_str("unknown"),
        };
        let (workflow_state, error) = state_and_error(probe.state);
        let last_activity = match &probe.modified {
            Some(m) => DiscoveredProject::calculate_last_activity(m),
            None => Timestamp::epoch(),
        };
        let record = DiscoveredProject::new(
            name,
            probe.project_path,
            probe.hegel_dir,
            workflow_state,
            last_activity,
            error,
        );
        assert(record@ == record_of(probe0, record.discovered_at));
        records.push(record);
    }
    records
}

/// Turns what a scan found into the list of projects: one record for each
/// root, the most recent activity first.
pub fn discover_projects(probes: Vec<ProjectProbe>) -> (projects: Vec<DiscoveredProject>)
    ensures
        exists|records: Seq<DiscoveredProject>|
            are_records_of(records, probes@) && #[trigger] is_stable_sort(
                recency_ranks(records),
                true,
                stable_order(recency_ranks(records), true),
            ) && projects@ == reorder(records, stable_order(recency_ranks(records), true)),
        projects.len() == probes.len(),
        forall|i: int, j: int|
            0 <= i < j < projects.len() ==> (#[trigger] projects@[j]).last_activity.at_most(
                (#[trigger] projects@[i]).last_activity,
            ),
{
    let records = make_records(probes);
    let ghost rs = records@;
    let projects = sort_by_recency(records);
    assert(is_stable_sort(recency_ranks(rs), true, stable_order(recency_ranks(rs), true)));
    projects
}

} // verus!
