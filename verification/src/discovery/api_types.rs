//! The light responses: one line of the listing, and the summary of a
//! project's statistics.

use vstd::prelude::*;
use crate::metrics::{
    all_tokens, clone_opt_state, opt_state, token_sum, wrap_u64, ProjectStatistics, WorkflowState,
    WorkflowStateView,
};

verus! {

/// One line of the project listing: the name and the workflow state.
#[derive(Debug, Clone)]
pub struct ProjectListItem {
    pub name: String,
    pub workflow_state: Option<WorkflowState>,
}

/// A line of the listing as mathematical data.
pub struct ProjectListItemView {
    pub name: Seq<char>,
    pub workflow_state: Option<WorkflowStateView>,
}

impl View for ProjectListItem {
    type V = ProjectListItemView;

    open spec fn view(&self) -> ProjectListItemView {
        ProjectListItemView { name: self.name@, workflow_state: opt_state(self.workflow_state) }
    }
}

/// The counters of a project's statistics, without the raw events.
#[derive(Debug, Clone, Copy, PartialEq, Eq)]
pub struct ProjectMetricsSummary {
    pub total_input_tokens: u64,
    pub total_output_tokens: u64,
    pub total_cache_creation_tokens: u64,
    pub total_cache_read_tokens: u64,
    pub total_all_tokens: u64,
    pub total_events: usize,
    pub bash_command_count: usize,
    pub file_modification_count: usize,
    pub git_commit_count: usize,
    pub phase_count: usize,
}

/// The summary of `stats`: its token counters and their sum (wrapping, as
/// the machine's counters do), the number of events, and how many commands,
/// file changes, commits and phases it lists.
pub open spec fn summary_of(stats: ProjectStatistics) -> ProjectMetricsSummary {
    ProjectMetricsSummary {
        total_input_tokens: stats.token_metrics.total_input_tokens,
        total_output_tokens: stats.token_metrics.total_output_tokens,
        total_cache_creation_tokens: stats.token_metrics.total_cache_creation_tokens,
        total_cache_read_tokens: stats.token_metrics.total_cache_read_tokens,
        total_all_tokens: wrap_u64(token_sum(stats.token_metrics)),
        total_events: stats.hook_metrics.total_events,
        bash_command_count: stats.hook_metrics.bash_commands@.len() as usize,
        file_modification_count: stats.hook_metrics.file_modifications@.len() as usize,
        git_commit_count: stats.git_commits@.len() as usize,
        phase_count: stats.phase_metrics@.len() as usize,
    }
}

impl ProjectMetricsSummary {
    /// The summary of `stats`.
    pub fn from(stats: &ProjectStatistics) -> (r: ProjectMetricsSummary)
        ensures
            r == summary_of(*stats),
    {
        ProjectMetricsSummary {
            total_input_tokens: stats.token_metrics.total_input_tokens,
            total_output_tokens: stats.token_metrics.total_output_tokens,
            total_cache_creation_tokens: stats.token_metrics.total_cache_creation_tokens,
            total_cache_read_tokens: stats.token_metrics.total_cache_read_tokens,
            total_all_tokens: all_tokens(&stats.token_metrics),
            total_events: stats.hook_metrics.total_events,
            bash_command_count: stats.hook_metrics.bash_commands.len(),
            file_modification_count: stats.hook_metrics.file_modifications.len(),
            git_commit_count: stats.git_commits.len(),
            phase_count: stats.phase_metrics.len(),
        }
    }
}

} // verus!
