//! The responses that the request worker serves, and how the workflows of a
//! project are summed up from its statistics.

use vstd::prelude::*;
use vstd::string::*;
use crate::discovery::api_types::ProjectMetricsSummary;
use crate::metrics::{
    all_tokens, clone_opt_text, lemma_wrap_small, lemma_wrap_u64_add, lemma_wrap_u64_add_wrapped,
    lemma_wrap_usize_add,
    lemma_wrap_usize_add_wrapped, opt_state, opt_text, token_sum, wrap_u64, wrap_usize,
    PhaseMetrics, ProjectStatistics, StateTransitionEvent, WorkflowState, WorkflowStateView,
};
use crate::sorting::{
    items_of, keys_of, reorder, stable_order, stable_sort_by_key, is_stable_sort, lists, Rank, SortKey,
};
use crate::text::{
    chars_of, lemma_lex_le_antisymmetric, lemma_lex_le_reflexive, lemma_lex_le_total,
    lemma_lex_le_transitive, lex_le, lex_lt, same_text, text_le,
};

verus! {

/// Totals over every project that is known.
#[derive(Debug, Clone, Copy, PartialEq, Eq)]
pub struct AllProjectsAggregate {
    pub total_projects: usize,
    pub aggregate_metrics: AggregateMetrics,
}

/// The counters of the aggregate.
#[derive(Debug, Clone, Copy, PartialEq, Eq)]
pub struct AggregateMetrics {
    pub total_input_tokens: u64,
    pub total_output_tokens: u64,
    pub total_cache_creation_tokens: u64,
    pub total_cache_read_tokens: u64,
    pub total_all_tokens: u64,
    pub total_events: usize,
    pub bash_command_count: usize,
    pub file_modification_count: usize,
    pub git_commit_count: usize,
    pub phase_count: usize,
}

/// What is served for one project: its summary and its workflows.
#[derive(Debug, Clone)]
pub struct ProjectInfo {
    pub project_name: String,
    pub summary: ProjectMetricsSummary,
    pub detail: ProjectWorkflowDetail,
}

/// The workflows of one project.
#[derive(Debug, Clone)]
pub struct ProjectWorkflowDetail {
    pub current_workflow_state: Option<WorkflowState>,
    pub workflows: Vec<WorkflowSummary>,
}

/// One workflow: its phases in order of their start, and their totals.
#[derive(Debug, Clone)]
pub struct WorkflowSummary {
    pub workflow_id: String,
    pub mode: String,
    pub status: WorkflowStatus,
    pub current_phase: Option<String>,
    pub phases: Vec<PhaseSummary>,
    pub total_metrics: PhaseMetricsSummary,
}

/// Whether a workflow still runs.
#[derive(Debug, Clone, Copy, PartialEq, Eq)]
pub enum WorkflowStatus {
    Active,
    Completed,
    Aborted,
}

/// One phase of a workflow.
#[derive(Debug, Clone)]
pub struct PhaseSummary {
    pub phase_name: String,
    pub status: PhaseStatus,
    pub start_time: String,
    pub end_time: Option<String>,
    pub duration_seconds: u64,
    pub metrics: PhaseMetricsSummary,
}

/// Whether a phase still runs.
#[derive(Debug, Clone, Copy, PartialEq, Eq)]
pub enum PhaseStatus {
    InProgress,
    Completed,
}

/// The counters of a phase, or of a workflow's phases together.
#[derive(Debug, Clone, Copy, PartialEq, Eq)]
pub struct PhaseMetricsSummary {
    pub total_input_tokens: u64,
    pub total_output_tokens: u64,
    pub total_cache_creation_tokens: u64,
    pub total_cache_read_tokens: u64,
    pub total_all_tokens: u64,
    pub event_count: usize,
    pub bash_command_count: usize,
    pub file_modification_count: usize,
    pub git_commit_count: usize,
}

/// A phase summary as mathematical data.
pub struct PhaseSummaryView {
    pub phase_name: Seq<char>,
    pub status: PhaseStatus,
    pub start_time: Seq<char>,
    pub end_time: Option<Seq<char>>,
    pub duration_seconds: u64,
    pub metrics: PhaseMetricsSummary,
}

impl View for PhaseSummary {
    type V = PhaseSummaryView;

    open spec fn view(&self) -> PhaseSummaryView {
        PhaseSummaryView {
            phase_name: self.phase_name@,
            status: self.status,
            start_time: self.start_time@,
            end_time: opt_text(self.end_time),
            duration_seconds: self.duration_seconds,
            metrics: self.metrics,
        }
    }
}

/// The phase summaries of a list as mathematical data.
pub open spec fn phase_views(v: Seq<PhaseSummary>) -> Seq<PhaseSummaryView> {
    Seq::new(v.len(), |i: int| v[i]@)
}

/// A workflow summary as mathematical data.
pub struct WorkflowSummaryView {
    pub workflow_id: Seq<char>,
    pub mode: Seq<char>,
    pub status: WorkflowStatus,
    pub current_phase: Option<Seq<char>>,
    pub phases: Seq<PhaseSummaryView>,
    pub total_metrics: PhaseMetricsSummary,
}

impl View for WorkflowSummary {
    type V = WorkflowSummaryView;

    open spec fn view(&self) -> WorkflowSummaryView {
        WorkflowSummaryView {
            workflow_id: self.workflow_id@,
            mode: self.mode@,
            status: self.status,
            current_phase: opt_text(self.current_phase),
            phases: phase_views(self.phases@),
            total_metrics: self.total_metrics,
        }
    }
}

/// The workflow summaries of a list as mathematical data.
pub open spec fn workflow_views(v: Seq<WorkflowSummary>) -> Seq<WorkflowSummaryView> {
    Seq::new(v.len(), |i: int| v[i]@)
}

/// The workflows of a project as mathematical data.
pub struct ProjectWorkflowDetailView {
    pub current_workflow_state: Option<WorkflowStateView>,
    pub workflows: Seq<WorkflowSummaryView>,
}

impl View for ProjectWorkflowDetail {
    type V = ProjectWorkflowDetailView;

    open spec fn view(&self) -> ProjectWorkflowDetailView {
        ProjectWorkflowDetailView {
            current_workflow_state: opt_state(self.current_workflow_state),
            workflows: workflow_views(self.workflows@),
        }
    }
}

/// What is served for one project, as mathematical data.
pub struct ProjectInfoView {
    pub project_name: Seq<char>,
    pub summary: ProjectMetricsSummary,
    pub detail: ProjectWorkflowDetailView,
}

impl View for ProjectInfo {
    type V = ProjectInfoView;

    open spec fn view(&self) -> ProjectInfoView {
        ProjectInfoView {
            project_name: self.project_name@,
            summary: self.summary,
            detail: self.detail@,
        }
    }
}

/// Whether the transition `t` may have opened the phase `p`: it leads to the
/// node that the phase is named after, not later than the phase starts.
pub open spec fn may_open(t: StateTransitionEvent, p: PhaseMetrics) -> bool {
    t.to_node@ == p.phase_name@ && lex_le(t.timestamp@, p.start_time@)
}

/// Whether the transition at `j` is the one that opened the phase `p`: among
/// those that may have opened it, it has the latest timestamp, and it is the
/// last of those with that timestamp.
pub open spec fn is_opening(ts: Seq<StateTransitionEvent>, p: PhaseMetrics, j: int) -> bool {
    &&& 0 <= j < ts.len()
    &&& may_open(ts[j], p)
    &&& forall|k: int|
        0 <= k < ts.len() && may_open(#[trigger] ts[k], p) ==> lex_le(
            ts[k].timestamp@,
            ts[j].timestamp@,
        )
    &&& forall|k: int|
        j < k < ts.len() && may_open(#[trigger] ts[k], p) ==> ts[k].timestamp@
            != ts[j].timestamp@
}

/// At most one transition opened a phase.
pub proof fn lemma_opening_unique(ts: Seq<StateTransitionEvent>, p: PhaseMetrics, i: int, j: int)
    requires
        is_opening(ts, p, i),
        is_opening(ts, p, j),
    ensures
        i == j,
{
    lemma_lex_le_antisymmetric(ts[i].timestamp@, ts[j].timestamp@);
}

/// The workflow that the phase `p` belongs to: that of the transition that
/// opened it, if there is one and it names a workflow.
pub open spec fn phase_workflow(ts: Seq<StateTransitionEvent>, p: PhaseMetrics) -> Option<
    Seq<char>,
> {
    if exists|j: int| is_opening(ts, p, j) {
        opt_text(ts[choose|j: int| is_opening(ts, p, j)].workflow_id)
    } else {
        None
    }
}

/// The workflow that the phase `p` belongs to.
pub fn phase_workflow_of(ts: &Vec<StateTransitionEvent>, p: &PhaseMetrics) -> (r: Option<String>)
    ensures
        opt_text(r) == phase_workflow(ts@, *p),
{
    let mut best: Option<usize> = None;
    let mut j: usize = 0;
    while j < ts.len()
        invariant
            j <= ts.len(),
            match best {
                None => forall|k: int| 0 <= k < j ==> !may_open(#[trigger] ts@[k], *p),
                Some(b) => {
                    &&& b < j
                    &&& may_open(ts@[b as int], *p)
                    &&& forall|k: int|
                        0 <= k < j && may_open(#[trigger] ts@[k], *p) ==> lex_le(
                            ts@[k].timestamp@,
                            ts@[b as int].timestamp@,
                        )
                    &&& forall|k: int|
                        b < k < j && may_open(#[trigger] ts@[k], *p) ==> ts@[k].timestamp@
                            != ts@[b as int].timestamp@
                },
            },
        decreases ts.len() - j,
    {
        let t = &ts[j];
        if same_text(t.to_node.as_str(), p.phase_name.as_str()) && text_le(
            t.timestamp.as_str(),
            p.start_time.as_str(),
        ) {
            match best {
                None => {
                    proof {
                        lemma_lex_le_reflexive(t.timestamp@);
                    }
                    best = Some(j);
                },
                Some(b) => {
                    if text_le(ts[b].timestamp.as_str(), t.timestamp.as_str()) {
                        proof {
                            lemma_lex_le_reflexive(t.timestamp@);
                            assert forall|k: int|
                                0 <= k < j + 1 && may_open(#[trigger] ts@[k], *p) implies lex_le(
                                ts@[k].timestamp@,
                                t.timestamp@,
                            ) by {
                                if k < j {
                                    lemma_lex_le_transitive(
                                        ts@[k].timestamp@,
                                        ts@[b as int].timestamp@,
                                        t.timestamp@,
                                    );
                                }
                            }
                        }
                        best = Some(j);
                    } else {
                        proof {
                            lemma_lex_le_total(ts@[b as int].timestamp@, t.timestamp@);
                            lemma_lex_le_reflexive(t.timestamp@);
                        }
                    }
                },
            }
        }
        j += 1;
    }
    match best {
        None => {
            assert(!exists|i: int| is_opening(ts@, *p, i));
            None
        },
        Some(b) => {
            proof {
                assert(is_opening(ts@, *p, b as int));
                let c = choose|i: int| is_opening(ts@, *p, i);
                lemma_opening_unique(ts@, *p, c, b as int);
            }
            clone_opt_text(&ts[b].workflow_id)
        },
    }
}

/// The phases among the first `n` that belong to the workflow `w`, in the
/// order in which the statistics list them.
pub open spec fn workflow_phases(
    ts: Seq<StateTransitionEvent>,
    phases: Seq<PhaseMetrics>,
    w: Seq<char>,
    n: int,
) -> Seq<PhaseMetrics>
    decreases n,
{
    if n <= 0 {
        Seq::empty()
    } else {
        let rest = workflow_phases(ts, phases, w, n - 1);
        if phase_workflow(ts, phases[n - 1]) == Some(w) {
            rest.push(phases[n - 1])
        } else {
            rest
        }
    }
}

/// What is counted over the phases of a workflow.
pub enum Counter {
    InputTokens,
    OutputTokens,
    CacheCreationTokens,
    CacheReadTokens,
    Events,
    BashCommands,
    FileModifications,
    GitCommits,
}

/// What the phase `p` adds to the counter `c`. Its events are its commands
/// and its file changes together.
pub open spec fn phase_count(p: PhaseMetrics, c: Counter) -> int {
    match c {
        Counter::InputTokens => p.token_metrics.total_input_tokens as int,
        Counter::OutputTokens => p.token_metrics.total_output_tokens as int,
        Counter::CacheCreationTokens => p.token_metrics.total_cache_creation_tokens as int,
        Counter::CacheReadTokens => p.token_metrics.total_cache_read_tokens as int,
        Counter::Events => (p.bash_commands@.len() + p.file_modifications@.len()) as int,
        Counter::BashCommands => p.bash_commands@.len() as int,
        Counter::FileModifications => p.file_modifications@.len() as int,
        Counter::GitCommits => p.git_commits@.len() as int,
    }
}

/// The counter `c` over the phases `g`.
pub open spec fn sum_count(g: Seq<PhaseMetrics>, c: Counter) -> int
    decreases g.len(),
{
    if g.len() == 0 {
        0
    } else {
        sum_count(g.drop_last(), c) + phase_count(g.last(), c)
    }
}

/// The counters of one phase. The sum of its tokens and the number of its
/// events wrap as the machine's counters do.
pub open spec fn phase_metrics_summary(p: PhaseMetrics) -> PhaseMetricsSummary {
    PhaseMetricsSummary {
        total_input_tokens: p.token_metrics.total_input_tokens,
        total_output_tokens: p.token_metrics.total_output_tokens,
        total_cache_creation_tokens: p.token_metrics.total_cache_creation_tokens,
        total_cache_read_tokens: p.token_metrics.total_cache_read_tokens,
        total_all_tokens: wrap_u64(token_sum(p.token_metrics)),
        event_count: wrap_usize(phase_count(p, Counter::Events)),
        bash_command_count: p.bash_commands@.len() as usize,
        file_modification_count: p.file_modifications@.len() as usize,
        git_commit_count: p.git_commits@.len() as usize,
    }
}

/// The summary of one phase: in progress as long as it has no end.
pub open spec fn phase_summary(p: PhaseMetrics) -> PhaseSummaryView {
    PhaseSummaryView {
        phase_name: p.phase_name@,
        status: if p.end_time is None {
            PhaseStatus::InProgress
        } else {
            PhaseStatus::Completed
        },
        start_time: p.start_time@,
        end_time: opt_text(p.end_time),
        duration_seconds: p.duration_seconds,
        metrics: phase_metrics_summary(p),
    }
}

/// The summaries of the phases `g`, in the same order.
pub open spec fn phase_summaries(g: Seq<PhaseMetrics>) -> Seq<PhaseSummaryView> {
    Seq::new(g.len(), |i: int| phase_summary(g[i]))
}

/// What the phases `g` are ordered by: the texts of their start times.
pub open spec fn start_ranks(g: Seq<PhaseMetrics>) -> Seq<Rank> {
    Seq::new(g.len(), |i: int| Rank::Text(g[i].start_time@))
}

/// The counters of the phases `g` together, each wrapping.
pub open spec fn total_metrics(g: Seq<PhaseMetrics>) -> PhaseMetricsSummary {
    PhaseMetricsSummary {
        total_input_tokens: wrap_u64(sum_count(g, Counter::InputTokens)),
        total_output_tokens: wrap_u64(sum_count(g, Counter::OutputTokens)),
        total_cache_creation_tokens: wrap_u64(sum_count(g, Counter::CacheCreationTokens)),
        total_cache_read_tokens: wrap_u64(sum_count(g, Counter::CacheReadTokens)),
        total_all_tokens: wrap_u64(
            sum_count(g, Counter::InputTokens) + sum_count(g, Counter::OutputTokens) + sum_count(
                g,
                Counter::CacheCreationTokens,
            ) + sum_count(g, Counter::CacheReadTokens),
        ),
        event_count: wrap_usize(sum_count(g, Counter::Events)),
        bash_command_count: wrap_usize(sum_count(g, Counter::BashCommands)),
        file_modification_count: wrap_usize(sum_count(g, Counter::FileModifications)),
        git_commit_count: wrap_usize(sum_count(g, Counter::GitCommits)),
    }
}

/// The position of the first phase of `g` that has no end, if one has none.
pub open spec fn first_open(g: Seq<PhaseMetrics>) -> Option<int>
    decreases g.len(),
{
    if g.len() == 0 {
        None
    } else {
        match first_open(g.drop_last()) {
            Some(i) => Some(i),
            None => if g.last().end_time is None {
                Some(g.len() - 1)
            } else {
                None
            },
        }
    }
}

/// Where `first_open` finds a phase, the phase is one of `g` and has no end.
pub proof fn lemma_first_open(g: Seq<PhaseMetrics>)
    ensures
        first_open(g) is Some ==> 0 <= first_open(g)->0 < g.len() && g[first_open(
            g,
        )->0].end_time is None,
    decreases g.len(),
{
    if g.len() > 0 {
        lemma_first_open(g.drop_last());
    }
}

/// The position of the first transition among the first `n` that names the
/// workflow `w`, if one does.
pub open spec fn first_of_workflow(ts: Seq<StateTransitionEvent>, w: Seq<char>, n: int) -> Option<
    int,
>
    decreases n,
{
    if n <= 0 {
        None
    } else {
        match first_of_workflow(ts, w, n - 1) {
            Some(i) => Some(i),
            None => if opt_text(ts[n - 1].workflow_id) == Some(w) {
                Some(n - 1)
            } else {
                None
            },
        }
    }
}

/// The mode of the workflow `w`: that of the first transition that names it,
/// and `unknown` where none does.
pub open spec fn workflow_mode(ts: Seq<StateTransitionEvent>, w: Seq<char>) -> Seq<char> {
    match first_of_workflow(ts, w, ts.len() as int) {
        Some(i) => ts[i].mode@,
        None => "unknown"@,
    }
}

/// The summary of the workflow `w` of `stats`. It is active as long as one of
/// its phases has no end, and the first such phase is its current one. Its
/// phases stand in the order of their start times, those that start together
/// in the order in which the statistics list them.
pub open spec fn workflow_summary(stats: ProjectStatistics, w: Seq<char>) -> WorkflowSummaryView {
    let g = workflow_phases(
        stats.state_transitions@,
        stats.phase_metrics@,
        w,
        stats.phase_metrics@.len() as int,
    );
    WorkflowSummaryView {
        workflow_id: w,
        mode: workflow_mode(stats.state_transitions@, w),
        status: if first_open(g) is Some {
            WorkflowStatus::Active
        } else {
            WorkflowStatus::Completed
        },
        current_phase: match first_open(g) {
            Some(i) => Some(g[i].phase_name@),
            None => None,
        },
        phases: reorder(phase_summaries(g), stable_order(start_ranks(g), false)),
        total_metrics: total_metrics(g),
    }
}

/// Whether one of the phases of `stats` belongs to the workflow `w`.
pub open spec fn is_workflow_of(stats: ProjectStatistics, w: Seq<char>) -> bool {
    exists|k: int|
        0 <= k < stats.phase_metrics@.len() && phase_workflow(
            stats.state_transitions@,
            #[trigger] stats.phase_metrics@[k],
        ) == Some(w)
}

/// Whether the workflow `w` has a summary in `r`.
pub open spec fn has_summary(r: Seq<WorkflowSummaryView>, w: Seq<char>) -> bool {
    exists|i: int| 0 <= i < r.len() && (#[trigger] r[i]).workflow_id == w
}

/// Whether `r` sums up the workflows of `stats`: one summary for each
/// workflow that a phase belongs to and no other, each as `workflow_summary`
/// gives it, the workflow identifiers strictly descending.
pub open spec fn summarizes(stats: ProjectStatistics, r: Seq<WorkflowSummaryView>) -> bool {
    &&& forall|i: int| 0 <= i < r.len() ==> is_workflow_of(stats, (#[trigger] r[i]).workflow_id)
    &&& forall|w: Seq<char>| #[trigger] is_workflow_of(stats, w) ==> has_summary(r, w)
    &&& forall|i: int, j: int|
        0 <= i < j < r.len() ==> lex_lt((#[trigger] r[j]).workflow_id, (#[trigger] r[i]).workflow_id)
    &&& forall|i: int|
        0 <= i < r.len() ==> #[trigger] r[i] == workflow_summary(stats, r[i].workflow_id)
}

proof fn lemma_summaries_agree(
    stats: ProjectStatistics,
    a: Seq<WorkflowSummaryView>,
    b: Seq<WorkflowSummaryView>,
    i: int,
)
    requires
        summarizes(stats, a),
        summarizes(stats, b),
        0 <= i <= a.len(),
        i <= b.len(),
    ensures
        forall|k: int| 0 <= k < i ==> a[k] == b[k],
    decreases i,
{
    if i > 0 {
        lemma_summaries_agree(stats, a, b, i - 1);
        let x = a[i - 1].workflow_id;
        let y = b[i - 1].workflow_id;
        if x != y {
            lemma_lex_le_total(x, y);
            if lex_le(x, y) {
                lemma_misplaced(stats, a, b, i - 1);
            } else {
                lemma_misplaced(stats, b, a, i - 1);
            }
        }
    }
}

/// Where two summaries of the same statistics agree before a position, the
/// one cannot have a smaller identifier at it than the other.
proof fn lemma_misplaced(
    stats: ProjectStatistics,
    a: Seq<WorkflowSummaryView>,
    b: Seq<WorkflowSummaryView>,
    i: int,
)
    requires
        summarizes(stats, a),
        summarizes(stats, b),
        0 <= i < a.len(),
        i < b.len(),
        forall|k: int| 0 <= k < i ==> a[k] == b[k],
        lex_le(a[i].workflow_id, b[i].workflow_id),
    ensures
        a[i].workflow_id == b[i].workflow_id,
{
    let y = b[i].workflow_id;
    assert(is_workflow_of(stats, y));
    assert(has_summary(a, y));
    let j = choose|j: int| 0 <= j < a.len() && (#[trigger] a[j]).workflow_id == y;
    if j < i {
        assert(a[j] == b[j]);
        assert(lex_lt(b[i].workflow_id, b[j].workflow_id));
    } else if j > i {
        assert(lex_lt(a[j].workflow_id, a[i].workflow_id));
        lemma_lex_le_antisymmetric(a[i].workflow_id, y);
    }
}

/// Where two summaries of the same statistics agree as far as the first
/// goes, the second goes no further.
proof fn lemma_not_longer(
    stats: ProjectStatistics,
    a: Seq<WorkflowSummaryView>,
    b: Seq<WorkflowSummaryView>,
)
    requires
        summarizes(stats, a),
        summarizes(stats, b),
        a.len() <= b.len(),
        forall|k: int| 0 <= k < a.len() ==> a[k] == b[k],
    ensures
        a.len() == b.len(),
{
    if a.len() < b.len() {
        let y = b[a.len() as int].workflow_id;
        assert(is_workflow_of(stats, y));
        assert(has_summary(a, y));
        let j = choose|j: int| 0 <= j < a.len() && (#[trigger] a[j]).workflow_id == y;
        assert(a[j] == b[j]);
        assert(lex_lt(b[a.len() as int].workflow_id, b[j].workflow_id));
    }
}

/// The workflows of a project have one summary: two sequences that both sum
/// them up are the same.
pub proof fn lemma_summaries_unique(
    stats: ProjectStatistics,
    a: Seq<WorkflowSummaryView>,
    b: Seq<WorkflowSummaryView>,
)
    requires
        summarizes(stats, a),
        summarizes(stats, b),
    ensures
        a == b,
{
    if a.len() <= b.len() {
        lemma_summaries_agree(stats, a, b, a.len() as int);
        lemma_not_longer(stats, a, b);
    } else {
        lemma_summaries_agree(stats, a, b, b.len() as int);
        assert forall|k: int| 0 <= k < b.len() implies b[k] == a[k] by {}
        lemma_not_longer(stats, b, a);
    }
    assert(a =~= b);
}

/// The summary of one phase.
pub fn summarize_phase(p: &PhaseMetrics) -> (s: PhaseSummary)
    ensures
        s@ == phase_summary(*p),
{
    let status = if p.end_time.is_none() {
        PhaseStatus::InProgress
    } else {
        PhaseStatus::Completed
    };
    proof {
        lemma_wrap_small(0, p.bash_commands.len());
        lemma_wrap_usize_add_wrapped(
            p.bash_commands@.len() as int,
            p.file_modifications@.len() as int,
        );
        lemma_wrap_small(0, p.file_modifications.len());
    }
    PhaseSummary {
        phase_name: p.phase_name.clone(),
        status,
        start_time: p.start_time.clone(),
        end_time: clone_opt_text(&p.end_time),
        duration_seconds: p.duration_seconds,
        metrics: PhaseMetricsSummary {
            total_input_tokens: p.token_metrics.total_input_tokens,
            total_output_tokens: p.token_metrics.total_output_tokens,
            total_cache_creation_tokens: p.token_metrics.total_cache_creation_tokens,
            total_cache_read_tokens: p.token_metrics.total_cache_read_tokens,
            total_all_tokens: all_tokens(&p.token_metrics),
            event_count: p.bash_commands.len().wrapping_add(p.file_modifications.len()),
            bash_command_count: p.bash_commands.len(),
            file_modification_count: p.file_modifications.len(),
            git_commit_count: p.git_commits.len(),
        },
    }
}

/// The mode of the workflow `w`.
pub fn workflow_mode_of(ts: &Vec<StateTransitionEvent>, w: &String) -> (r: String)
    ensures
        r@ == workflow_mode(ts@, w@),
{
    let mut j: usize = 0;
    while j < ts.len()
        invariant
            j <= ts.len(),
            first_of_workflow(ts@, w@, j as int) is None,
        decreases ts.len() - j,
    {
        let named = match &ts[j].workflow_id {
            Some(x) => same_text(x.as_str(), w.as_str()),
            None => false,
        };
        if named {
            proof {
                lemma_first_of_workflow_stays(ts@, w@, j as int + 1, ts@.len() as int);
            }
            return ts[j].mode.clone();
        }
        j += 1;
    }
    String::from_str("unknown")
}

/// A first transition that was found stays the first when more are looked at.
pub proof fn lemma_first_of_workflow_stays(
    ts: Seq<StateTransitionEvent>,
    w: Seq<char>,
    n: int,
    m: int,
)
    requires
        first_of_workflow(ts, w, n) is Some,
        n <= m,
    ensures
        first_of_workflow(ts, w, m) == first_of_workflow(ts, w, n),
    decreases m - n,
{
    if n < m {
        lemma_first_of_workflow_stays(ts, w, n, m - 1);
    }
}

/// Whether `assign` gives, for each phase of `stats`, the workflow that the
/// phase belongs to.
pub open spec fn assigns(stats: ProjectStatistics, assign: Seq<Option<String>>) -> bool {
    &&& assign.len() == stats.phase_metrics@.len()
    &&& forall|k: int|
        0 <= k < assign.len() ==> opt_text(#[trigger] assign[k]) == phase_workflow(
            stats.state_transitions@,
            stats.phase_metrics@[k],
        )
}

/// For each phase of `stats`, the workflow that it belongs to.
pub fn assign_workflows(stats: &ProjectStatistics) -> (assign: Vec<Option<String>>)
    ensures
        assigns(*stats, assign@),
{
    let mut assign: Vec<Option<String>> = Vec::new();
    let mut k: usize = 0;
    while k < stats.phase_metrics.len()
        invariant
            k <= stats.phase_metrics.len(),
            assign.len() == k,
            forall|i: int|
                0 <= i < k ==> opt_text(#[trigger] assign@[i]) == phase_workflow(
                    stats.state_transitions@,
                    stats.phase_metrics@[i],
                ),
        decreases stats.phase_metrics.len() - k,
    {
        assign.push(phase_workflow_of(&stats.state_transitions, &stats.phase_metrics[k]));
        k += 1;
    }
    assign
}

/// The summary of the workflow `w` of `stats`, given the workflow of each
/// phase.
pub fn summarize_workflow(stats: &ProjectStatistics, assign: &Vec<Option<String>>, w: &String) -> (s:
    WorkflowSummary)
    requires
        assigns(*stats, assign@),
    ensures
        s@ == workflow_summary(*stats, w@),
{
    let ghost ts = stats.state_transitions@;
    let ghost phases = stats.phase_metrics@;
    let mode = workflow_mode_of(&stats.state_transitions, w);
    let mut pairs: Vec<(SortKey, PhaseSummary)> = Vec::new();
    let mut current: Option<String> = None;
    let mut input: u64 = 0;
    let mut output: u64 = 0;
    let mut creation: u64 = 0;
    let mut read: u64 = 0;
    let mut events: usize = 0;
    let mut commands: usize = 0;
    let mut files: usize = 0;
    let mut commits: usize = 0;
    let ghost mut g: Seq<PhaseMetrics> = Seq::empty();
    let mut k: usize = 0;
    proof {
        lemma_wrap_small(0, 0);
    }
    while k < stats.phase_metrics.len()
        invariant
            k <= stats.phase_metrics.len(),
            ts == stats.state_transitions@,
            phases == stats.phase_metrics@,
            assigns(*stats, assign@),
            g == workflow_phases(ts, phases, w@, k as int),
            pairs.len() == g.len(),
            forall|i: int|
                0 <= i < pairs.len() ==> (#[trigger] pairs@[i]).0@ == Rank::Text(g[i].start_time@)
                    && pairs@[i].1@ == phase_summary(g[i]),
            opt_text(current) == match first_open(g) {
                Some(i) => Some(g[i].phase_name@),
                None => None,
            },
            (current is Some) == (first_open(g) is Some),
            input == wrap_u64(sum_count(g, Counter::InputTokens)),
            output == wrap_u64(sum_count(g, Counter::OutputTokens)),
            creation == wrap_u64(sum_count(g, Counter::CacheCreationTokens)),
            read == wrap_u64(sum_count(g, Counter::CacheReadTokens)),
            events == wrap_usize(sum_count(g, Counter::Events)),
            commands == wrap_usize(sum_count(g, Counter::BashCommands)),
            files == wrap_usize(sum_count(g, Counter::FileModifications)),
            commits == wrap_usize(sum_count(g, Counter::GitCommits)),
        decreases stats.phase_metrics.len() - k,
    {
        let belongs = match &assign[k] {
            Some(x) => same_text(x.as_str(), w.as_str()),
            None => false,
        };
        assert(belongs == (phase_workflow(ts, phases[k as int]) == Some(w@)));
        if belongs {
            let p = &stats.phase_metrics[k];
            let ghost g0 = g;
            proof {
                g = g0.push(*p);
                assert(g.drop_last() =~= g0);
                lemma_first_open(g0);
                lemma_wrap_u64_add(sum_count(g0, Counter::InputTokens), p.token_metrics.total_input_tokens);
                lemma_wrap_u64_add(sum_count(g0, Counter::OutputTokens), p.token_metrics.total_output_tokens);
                lemma_wrap_u64_add(
                    sum_count(g0, Counter::CacheCreationTokens),
                    p.token_metrics.total_cache_creation_tokens,
                );
                lemma_wrap_u64_add(
                    sum_count(g0, Counter::CacheReadTokens),
                    p.token_metrics.total_cache_read_tokens,
                );
                lemma_wrap_usize_add_wrapped(
                    sum_count(g0, Counter::Events),
                    phase_count(*p, Counter::Events),
                );
                lemma_wrap_usize_add(sum_count(g0, Counter::BashCommands), p.bash_commands.len());
                lemma_wrap_usize_add(
                    sum_count(g0, Counter::FileModifications),
                    p.file_modifications.len(),
                );
                lemma_wrap_usize_add(sum_count(g0, Counter::GitCommits), p.git_commits.len());
            }
            let summary = summarize_phase(p);
            input = input.wrapping_add(p.token_metrics.total_input_tokens);
            output = output.wrapping_add(p.token_metrics.total_output_tokens);
            creation = creation.wrapping_add(p.token_metrics.total_cache_creation_tokens);
            read = read.wrapping_add(p.token_metrics.total_cache_read_tokens);
            events = events.wrapping_add(summary.metrics.event_count);
            commands = commands.wrapping_add(p.bash_commands.len());
            files = files.wrapping_add(p.file_modifications.len());
            commits = commits.wrapping_add(p.git_commits.len());
            if current.is_none() && p.end_time.is_none() {
                current = Some(p.phase_name.clone());
            }
            pairs.push((SortKey::Text(chars_of(p.start_time.as_str())), summary));
        }
        k += 1;
    }
    let ghost keys = keys_of(pairs@);
    let ghost order = stable_order(keys, false);
    assert(keys =~= start_ranks(g));
    let status = if current.is_some() {
        WorkflowStatus::Active
    } else {
        WorkflowStatus::Completed
    };
    let ghost items = items_of(pairs@);
    let sorted = stable_sort_by_key(pairs, false);
    assert(phase_views(sorted@) =~= reorder(phase_summaries(g), order)) by {
        assert forall|i: int| 0 <= i < order.len() implies phase_views(sorted@)[i] == reorder(
            phase_summaries(g),
            order,
        )[i] by {
            assert(0 <= order[i] < keys.len());
            assert(sorted@[i] == items[order[i]]);
        }
    }
    proof {
        lemma_wrap_u64_add_wrapped(
            sum_count(g, Counter::InputTokens),
            sum_count(g, Counter::OutputTokens),
        );
        lemma_wrap_u64_add_wrapped(
            sum_count(g, Counter::InputTokens) + sum_count(g, Counter::OutputTokens),
            sum_count(g, Counter::CacheCreationTokens),
        );
        lemma_wrap_u64_add_wrapped(
            sum_count(g, Counter::InputTokens) + sum_count(g, Counter::OutputTokens) + sum_count(
                g,
                Counter::CacheCreationTokens,
            ),
            sum_count(g, Counter::CacheReadTokens),
        );
    }
    WorkflowSummary {
        workflow_id: w.clone(),
        mode,
        status,
        current_phase: current,
        phases: sorted,
        total_metrics: PhaseMetricsSummary {
            total_input_tokens: input,
            total_output_tokens: output,
            total_cache_creation_tokens: creation,
            total_cache_read_tokens: read,
            total_all_tokens: input.wrapping_add(output).wrapping_add(creation).wrapping_add(read),
            event_count: events,
            bash_command_count: commands,
            file_modification_count: files,
            git_commit_count: commits,
        },
    }
}

/// Whether the text `w` stands in `ids`.
pub open spec fn names(ids: Seq<String>, w: Seq<char>) -> bool {
    exists|a: int| 0 <= a < ids.len() && (#[trigger] ids[a])@ == w
}

/// Sums up the workflows of a project from its statistics. A phase belongs
/// to the workflow of the transition that opened it; there is one summary for
/// each workflow that a phase belongs to, the newest identifier first.
pub fn build_workflow_summaries(unified_metrics: &ProjectStatistics) -> (r: Vec<WorkflowSummary>)
    ensures
        summarizes(*unified_metrics, workflow_views(r@)),
{
    let stats = unified_metrics;
    let ghost ts = stats.state_transitions@;
    let ghost phases = stats.phase_metrics@;
    let assign = assign_workflows(stats);
    let mut ids: Vec<String> = Vec::new();
    let mut k: usize = 0;
    while k < assign.len()
        invariant
            k <= assign.len(),
            ts == stats.state_transitions@,
            phases == stats.phase_metrics@,
            assigns(*stats, assign@),
            forall|a: int, b: int| 0 <= a < b < ids.len() ==> ids@[a]@ != ids@[b]@,
            forall|a: int| 0 <= a < ids.len() ==> is_workflow_of(*stats, (#[trigger] ids@[a])@),
            forall|i: int|
                0 <= i < k && (#[trigger] assign@[i]) is Some ==> names(ids@, assign@[i]->0@),
        decreases assign.len() - k,
    {
        match &assign[k] {
            Some(x) => {
                let mut a: usize = 0;
                let mut found = false;
                while a < ids.len() && !found
                    invariant
                        a <= ids.len(),
                        found ==> names(ids@, x@),
                        !found ==> forall|b: int| 0 <= b < a ==> ids@[b]@ != x@,
                    decreases ids.len() - a + if found { 0int } else { 1int },
                {
                    if same_text(ids[a].as_str(), x.as_str()) {
                        found = true;
                    } else {
                        a += 1;
                    }
                }
                if !found {
                    let ghost old_ids = ids@;
                    ids.push(x.clone());
                    proof {
                        assert(phase_workflow(ts, phases[k as int]) == Some(x@));
                        assert(ids@[old_ids.len() as int]@ == x@);
                        assert forall|i: int|
                            0 <= i < k && (#[trigger] assign@[i]) is Some implies names(
                            ids@,
                            assign@[i]->0@,
                        ) by {
                            let b = choose|b: int|
                                0 <= b < old_ids.len() && (#[trigger] old_ids[b])@
                                    == assign@[i]->0@;
                            assert(ids@[b]@ == assign@[i]->0@);
                        }
                        assert forall|a: int| 0 <= a < ids.len() implies is_workflow_of(
                            *stats,
                            (#[trigger] ids@[a])@,
                        ) by {
                            if a < old_ids.len() {
                                assert(ids@[a] == old_ids[a]);
                            }
                        }
                    }
                }
            },
            None => {},
        }
        k += 1;
    }
    let mut pairs: Vec<(SortKey, WorkflowSummary)> = Vec::new();
    let mut a: usize = 0;
    while a < ids.len()
        invariant
            a <= ids.len(),
            assigns(*stats, assign@),
            pairs.len() == a,
            forall|i: int|
                0 <= i < a ==> (#[trigger] pairs@[i]).0@ == Rank::Text(ids@[i]@) && pairs@[i].1@
                    == workflow_summary(*stats, ids@[i]@),
        decreases ids.len() - a,
    {
        let summary = summarize_workflow(stats, &assign, &ids[a]);
        pairs.push((SortKey::Text(chars_of(ids[a].as_str())), summary));
        a += 1;
    }
    let ghost keys = keys_of(pairs@);
    let ghost items = items_of(pairs@);
    let ghost order = stable_order(keys, true);
    let r = stable_sort_by_key(pairs, true);
    proof {
        let v = workflow_views(r@);
        assert forall|i: int| 0 <= i < v.len() implies #[trigger] v[i] == workflow_summary(
            *stats,
            ids@[order[i]]@,
        ) by {
            assert(0 <= order[i] < keys.len());
            assert(r@[i] == items[order[i]]);
        }
        assert forall|i: int| 0 <= i < v.len() implies is_workflow_of(
            *stats,
            (#[trigger] v[i]).workflow_id,
        ) by {
            assert(0 <= order[i] < keys.len());
            assert(is_workflow_of(*stats, ids@[order[i]]@));
        }
        assert forall|w: Seq<char>| #[trigger] is_workflow_of(*stats, w) implies has_summary(
            v,
            w,
        ) by {
            let k0 = choose|k0: int|
                0 <= k0 < phases.len() && phase_workflow(ts, #[trigger] phases[k0]) == Some(w);
            assert(assign@[k0] is Some);
            assert(names(ids@, w));
            let a0 = choose|a0: int| 0 <= a0 < ids@.len() && (#[trigger] ids@[a0])@ == w;
            assert(lists(order, a0));
            let i0 = choose|i0: int| 0 <= i0 < order.len() && order[i0] == a0;
            assert(v[i0].workflow_id == w);
        }
        assert forall|i: int, j: int| 0 <= i < j < v.len() implies lex_lt(
            (#[trigger] v[j]).workflow_id,
            (#[trigger] v[i]).workflow_id,
        ) by {
            assert(0 <= order[i] < keys.len());
            assert(0 <= order[j] < keys.len());
            assert(order[i] != order[j]);
            assert(crate::sorting::may_precede(keys[order[i]], keys[order[j]], true));
            if order[i] < order[j] {
                assert(ids@[order[i]]@ != ids@[order[j]]@);
            } else {
                assert(ids@[order[j]]@ != ids@[order[i]]@);
            }
        }
    }
    r
}

} // verus!
