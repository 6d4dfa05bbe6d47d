//! The request worker: the one owner of the project table. It takes one
//! request at a time and decides what is answered, what is cached and what
//! has to be loaded first. Serializing a response and parsing a project's
//! logs are done by the caller, off the worker, which is told the outcome.

use vstd::prelude::*;
use vstd::string::*;
use std::sync::Arc;
use crate::api_types::{
    build_workflow_summaries, summarizes, AggregateMetrics, AllProjectsAggregate, ProjectInfo,
    ProjectInfoView, ProjectWorkflowDetail,
};
use crate::data_layer::cache::{CacheKey, CacheKeyView, ResponseCache};
use crate::data_layer::messages::{DataError, DataErrorView, DataRequest};
use crate::discovery::api_types::{
    summary_of, ProjectListItem, ProjectListItemView, ProjectMetricsSummary,
};
use crate::discovery::project::DiscoveredProject;
use crate::metrics::{
    clone_opt_state, lemma_wrap_small, lemma_wrap_u64_add, lemma_wrap_u64_add_wrapped,
    lemma_wrap_usize_add, opt_state, wrap_u64, wrap_usize, ProjectStatistics,
};
use crate::text::{join_text, same_text};

verus! {

/// How the worker pool is set up.
#[derive(Debug, Clone, PartialEq, Eq)]
pub struct WorkerPoolConfig {
    /// Number of worker tasks.
    pub worker_count: usize,
    /// Channel buffer size for requests.
    pub channel_buffer: usize,
}

/// The number of logical processors, from `num_cpus::get`. Nothing is
/// claimed of it: it depends on the machine.
#[verifier::external_body]
fn cpu_count() -> (n: usize) {
    num_cpus::get()
}

/// The usual configuration for a machine with that many processors: two
/// workers for each, as far as the number can be doubled, and room for 100
/// requests.
pub open spec fn usual_config(cpus: usize) -> WorkerPoolConfig {
    WorkerPoolConfig {
        worker_count: if cpus <= usize::MAX / 2 {
            (cpus * 2) as usize
        } else {
            usize::MAX
        },
        channel_buffer: 100,
    }
}

impl WorkerPoolConfig {
    /// Checks the configuration: both numbers must be above zero.
    pub fn validate(&self) -> (r: Result<(), String>)
        ensures
            r is Ok <==> self.worker_count > 0 && self.channel_buffer > 0,
            self.worker_count == 0 ==> r is Err && r->Err_0@
                == "worker_count must be greater than 0"@,
            self.worker_count > 0 && self.channel_buffer == 0 ==> r is Err && r->Err_0@
                == "channel_buffer must be greater than 0"@,
    {
        if self.worker_count == 0 {
            return Err(String::from_str("worker_count must be greater than 0"));
        }
        if self.channel_buffer == 0 {
            return Err(String::from_str("channel_buffer must be greater than 0"));
        }
        Ok(())
    }

    /// The usual configuration for a machine with that many processors: two
    /// workers for each, and room for 100 requests.
    pub fn for_cpus(cpus: usize) -> (c: WorkerPoolConfig)
        ensures
            c == usual_config(cpus),
    {
        let worker_count = if cpus <= usize::MAX / 2 {
            cpus * 2
        } else {
            usize::MAX
        };
        WorkerPoolConfig { worker_count, channel_buffer: 100 }
    }
}

impl Default for WorkerPoolConfig {
    /// The usual configuration for this machine, whatever the number of its
    /// processors is.
    fn default() -> (c: WorkerPoolConfig)
        ensures
            exists|cpus: usize| c == #[trigger] usual_config(cpus),
    {
        WorkerPoolConfig::for_cpus(cpu_count())
    }
}

/// What the caller of the worker does next.
#[derive(Debug, Clone)]
pub enum WorkerStep {
    /// Reply with these bytes: a cached response, shared, not copied.
    Reply(Arc<Vec<u8>>),
    /// Reply with this error.
    Fail(DataError),
    /// Serialize the listing and report with `complete_listing`.
    SerializeListing(Vec<ProjectListItem>),
    /// Serialize the aggregate and report with `complete_aggregate`.
    SerializeAggregate(AllProjectsAggregate),
    /// Serialize the project's metrics and report with `complete_metrics`.
    SerializeMetrics(ProjectInfo),
    /// Parse the logs in the metadata directory, away from the worker, and
    /// report with `load_project_metrics`.
    ParseMetrics { name: String, hegel_dir: String },
    /// Nothing: the request has no reply.
    Idle,
}

/// The position of the first among the first `n` projects of the table that
/// has the name, if one has it.
pub open spec fn first_project(table: Seq<DiscoveredProject>, name: Seq<char>, n: int) -> Option<
    int,
>
    decreases n,
{
    if n <= 0 {
        None
    } else {
        match first_project(table, name, n - 1) {
            Some(i) => Some(i),
            None => if table[n - 1].name@ == name {
                Some(n - 1)
            } else {
                None
            },
        }
    }
}

/// Whether the table holds a project of that name.
pub open spec fn is_registered(table: Seq<DiscoveredProject>, name: Seq<char>) -> bool {
    first_project(table, name, table.len() as int) is Some
}

/// What `first_project` finds is a project of that name with none before
/// it, and it finds one wherever there is one.
pub proof fn lemma_first_project(table: Seq<DiscoveredProject>, name: Seq<char>, n: int)
    requires
        0 <= n <= table.len(),
    ensures
        match first_project(table, name, n) {
            Some(i) => 0 <= i < n && table[i].name@ == name && forall|k: int|
                0 <= k < i ==> (#[trigger] table[k]).name@ != name,
            None => forall|k: int| 0 <= k < n ==> (#[trigger] table[k]).name@ != name,
        },
    decreases n,
{
    if n > 0 {
        lemma_first_project(table, name, n - 1);
    }
}

/// A first project that was found stays the first when more are looked at.
pub proof fn lemma_first_project_stays(
    table: Seq<DiscoveredProject>,
    name: Seq<char>,
    n: int,
    m: int,
)
    requires
        first_project(table, name, n) is Some,
        n <= m,
    ensures
        first_project(table, name, m) == first_project(table, name, n),
    decreases m - n,
{
    if n < m {
        lemma_first_project_stays(table, name, n, m - 1);
    }
}

/// Which project a name finds depends on the names in the table alone.
pub proof fn lemma_first_project_by_names(
    a: Seq<DiscoveredProject>,
    b: Seq<DiscoveredProject>,
    name: Seq<char>,
    n: int,
)
    requires
        0 <= n <= a.len(),
        a.len() == b.len(),
        forall|k: int| 0 <= k < a.len() ==> (#[trigger] a[k]).name@ == b[k].name@,
    ensures
        first_project(a, name, n) == first_project(b, name, n),
    decreases n,
{
    if n > 0 {
        lemma_first_project_by_names(a, b, name, n - 1);
        assert(a[n - 1].name@ == b[n - 1].name@);
    }
}

/// The listing of a table: the name and the workflow state of each project,
/// in the order of the table.
pub open spec fn listing_of(table: Seq<DiscoveredProject>) -> Seq<ProjectListItemView> {
    Seq::new(
        table.len(),
        |i: int|
            ProjectListItemView {
                name: table[i].name@,
                workflow_state: opt_state(table[i].workflow_state),
            },
    )
}

/// The views of the lines of a listing.
pub open spec fn item_views(items: Seq<ProjectListItem>) -> Seq<ProjectListItemView> {
    Seq::new(items.len(), |i: int| items[i]@)
}

/// What is added up over the table.
pub enum Total {
    InputTokens,
    OutputTokens,
    CacheCreationTokens,
    CacheReadTokens,
    Events,
    BashCommands,
    FileModifications,
    GitCommits,
    Phases,
}

/// What the statistics `s` add to the total `t`.
pub open spec fn stats_count(s: ProjectStatistics, t: Total) -> int {
    match t {
        Total::InputTokens => s.token_metrics.total_input_tokens as int,
        Total::OutputTokens => s.token_metrics.total_output_tokens as int,
        Total::CacheCreationTokens => s.token_metrics.total_cache_creation_tokens as int,
        Total::CacheReadTokens => s.token_metrics.total_cache_read_tokens as int,
        Total::Events => s.hook_metrics.total_events as int,
        Total::BashCommands => s.hook_metrics.bash_commands@.len() as int,
        Total::FileModifications => s.hook_metrics.file_modifications@.len() as int,
        Total::GitCommits => s.git_commits@.len() as int,
        Total::Phases => s.phase_metrics@.len() as int,
    }
}

/// The total `t` over the first `n` projects of the table. Only projects
/// whose statistics are loaded count.
pub open spec fn table_count(table: Seq<DiscoveredProject>, t: Total, n: int) -> int
    decreases n,
{
    if n <= 0 {
        0
    } else {
        table_count(table, t, n - 1) + match table[n - 1].statistics {
            Some(s) => stats_count(s, t),
            None => 0,
        }
    }
}

/// The totals over the first `n` projects of the table, each wrapping as
/// the machine's counters do.
pub open spec fn totals_of(table: Seq<DiscoveredProject>, n: int) -> AggregateMetrics {
    AggregateMetrics {
        total_input_tokens: wrap_u64(table_count(table, Total::InputTokens, n)),
        total_output_tokens: wrap_u64(table_count(table, Total::OutputTokens, n)),
        total_cache_creation_tokens: wrap_u64(table_count(table, Total::CacheCreationTokens, n)),
        total_cache_read_tokens: wrap_u64(table_count(table, Total::CacheReadTokens, n)),
        total_all_tokens: wrap_u64(
            table_count(table, Total::InputTokens, n) + table_count(table, Total::OutputTokens, n)
                + table_count(table, Total::CacheCreationTokens, n) + table_count(
                table,
                Total::CacheReadTokens,
                n,
            ),
        ),
        total_events: wrap_usize(table_count(table, Total::Events, n)),
        bash_command_count: wrap_usize(table_count(table, Total::BashCommands, n)),
        file_modification_count: wrap_usize(table_count(table, Total::FileModifications, n)),
        git_commit_count: wrap_usize(table_count(table, Total::GitCommits, n)),
        phase_count: wrap_usize(table_count(table, Total::Phases, n)),
    }
}

/// The aggregate of a table: the number of its projects, and the totals over
/// those whose statistics are loaded.
pub open spec fn aggregate_of(table: Seq<DiscoveredProject>) -> AllProjectsAggregate {
    AllProjectsAggregate {
        total_projects: table.len() as usize,
        aggregate_metrics: totals_of(table, table.len() as int),
    }
}

/// Whether `info` is what is served for the project `p` under the name
/// `name`, with the statistics `stats`.
pub open spec fn is_project_info(
    info: ProjectInfoView,
    name: Seq<char>,
    p: DiscoveredProject,
    stats: ProjectStatistics,
) -> bool {
    &&& info.project_name == name
    &&& info.summary == summary_of(stats)
    &&& info.detail.current_workflow_state == opt_state(p.workflow_state)
    &&& summarizes(stats, info.detail.workflows)
}

/// The serialized empty listing, sent where the listing cannot be
/// serialized: `[]`.
pub open spec fn empty_listing_bytes() -> Seq<u8> {
    seq![91u8, 93u8]
}

/// The serialized empty aggregate, sent where the aggregate cannot be
/// serialized: `{}`.
pub open spec fn empty_aggregate_bytes() -> Seq<u8> {
    seq![123u8, 125u8]
}

/// A copy of the bytes.
pub fn copy_bytes(bytes: &Vec<u8>) -> (r: Vec<u8>)
    ensures
        r@ == bytes@,
{
    let mut r: Vec<u8> = Vec::new();
    let mut i: usize = 0;
    while i < bytes.len()
        invariant
            i <= bytes.len(),
            r@ == bytes@.take(i as int),
        decreases bytes.len() - i,
    {
        r.push(bytes[i]);
        assert(bytes@.take(i + 1) =~= bytes@.take(i as int).push(bytes@[i as int]));
        i += 1;
    }
    assert(bytes@.take(bytes@.len() as int) =~= bytes@);
    r
}

/// Whether the cache holds metrics only for projects of the table.
pub open spec fn consistent(
    responses: Map<CacheKeyView, Seq<u8>>,
    table: Seq<DiscoveredProject>,
) -> bool {
    forall|name: Seq<char>| #[trigger]
        responses.dom().contains(CacheKeyView::ProjectMetrics(name)) ==> is_registered(table, name)
}

/// Caching a response keeps the cache consistent with the table, as long as
/// metrics are cached for a project of the table only.
pub proof fn lemma_consistent_after_insert(
    responses: Map<CacheKeyView, Seq<u8>>,
    table: Seq<DiscoveredProject>,
    key: CacheKeyView,
    bytes: Seq<u8>,
)
    requires
        key is ProjectMetrics ==> is_registered(table, key->ProjectMetrics_0),
    ensures
        consistent(responses, table) ==> consistent(responses.insert(key, bytes), table),
{
    if consistent(responses, table) {
        assert forall|n: Seq<char>| #[trigger]
            responses.insert(key, bytes).dom().contains(
                CacheKeyView::ProjectMetrics(n),
            ) implies is_registered(table, n) by {
            if key != CacheKeyView::ProjectMetrics(n) {
                assert(responses.dom().contains(CacheKeyView::ProjectMetrics(n)));
            }
        }
    }
}

/// Forgetting a response keeps the cache consistent with the table.
pub proof fn lemma_consistent_after_remove(
    responses: Map<CacheKeyView, Seq<u8>>,
    table: Seq<DiscoveredProject>,
    key: CacheKeyView,
)
    ensures
        consistent(responses, table) ==> consistent(responses.remove(key), table),
{
    if consistent(responses, table) {
        assert forall|n: Seq<char>| #[trigger]
            responses.remove(key).dom().contains(
                CacheKeyView::ProjectMetrics(n),
            ) implies is_registered(table, n) by {
            assert(responses.dom().contains(CacheKeyView::ProjectMetrics(n)));
        }
    }
}

/// A change to the table that keeps the names keeps the cache consistent
/// with it.
pub proof fn lemma_consistent_same_names(
    responses: Map<CacheKeyView, Seq<u8>>,
    a: Seq<DiscoveredProject>,
    b: Seq<DiscoveredProject>,
)
    requires
        a.len() == b.len(),
        forall|k: int| 0 <= k < a.len() ==> (#[trigger] a[k]).name@ == b[k].name@,
    ensures
        consistent(responses, a) ==> consistent(responses, b),
{
    if consistent(responses, a) {
        assert forall|n: Seq<char>| #[trigger]
            responses.dom().contains(CacheKeyView::ProjectMetrics(n)) implies is_registered(
            b,
            n,
        ) by {
            lemma_first_project_by_names(a, b, n, a.len() as int);
        }
    }
}

/// The worker: the response cache and the live project table.
pub struct WorkerPool {
    cache: ResponseCache,
    projects: Vec<DiscoveredProject>,
}

impl WorkerPool {
    /// The cached responses.
    pub closed spec fn responses(&self) -> Map<CacheKeyView, Seq<u8>> {
        self.cache.entries()
    }

    /// The project table.
    pub closed spec fn table(&self) -> Seq<DiscoveredProject> {
        self.projects@
    }

    /// The worker's invariant: metrics are cached only for projects of the
    /// table.
    pub open spec fn wf(&self) -> bool {
        consistent(self.responses(), self.table())
    }

    /// Whether `step` answers a request for the listing: the cached bytes
    /// where the listing is cached, else the listing of the table, to be
    /// serialized.
    pub open spec fn answers_listing(&self, step: WorkerStep) -> bool {
        if self.responses().dom().contains(CacheKeyView::ProjectList) {
            step is Reply && step->Reply_0@ == self.responses()[CacheKeyView::ProjectList]
        } else {
            step is SerializeListing && item_views(step->SerializeListing_0@) == listing_of(
                self.table(),
            )
        }
    }

    /// Whether `step` answers a request for the aggregate: the cached bytes
    /// where it is cached, else the aggregate of the table, to be
    /// serialized.
    pub open spec fn answers_aggregate(&self, step: WorkerStep) -> bool {
        if self.responses().dom().contains(CacheKeyView::AllProjectsAggregate) {
            step is Reply && step->Reply_0@ == self.responses()[CacheKeyView::AllProjectsAggregate]
        } else {
            step is SerializeAggregate && step->SerializeAggregate_0 == aggregate_of(self.table())
        }
    }

    /// Whether `step` answers a request for the metrics of `name`: the
    /// cached bytes where they are cached; else, for the first project of
    /// that name, its metrics to be serialized where its statistics are
    /// loaded, and its logs to be parsed where they are not; and the error
    /// that names the project where the table has none of that name.
    pub open spec fn answers_metrics(&self, name: Seq<char>, step: WorkerStep) -> bool {
        if self.responses().dom().contains(CacheKeyView::ProjectMetrics(name)) {
            step is Reply && step->Reply_0@ == self.responses()[CacheKeyView::ProjectMetrics(name)]
        } else {
            match first_project(self.table(), name, self.table().len() as int) {
                None => step is Fail && step->Fail_0@ == DataErrorView::ProjectNotFound(name),
                Some(i) => match self.table()[i].statistics {
                    Some(stats) => step is SerializeMetrics && is_project_info(
                        step->SerializeMetrics_0@,
                        name,
                        self.table()[i],
                        stats,
                    ),
                    None => step is ParseMetrics && step->name@ == name && step->hegel_dir@
                        == self.table()[i].hegel_dir@,
                },
            }
        }
    }

    /// A worker for the given projects, its cache empty. The configuration
    /// must be valid.
    pub fn new(config: WorkerPoolConfig, projects: Vec<DiscoveredProject>) -> (r: Result<
        WorkerPool,
        String,
    >)
        ensures
            r is Ok <==> config.worker_count > 0 && config.channel_buffer > 0,
            r is Ok ==> r->Ok_0.table() == projects@ && r->Ok_0.responses()
                == crate::data_layer::cache::no_entries() && r->Ok_0.wf(),
            config.worker_count == 0 ==> r is Err && r->Err_0@
                == "worker_count must be greater than 0"@,
            config.worker_count > 0 && config.channel_buffer == 0 ==> r is Err && r->Err_0@
                == "channel_buffer must be greater than 0"@,
    {
        match config.validate() {
            Err(e) => Err(e),
            Ok(_) => Ok(WorkerPool { cache: ResponseCache::new(), projects }),
        }
    }

    /// The position of the first project of that name.
    fn find_project(&self, name: &str) -> (r: Option<usize>)
        ensures
            match first_project(self.table(), name@, self.table().len() as int) {
                Some(i) => r is Some && r->0 == i && 0 <= i < self.table().len(),
                None => r is None,
            },
    {
        let mut i: usize = 0;
        while i < self.projects.len()
            invariant
                i <= self.projects.len(),
                first_project(self.projects@, name@, i as int) is None,
            decreases self.projects.len() - i,
        {
            if same_text(self.projects[i].name.as_str(), name) {
                proof {
                    assert(first_project(self.projects@, name@, i + 1) == Some(i as int));
                    lemma_first_project_stays(
                        self.projects@,
                        name@,
                        i + 1,
                        self.projects@.len() as int,
                    );
                }
                return Some(i);
            }
            i += 1;
        }
        None
    }

    /// Answers a request for the listing. A cached listing is answered as it
    /// is: two requests with nothing in between get the same bytes, and the
    /// second asks nothing of the disk.
    pub fn handle_get_projects(&self) -> (step: WorkerStep)
        ensures
            self.answers_listing(step),
    {
        let key = CacheKey::ProjectList;
        match self.cache.get(&key) {
            Some(cached) => WorkerStep::Reply(cached),
            None => {
                let mut items: Vec<ProjectListItem> = Vec::new();
                let mut i: usize = 0;
                while i < self.projects.len()
                    invariant
                        i <= self.projects.len(),
                        items.len() == i,
                        forall|k: int|
                            0 <= k < i ==> (#[trigger] items@[k])@ == listing_of(self.projects@)[k],
                    decreases self.projects.len() - i,
                {
                    let p = &self.projects[i];
                    items.push(
                        ProjectListItem {
                            name: p.name.clone(),
                            workflow_state: clone_opt_state(&p.workflow_state),
                        },
                    );
                    i += 1;
                }
                assert(item_views(items@) =~= listing_of(self.projects@));
                WorkerStep::SerializeListing(items)
            },
        }
    }

    /// Takes in the serialized listing and gives the bytes to reply with.
    /// They are cached, unless serializing failed: then the empty listing is
    /// the reply and nothing is cached.
    pub fn complete_listing(&mut self, serialized: Result<Vec<u8>, String>) -> (reply: Vec<u8>)
        ensures
            final(self).table() == old(self).table(),
            old(self).wf() ==> final(self).wf(),
            match serialized {
                Ok(bytes) => reply@ == bytes@ && final(self).responses() == old(self).responses()
                    .insert(CacheKeyView::ProjectList, bytes@),
                Err(_) => reply@ == empty_listing_bytes() && final(self).responses() == old(self).responses(),
            },
    {
        match serialized {
            Ok(bytes) => {
                let reply = copy_bytes(&bytes);
                self.cache.insert(CacheKey::ProjectList, bytes);
                proof {
                    lemma_consistent_after_insert(
                        old(self).responses(),
                        self.table(),
                        CacheKeyView::ProjectList,
                        bytes@,
                    );
                }
                reply
            },
            Err(_) => {
                let mut reply: Vec<u8> = Vec::new();
                reply.push(91u8);
                reply.push(93u8);
                assert(reply@ =~= empty_listing_bytes());
                reply
            },
        }
    }

    /// The aggregate of the table.
    pub fn aggregate(&self) -> (a: AllProjectsAggregate)
        ensures
            a == aggregate_of(self.table()),
    {
        let mut input: u64 = 0;
        let mut output: u64 = 0;
        let mut creation: u64 = 0;
        let mut read: u64 = 0;
        let mut events: usize = 0;
        let mut commands: usize = 0;
        let mut files: usize = 0;
        let mut commits: usize = 0;
        let mut phases: usize = 0;
        let ghost table = self.projects@;
        proof {
            lemma_wrap_small(0, 0);
        }
        let mut i: usize = 0;
        while i < self.projects.len()
            invariant
                i <= self.projects.len(),
                table == self.projects@,
                input == wrap_u64(table_count(table, Total::InputTokens, i as int)),
                output == wrap_u64(table_count(table, Total::OutputTokens, i as int)),
                creation == wrap_u64(table_count(table, Total::CacheCreationTokens, i as int)),
                read == wrap_u64(table_count(table, Total::CacheReadTokens, i as int)),
                events == wrap_usize(table_count(table, Total::Events, i as int)),
                commands == wrap_usize(table_count(table, Total::BashCommands, i as int)),
                files == wrap_usize(table_count(table, Total::FileModifications, i as int)),
                commits == wrap_usize(table_count(table, Total::GitCommits, i as int)),
                phases == wrap_usize(table_count(table, Total::Phases, i as int)),
            decreases self.projects.len() - i,
        {
            match &self.projects[i].statistics {
                Some(s) => {
                    proof {
                        let n = i as int;
                        lemma_wrap_u64_add(
                            table_count(table, Total::InputTokens, n),
                            s.token_metrics.total_input_tokens,
                        );
                        lemma_wrap_u64_add(
                            table_count(table, Total::OutputTokens, n),
                            s.token_metrics.total_output_tokens,
                        );
                        lemma_wrap_u64_add(
                            table_count(table, Total::CacheCreationTokens, n),
                            s.token_metrics.total_cache_creation_tokens,
                        );
                        lemma_wrap_u64_add(
                            table_count(table, Total::CacheReadTokens, n),
                            s.token_metrics.total_cache_read_tokens,
                        );
                        lemma_wrap_usize_add(
                            table_count(table, Total::Events, n),
                            s.hook_metrics.total_events,
                        );
                        lemma_wrap_usize_add(
                            table_count(table, Total::BashCommands, n),
                            s.hook_metrics.bash_commands.len(),
                        );
                        lemma_wrap_usize_add(
                            table_count(table, Total::FileModifications, n),
                            s.hook_metrics.file_modifications.len(),
                        );
                        lemma_wrap_usize_add(
                            table_count(table, Total::GitCommits, n),
                            s.git_commits.len(),
                        );
                        lemma_wrap_usize_add(
                            table_count(table, Total::Phases, n),
                            s.phase_metrics.len(),
                        );
                    }
                    input = input.wrapping_add(s.token_metrics.total_input_tokens);
                    output = output.wrapping_add(s.token_metrics.total_output_tokens);
                    creation = creation.wrapping_add(s.token_metrics.total_cache_creation_tokens);
                    read = read.wrapping_add(s.token_metrics.total_cache_read_tokens);
                    events = events.wrapping_add(s.hook_metrics.total_events);
                    commands = commands.wrapping_add(s.hook_metrics.bash_commands.len());
                    files = files.wrapping_add(s.hook_metrics.file_modifications.len());
                    commits = commits.wrapping_add(s.git_commits.len());
                    phases = phases.wrapping_add(s.phase_metrics.len());
                },
                None => {},
            }
            i += 1;
        }
        proof {
            let n = table.len() as int;
            lemma_wrap_u64_add_wrapped(
                table_count(table, Total::InputTokens, n),
                table_count(table, Total::OutputTokens, n),
            );
            lemma_wrap_u64_add_wrapped(
                table_count(table, Total::InputTokens, n) + table_count(
                    table,
                    Total::OutputTokens,
                    n,
                ),
                table_count(table, Total::CacheCreationTokens, n),
            );
            lemma_wrap_u64_add_wrapped(
                table_count(table, Total::InputTokens, n) + table_count(
                    table,
                    Total::OutputTokens,
                    n,
                ) + table_count(table, Total::CacheCreationTokens, n),
                table_count(table, Total::CacheReadTokens, n),
            );
        }
        AllProjectsAggregate {
            total_projects: self.projects.len(),
            aggregate_metrics: AggregateMetrics {
                total_input_tokens: input,
                total_output_tokens: output,
                total_cache_creation_tokens: creation,
                total_cache_read_tokens: read,
                total_all_tokens: input.wrapping_add(output).wrapping_add(creation).wrapping_add(
                    read,
                ),
                total_events: events,
                bash_command_count: commands,
                file_modification_count: files,
                git_commit_count: commits,
                phase_count: phases,
            },
        }
    }

    /// Answers a request for the aggregate. Projects whose statistics are
    /// not loaded are left out of the sums; nothing is loaded for them.
    pub fn handle_get_all_projects(&self) -> (step: WorkerStep)
        ensures
            self.answers_aggregate(step),
    {
        let key = CacheKey::AllProjectsAggregate;
        match self.cache.get(&key) {
            Some(cached) => WorkerStep::Reply(cached),
            None => WorkerStep::SerializeAggregate(self.aggregate()),
        }
    }

    /// Takes in the serialized aggregate and gives the bytes to reply with.
    /// They are cached, unless serializing failed: then the empty aggregate
    /// is the reply and nothing is cached.
    pub fn complete_aggregate(&mut self, serialized: Result<Vec<u8>, String>) -> (reply: Vec<u8>)
        ensures
            final(self).table() == old(self).table(),
            old(self).wf() ==> final(self).wf(),
            match serialized {
                Ok(bytes) => reply@ == bytes@ && final(self).responses() == old(self).responses()
                    .insert(CacheKeyView::AllProjectsAggregate, bytes@),
                Err(_) => reply@ == empty_aggregate_bytes() && final(self).responses() == old(
                    self
                ).responses(),
            },
    {
        match serialized {
            Ok(bytes) => {
                let reply = copy_bytes(&bytes);
                self.cache.insert(CacheKey::AllProjectsAggregate, bytes);
                proof {
                    lemma_consistent_after_insert(
                        old(self).responses(),
                        self.table(),
                        CacheKeyView::AllProjectsAggregate,
                        bytes@,
                    );
                }
                reply
            },
            Err(_) => {
                let mut reply: Vec<u8> = Vec::new();
                reply.push(123u8);
                reply.push(125u8);
                assert(reply@ =~= empty_aggregate_bytes());
                reply
            },
        }
    }

    /// What is served for the project at `at`, with the statistics `stats`.
    fn project_info(&self, name: &str, at: usize, stats: &ProjectStatistics) -> (info: ProjectInfo)
        requires
            at < self.table().len(),
        ensures
            is_project_info(info@, name@, self.table()[at as int], *stats),
    {
        let summary = ProjectMetricsSummary::from(stats);
        let workflows = build_workflow_summaries(stats);
        ProjectInfo {
            project_name: String::from_str(name),
            summary,
            detail: ProjectWorkflowDetail {
                current_workflow_state: clone_opt_state(&self.projects[at].workflow_state),
                workflows,
            },
        }
    }

    /// Answers a request for the metrics of a project. A name that the
    /// table does not hold gets the error that names it, and nothing
    /// changes.
    pub fn handle_get_project_metrics(&self, name: &str) -> (step: WorkerStep)
        ensures
            self.answers_metrics(name@, step),
            self.wf() && !is_registered(self.table(), name@) ==> step is Fail && step->Fail_0@
                == DataErrorView::ProjectNotFound(name@),
    {
        let key = CacheKey::ProjectMetrics(String::from_str(name));
        match self.cache.get(&key) {
            Some(cached) => {
                return WorkerStep::Reply(cached);
            },
            None => {},
        }
        match self.find_project(name) {
            None => WorkerStep::Fail(DataError::ProjectNotFound(String::from_str(name))),
            Some(at) => match &self.projects[at].statistics {
                Some(stats) => WorkerStep::SerializeMetrics(self.project_info(name, at, stats)),
                None => WorkerStep::ParseMetrics {
                    name: String::from_str(name),
                    hegel_dir: self.projects[at].hegel_dir.clone(),
                },
            },
        }
    }

    /// Takes in the outcome of parsing the logs of the project `name`. The
    /// statistics are stored on the first project of that name, which is the
    /// only change to the table, and what is served for it is returned, to
    /// be serialized. A failed parse is an error and changes nothing.
    pub fn load_project_metrics(&mut self, name: &str, parsed: Result<ProjectStatistics, String>) -> (r:
        Result<ProjectInfo, DataError>)
        ensures
            final(self).responses() == old(self).responses(),
            old(self).wf() ==> final(self).wf(),
            match first_project(old(self).table(), name@, old(self).table().len() as int) {
                None => r is Err && r->Err_0@ == DataErrorView::ProjectNotFound(name@)
                    && final(self).table() == old(self).table(),
                Some(i) => match parsed {
                    Err(e) => r is Err && r->Err_0@ == DataErrorView::ParseError(
                        "Failed to parse metrics: "@ + e@,
                    ) && final(self).table() == old(self).table(),
                    Ok(stats) => r is Ok && is_project_info(
                        r->Ok_0@,
                        name@,
                        old(self).table()[i],
                        stats,
                    ) && final(self).table() == old(self).table().update(
                        i,
                        DiscoveredProject { statistics: Some(stats), ..old(self).table()[i] },
                    ),
                },
            },
    {
        let at = match self.find_project(name) {
            None => {
                return Err(DataError::ProjectNotFound(String::from_str(name)));
            },
            Some(at) => at,
        };
        let stats = match parsed {
            Err(e) => {
                return Err(
                    DataError::ParseError(join_text("Failed to parse metrics: ", e.as_str())),
                );
            },
            Ok(stats) => stats,
        };
        let info = self.project_info(name, at, &stats);
        let ghost before = self.projects@;
        let mut project = self.projects.remove(at);
        project.statistics = Some(stats);
        self.projects.insert(at, project);
        proof {
            assert(self.projects@ =~= before.update(
                at as int,
                DiscoveredProject { statistics: Some(stats), ..before[at as int] },
            ));
            lemma_consistent_same_names(self.responses(), before, self.projects@);
        }
        Ok(info)
    }

    /// Takes in the serialized metrics of the project `name` and gives the
    /// reply. The bytes are cached under the project's name and are the
    /// reply; where serializing failed, the reply is an error and nothing is
    /// cached. Nothing is cached either for a name that the table does not
    /// hold.
    pub fn complete_metrics(&mut self, name: &str, serialized: Result<Vec<u8>, String>) -> (r:
        Result<Vec<u8>, DataError>)
        ensures
            final(self).table() == old(self).table(),
            old(self).wf() ==> final(self).wf(),
            match serialized {
                Err(e) => r is Err && r->Err_0@ == DataErrorView::CacheError(
                    "Serialization failed: "@ + e@,
                ) && final(self).responses() == old(self).responses(),
                Ok(bytes) => if is_registered(old(self).table(), name@) {
                    r is Ok && r->Ok_0@ == bytes@ && final(self).responses() == old(self)
                        .responses().insert(CacheKeyView::ProjectMetrics(name@), bytes@)
                } else {
                    r is Err && r->Err_0@ == DataErrorView::ProjectNotFound(name@)
                        && final(self).responses() == old(self).responses()
                },
            },
    {
        let bytes = match serialized {
            Err(e) => {
                return Err(DataError::CacheError(join_text("Serialization failed: ", e.as_str())));
            },
            Ok(bytes) => bytes,
        };
        if self.find_project(name).is_none() {
            return Err(DataError::ProjectNotFound(String::from_str(name)));
        }
        let reply = copy_bytes(&bytes);
        self.cache.insert(CacheKey::ProjectMetrics(String::from_str(name)), bytes);
        proof {
            lemma_consistent_after_insert(
                old(self).responses(),
                self.table(),
                CacheKeyView::ProjectMetrics(name@),
                bytes@,
            );
        }
        Ok(reply)
    }

    /// Forgets cached responses: with a name, the metrics of that project;
    /// without, the listing and the aggregate. The metrics of the projects
    /// stay cached then: they cannot be listed. The table is not touched.
    pub fn handle_refresh_cache(&mut self, project_name: Option<String>)
        ensures
            final(self).table() == old(self).table(),
            old(self).wf() ==> final(self).wf(),
            final(self).responses() == match project_name {
                Some(name) => old(self).responses().remove(CacheKeyView::ProjectMetrics(name@)),
                None => old(self).responses().remove(CacheKeyView::ProjectList).remove(
                    CacheKeyView::AllProjectsAggregate,
                ),
            },
    {
        match project_name {
            Some(name) => {
                self.cache.invalidate(&CacheKey::ProjectMetrics(name));
                proof {
                    lemma_consistent_after_remove(
                        old(self).responses(),
                        self.table(),
                        CacheKeyView::ProjectMetrics(name@),
                    );
                }
            },
            None => {
                self.cache.invalidate(&CacheKey::ProjectList);
                self.cache.invalidate(&CacheKey::AllProjectsAggregate);
                proof {
                    lemma_consistent_after_remove(
                        old(self).responses(),
                        self.table(),
                        CacheKeyView::ProjectList,
                    );
                    lemma_consistent_after_remove(
                        old(self).responses().remove(CacheKeyView::ProjectList),
                        self.table(),
                        CacheKeyView::AllProjectsAggregate,
                    );
                }
            },
        }
    }

    /// Takes one request off the queue and says what is to be done for it.
    /// Only a refresh changes anything, and only the cache.
    pub fn run(&mut self, request: DataRequest) -> (step: WorkerStep)
        ensures
            final(self).table() == old(self).table(),
            old(self).wf() ==> final(self).wf(),
            match request {
                DataRequest::GetProjects => old(self).answers_listing(step)
                    && final(self).responses() == old(self).responses(),
                DataRequest::GetProjectMetrics { name } => old(self).answers_metrics(name@, step)
                    && final(self).responses() == old(self).responses(),
                DataRequest::GetAllProjects => old(self).answers_aggregate(step)
                    && final(self).responses() == old(self).responses(),
                DataRequest::RefreshCache { project_name } => step is Idle
                    && final(self).responses() == match project_name {
                    Some(name) => old(self).responses().remove(
                        CacheKeyView::ProjectMetrics(name@),
                    ),
                    None => old(self).responses().remove(CacheKeyView::ProjectList).remove(
                        CacheKeyView::AllProjectsAggregate,
                    ),
                },
            },
    {
        match request {
            DataRequest::GetProjects => self.handle_get_projects(),
            DataRequest::GetProjectMetrics { name } => self.handle_get_project_metrics(
                name.as_str(),
            ),
            DataRequest::GetAllProjects => self.handle_get_all_projects(),
            DataRequest::RefreshCache { project_name } => {
                self.handle_refresh_cache(project_name);
                WorkerStep::Idle
            },
        }
    }
}

/// Cache-hit idempotence: as long as the listing is cached, every request
/// for it is answered with the cached bytes, so two requests with nothing in
/// between get the same bytes, and none of them asks for anything to be
/// read or serialized.
pub proof fn lemma_cached_listing_is_replayed(
    worker: WorkerPool,
    first: WorkerStep,
    second: WorkerStep,
)
    requires
        worker.responses().dom().contains(CacheKeyView::ProjectList),
        worker.answers_listing(first),
        worker.answers_listing(second),
    ensures
        first is Reply,
        second is Reply,
        first->Reply_0@ == second->Reply_0@,
        first->Reply_0@ == worker.responses()[CacheKeyView::ProjectList],
{
}

/// Not found: whatever was asked before, a request for the metrics of a
/// name that the table does not hold is answered with the error that names
/// it.
pub proof fn lemma_unregistered_is_not_found(worker: WorkerPool, name: Seq<char>, step: WorkerStep)
    requires
        worker.wf(),
        !is_registered(worker.table(), name),
        worker.answers_metrics(name, step),
    ensures
        step is Fail,
        step->Fail_0@ == DataErrorView::ProjectNotFound(name),
{
}

} // verus!
