//! What a project's logs and state file hold: the workflow state and the
//! usage statistics.

use vstd::prelude::*;
use crate::text::{clone_texts, texts};

verus! {

/// Where a project's workflow stands.
#[derive(Debug, Clone, PartialEq)]
pub struct WorkflowState {
    pub current_node: String,
    pub mode: String,
    pub history: Vec<String>,
    pub workflow_id: Option<String>,
}

/// A workflow state as mathematical data.
pub struct WorkflowStateView {
    pub current_node: Seq<char>,
    pub mode: Seq<char>,
    pub history: Seq<Seq<char>>,
    pub workflow_id: Option<Seq<char>>,
}

/// An optional text as mathematical data.
pub open spec fn opt_text(t: Option<String>) -> Option<Seq<char>> {
    match t {
        Some(s) => Some(s@),
        None => None,
    }
}

/// A copy of an optional text.
pub fn clone_opt_text(t: &Option<String>) -> (r: Option<String>)
    ensures
        opt_text(r) == opt_text(*t),
{
    match t {
        Some(s) => Some(s.clone()),
        None => None,
    }
}

impl View for WorkflowState {
    type V = WorkflowStateView;

    open spec fn view(&self) -> WorkflowStateView {
        WorkflowStateView {
            current_node: self.current_node@,
            mode: self.mode@,
            history: texts(self.history@),
            workflow_id: opt_text(self.workflow_id),
        }
    }
}

impl WorkflowState {
    /// A copy with the same contents.
    pub fn duplicate(&self) -> (r: WorkflowState)
        ensures
            r@ == self@,
    {
        WorkflowState {
            current_node: self.current_node.clone(),
            mode: self.mode.clone(),
            history: clone_texts(&self.history),
            workflow_id: clone_opt_text(&self.workflow_id),
        }
    }
}

/// An optional workflow state as mathematical data.
pub open spec fn opt_state(s: Option<WorkflowState>) -> Option<WorkflowStateView> {
    match s {
        Some(w) => Some(w@),
        None => None,
    }
}

/// A copy of an optional workflow state.
pub fn clone_opt_state(s: &Option<WorkflowState>) -> (r: Option<WorkflowState>)
    ensures
        opt_state(r) == opt_state(*s),
{
    match s {
        Some(w) => Some(w.duplicate()),
        None => None,
    }
}

/// What a project's state file holds, as far as this library reads it.
#[derive(Debug, Clone, PartialEq, Default)]
pub struct State {
    pub workflow_state: Option<WorkflowState>,
}

/// Token counters of a session or a phase.
#[derive(Debug, Clone, Copy, PartialEq, Eq, Default)]
pub struct TokenMetrics {
    pub total_input_tokens: u64,
    pub total_output_tokens: u64,
    pub total_cache_creation_tokens: u64,
    pub total_cache_read_tokens: u64,
    pub assistant_turns: usize,
}

/// A shell command that a hook recorded.
#[derive(Debug, Clone, PartialEq, Default)]
pub struct BashCommand {
    pub command: String,
    pub timestamp: Option<String>,
    pub stdout: String,
    pub stderr: String,
}

/// A file change that a hook recorded.
#[derive(Debug, Clone, PartialEq, Default)]
pub struct FileModification {
    pub file_path: String,
    pub tool: String,
    pub timestamp: Option<String>,
}

/// A commit found in the project's history.
#[derive(Debug, Clone, PartialEq, Default)]
pub struct GitCommit {
    pub hash: String,
    pub timestamp: String,
    pub message: String,
    pub author: String,
    pub files_changed: usize,
    pub insertions: usize,
    pub deletions: usize,
}

/// What the hooks recorded.
#[derive(Debug, Clone, PartialEq, Default)]
pub struct HookMetrics {
    pub total_events: usize,
    pub bash_commands: Vec<BashCommand>,
    pub file_modifications: Vec<FileModification>,
}

/// A step of a workflow from one node to the next.
#[derive(Debug, Clone, PartialEq, Default)]
pub struct StateTransitionEvent {
    pub timestamp: String,
    pub workflow_id: Option<String>,
    pub from_node: String,
    pub to_node: String,
    pub phase: String,
    pub mode: String,
}

/// The usage of one phase of a workflow.
#[derive(Debug, Clone, PartialEq, Default)]
pub struct PhaseMetrics {
    pub phase_name: String,
    pub start_time: String,
    pub end_time: Option<String>,
    pub duration_seconds: u64,
    pub token_metrics: TokenMetrics,
    pub bash_commands: Vec<BashCommand>,
    pub file_modifications: Vec<FileModification>,
    pub git_commits: Vec<GitCommit>,
    pub is_synthetic: bool,
    pub workflow_id: Option<String>,
}

/// The heavy statistics of a project, parsed from its logs.
#[derive(Debug, Clone, PartialEq, Default)]
pub struct ProjectStatistics {
    pub session_id: Option<String>,
    pub token_metrics: TokenMetrics,
    pub hook_metrics: HookMetrics,
    pub state_transitions: Vec<StateTransitionEvent>,
    pub phase_metrics: Vec<PhaseMetrics>,
    pub git_commits: Vec<GitCommit>,
}

/// `n` reduced to what a 64-bit counter holds after wrapping.
pub open spec fn wrap_u64(n: int) -> u64 {
    (n % 0x1_0000_0000_0000_0000) as u64
}

/// `n` reduced to what a `usize` counter holds after wrapping.
pub open spec fn wrap_usize(n: int) -> usize {
    (n % (usize::MAX as int + 1)) as usize
}

/// Adding to a wrapped 64-bit counter wraps the sum.
pub proof fn lemma_wrap_u64_add(n: int, x: u64)
    ensures
        u64::wrapping_add(wrap_u64(n), x) == wrap_u64(n + x),
{
    vstd::arithmetic::div_mod::lemma_add_mod_noop(n, x as int, 0x1_0000_0000_0000_0000);
    vstd::arithmetic::div_mod::lemma_small_mod(x as nat, 0x1_0000_0000_0000_0000);
    vstd::arithmetic::div_mod::lemma_mod_bound(n, 0x1_0000_0000_0000_0000);
    let a = n % 0x1_0000_0000_0000_0000;
    if a + x >= 0x1_0000_0000_0000_0000 {
        vstd::arithmetic::div_mod::lemma_mod_sub_multiples_vanish(a + x, 0x1_0000_0000_0000_0000);
        vstd::arithmetic::div_mod::lemma_small_mod(
            (a + x - 0x1_0000_0000_0000_0000) as nat,
            0x1_0000_0000_0000_0000,
        );
    } else {
        vstd::arithmetic::div_mod::lemma_small_mod((a + x) as nat, 0x1_0000_0000_0000_0000);
    }
}

/// Adding to a wrapped `usize` counter wraps the sum.
pub proof fn lemma_wrap_usize_add(n: int, x: usize)
    ensures
        usize::wrapping_add(wrap_usize(n), x) == wrap_usize(n + x),
{
    let m = usize::MAX as int + 1;
    vstd::arithmetic::div_mod::lemma_add_mod_noop(n, x as int, m);
    vstd::arithmetic::div_mod::lemma_small_mod(x as nat, m as nat);
    vstd::arithmetic::div_mod::lemma_mod_bound(n, m);
    let a = n % m;
    if a + x >= m {
        vstd::arithmetic::div_mod::lemma_mod_sub_multiples_vanish(a + x, m);
        vstd::arithmetic::div_mod::lemma_small_mod((a + x - m) as nat, m as nat);
    } else {
        vstd::arithmetic::div_mod::lemma_small_mod((a + x) as nat, m as nat);
    }
}

/// Adding a wrapped amount to a wrapped 64-bit counter wraps the sum.
pub proof fn lemma_wrap_u64_add_wrapped(n: int, k: int)
    ensures
        u64::wrapping_add(wrap_u64(n), wrap_u64(k)) == wrap_u64(n + k),
{
    lemma_wrap_u64_add(n, wrap_u64(k));
    vstd::arithmetic::div_mod::lemma_add_mod_noop_right(n, k, 0x1_0000_0000_0000_0000);
}

/// Adding a wrapped amount to a wrapped `usize` counter wraps the sum.
pub proof fn lemma_wrap_usize_add_wrapped(n: int, k: int)
    ensures
        usize::wrapping_add(wrap_usize(n), wrap_usize(k)) == wrap_usize(n + k),
{
    lemma_wrap_usize_add(n, wrap_usize(k));
    vstd::arithmetic::div_mod::lemma_add_mod_noop_right(n, k, usize::MAX as int + 1);
}

/// A counter that has not wrapped holds its amount.
pub proof fn lemma_wrap_small(x: u64, y: usize)
    ensures
        wrap_u64(x as int) == x,
        wrap_usize(y as int) == y,
{
    vstd::arithmetic::div_mod::lemma_small_mod(x as nat, 0x1_0000_0000_0000_0000);
    vstd::arithmetic::div_mod::lemma_small_mod(y as nat, (usize::MAX as int + 1) as nat);
}

/// The sum of the four token counters.
pub open spec fn token_sum(t: TokenMetrics) -> int {
    t.total_input_tokens + t.total_output_tokens + t.total_cache_creation_tokens
        + t.total_cache_read_tokens
}

/// The four token counters added up, wrapping.
pub fn all_tokens(t: &TokenMetrics) -> (r: u64)
    ensures
        r == wrap_u64(token_sum(*t)),
{
    let a = t.total_input_tokens;
    proof {
        vstd::arithmetic::div_mod::lemma_small_mod(a as nat, 0x1_0000_0000_0000_0000);
        lemma_wrap_u64_add(a as int, t.total_output_tokens);
        lemma_wrap_u64_add(a + t.total_output_tokens, t.total_cache_creation_tokens);
        lemma_wrap_u64_add(
            a + t.total_output_tokens + t.total_cache_creation_tokens,
            t.total_cache_read_tokens,
        );
    }
    a.wrapping_add(t.total_output_tokens).wrapping_add(t.total_cache_creation_tokens).wrapping_add(
        t.total_cache_read_tokens,
    )
}

} // verus!
