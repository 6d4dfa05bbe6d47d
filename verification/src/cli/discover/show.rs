//! The detail of one project: finding it, and what its status is called.

use vstd::prelude::*;
use vstd::string::*;
use crate::discovery::project::DiscoveredProject;
use crate::cli::discover::format::{format_size, size_text};
use crate::metrics::{lemma_wrap_small, lemma_wrap_u64_add, wrap_u64};
use crate::text::{decimal, decimal_digits, join_text, join_with, joined, same_text, texts};

verus! {

/// The position of the first among the first `n` projects that has the
/// name, if one has it.
pub open spec fn first_with_name(projects: Seq<DiscoveredProject>, name: Seq<char>, n: int) -> Option<
    int,
>
    decreases n,
{
    if n <= 0 {
        None
    } else {
        match first_with_name(projects, name, n - 1) {
            Some(i) => Some(i),
            None => if projects[n - 1].name@ == name {
                Some(n - 1)
            } else {
                None
            },
        }
    }
}

/// A first project that was found stays the first when more are looked at.
pub proof fn lemma_first_with_name_stays(
    projects: Seq<DiscoveredProject>,
    name: Seq<char>,
    n: int,
    m: int,
)
    requires
        first_with_name(projects, name, n) is Some,
        n <= m,
    ensures
        first_with_name(projects, name, m) == first_with_name(projects, name, n),
    decreases m - n,
{
    if n < m {
        lemma_first_with_name_stays(projects, name, n, m - 1);
    }
}

/// The names of the first `n` projects as a list, one to a line.
pub open spec fn available_list(projects: Seq<DiscoveredProject>, n: int) -> Seq<char>
    decreases n,
{
    if n <= 0 {
        Seq::empty()
    } else if n == 1 {
        "  - "@ + projects[0].name@
    } else {
        available_list(projects, n - 1) + "\n"@ + "  - "@ + projects[n - 1].name@
    }
}

/// The text that says that no project has the name, and which names there
/// are.
pub open spec fn not_found_text(projects: Seq<DiscoveredProject>, name: Seq<char>) -> Seq<char> {
    "Project '"@ + name + "' not found\n\nAvailable projects:\n"@ + available_list(
        projects,
        projects.len() as int,
    )
}

/// Finds the project to show: the first of that name. Where there is none,
/// the error lists the names that there are.
pub fn run(projects: &Vec<DiscoveredProject>, project_name: &str) -> (r: Result<usize, String>)
    ensures
        match first_with_name(projects@, project_name@, projects@.len() as int) {
            Some(i) => r is Ok && r->Ok_0 == i && i < projects@.len(),
            None => r is Err && r->Err_0@ == not_found_text(projects@, project_name@),
        },
{
    let mut i: usize = 0;
    while i < projects.len()
        invariant
            i <= projects.len(),
            first_with_name(projects@, project_name@, i as int) is None,
        decreases projects.len() - i,
    {
        if same_text(projects[i].name.as_str(), project_name) {
            proof {
                assert(first_with_name(projects@, project_name@, i + 1) == Some(i as int));
                lemma_first_with_name_stays(
                    projects@,
                    project_name@,
                    i + 1,
                    projects@.len() as int,
                );
            }
            return Ok(i);
        }
        i += 1;
    }
    let mut list = String::new();
    let mut k: usize = 0;
    while k < projects.len()
        invariant
            k <= projects.len(),
            list@ == available_list(projects@, k as int),
        decreases projects.len() - k,
    {
        let ghost before = list@;
        if k > 0 {
            list.append("\n");
        }
        list.append("  - ");
        list.append(projects[k].name.as_str());
        proof {
            if k == 0 {
                assert(before =~= Seq::<char>::empty());
                assert(list@ =~= "  - "@ + projects@[0].name@);
            }
        }
        k += 1;
    }
    let mut s = String::from_str("Project '");
    s.append(project_name);
    s.append("' not found\n\nAvailable projects:\n");
    s.append(list.as_str());
    Err(s)
}

/// What the status of a project is called: an error counts before a state.
pub fn status_label(project: &DiscoveredProject) -> (s: String)
    ensures
        s@ == status_text(*project),
{
    if project.has_error() {
        String::from_str("Error (corrupted state)")
    } else if project.has_state() {
        String::from_str("Active")
    } else {
        String::from_str("Inactive")
    }
}

/// The lines that tell where the workflow of a project stands: the error
/// where its state could not be read, else its state, else that it has
/// none.
pub open spec fn state_lines(p: DiscoveredProject) -> Seq<Seq<char>> {
    match (p.error, p.workflow_state) {
        (Some(error), _) => seq![
            "Workflow State: Error loading state"@,
            "  Error: "@ + error@ + "\n"@,
        ],
        (None, Some(state)) => seq![
            "Workflow State:"@,
            "  Mode: "@ + state.mode@,
            "  Current node: "@ + state.current_node@,
            "  History: "@ + joined(texts(state.history@), " \u{2192} "@, state.history@.len() as int)
                + "\n"@,
        ],
        (None, None) => seq!["Workflow State: None\n"@],
    }
}

/// The lines that tell the metrics of a project, where they are loaded. The
/// total of the tokens is that of the input and the output tokens, wrapping
/// as the machine's counters do.
pub open spec fn metrics_lines(p: DiscoveredProject) -> Seq<Seq<char>> {
    match p.statistics {
        Some(s) => seq![
            "Metrics:"@,
            "  Total tokens: "@ + decimal_digits(
                wrap_u64(
                    s.token_metrics.total_input_tokens + s.token_metrics.total_output_tokens,
                ) as nat,
            ) + " (input: "@ + decimal_digits(s.token_metrics.total_input_tokens as nat)
                + ", output: "@ + decimal_digits(s.token_metrics.total_output_tokens as nat)
                + ")"@,
            "  Total events: "@ + decimal_digits(s.hook_metrics.total_events as nat),
            "  Phase count: "@ + decimal_digits(s.phase_metrics@.len()),
        ],
        None => seq!["Metrics: No metrics available"@],
    }
}

/// The text of the status of a project.
pub open spec fn status_text(p: DiscoveredProject) -> Seq<char> {
    if p.error is Some {
        "Error (corrupted state)"@
    } else if p.workflow_state is Some {
        "Active"@
    } else {
        "Inactive"@
    }
}

/// The detail of a project as lines of text: what it is and where, its
/// workflow, its metrics and its status.
pub open spec fn detail_lines(p: DiscoveredProject, size: u64, stamp: Seq<char>) -> Seq<Seq<char>> {
    seq![
        "Project: "@ + p.name@,
        "Path: "@ + p.project_path@,
        ".hegel size: "@ + size_text(size),
        "Last activity: "@ + stamp + "\n"@,
    ] + state_lines(p) + metrics_lines(p) + seq!["\nStatus: "@ + status_text(p)]
}

/// Writes the detail of a project for people to read. `size` is the size of
/// its metadata directory, and `last_activity` its last activity as text.
pub fn output_human(project: &DiscoveredProject, size: u64, last_activity: &str) -> (lines: Vec<
    String,
>)
    ensures
        texts(lines@) == detail_lines(*project, size, last_activity@),
{
    let mut lines: Vec<String> = Vec::new();
    lines.push(join_text("Project: ", project.name.as_str()));
    lines.push(join_text("Path: ", project.project_path.as_str()));
    let size_string = format_size(size);
    lines.push(join_text(".hegel size: ", size_string.as_str()));
    let mut activity = String::from_str("Last activity: ");
    activity.append(last_activity);
    activity.append("\n");
    lines.push(activity);
    assert(texts(lines@) =~= seq![
        "Project: "@ + project.name@,
        "Path: "@ + project.project_path@,
        ".hegel size: "@ + size_text(size),
        "Last activity: "@ + last_activity@ + "\n"@,
    ]);
    let ghost head = lines@;
    match &project.error {
        Some(error) => {
            lines.push(String::from_str("Workflow State: Error loading state"));
            let mut e = String::from_str("  Error: ");
            e.append(error.as_str());
            e.append("\n");
            lines.push(e);
        },
        None => match &project.workflow_state {
            Some(state) => {
                lines.push(String::from_str("Workflow State:"));
                lines.push(join_text("  Mode: ", state.mode.as_str()));
                lines.push(join_text("  Current node: ", state.current_node.as_str()));
                let history = join_with(&state.history, " \u{2192} ");
                let mut h = String::from_str("  History: ");
                h.append(history.as_str());
                h.append("\n");
                lines.push(h);
            },
            None => {
                lines.push(String::from_str("Workflow State: None\n"));
            },
        },
    }
    assert(texts(lines@) =~= texts(head) + state_lines(*project));
    let ghost with_state = lines@;
    match &project.statistics {
        Some(s) => {
            proof {
                lemma_wrap_small(s.token_metrics.total_input_tokens, 0);
                lemma_wrap_u64_add(
                    s.token_metrics.total_input_tokens as int,
                    s.token_metrics.total_output_tokens,
                );
            }
            lines.push(String::from_str("Metrics:"));
            let total = decimal(
                s.token_metrics.total_input_tokens.wrapping_add(
                    s.token_metrics.total_output_tokens,
                ) as u128,
            );
            let input = decimal(s.token_metrics.total_input_tokens as u128);
            let output = decimal(s.token_metrics.total_output_tokens as u128);
            let mut t = String::from_str("  Total tokens: ");
            t.append(total.as_str());
            t.append(" (input: ");
            t.append(input.as_str());
            t.append(", output: ");
            t.append(output.as_str());
            t.append(")");
            lines.push(t);
            let events = decimal(s.hook_metrics.total_events as u128);
            lines.push(join_text("  Total events: ", events.as_str()));
            let phases = decimal(s.phase_metrics.len() as u128);
            lines.push(join_text("  Phase count: ", phases.as_str()));
        },
        None => {
            lines.push(String::from_str("Metrics: No metrics available"));
        },
    }
    assert(texts(lines@) =~= texts(with_state) + metrics_lines(*project));
    let ghost with_metrics = lines@;
    let status = status_label(project);
    lines.push(join_text("\nStatus: ", status.as_str()));
    assert(texts(lines@) =~= texts(with_metrics).push("\nStatus: "@ + status_text(*project)));
    assert(texts(lines@) =~= detail_lines(*project, size, last_activity@));
    lines
}

} // verus!
