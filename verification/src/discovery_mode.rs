//! The report of a discovery scan.

use vstd::prelude::*;
use vstd::string::*;
use crate::discovery::project::DiscoveredProject;
use crate::text::texts;

verus! {

/// The first line of the report for a project: its name and its path.
pub open spec fn project_line(p: DiscoveredProject) -> Seq<char> {
    "  \u{2022} "@ + p.name@ + " ("@ + p.project_path@ + ")"@
}

/// The second line of the report for a project: its workflow, if it has
/// one.
pub open spec fn workflow_line(p: DiscoveredProject) -> Seq<char> {
    match p.workflow_state {
        Some(state) => "    Mode: "@ + state.mode@ + " | Phase: "@ + state.current_node@,
        None => "    No active workflow"@,
    }
}

/// The lines of the report for the first `n` projects: two for each.
pub open spec fn report_lines(projects: Seq<DiscoveredProject>, n: int) -> Seq<Seq<char>>
    decreases n,
{
    if n <= 0 {
        Seq::empty()
    } else {
        report_lines(projects, n - 1).push(project_line(projects[n - 1])).push(
            workflow_line(projects[n - 1]),
        )
    }
}

/// Writes the report of a scan: for each project, in order, its name and
/// path, and where its workflow stands.
pub fn run(projects: &Vec<DiscoveredProject>) -> (lines: Vec<String>)
    ensures
        texts(lines@) == report_lines(projects@, projects@.len() as int),
{
    let mut lines: Vec<String> = Vec::new();
    let mut i: usize = 0;
    while i < projects.len()
        invariant
            i <= projects.len(),
            texts(lines@) == report_lines(projects@, i as int),
        decreases projects.len() - i,
    {
        let p = &projects[i];
        let mut first = String::from_str("  \u{2022} ");
        first.append(p.name.as_str());
        first.append(" (");
        first.append(p.project_path.as_str());
        first.append(")");
        let second = match &p.workflow_state {
            Some(state) => {
                let mut s = String::from_str("    Mode: ");
                s.append(state.mode.as_str());
                s.append(" | Phase: ");
                s.append(state.current_node.as_str());
                s
            },
            None => String::from_str("    No active workflow"),
        };
        lines.push(first);
        lines.push(second);
        assert(texts(lines@) =~= report_lines(projects@, i + 1));
        i += 1;
    }
    lines
}

} // verus!
