//! The list of projects: what is shown of each.

use vstd::prelude::*;
use vstd::string::*;
use crate::cli::discover::all::{cell_text, path_width, size_at, text_at};
use crate::cli::discover::format::{format_size, size_text};
use crate::text::{
    align_left, align_right, byte_len, columns, decimal, decimal_digits, join_columns, left_aligned,
    right_aligned, texts,
};
use crate::discovery::project::DiscoveredProject;
use crate::timestamp::Timestamp;

verus! {

/// What the list shows of one project.
#[derive(Debug, Clone, PartialEq, Eq)]
pub struct ListedProject {
    pub name: String,
    pub project_path: String,
    pub hegel_dir: String,
    pub hegel_size_bytes: u64,
    pub last_activity: Timestamp,
    pub has_state: bool,
    pub has_error: bool,
}

/// A line of the list as mathematical data.
pub struct ListedProjectView {
    pub name: Seq<char>,
    pub project_path: Seq<char>,
    pub hegel_dir: Seq<char>,
    pub hegel_size_bytes: u64,
    pub last_activity: Timestamp,
    pub has_state: bool,
    pub has_error: bool,
}

impl View for ListedProject {
    type V = ListedProjectView;

    open spec fn view(&self) -> ListedProjectView {
        ListedProjectView {
            name: self.name@,
            project_path: self.project_path@,
            hegel_dir: self.hegel_dir@,
            hegel_size_bytes: self.hegel_size_bytes,
            last_activity: self.last_activity,
            has_state: self.has_state,
            has_error: self.has_error,
        }
    }
}

/// What the list shows of a project whose metadata directory has that size.
pub open spec fn listed(p: DiscoveredProject, size: u64) -> ListedProjectView {
    ListedProjectView {
        name: p.name@,
        project_path: p.project_path@,
        hegel_dir: p.hegel_dir@,
        hegel_size_bytes: size,
        last_activity: p.last_activity,
        has_state: p.workflow_state is Some,
        has_error: p.error is Some,
    }
}

/// Makes the list of the projects, in their order. `sizes[i]` is the size
/// of the metadata directory of the `i`-th project; a project without one
/// has the size 0.
pub fn run(projects: &Vec<DiscoveredProject>, sizes: &Vec<u64>) -> (list: Vec<ListedProject>)
    ensures
        list.len() == projects.len(),
        forall|i: int|
            0 <= i < list.len() ==> (#[trigger] list@[i])@ == listed(
                projects@[i],
                size_at(sizes@, i),
            ),
{
    let mut list: Vec<ListedProject> = Vec::new();
    let mut i: usize = 0;
    while i < projects.len()
        invariant
            i <= projects.len(),
            list.len() == i,
            forall|k: int|
                0 <= k < i ==> (#[trigger] list@[k])@ == listed(projects@[k], size_at(sizes@, k)),
        decreases projects.len() - i,
    {
        let p = &projects[i];
        let size = if i < sizes.len() {
            sizes[i]
        } else {
            0
        };
        list.push(
            ListedProject {
                name: p.name.clone(),
                project_path: p.project_path.clone(),
                hegel_dir: p.hegel_dir.clone(),
                hegel_size_bytes: size,
                last_activity: p.last_activity,
                has_state: p.has_state(),
                has_error: p.has_error(),
            },
        );
        i += 1;
    }
    list
}

/// The width of a column that holds the first `n` names of the list: the
/// most bytes that one of them takes, and 4 at least.
pub open spec fn listed_name_width(list: Seq<ListedProject>, n: int) -> nat
    decreases n,
{
    if n <= 0 {
        4
    } else {
        let rest = listed_name_width(list, n - 1);
        if byte_len(list[n - 1].name@) > rest {
            byte_len(list[n - 1].name@) as nat
        } else {
            rest
        }
    }
}

/// The line of the list for a project: its name and its path at the left of
/// their columns, its size at the right of a column of 8, and its last
/// activity.
pub open spec fn listed_line(
    p: ListedProject,
    path: Seq<char>,
    stamp: Seq<char>,
    names: nat,
    paths: nat,
) -> Seq<char> {
    columns(
        seq![
            left_aligned(p.name@, names),
            left_aligned(path, paths),
            right_aligned(size_text(p.hegel_size_bytes), 8),
            stamp,
        ],
        4,
    )
}

/// The lines for the first `n` projects of the list.
pub open spec fn listed_lines(
    list: Seq<ListedProject>,
    paths: Seq<String>,
    stamps: Seq<String>,
    n: int,
) -> Seq<Seq<char>>
    decreases n,
{
    if n <= 0 {
        Seq::empty()
    } else {
        listed_lines(list, paths, stamps, n - 1).push(
            listed_line(
                list[n - 1],
                text_at(paths, n - 1),
                text_at(stamps, n - 1),
                listed_name_width(list, list.len() as int),
                path_width(paths, list.len() as int),
            ),
        )
    }
}

/// The list as lines of text: one line for each project and a last one that
/// counts them; without projects, one line that says so.
pub open spec fn list_lines(list: Seq<ListedProject>, paths: Seq<String>, stamps: Seq<String>) -> Seq<
    Seq<char>,
> {
    if list.len() == 0 {
        seq!["No Hegel projects found"@]
    } else {
        listed_lines(list, paths, stamps, list.len() as int).push(
            "\n"@ + decimal_digits(list.len()) + " projects found"@,
        )
    }
}

/// Writes the list for people to read. `paths[i]` is the path of the `i`-th
/// project as it is to be shown, and `stamps[i]` its last activity as text.
pub fn output_human(list: &Vec<ListedProject>, paths: &Vec<String>, stamps: &Vec<String>) -> (lines:
    Vec<String>)
    ensures
        texts(lines@) == list_lines(list@, paths@, stamps@),
{
    let mut lines: Vec<String> = Vec::new();
    if list.len() == 0 {
        lines.push(String::from_str("No Hegel projects found"));
        assert(texts(lines@) =~= seq!["No Hegel projects found"@]);
        return lines;
    }
    let mut names: usize = 4;
    let mut widest_path: usize = 4;
    let mut i: usize = 0;
    while i < list.len()
        invariant
            i <= list.len(),
            names == listed_name_width(list@, i as int),
            widest_path == path_width(paths@, i as int),
        decreases list.len() - i,
    {
        let n = list[i].name.as_str().len();
        if n > names {
            names = n;
        }
        let path = cell_text(paths, i);
        let p = path.as_str().len();
        if p > widest_path {
            widest_path = p;
        }
        i += 1;
    }
    let mut k: usize = 0;
    while k < list.len()
        invariant
            k <= list.len(),
            names == listed_name_width(list@, list@.len() as int),
            widest_path == path_width(paths@, list@.len() as int),
            texts(lines@) == listed_lines(list@, paths@, stamps@, k as int),
        decreases list.len() - k,
    {
        let p = &list[k];
        let path = cell_text(paths, k);
        let stamp = cell_text(stamps, k);
        let size = format_size(p.hegel_size_bytes);
        let mut cells: Vec<String> = Vec::new();
        cells.push(align_left(p.name.as_str(), names));
        cells.push(align_left(path.as_str(), widest_path));
        cells.push(align_right(size.as_str(), 8));
        cells.push(stamp);
        assert(texts(cells@) =~= seq![
            left_aligned(p.name@, names as nat),
            left_aligned(path@, widest_path as nat),
            right_aligned(size_text(p.hegel_size_bytes), 8),
            stamp@,
        ]);
        let ghost before = lines@;
        lines.push(join_columns(&cells));
        assert(texts(lines@) =~= texts(before).push(lines@[lines@.len() - 1]@));
        k += 1;
    }
    let count = decimal(list.len() as u128);
    let mut foot = String::from_str("\n");
    foot.append(count.as_str());
    foot.append(" projects found");
    let ghost body = lines@;
    lines.push(foot);
    assert(texts(lines@) =~= texts(body).push(
        "\n"@ + decimal_digits(list@.len()) + " projects found"@,
    ));
    lines
}

} // verus!
