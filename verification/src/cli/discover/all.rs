//! The table of all projects: its rows and their order.

use vstd::prelude::*;
use vstd::string::*;
use crate::cli::discover::{invalid_column_text, is_sort_column, validate_sort_column};
use crate::discovery::project::DiscoveredProject;
use crate::metrics::{lemma_wrap_small, lemma_wrap_u64_add, wrap_u64};
use crate::sorting::{
    is_stable_sort, items_of, keys_of, reorder, stable_order, stable_sort_by_key, Rank, SortKey,
};
use crate::cli::discover::format::{format_duration_ms, format_size, size_text};
use crate::text::{
    align_left, align_right, byte_len, chars_of, columns, decimal, decimal_digits, join_columns,
    join_text, left_aligned, right_aligned, same_text, texts,
};
use crate::timestamp::Timestamp;

verus! {

/// One row of the table.
#[derive(Debug, Clone, PartialEq, Eq)]
pub struct ProjectRow {
    pub name: String,
    pub path: String,
    pub size: u64,
    pub last_activity: Timestamp,
    pub total_tokens: u64,
    pub total_events: usize,
    pub phase_count: usize,
    pub load_time_ms: Option<u64>,
}

/// A row as mathematical data.
pub struct ProjectRowView {
    pub name: Seq<char>,
    pub path: Seq<char>,
    pub size: u64,
    pub last_activity: Timestamp,
    pub total_tokens: u64,
    pub total_events: usize,
    pub phase_count: usize,
    pub load_time_ms: Option<u64>,
}

impl View for ProjectRow {
    type V = ProjectRowView;

    open spec fn view(&self) -> ProjectRowView {
        ProjectRowView {
            name: self.name@,
            path: self.path@,
            size: self.size,
            last_activity: self.last_activity,
            total_tokens: self.total_tokens,
            total_events: self.total_events,
            phase_count: self.phase_count,
            load_time_ms: self.load_time_ms,
        }
    }
}

/// Whether rows can be sorted by a column of that name at all.
pub open spec fn is_known_column(column: Seq<char>) -> bool {
    is_sort_column(column, true)
}

/// Whether a column sorts with the largest first. Names and paths sort
/// ascending, everything else descending.
pub open spec fn sorts_descending(column: Seq<char>) -> bool {
    column != "name"@ && column != "path"@
}

/// What a row is ordered by in a column. A row without a load time has the
/// load time 0.
pub open spec fn row_rank(row: ProjectRow, column: Seq<char>) -> Rank {
    if column == "name"@ {
        Rank::Text(row.name@)
    } else if column == "path"@ {
        Rank::Text(row.path@)
    } else if column == "size"@ {
        Rank::Number(row.size as nat)
    } else if column == "last-activity"@ {
        Rank::Number(row.last_activity.rank())
    } else if column == "tokens"@ {
        Rank::Number(row.total_tokens as nat)
    } else if column == "events"@ {
        Rank::Number(row.total_events as nat)
    } else if column == "phases"@ {
        Rank::Number(row.phase_count as nat)
    } else {
        Rank::Number(
            match row.load_time_ms {
                Some(ms) => ms as nat,
                None => 0,
            },
        )
    }
}

/// What the rows of a table are ordered by in a column.
pub open spec fn row_ranks(rows: Seq<ProjectRow>, column: Seq<char>) -> Seq<Rank> {
    Seq::new(rows.len(), |i: int| row_rank(rows[i], column))
}

/// What a row is ordered by in a column.
pub fn row_key(row: &ProjectRow, column: &str) -> (k: SortKey)
    ensures
        k@ == row_rank(*row, column@),
{
    if same_text(column, "name") {
        SortKey::Text(chars_of(row.name.as_str()))
    } else if same_text(column, "path") {
        SortKey::Text(chars_of(row.path.as_str()))
    } else if same_text(column, "size") {
        SortKey::Number(row.size as u128)
    } else if same_text(column, "last-activity") {
        SortKey::Number(row.last_activity.rank_value())
    } else if same_text(column, "tokens") {
        SortKey::Number(row.total_tokens as u128)
    } else if same_text(column, "events") {
        SortKey::Number(row.total_events as u128)
    } else if same_text(column, "phases") {
        SortKey::Number(row.phase_count as u128)
    } else {
        SortKey::Number(
            match row.load_time_ms {
                Some(ms) => ms as u128,
                None => 0,
            },
        )
    }
}

/// Sorts the rows by a column, stably: by name or path ascending, by any
/// other column descending. A column that is not known leaves the rows as
/// they are.
pub fn sort_rows(rows: &mut Vec<ProjectRow>, sort_by: &str)
    ensures
        !is_known_column(sort_by@) ==> *final(rows) == *old(rows),
        is_known_column(sort_by@) ==> is_stable_sort(
            row_ranks(old(rows)@, sort_by@),
            sorts_descending(sort_by@),
            stable_order(row_ranks(old(rows)@, sort_by@), sorts_descending(sort_by@)),
        ) && final(rows)@ == reorder(
            old(rows)@,
            stable_order(row_ranks(old(rows)@, sort_by@), sorts_descending(sort_by@)),
        ),
{
    if validate_sort_column(sort_by, true).is_err() {
        return ;
    }
    let descending = !(same_text(sort_by, "name") || same_text(sort_by, "path"));
    let ghost before = rows@;
    let mut taken: Vec<ProjectRow> = Vec::new();
    std::mem::swap(rows, &mut taken);
    let mut pairs: Vec<(SortKey, ProjectRow)> = Vec::new();
    for row in it: taken
        invariant
            it.seq() == before,
            pairs.len() == it.index(),
            forall|k: int|
                0 <= k < pairs.len() ==> (#[trigger] pairs@[k]).0@ == row_rank(before[k], sort_by@)
                    && pairs@[k].1 == before[k],
    {
        let key = row_key(&row, sort_by);
        pairs.push((key, row));
    }
    assert(keys_of(pairs@) =~= row_ranks(before, sort_by@));
    assert(items_of(pairs@) =~= before);
    *rows = stable_sort_by_key(pairs, descending);
}

/// The size found for the `i`-th project, and 0 where none was found.
pub open spec fn size_at(sizes: Seq<u64>, i: int) -> u64 {
    if 0 <= i < sizes.len() {
        sizes[i]
    } else {
        0
    }
}

/// The row of a project: its tokens are the input and output tokens
/// together, wrapping as the machine's counters do, and all its numbers are
/// 0 as long as its statistics are not loaded. It has a load time only when
/// benchmarking.
pub open spec fn row_of(
    p: DiscoveredProject,
    size: u64,
    load_time_ms: u64,
    benchmark: bool,
) -> ProjectRowView {
    ProjectRowView {
        name: p.name@,
        path: p.project_path@,
        size,
        last_activity: p.last_activity,
        total_tokens: match p.statistics {
            Some(s) => wrap_u64(
                s.token_metrics.total_input_tokens + s.token_metrics.total_output_tokens,
            ),
            None => 0,
        },
        total_events: match p.statistics {
            Some(s) => s.hook_metrics.total_events,
            None => 0,
        },
        phase_count: match p.statistics {
            Some(s) => s.phase_metrics@.len() as usize,
            None => 0,
        },
        load_time_ms: if benchmark {
            Some(load_time_ms)
        } else {
            None
        },
    }
}

/// The rows of the projects, in the order of the projects.
pub fn build_rows(
    projects: &Vec<DiscoveredProject>,
    sizes: &Vec<u64>,
    load_times_ms: &Vec<u64>,
    benchmark: bool,
) -> (rows: Vec<ProjectRow>)
    ensures
        rows.len() == projects.len(),
        forall|i: int|
            0 <= i < rows.len() ==> (#[trigger] rows@[i])@ == row_of(
                projects@[i],
                size_at(sizes@, i),
                size_at(load_times_ms@, i),
                benchmark,
            ),
{
    let mut rows: Vec<ProjectRow> = Vec::new();
    let mut i: usize = 0;
    while i < projects.len()
        invariant
            i <= projects.len(),
            rows.len() == i,
            forall|k: int|
                0 <= k < i ==> (#[trigger] rows@[k])@ == row_of(
                    projects@[k],
                    size_at(sizes@, k),
                    size_at(load_times_ms@, k),
                    benchmark,
                ),
        decreases projects.len() - i,
    {
        let p = &projects[i];
        let size = if i < sizes.len() {
            sizes[i]
        } else {
            0
        };
        let time = if i < load_times_ms.len() {
            load_times_ms[i]
        } else {
            0
        };
        let (total_tokens, total_events, phase_count) = match &p.statistics {
            Some(s) => {
                proof {
                    lemma_wrap_small(s.token_metrics.total_input_tokens, 0);
                    lemma_wrap_u64_add(
                        s.token_metrics.total_input_tokens as int,
                        s.token_metrics.total_output_tokens,
                    );
                }
                (
                    s.token_metrics.total_input_tokens.wrapping_add(
                        s.token_metrics.total_output_tokens,
                    ),
                    s.hook_metrics.total_events,
                    s.phase_metrics.len(),
                )
            },
            None => (0, 0, 0),
        };
        rows.push(
            ProjectRow {
                name: p.name.clone(),
                path: p.project_path.clone(),
                size,
                last_activity: p.last_activity,
                total_tokens,
                total_events,
                phase_count,
                load_time_ms: if benchmark {
                    Some(time)
                } else {
                    None
                },
            },
        );
        i += 1;
    }
    rows
}

/// Makes the table of all projects: one row for each project, sorted by the
/// column asked for. `sizes[i]` is the size of the metadata directory of the
/// `i`-th project and `load_times_ms[i]` the time that loading its
/// statistics took. A column that the table does not have is refused.
pub fn run(
    projects: &Vec<DiscoveredProject>,
    sizes: &Vec<u64>,
    load_times_ms: &Vec<u64>,
    sort_by: &str,
    benchmark: bool,
) -> (r: Result<Vec<ProjectRow>, String>)
    ensures
        !is_sort_column(sort_by@, benchmark) ==> r is Err && r->Err_0@ == invalid_column_text(
            sort_by@,
            benchmark,
        ),
        is_sort_column(sort_by@, benchmark) ==> r is Ok && exists|rows: Seq<ProjectRow>|
            {
                &&& rows.len() == projects.len()
                &&& forall|i: int|
                    0 <= i < rows.len() ==> (#[trigger] rows[i])@ == row_of(
                        projects@[i],
                        size_at(sizes@, i),
                        size_at(load_times_ms@, i),
                        benchmark,
                    )
                &&& #[trigger] is_stable_sort(
                    row_ranks(rows, sort_by@),
                    sorts_descending(sort_by@),
                    stable_order(row_ranks(rows, sort_by@), sorts_descending(sort_by@)),
                )
                &&& r->Ok_0@ == reorder(
                    rows,
                    stable_order(row_ranks(rows, sort_by@), sorts_descending(sort_by@)),
                )
            },
{
    match validate_sort_column(sort_by, benchmark) {
        Err(e) => {
            return Err(e);
        },
        Ok(_) => {},
    }
    let mut rows = build_rows(projects, sizes, load_times_ms, benchmark);
    let ghost built = rows@;
    sort_rows(&mut rows, sort_by);
    assert(is_stable_sort(
        row_ranks(built, sort_by@),
        sorts_descending(sort_by@),
        stable_order(row_ranks(built, sort_by@), sorts_descending(sort_by@)),
    ));
    Ok(rows)
}

/// The text for the `i`-th row, and the empty text where there is none.
pub open spec fn text_at(texts: Seq<String>, i: int) -> Seq<char> {
    if 0 <= i < texts.len() {
        texts[i]@
    } else {
        Seq::empty()
    }
}

/// The width of a column that holds the first `n` names of the rows: the
/// most bytes that one of them takes, and 4 at least.
pub open spec fn name_width(rows: Seq<ProjectRow>, n: int) -> nat
    decreases n,
{
    if n <= 0 {
        4
    } else {
        let rest = name_width(rows, n - 1);
        if byte_len(rows[n - 1].name@) > rest {
            byte_len(rows[n - 1].name@) as nat
        } else {
            rest
        }
    }
}

/// The width of a column that holds the first `n` paths: the most bytes
/// that one of them takes, and 4 at least.
pub open spec fn path_width(paths: Seq<String>, n: int) -> nat
    decreases n,
{
    if n <= 0 {
        4
    } else {
        let rest = path_width(paths, n - 1);
        if byte_len(text_at(paths, n - 1)) > rest {
            byte_len(text_at(paths, n - 1)) as nat
        } else {
            rest
        }
    }
}

/// The cells of the heading of the table.
pub open spec fn heading_cells(names: nat, paths: nat, with_load_time: bool) -> Seq<Seq<char>> {
    let cells = seq![
        left_aligned("NAME"@, names),
        left_aligned("PATH"@, paths),
        right_aligned("SIZE"@, 8),
        right_aligned("LAST ACTIVITY"@, 19),
        right_aligned("TOKENS"@, 8),
        right_aligned("EVENTS"@, 8),
        right_aligned("PHASES"@, 7),
    ];
    if with_load_time {
        cells.push(right_aligned("LOAD TIME"@, 9))
    } else {
        cells
    }
}

/// The cells of a row of the table. Names and paths stand at the left of
/// their columns, everything else at the right. A row has a last cell for
/// its load time where it has one.
pub open spec fn row_cells(
    row: ProjectRow,
    path: Seq<char>,
    stamp: Seq<char>,
    names: nat,
    paths: nat,
) -> Seq<Seq<char>> {
    let cells = seq![
        left_aligned(row.name@, names),
        left_aligned(path, paths),
        right_aligned(size_text(row.size), 8),
        right_aligned(stamp, 19),
        right_aligned(decimal_digits(row.total_tokens as nat), 8),
        right_aligned(decimal_digits(row.total_events as nat), 8),
        right_aligned(decimal_digits(row.phase_count as nat), 7),
    ];
    match row.load_time_ms {
        Some(ms) => cells.push(right_aligned(decimal_digits(ms as nat) + "ms"@, 9)),
        None => cells,
    }
}

/// The text of a line from its cells.
pub open spec fn line_of(cells: Seq<Seq<char>>) -> Seq<char> {
    columns(cells, cells.len() as int)
}

/// The lines for the first `n` rows of the table.
pub open spec fn row_lines(
    rows: Seq<ProjectRow>,
    paths: Seq<String>,
    stamps: Seq<String>,
    n: int,
) -> Seq<Seq<char>>
    decreases n,
{
    if n <= 0 {
        Seq::empty()
    } else {
        row_lines(rows, paths, stamps, n - 1).push(
            line_of(
                row_cells(
                    rows[n - 1],
                    text_at(paths, n - 1),
                    text_at(stamps, n - 1),
                    name_width(rows, rows.len() as int),
                    path_width(paths, rows.len() as int),
                ),
            ),
        )
    }
}

/// The line below the table: how many projects there are, and by what they
/// are sorted unless that is the last activity.
pub open spec fn footer(count: nat, sort_by: Seq<char>) -> Seq<char> {
    if sort_by == "last-activity"@ {
        "\n"@ + decimal_digits(count) + " projects found"@
    } else {
        "\n"@ + decimal_digits(count) + " projects found (sorted by "@ + sort_by + ")"@
    }
}

/// The table of all projects as lines of text: a heading, one line for each
/// row, and a footer; with the total load time, which also gives the
/// heading a column for the load times. Without rows there is one line that
/// says so.
pub open spec fn table_lines(
    rows: Seq<ProjectRow>,
    paths: Seq<String>,
    stamps: Seq<String>,
    sort_by: Seq<char>,
    total_load_time: Option<u64>,
) -> Seq<Seq<char>> {
    if rows.len() == 0 {
        seq!["No Hegel projects found"@]
    } else {
        let n = rows.len() as int;
        let lines = (seq![
            line_of(
                heading_cells(name_width(rows, n), path_width(paths, n), total_load_time is Some),
            ),
        ] + row_lines(rows, paths, stamps, n)).push(footer(rows.len(), sort_by));
        match total_load_time {
            Some(ms) => lines.push("Total load time: "@ + decimal_digits(ms as nat) + "ms"@),
            None => lines,
        }
    }
}

/// The text for the `i`-th row.
pub fn cell_text(texts: &Vec<String>, i: usize) -> (r: String)
    ensures
        r@ == text_at(texts@, i as int),
{
    if i < texts.len() {
        texts[i].clone()
    } else {
        String::new()
    }
}

/// Writes the table of all projects for people to read. `paths[i]` is the
/// path of the `i`-th row as it is to be shown, and `stamps[i]` its last
/// activity as text.
pub fn output_human(
    rows: &Vec<ProjectRow>,
    paths: &Vec<String>,
    stamps: &Vec<String>,
    sort_by: &str,
    total_load_time: Option<u64>,
) -> (lines: Vec<String>)
    ensures
        texts(lines@) == table_lines(rows@, paths@, stamps@, sort_by@, total_load_time),
{
    let mut lines: Vec<String> = Vec::new();
    if rows.len() == 0 {
        lines.push(String::from_str("No Hegel projects found"));
        assert(texts(lines@) =~= seq!["No Hegel projects found"@]);
        return lines;
    }
    let mut names: usize = 4;
    let mut widest_path: usize = 4;
    let mut i: usize = 0;
    while i < rows.len()
        invariant
            i <= rows.len(),
            names == name_width(rows@, i as int),
            widest_path == path_width(paths@, i as int),
        decreases rows.len() - i,
    {
        let n = rows[i].name.as_str().len();
        if n > names {
            names = n;
        }
        let path = cell_text(paths, i);
        let p = path.as_str().len();
        if p > widest_path {
            widest_path = p;
        }
        i += 1;
    }
    let mut heading: Vec<String> = Vec::new();
    heading.push(align_left("NAME", names));
    heading.push(align_left("PATH", widest_path));
    heading.push(align_right("SIZE", 8));
    heading.push(align_right("LAST ACTIVITY", 19));
    heading.push(align_right("TOKENS", 8));
    heading.push(align_right("EVENTS", 8));
    heading.push(align_right("PHASES", 7));
    if total_load_time.is_some() {
        heading.push(align_right("LOAD TIME", 9));
    }
    assert(texts(heading@) =~= heading_cells(
        names as nat,
        widest_path as nat,
        total_load_time is Some,
    ));
    lines.push(join_columns(&heading));
    let ghost first = lines@;
    let mut k: usize = 0;
    while k < rows.len()
        invariant
            k <= rows.len(),
            names == name_width(rows@, rows@.len() as int),
            widest_path == path_width(paths@, rows@.len() as int),
            first.len() == 1,
            lines@.len() == 1 + k,
            texts(lines@) == texts(first) + row_lines(rows@, paths@, stamps@, k as int),
        decreases rows.len() - k,
    {
        let row = &rows[k];
        let path = cell_text(paths, k);
        let stamp = cell_text(stamps, k);
        let size = format_size(row.size);
        let tokens = decimal(row.total_tokens as u128);
        let events = decimal(row.total_events as u128);
        let phases = decimal(row.phase_count as u128);
        let mut cells: Vec<String> = Vec::new();
        cells.push(align_left(row.name.as_str(), names));
        cells.push(align_left(path.as_str(), widest_path));
        cells.push(align_right(size.as_str(), 8));
        cells.push(align_right(stamp.as_str(), 19));
        cells.push(align_right(tokens.as_str(), 8));
        cells.push(align_right(events.as_str(), 8));
        cells.push(align_right(phases.as_str(), 7));
        match row.load_time_ms {
            Some(ms) => {
                let time = format_duration_ms(ms as u128);
                cells.push(align_right(time.as_str(), 9));
            },
            None => {},
        }
        assert(texts(cells@) =~= row_cells(
            *row,
            path@,
            stamp@,
            names as nat,
            widest_path as nat,
        ));
        let ghost before = lines@;
        lines.push(join_columns(&cells));
        assert(texts(lines@) =~= texts(before).push(lines@[lines@.len() - 1]@));
        assert(texts(lines@) =~= texts(first) + row_lines(rows@, paths@, stamps@, k + 1));
        k += 1;
    }
    let count = decimal(rows.len() as u128);
    let mut foot = String::from_str("\n");
    foot.append(count.as_str());
    if same_text(sort_by, "last-activity") {
        foot.append(" projects found");
    } else {
        foot.append(" projects found (sorted by ");
        foot.append(sort_by);
        foot.append(")");
    }
    let ghost body = lines@;
    lines.push(foot);
    assert(texts(lines@) =~= texts(body).push(footer(rows@.len(), sort_by@)));
    match total_load_time {
        Some(ms) => {
            let time = format_duration_ms(ms as u128);
            let ghost with_foot = lines@;
            lines.push(join_text("Total load time: ", time.as_str()));
            assert("Total load time: "@ + (decimal_digits(ms as nat) + "ms"@) =~= "Total load time: "@
                + decimal_digits(ms as nat) + "ms"@);
            assert(texts(lines@) =~= texts(with_foot).push(
                "Total load time: "@ + decimal_digits(ms as nat) + "ms"@,
            ));
        },
        None => {},
    }
    assert(texts(lines@) =~= table_lines(rows@, paths@, stamps@, sort_by@, total_load_time));
    lines
}

} // verus!
