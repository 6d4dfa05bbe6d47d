//! The durable cache: a directory with one index file and one file for each
//! project record, and beside it a single snapshot file. This module decides
//! what is written and in which order, and what a read of the files amounts
//! to; the files themselves are read and written by the caller.

use vstd::prelude::*;
use vstd::string::*;
use crate::discovery::project::{
    latest_of, project_views, stored, DiscoveredProject, DiscoveredProjectView,
};
use crate::discovery::state::{error_of, state_and_error, StateRead};
use crate::text::{chars_of, is_alphanumeric_char, join_text, same_text, string_of};
use crate::timestamp::Timestamp;

verus! {

/// One line of the index: what is needed to list a project without reading
/// its record.
#[derive(Debug, Clone, PartialEq)]
pub struct ProjectIndexEntry {
    pub name: String,
    pub project_path: String,
    pub hegel_dir: String,
    pub last_activity: Timestamp,
}

/// A line of the index as mathematical data.
pub struct ProjectIndexEntryView {
    pub name: Seq<char>,
    pub project_path: Seq<char>,
    pub hegel_dir: Seq<char>,
    pub last_activity: Timestamp,
}

impl View for ProjectIndexEntry {
    type V = ProjectIndexEntryView;

    open spec fn view(&self) -> ProjectIndexEntryView {
        ProjectIndexEntryView {
            name: self.name@,
            project_path: self.project_path@,
            hegel_dir: self.hegel_dir@,
            last_activity: self.last_activity,
        }
    }
}

/// The lines of an index as mathematical data.
pub open spec fn entry_views(v: Seq<ProjectIndexEntry>) -> Seq<ProjectIndexEntryView> {
    Seq::new(v.len(), |i: int| v[i]@)
}

/// What was found where a file of the cache should be.
#[derive(Debug, Clone)]
pub enum FileRead<T> {
    /// There is no such file.
    Missing,
    /// There is one, but it could not be read or parsed; the detail says why.
    Corrupt(String),
    /// What the file holds.
    Loaded(T),
}

/// Why an operation on the cache fails.
#[derive(Debug, Clone, PartialEq, Eq)]
pub enum CacheError {
    /// The index or the snapshot is there but cannot be read.
    Corrupt(String),
    /// There is no index.
    NoCache,
    /// The index does not list the project.
    NotInCache(String),
    /// The index lists the project, but its metadata directory is gone.
    MarkerMissing { name: String, project_path: String },
    /// A file that had to be written could not be written.
    WriteFailed(String),
}

/// An error of the cache as mathematical data.
pub enum CacheErrorView {
    Corrupt(Seq<char>),
    NoCache,
    NotInCache(Seq<char>),
    MarkerMissing { name: Seq<char>, project_path: Seq<char> },
    WriteFailed(Seq<char>),
}

impl View for CacheError {
    type V = CacheErrorView;

    open spec fn view(&self) -> CacheErrorView {
        match *self {
            CacheError::Corrupt(d) => CacheErrorView::Corrupt(d@),
            CacheError::NoCache => CacheErrorView::NoCache,
            CacheError::NotInCache(n) => CacheErrorView::NotInCache(n@),
            CacheError::MarkerMissing { name, project_path } => CacheErrorView::MarkerMissing {
                name: name@,
                project_path: project_path@,
            },
            CacheError::WriteFailed(d) => CacheErrorView::WriteFailed(d@),
        }
    }
}

/// The text of an error of the cache.
pub open spec fn error_text(e: CacheErrorView) -> Seq<char> {
    match e {
        CacheErrorView::Corrupt(d) => d,
        CacheErrorView::NoCache =>
            "No cache found. Run 'hegel-pm discover list' first to populate cache."@,
        CacheErrorView::NotInCache(n) => "Project '"@ + n + "' not found in cache"@,
        CacheErrorView::MarkerMissing { name, project_path } => "Project '"@ + name
            + "' not found at cached path: "@ + project_path + "\nUse 'hegel-pm remove "@ + name
            + "' if you want to stop tracking it."@,
        CacheErrorView::WriteFailed(d) => d,
    }
}

impl CacheError {
    /// The error as text.
    pub fn message(&self) -> (s: String)
        ensures
            s@ == error_text(self@),
    {
        match self {
            CacheError::Corrupt(d) => d.clone(),
            CacheError::NoCache => String::from_str(
                "No cache found. Run 'hegel-pm discover list' first to populate cache.",
            ),
            CacheError::NotInCache(n) => {
                let mut s = String::from_str("Project '");
                s.append(n.as_str());
                s.append("' not found in cache");
                s
            },
            CacheError::MarkerMissing { name, project_path } => {
                let mut s = String::from_str("Project '");
                s.append(name.as_str());
                s.append("' not found at cached path: ");
                s.append(project_path.as_str());
                s.append("\nUse 'hegel-pm remove ");
                s.append(name.as_str());
                s.append("' if you want to stop tracking it.");
                s
            },
            CacheError::WriteFailed(d) => d.clone(),
        }
    }
}

/// One change to the files of the cache. Each write goes to a temporary file
/// first, which is then renamed over the file itself.
#[derive(Debug, Clone)]
pub enum CacheOp {
    /// Write a record to the file of that name in the cache directory.
    WriteRecord { file_name: String, record: DiscoveredProject },
    /// Write the index.
    WriteIndex { entries: Vec<ProjectIndexEntry> },
    /// Write the snapshot file, with the projects that the step was made for.
    WriteSnapshot,
    /// Delete the record file of that name, if it is there.
    DeleteRecord { file_name: String },
}

/// A change as mathematical data.
pub enum CacheOpView {
    WriteRecord { file_name: Seq<char>, record: DiscoveredProjectView },
    WriteIndex { entries: Seq<ProjectIndexEntryView> },
    WriteSnapshot,
    DeleteRecord { file_name: Seq<char> },
}

impl View for CacheOp {
    type V = CacheOpView;

    open spec fn view(&self) -> CacheOpView {
        match *self {
            CacheOp::WriteRecord { file_name, record } => CacheOpView::WriteRecord {
                file_name: file_name@,
                record: record@,
            },
            CacheOp::WriteIndex { entries } => CacheOpView::WriteIndex {
                entries: entry_views(entries@),
            },
            CacheOp::WriteSnapshot => CacheOpView::WriteSnapshot,
            CacheOp::DeleteRecord { file_name } => CacheOpView::DeleteRecord {
                file_name: file_name@,
            },
        }
    }
}

/// A change and what its failure means: where it is required, a failure ends
/// the operation with an error; where it is not, the failure is logged and
/// the next step is taken.
#[derive(Debug, Clone)]
pub struct CacheStep {
    pub op: CacheOp,
    pub required: bool,
}

/// A step as mathematical data.
pub struct CacheStepView {
    pub op: CacheOpView,
    pub required: bool,
}

impl View for CacheStep {
    type V = CacheStepView;

    open spec fn view(&self) -> CacheStepView {
        CacheStepView { op: self.op@, required: self.required }
    }
}

/// The steps of a plan as mathematical data.
pub open spec fn step_views(v: Seq<CacheStep>) -> Seq<CacheStepView> {
    Seq::new(v.len(), |i: int| v[i]@)
}

/// Whether a character may stand in a file name as it is: letters, digits,
/// `-` and `_`.
pub open spec fn is_safe_char(c: char) -> bool {
    is_alphanumeric_char(c) || c == '-' || c == '_'
}

/// A project name made safe for a file name: every character that is not
/// safe is replaced by `_`.
pub open spec fn sanitized(name: Seq<char>) -> Seq<char> {
    Seq::new(name.len(), |i: int| if is_safe_char(name[i]) { name[i] } else { '_' })
}

/// The name of the file that holds the record of the project `name`.
pub open spec fn record_file(name: Seq<char>) -> Seq<char> {
    sanitized(name) + ".bin"@
}

/// The character that stands for `c` in a file name, given whether `c` is
/// alphabetic or numeric.
pub fn safe_char(c: char, alphanumeric: bool) -> (r: char)
    ensures
        r == if alphanumeric || c == '-' || c == '_' { c } else { '_' },
{
    if alphanumeric || c == '-' || c == '_' {
        c
    } else {
        '_'
    }
}

/// A project name made safe for a file name.
pub fn sanitize_name(name: &str) -> (r: String)
    ensures
        r@ == sanitized(name@),
{
    let chars = chars_of(name);
    let mut out: Vec<char> = Vec::new();
    let mut i: usize = 0;
    while i < chars.len()
        invariant
            i <= chars.len(),
            chars@ == name@,
            out.len() == i,
            forall|k: int| 0 <= k < i ==> out@[k] == sanitized(name@)[k],
        decreases chars.len() - i,
    {
        let c = chars[i];
        out.push(safe_char(c, c.is_alphanumeric()));
        i += 1;
    }
    assert(out@ =~= sanitized(name@));
    string_of(&out)
}

/// The name of the file that holds the record of the project `name`.
pub fn record_file_name(name: &str) -> (r: String)
    ensures
        r@ == record_file(name@),
{
    let safe = sanitize_name(name);
    join_text(safe.as_str(), ".bin")
}

/// The name of the temporary file that a write to `file_name` goes through.
pub fn temp_file_name(file_name: &str) -> (r: String)
    ensures
        r@ == file_name@ + ".tmp"@,
{
    join_text(file_name, ".tmp")
}

/// The name of the index file.
pub fn index_file_name() -> (r: String)
    ensures
        r@ == "index.bin"@,
{
    String::from_str("index.bin")
}

/// The line of the index for a project.
pub open spec fn entry_of(p: DiscoveredProjectView) -> ProjectIndexEntryView {
    ProjectIndexEntryView {
        name: p.name,
        project_path: p.project_path,
        hegel_dir: p.hegel_dir,
        last_activity: p.last_activity,
    }
}

/// The index for a list of projects: one line for each, in the same order.
pub open spec fn index_of(ps: Seq<DiscoveredProjectView>) -> Seq<ProjectIndexEntryView> {
    Seq::new(ps.len(), |i: int| entry_of(ps[i]))
}

/// The line of the index for a project.
pub fn index_entry(p: &DiscoveredProject) -> (e: ProjectIndexEntry)
    ensures
        e@ == entry_of(p@),
{
    ProjectIndexEntry {
        name: p.name.clone(),
        project_path: p.project_path.clone(),
        hegel_dir: p.hegel_dir.clone(),
        last_activity: p.last_activity,
    }
}

/// The index for a list of projects.
pub fn build_index(projects: &Vec<DiscoveredProject>) -> (index: Vec<ProjectIndexEntry>)
    ensures
        entry_views(index@) == index_of(project_views(projects@)),
{
    let mut index: Vec<ProjectIndexEntry> = Vec::new();
    let mut i: usize = 0;
    while i < projects.len()
        invariant
            i <= projects.len(),
            index.len() == i,
            forall|k: int| 0 <= k < i ==> (#[trigger] index@[k])@ == entry_of(projects@[k]@),
        decreases projects.len() - i,
    {
        index.push(index_entry(&projects[i]));
        i += 1;
    }
    assert(entry_views(index@) =~= index_of(project_views(projects@)));
    index
}

/// The plan for saving `ps` to the sharded cache: first one record file for
/// each project, holding the project without its heavy fields, and last the
/// index. A record that cannot be written is skipped; the index must be
/// written.
pub open spec fn save_plan(ps: Seq<DiscoveredProjectView>) -> Seq<CacheStepView> {
    Seq::new(
        ps.len() + 1,
        |i: int|
            if i < ps.len() {
                CacheStepView {
                    op: CacheOpView::WriteRecord {
                        file_name: record_file(ps[i].name),
                        record: stored(ps[i]),
                    },
                    required: false,
                }
            } else {
                CacheStepView { op: CacheOpView::WriteIndex { entries: index_of(ps) }, required: true }
            },
    )
}

/// Plans the saving of the projects to the sharded cache: every record first,
/// the index last, so that an index never lists a record that was not yet
/// written.
pub fn save_binary_cache(projects: &Vec<DiscoveredProject>) -> (plan: Vec<CacheStep>)
    ensures
        step_views(plan@) == save_plan(project_views(projects@)),
{
    let mut plan: Vec<CacheStep> = Vec::new();
    let mut i: usize = 0;
    while i < projects.len()
        invariant
            i <= projects.len(),
            plan.len() == i,
            forall|k: int|
                0 <= k < i ==> (#[trigger] plan@[k])@ == save_plan(project_views(projects@))[k],
        decreases projects.len() - i,
    {
        let p = &projects[i];
        plan.push(
            CacheStep {
                op: CacheOp::WriteRecord {
                    file_name: record_file_name(p.name.as_str()),
                    record: p.stored_copy(),
                },
                required: false,
            },
        );
        i += 1;
    }
    plan.push(CacheStep { op: CacheOp::WriteIndex { entries: build_index(projects) }, required: true });
    assert(step_views(plan@) =~= save_plan(project_views(projects@)));
    plan
}

impl ProjectIndexEntry {
    /// A copy with the same contents.
    pub fn duplicate(&self) -> (r: ProjectIndexEntry)
        ensures
            r@ == self@,
    {
        ProjectIndexEntry {
            name: self.name.clone(),
            project_path: self.project_path.clone(),
            hegel_dir: self.hegel_dir.clone(),
            last_activity: self.last_activity,
        }
    }
}

/// What a failed step means: for a required step the error that ends the
/// operation, for any other the warning to log before going on.
pub fn on_step_failure(step: &CacheStep, detail: String) -> (r: Result<String, CacheError>)
    ensures
        step.required ==> r == Err::<String, CacheError>(CacheError::WriteFailed(detail)),
        !step.required ==> r == Ok::<String, CacheError>(detail),
{
    if step.required {
        Err(CacheError::WriteFailed(detail))
    } else {
        Ok(detail)
    }
}

/// What a load of the sharded cache gives: the records that could be read,
/// and a warning for each that could not.
#[derive(Debug, Clone)]
pub struct CacheLoad {
    pub projects: Vec<DiscoveredProject>,
    pub warnings: Vec<String>,
}

/// What was found for the `i`-th line of the index. A line for which nothing
/// was looked up counts as a missing file.
pub open spec fn read_at(reads: Seq<FileRead<DiscoveredProject>>, i: int) -> FileRead<
    DiscoveredProject,
> {
    if 0 <= i < reads.len() {
        reads[i]
    } else {
        FileRead::Missing
    }
}

/// The records that could be read for the first `n` lines of the index, in
/// the order of the index.
pub open spec fn loaded_records(reads: Seq<FileRead<DiscoveredProject>>, n: int) -> Seq<
    DiscoveredProjectView,
>
    decreases n,
{
    if n <= 0 {
        Seq::empty()
    } else {
        let rest = loaded_records(reads, n - 1);
        match read_at(reads, n - 1) {
            FileRead::Loaded(p) => rest.push(p@),
            _ => rest,
        }
    }
}

/// The warning for a record that could not be read: it names the project.
pub open spec fn load_warning(name: Seq<char>, read: FileRead<DiscoveredProject>) -> Option<
    Seq<char>,
> {
    match read {
        FileRead::Loaded(_) => None,
        FileRead::Missing => Some("Project file missing for: "@ + name),
        FileRead::Corrupt(detail) => Some(
            "Failed to load project '"@ + name + "': "@ + detail@,
        ),
    }
}

/// The warnings for the first `n` lines of the index, in the order of the
/// index.
pub open spec fn load_warnings(
    entries: Seq<ProjectIndexEntryView>,
    reads: Seq<FileRead<DiscoveredProject>>,
    n: int,
) -> Seq<Seq<char>>
    decreases n,
{
    if n <= 0 {
        Seq::empty()
    } else {
        let rest = load_warnings(entries, reads, n - 1);
        match load_warning(entries[n - 1].name, read_at(reads, n - 1)) {
            Some(w) => rest.push(w),
            None => rest,
        }
    }
}

/// The names of the record files of an index, in its order.
pub fn record_files(index: &Vec<ProjectIndexEntry>) -> (files: Vec<String>)
    ensures
        files.len() == index.len(),
        forall|i: int| 0 <= i < files.len() ==> (#[trigger] files@[i])@ == record_file(index@[i].name@),
{
    let mut files: Vec<String> = Vec::new();
    let mut i: usize = 0;
    while i < index.len()
        invariant
            i <= index.len(),
            files.len() == i,
            forall|k: int| 0 <= k < i ==> (#[trigger] files@[k])@ == record_file(index@[k].name@),
        decreases index.len() - i,
    {
        files.push(record_file_name(index[i].name.as_str()));
        i += 1;
    }
    files
}

/// The warning for a record whose file is missing.
fn missing_warning(name: &str) -> (w: String)
    ensures
        Some(w@) == load_warning(name@, FileRead::Missing),
{
    join_text("Project file missing for: ", name)
}

/// Loads the sharded cache from what was found on disk: `index` for the
/// index file, and `records[i]` for the record file of its `i`-th line. No
/// index is no cache; an index that cannot be read is an error. A record
/// that is missing or cannot be read is left out with a warning, and the
/// load still succeeds with the others.
pub fn load_binary_cache(
    index: &FileRead<Vec<ProjectIndexEntry>>,
    records: Vec<FileRead<DiscoveredProject>>,
) -> (r: Result<Option<CacheLoad>, CacheError>)
    ensures
        match *index {
            FileRead::Missing => r == Ok::<Option<CacheLoad>, CacheError>(None),
            FileRead::Corrupt(detail) => r is Err && r->Err_0@ == CacheErrorView::Corrupt(detail@),
            FileRead::Loaded(entries) => {
                &&& r is Ok
                &&& r->Ok_0 is Some
                &&& project_views(r->Ok_0->0.projects@) == loaded_records(
                    records@,
                    entries@.len() as int,
                )
                &&& crate::text::texts(r->Ok_0->0.warnings@) == load_warnings(
                    entry_views(entries@),
                    records@,
                    entries@.len() as int,
                )
            },
        },
{
    let entries = match index {
        FileRead::Missing => {
            return Ok(None);
        },
        FileRead::Corrupt(detail) => {
            return Err(CacheError::Corrupt(detail.clone()));
        },
        FileRead::Loaded(entries) => entries,
    };
    let ghost reads = records@;
    let ghost ev = entry_views(entries@);
    let mut projects: Vec<DiscoveredProject> = Vec::new();
    let mut warnings: Vec<String> = Vec::new();
    let mut i: usize = 0;
    for read in it: records
        invariant
            it.seq() == reads,
            ev == entry_views(entries@),
            i == if it.index() <= entries.len() { it.index() } else { entries.len() as int },
            project_views(projects@) == loaded_records(reads, i as int),
            crate::text::texts(warnings@) == load_warnings(ev, reads, i as int),
    {
        if i < entries.len() {
            let name = &entries[i].name;
            assert(read_at(reads, i as int) == read);
            assert(ev[i as int].name == name@);
            match read {
                FileRead::Loaded(p) => {
                    projects.push(p);
                    assert(project_views(projects@) =~= loaded_records(reads, i + 1));
                },
                FileRead::Missing => {
                    warnings.push(missing_warning(name.as_str()));
                    assert(crate::text::texts(warnings@) =~= load_warnings(ev, reads, i + 1));
                },
                FileRead::Corrupt(detail) => {
                    let mut w = String::from_str("Failed to load project '");
                    w.append(name.as_str());
                    w.append("': ");
                    w.append(detail.as_str());
                    warnings.push(w);
                    assert(crate::text::texts(warnings@) =~= load_warnings(ev, reads, i + 1));
                },
            }
            i += 1;
        }
    }
    while i < entries.len()
        invariant
            i <= entries.len(),
            reads.len() <= i || i == entries.len(),
            ev == entry_views(entries@),
            project_views(projects@) == loaded_records(reads, i as int),
            crate::text::texts(warnings@) == load_warnings(ev, reads, i as int),
        decreases entries.len() - i,
    {
        assert(ev[i as int].name == entries@[i as int].name@);
        warnings.push(missing_warning(entries[i].name.as_str()));
        assert(crate::text::texts(warnings@) =~= load_warnings(ev, reads, i + 1));
        i += 1;
    }
    Ok(Some(CacheLoad { projects, warnings }))
}

/// Loads the snapshot from what was found where its file should be: no file
/// is no cache, a file that cannot be read is an error.
pub fn load_cache(read: FileRead<Vec<DiscoveredProject>>) -> (r: Result<
    Option<Vec<DiscoveredProject>>,
    CacheError,
>)
    ensures
        match read {
            FileRead::Missing => r == Ok::<Option<Vec<DiscoveredProject>>, CacheError>(None),
            FileRead::Corrupt(detail) => r == Err::<Option<Vec<DiscoveredProject>>, CacheError>(
                CacheError::Corrupt(detail),
            ),
            FileRead::Loaded(projects) => r == Ok::<Option<Vec<DiscoveredProject>>, CacheError>(
                Some(projects),
            ),
        },
{
    match read {
        FileRead::Missing => Ok(None),
        FileRead::Corrupt(detail) => Err(CacheError::Corrupt(detail)),
        FileRead::Loaded(projects) => Ok(Some(projects)),
    }
}

/// Plans the saving of the snapshot: one write of the whole list, which must
/// succeed.
pub fn save_cache() -> (step: CacheStep)
    ensures
        step@ == (CacheStepView { op: CacheOpView::WriteSnapshot, required: true }),
{
    CacheStep { op: CacheOp::WriteSnapshot, required: true }
}

/// Whether the index lists a project of that name.
pub open spec fn lists_project(entries: Seq<ProjectIndexEntryView>, name: Seq<char>) -> bool {
    exists|i: int| 0 <= i < entries.len() && (#[trigger] entries[i]).name == name
}

/// The position of the first among the first `n` lines that names the
/// project, if one does.
pub open spec fn first_named(entries: Seq<ProjectIndexEntryView>, name: Seq<char>, n: int) -> Option<
    int,
>
    decreases n,
{
    if n <= 0 {
        None
    } else {
        match first_named(entries, name, n - 1) {
            Some(i) => Some(i),
            None => if entries[n - 1].name == name {
                Some(n - 1)
            } else {
                None
            },
        }
    }
}

/// What `first_named` finds is a line of that name with none before it, and
/// it finds one wherever there is one.
pub proof fn lemma_first_named(entries: Seq<ProjectIndexEntryView>, name: Seq<char>, n: int)
    requires
        0 <= n <= entries.len(),
    ensures
        match first_named(entries, name, n) {
            Some(i) => 0 <= i < n && entries[i].name == name && forall|k: int|
                0 <= k < i ==> (#[trigger] entries[k]).name != name,
            None => forall|k: int| 0 <= k < n ==> (#[trigger] entries[k]).name != name,
        },
    decreases n,
{
    if n > 0 {
        lemma_first_named(entries, name, n - 1);
    }
}

/// The first `n` lines of the index without those of the project `name`.
pub open spec fn without(entries: Seq<ProjectIndexEntryView>, name: Seq<char>, n: int) -> Seq<
    ProjectIndexEntryView,
>
    decreases n,
{
    if n <= 0 {
        Seq::empty()
    } else {
        let rest = without(entries, name, n - 1);
        if entries[n - 1].name == name {
            rest
        } else {
            rest.push(entries[n - 1])
        }
    }
}

/// None of the lines that `without` keeps names the project, and it keeps
/// all of them exactly where none did.
pub proof fn lemma_without(entries: Seq<ProjectIndexEntryView>, name: Seq<char>, n: int)
    requires
        0 <= n <= entries.len(),
    ensures
        !lists_project(without(entries, name, n), name),
        without(entries, name, n).len() <= n,
        without(entries, name, n).len() == n <==> first_named(entries, name, n) is None,
        first_named(entries, name, n) is None ==> without(entries, name, n) == entries.take(n),
    decreases n,
{
    if n > 0 {
        lemma_without(entries, name, n - 1);
        let rest = without(entries, name, n - 1);
        if entries[n - 1].name != name {
            let w = rest.push(entries[n - 1]);
            assert forall|i: int| 0 <= i < w.len() implies (#[trigger] w[i]).name != name by {
                if i < rest.len() {
                    assert(rest[i].name != name);
                }
            }
            if first_named(entries, name, n) is None {
                assert(w =~= entries.take(n));
            }
        }
    } else {
        assert(without(entries, name, n) =~= entries.take(n));
    }
}

/// What removing a project from the cache amounts to: whether the index
/// listed it, and the steps to take.
#[derive(Debug, Clone)]
pub struct Removal {
    pub removed: bool,
    pub steps: Vec<CacheStep>,
}

/// The steps that remove the project `name` from an index that lists it: the
/// index is written again without its lines, then its record file is
/// deleted, which may fail.
pub open spec fn removal_plan(entries: Seq<ProjectIndexEntryView>, name: Seq<char>) -> Seq<
    CacheStepView,
> {
    seq![
        CacheStepView {
            op: CacheOpView::WriteIndex { entries: without(entries, name, entries.len() as int) },
            required: true,
        },
        CacheStepView {
            op: CacheOpView::DeleteRecord { file_name: record_file(name) },
            required: false,
        },
    ]
}

/// Removes a project from the sharded cache, given what was found where the
/// index should be. Where there is no index, or the index does not list the
/// project, nothing is removed and nothing is to be done.
pub fn remove_from_cache(project_name: &str, index: &FileRead<Vec<ProjectIndexEntry>>) -> (r: Result<
    Removal,
    CacheError,
>)
    ensures
        match *index {
            FileRead::Missing => r is Ok && !r->Ok_0.removed && r->Ok_0.steps@.len() == 0,
            FileRead::Corrupt(detail) => r is Err && r->Err_0@ == CacheErrorView::Corrupt(detail@),
            FileRead::Loaded(entries) => {
                &&& r is Ok
                &&& r->Ok_0.removed == lists_project(entry_views(entries@), project_name@)
                &&& step_views(r->Ok_0.steps@) == if r->Ok_0.removed {
                    removal_plan(entry_views(entries@), project_name@)
                } else {
                    Seq::empty()
                }
            },
        },
{
    let entries = match index {
        FileRead::Missing => {
            return Ok(Removal { removed: false, steps: Vec::new() });
        },
        FileRead::Corrupt(detail) => {
            return Err(CacheError::Corrupt(detail.clone()));
        },
        FileRead::Loaded(entries) => entries,
    };
    let ghost ev = entry_views(entries@);
    let mut kept: Vec<ProjectIndexEntry> = Vec::new();
    let mut i: usize = 0;
    while i < entries.len()
        invariant
            i <= entries.len(),
            ev == entry_views(entries@),
            entry_views(kept@) == without(ev, project_name@, i as int),
        decreases entries.len() - i,
    {
        assert(ev[i as int] == entries@[i as int]@);
        if !same_text(entries[i].name.as_str(), project_name) {
            kept.push(entries[i].duplicate());
            assert(entry_views(kept@) =~= without(ev, project_name@, i + 1));
        }
        i += 1;
    }
    proof {
        lemma_without(ev, project_name@, ev.len() as int);
        lemma_first_named(ev, project_name@, ev.len() as int);
    }
    if kept.len() == entries.len() {
        let steps: Vec<CacheStep> = Vec::new();
        assert(step_views(steps@) =~= Seq::empty());
        return Ok(Removal { removed: false, steps });
    }
    let mut steps: Vec<CacheStep> = Vec::new();
    steps.push(CacheStep { op: CacheOp::WriteIndex { entries: kept }, required: true });
    steps.push(
        CacheStep {
            op: CacheOp::DeleteRecord { file_name: record_file_name(project_name) },
            required: false,
        },
    );
    assert(step_views(steps@) =~= removal_plan(ev, project_name@));
    Ok(Removal { removed: true, steps })
}

/// The line of the index for the project `name`, given what was found where
/// the index should be.
pub fn find_cached(project_name: &str, index: &FileRead<Vec<ProjectIndexEntry>>) -> (r: Result<
    usize,
    CacheError,
>)
    ensures
        match *index {
            FileRead::Missing => r is Err && r->Err_0@ == CacheErrorView::NoCache,
            FileRead::Corrupt(detail) => r is Err && r->Err_0@ == CacheErrorView::Corrupt(detail@),
            FileRead::Loaded(entries) => match first_named(
                entry_views(entries@),
                project_name@,
                entries@.len() as int,
            ) {
                Some(i) => r is Ok && r->Ok_0 == i && i < entries@.len(),
                None => r is Err && r->Err_0@ == CacheErrorView::NotInCache(project_name@),
            },
        },
{
    let entries = match index {
        FileRead::Missing => {
            return Err(CacheError::NoCache);
        },
        FileRead::Corrupt(detail) => {
            return Err(CacheError::Corrupt(detail.clone()));
        },
        FileRead::Loaded(entries) => entries,
    };
    let ghost ev = entry_views(entries@);
    let mut i: usize = 0;
    while i < entries.len()
        invariant
            i <= entries.len(),
            *index == FileRead::<Vec<ProjectIndexEntry>>::Loaded(*entries),
            ev == entry_views(entries@),
            first_named(ev, project_name@, i as int) is None,
        decreases entries.len() - i,
    {
        assert(ev[i as int] == entries@[i as int]@);
        if same_text(entries[i].name.as_str(), project_name) {
            proof {
                assert(first_named(ev, project_name@, i + 1) == Some(i as int));
                lemma_first_named_stays(ev, project_name@, i + 1, ev.len() as int);
            }
            return Ok(i);
        }
        i += 1;
    }
    Err(CacheError::NotInCache(String::from_str(project_name)))
}

/// A first line that was found stays the first when more are looked at.
pub proof fn lemma_first_named_stays(
    entries: Seq<ProjectIndexEntryView>,
    name: Seq<char>,
    n: int,
    m: int,
)
    requires
        first_named(entries, name, n) is Some,
        n <= m,
    ensures
        first_named(entries, name, m) == first_named(entries, name, n),
    decreases m - n,
{
    if n < m {
        lemma_first_named_stays(entries, name, n, m - 1);
    }
}

/// The path that the cache holds for the project `name`: where to look for
/// its metadata directory before it is refreshed.
pub fn cached_project_path(project_name: &str, index: &FileRead<Vec<ProjectIndexEntry>>) -> (r:
    Result<String, CacheError>)
    ensures
        match *index {
            FileRead::Missing => r is Err && r->Err_0@ == CacheErrorView::NoCache,
            FileRead::Corrupt(detail) => r is Err && r->Err_0@ == CacheErrorView::Corrupt(detail@),
            FileRead::Loaded(entries) => match first_named(
                entry_views(entries@),
                project_name@,
                entries@.len() as int,
            ) {
                Some(i) => r is Ok && r->Ok_0@ == entries@[i].project_path@,
                None => r is Err && r->Err_0@ == CacheErrorView::NotInCache(project_name@),
            },
        },
{
    match find_cached(project_name, index) {
        Err(e) => Err(e),
        Ok(i) => match index {
            FileRead::Loaded(entries) => {
                Ok(entries[i].project_path.clone())
            },
            _ => Err(CacheError::NoCache),
        },
    }
}

/// What was found where the metadata directory of a cached project should
/// be.
#[derive(Debug, Clone)]
pub enum MarkerProbe {
    /// The metadata directory is gone.
    Gone,
    /// It is there: its path, what its state file holds, and the
    /// modification times of its files, or nothing where they could not be
    /// listed.
    Present { hegel_dir: String, state: StateRead, modified: Option<Vec<Timestamp>> },
}

/// The last activity that a probe shows: the latest modification, and the
/// Unix epoch where the files could not be listed.
pub open spec fn probed_activity(modified: Option<Vec<Timestamp>>) -> Timestamp {
    match modified {
        Some(m) => latest_of(m@, m@.len() as int),
        None => Timestamp { secs_since_epoch: 0, nanos_since_epoch: 0 },
    }
}

/// Whether `steps` refresh the project on the `i`-th line of the index: the
/// index is written with that line brought up to date, then the record as it
/// was found again, without its heavy fields. Both must succeed.
pub open spec fn is_refresh_plan(
    steps: Seq<CacheStepView>,
    entries: Seq<ProjectIndexEntryView>,
    i: int,
    hegel_dir: Seq<char>,
    state: StateRead,
    activity: Timestamp,
) -> bool {
    &&& steps.len() == 2
    &&& steps[0] == (CacheStepView {
        op: CacheOpView::WriteIndex {
            entries: entries.update(
                i,
                ProjectIndexEntryView { hegel_dir, last_activity: activity, ..entries[i] },
            ),
        },
        required: true,
    })
    &&& steps[1].required
    &&& steps[1].op is WriteRecord
    &&& steps[1].op->WriteRecord_file_name == record_file(entries[i].name)
    &&& steps[1].op->record == (DiscoveredProjectView {
        name: entries[i].name,
        project_path: entries[i].project_path,
        hegel_dir,
        workflow_state: None,
        last_activity: activity,
        discovered_at: steps[1].op->record.discovered_at,
        error: error_of(state),
        statistics: None,
    })
}

/// Refreshes one project of the sharded cache, given what was found where
/// the index and the project's metadata directory should be. It fails where
/// there is no index, where the index does not list the project, and, with
/// an error of its own, where the metadata directory is gone.
pub fn refresh_project(
    project_name: &str,
    index: &FileRead<Vec<ProjectIndexEntry>>,
    probe: MarkerProbe,
) -> (r: Result<Vec<CacheStep>, CacheError>)
    ensures
        match *index {
            FileRead::Missing => r is Err && r->Err_0@ == CacheErrorView::NoCache,
            FileRead::Corrupt(detail) => r is Err && r->Err_0@ == CacheErrorView::Corrupt(detail@),
            FileRead::Loaded(entries) => match first_named(
                entry_views(entries@),
                project_name@,
                entries@.len() as int,
            ) {
                None => r is Err && r->Err_0@ == CacheErrorView::NotInCache(project_name@),
                Some(i) => match probe {
                    MarkerProbe::Gone => r is Err && r->Err_0@ == (CacheErrorView::MarkerMissing {
                        name: project_name@,
                        project_path: entries@[i].project_path@,
                    }),
                    MarkerProbe::Present { hegel_dir, state, modified } => r is Ok
                        && is_refresh_plan(
                        step_views(r->Ok_0@),
                        entry_views(entries@),
                        i,
                        hegel_dir@,
                        state,
                        probed_activity(modified),
                    ),
                },
            },
        },
{
    let at = match find_cached(project_name, index) {
        Err(e) => {
            return Err(e);
        },
        Ok(at) => at,
    };
    let entries = match index {
        FileRead::Loaded(entries) => entries,
        _ => {
            return Err(CacheError::NoCache);
        },
    };
    let ghost ev = entry_views(entries@);
    proof {
        lemma_first_named(ev, project_name@, ev.len() as int);
    }
    assert(ev[at as int] == entries@[at as int]@);
    let (hegel_dir, state, modified) = match probe {
        MarkerProbe::Gone => {
            return Err(
                CacheError::MarkerMissing {
                    name: String::from_str(project_name),
                    project_path: entries[at].project_path.clone(),
                },
            );
        },
        MarkerProbe::Present { hegel_dir, state, modified } => (hegel_dir, state, modified),
    };
    let ghost state0 = state;
    let (workflow_state, error) = state_and_error(state);
    let last_activity = match &modified {
        Some(m) => DiscoveredProject::calculate_last_activity(m),
        None => Timestamp::epoch(),
    };
    let refreshed = DiscoveredProject::new(
        entries[at].name.clone(),
        entries[at].project_path.clone(),
        hegel_dir.clone(),
        workflow_state,
        last_activity,
        error,
    );
    let mut updated: Vec<ProjectIndexEntry> = Vec::new();
    let mut i: usize = 0;
    while i < entries.len()
        invariant
            i <= entries.len(),
            at < entries.len(),
            ev == entry_views(entries@),
            updated.len() == i,
            forall|k: int|
                0 <= k < i ==> (#[trigger] updated@[k])@ == if k == at {
                    ProjectIndexEntryView { hegel_dir: hegel_dir@, last_activity, ..ev[k] }
                } else {
                    ev[k]
                },
        decreases entries.len() - i,
    {
        assert(ev[i as int] == entries@[i as int]@);
        if i == at {
            updated.push(
                ProjectIndexEntry {
                    name: entries[i].name.clone(),
                    project_path: entries[i].project_path.clone(),
                    hegel_dir: hegel_dir.clone(),
                    last_activity,
                },
            );
        } else {
            updated.push(entries[i].duplicate());
        }
        i += 1;
    }
    assert(entry_views(updated@) =~= ev.update(
        at as int,
        ProjectIndexEntryView { hegel_dir: hegel_dir@, last_activity, ..ev[at as int] },
    ));
    let mut steps: Vec<CacheStep> = Vec::new();
    steps.push(CacheStep { op: CacheOp::WriteIndex { entries: updated }, required: true });
    steps.push(
        CacheStep {
            op: CacheOp::WriteRecord {
                file_name: record_file_name(entries[at].name.as_str()),
                record: refreshed.stored_copy(),
            },
            required: true,
        },
    );
    Ok(steps)
}

/// What refreshing every project of the cache came to.
#[derive(Debug, Clone, PartialEq, Eq)]
pub struct RefreshReport {
    /// How many projects were refreshed.
    pub refreshed: usize,
    /// One line for each project that could not be refreshed.
    pub warnings: Vec<String>,
}

/// How many of the first `n` refreshes succeeded.
pub open spec fn refreshed_count(failures: Seq<Option<String>>, n: int) -> nat
    decreases n,
{
    if n <= 0 {
        0
    } else {
        refreshed_count(failures, n - 1) + if failures[n - 1] is None { 1nat } else { 0nat }
    }
}

/// The warnings for the first `n` refreshes: for each that failed, a line
/// with the project's name and the error.
pub open spec fn refresh_warnings(
    entries: Seq<ProjectIndexEntryView>,
    failures: Seq<Option<String>>,
    n: int,
) -> Seq<Seq<char>>
    decreases n,
{
    if n <= 0 {
        Seq::empty()
    } else {
        let rest = refresh_warnings(entries, failures, n - 1);
        match failures[n - 1] {
            Some(e) => rest.push("  - "@ + entries[n - 1].name + ": "@ + e@),
            None => rest,
        }
    }
}

/// The smaller of two lengths.
pub open spec fn shorter(a: nat, b: nat) -> int {
    if a <= b {
        a as int
    } else {
        b as int
    }
}

/// Sums up a refresh of every project of the cache: `failures[i]` says why
/// the project on the `i`-th line of the index could not be refreshed, or
/// nothing where it was. Lines without an outcome are left out. Without an
/// index there is nothing to refresh, which is an error.
pub fn refresh_all_projects(
    index: &FileRead<Vec<ProjectIndexEntry>>,
    failures: &Vec<Option<String>>,
) -> (r: Result<RefreshReport, CacheError>)
    ensures
        match *index {
            FileRead::Missing => r is Err && r->Err_0@ == CacheErrorView::NoCache,
            FileRead::Corrupt(detail) => r is Err && r->Err_0@ == CacheErrorView::Corrupt(detail@),
            FileRead::Loaded(entries) => {
                let n = shorter(entries@.len(), failures@.len());
                &&& r is Ok
                &&& r->Ok_0.refreshed == refreshed_count(failures@, n)
                &&& crate::text::texts(r->Ok_0.warnings@) == refresh_warnings(
                    entry_views(entries@),
                    failures@,
                    n,
                )
            },
        },
{
    let entries = match index {
        FileRead::Missing => {
            return Err(CacheError::NoCache);
        },
        FileRead::Corrupt(detail) => {
            return Err(CacheError::Corrupt(detail.clone()));
        },
        FileRead::Loaded(entries) => entries,
    };
    let ghost ev = entry_views(entries@);
    let mut refreshed: usize = 0;
    let mut warnings: Vec<String> = Vec::new();
    let mut i: usize = 0;
    while i < entries.len() && i < failures.len()
        invariant
            i <= entries.len(),
            i <= failures.len(),
            ev == entry_views(entries@),
            refreshed == refreshed_count(failures@, i as int),
            refreshed <= i,
            crate::text::texts(warnings@) == refresh_warnings(ev, failures@, i as int),
        decreases entries.len() - i,
    {
        assert(ev[i as int] == entries@[i as int]@);
        match &failures[i] {
            None => {
                refreshed += 1;
            },
            Some(e) => {
                let mut w = String::from_str("  - ");
                w.append(entries[i].name.as_str());
                w.append(": ");
                w.append(e.as_str());
                warnings.push(w);
                assert(crate::text::texts(warnings@) =~= refresh_warnings(ev, failures@, i + 1));
            },
        }
        i += 1;
    }
    Ok(RefreshReport { refreshed, warnings })
}

} // verus!
