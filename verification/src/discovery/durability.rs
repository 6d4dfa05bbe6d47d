//! The cache directory as a mathematical object, and what the plans of the
//! durable cache do to it: a save followed by a load gives back what was
//! saved, and a save that stops before the index is written leaves the cache
//! as loadable as it was.

use vstd::prelude::*;
use crate::discovery::cache::{
    index_of, loaded_records, read_at, record_file, save_plan, CacheOpView, CacheStepView,
    FileRead, ProjectIndexEntryView,
};
use crate::discovery::project::{stored, DiscoveredProject, DiscoveredProjectView};

verus! {

/// The files of a cache directory that can be read: the index, if there is
/// one, and the records by the names of their files.
pub struct CacheDir {
    pub index: Option<Seq<ProjectIndexEntryView>>,
    pub records: Map<Seq<char>, DiscoveredProjectView>,
}

/// The directory after one change. A write replaces the file as a whole.
pub open spec fn apply_op(dir: CacheDir, op: CacheOpView) -> CacheDir {
    match op {
        CacheOpView::WriteRecord { file_name, record } => CacheDir {
            records: dir.records.insert(file_name, record),
            ..dir
        },
        CacheOpView::WriteIndex { entries } => CacheDir { index: Some(entries), ..dir },
        CacheOpView::WriteSnapshot => dir,
        CacheOpView::DeleteRecord { file_name } => CacheDir {
            records: dir.records.remove(file_name),
            ..dir
        },
    }
}

/// The directory after the first `n` steps of a plan, each of which
/// succeeded.
pub open spec fn apply_steps(dir: CacheDir, steps: Seq<CacheStepView>, n: int) -> CacheDir
    decreases n,
{
    if n <= 0 {
        dir
    } else {
        apply_op(apply_steps(dir, steps, n - 1), steps[n - 1].op)
    }
}

/// The records of the first `n` lines of an index whose files are there, in
/// the order of the index.
pub open spec fn present_records(dir: CacheDir, entries: Seq<ProjectIndexEntryView>, n: int) -> Seq<
    DiscoveredProjectView,
>
    decreases n,
{
    if n <= 0 {
        Seq::empty()
    } else {
        let rest = present_records(dir, entries, n - 1);
        let file = record_file(entries[n - 1].name);
        if dir.records.dom().contains(file) {
            rest.push(dir.records[file])
        } else {
            rest
        }
    }
}

/// What a load of the directory gives: nothing without an index, else the
/// records that the index lists and that are there.
pub open spec fn load_dir(dir: CacheDir) -> Option<Seq<DiscoveredProjectView>> {
    match dir.index {
        None => None,
        Some(entries) => Some(present_records(dir, entries, entries.len() as int)),
    }
}

/// Whether `reads` is what reading the record files of `entries` in `dir`
/// finds: a record where the file is there, none where it is not.
pub open spec fn reads_reflect(
    dir: CacheDir,
    entries: Seq<ProjectIndexEntryView>,
    reads: Seq<FileRead<DiscoveredProject>>,
) -> bool {
    forall|i: int|
        0 <= i < entries.len() ==> match #[trigger] read_at(reads, i) {
            FileRead::Loaded(p) => dir.records.dom().contains(record_file(entries[i].name))
                && dir.records[record_file(entries[i].name)] == p@,
            _ => !dir.records.dom().contains(record_file(entries[i].name)),
        }
}

/// A load from reads that reflect the directory gives the records that the
/// directory holds for the index.
pub proof fn lemma_load_reflects(
    dir: CacheDir,
    entries: Seq<ProjectIndexEntryView>,
    reads: Seq<FileRead<DiscoveredProject>>,
    n: int,
)
    requires
        reads_reflect(dir, entries, reads),
        0 <= n <= entries.len(),
    ensures
        loaded_records(reads, n) == present_records(dir, entries, n),
    decreases n,
{
    if n > 0 {
        lemma_load_reflects(dir, entries, reads, n - 1);
        let r = read_at(reads, n - 1);
    }
}

/// Whether one of the projects from `lo` up to `hi` is written to the file
/// `f`.
pub open spec fn writes_to(ps: Seq<DiscoveredProjectView>, f: Seq<char>, lo: int, hi: int) -> bool
    decreases hi - lo,
{
    lo < hi && (record_file(ps[hi - 1].name) == f || writes_to(ps, f, lo, hi - 1))
}

/// Where no project of a range is written to `f`, none of them has `f` as
/// its file, and the other way round.
pub proof fn lemma_writes_to(ps: Seq<DiscoveredProjectView>, f: Seq<char>, lo: int, hi: int)
    ensures
        writes_to(ps, f, lo, hi) <==> exists|i: int|
            lo <= i < hi && record_file(#[trigger] ps[i].name) == f,
    decreases hi - lo,
{
    if lo < hi {
        lemma_writes_to(ps, f, lo, hi - 1);
        if record_file(ps[hi - 1].name) == f {
            assert(lo <= hi - 1 < hi && record_file(ps[hi - 1].name) == f);
        }
    }
}

/// The first `k` record writes of a save leave the index as it was.
pub proof fn lemma_index_kept(dir: CacheDir, ps: Seq<DiscoveredProjectView>, k: int)
    requires
        0 <= k <= ps.len(),
    ensures
        apply_steps(dir, save_plan(ps), k).index == dir.index,
    decreases k,
{
    if k > 0 {
        lemma_index_kept(dir, ps, k - 1);
    }
}

/// The first `k` record writes of a save lose no file, and a file that none
/// of them is written to stays as it was.
pub proof fn lemma_file_kept(dir: CacheDir, ps: Seq<DiscoveredProjectView>, k: int, f: Seq<char>)
    requires
        0 <= k <= ps.len(),
    ensures
        dir.records.dom().contains(f) ==> apply_steps(dir, save_plan(ps), k).records.dom().contains(
            f,
        ),
        !writes_to(ps, f, 0, k) ==> apply_steps(dir, save_plan(ps), k).records.dom().contains(f)
            == dir.records.dom().contains(f) && apply_steps(dir, save_plan(ps), k).records[f]
            == dir.records[f],
    decreases k,
{
    if k > 0 {
        lemma_file_kept(dir, ps, k - 1, f);
    }
}

/// After the first `k` record writes of a save, the file of each project
/// written is there, and it holds the copy of that project unless a later
/// one was written to the same file.
pub proof fn lemma_file_written(dir: CacheDir, ps: Seq<DiscoveredProjectView>, k: int, i: int)
    requires
        0 <= i < k <= ps.len(),
    ensures
        apply_steps(dir, save_plan(ps), k).records.dom().contains(record_file(ps[i].name)),
        !writes_to(ps, record_file(ps[i].name), i + 1, k) ==> apply_steps(
            dir,
            save_plan(ps),
            k,
        ).records[record_file(ps[i].name)] == stored(ps[i]),
    decreases k,
{
    if i < k - 1 {
        lemma_file_written(dir, ps, k - 1, i);
    }
}

/// Round trip: after a save of projects whose record files differ, a load
/// gives the same projects in the same order, each without its heavy fields,
/// so with the same names.
pub proof fn lemma_save_then_load(dir: CacheDir, ps: Seq<DiscoveredProjectView>)
    requires
        forall|i: int, j: int|
            0 <= i < j < ps.len() ==> record_file(#[trigger] ps[i].name) != record_file(
                #[trigger] ps[j].name,
            ),
    ensures
        load_dir(apply_steps(dir, save_plan(ps), (ps.len() + 1) as int)) == Some(
            Seq::new(ps.len(), |i: int| stored(ps[i])),
        ),
        forall|i: int|
            #![trigger ps[i]]
            0 <= i < ps.len() ==> {
                let loaded = load_dir(apply_steps(dir, save_plan(ps), (ps.len() + 1) as int))->0;
                &&& loaded[i].name == ps[i].name
                &&& loaded[i].workflow_state is None
                &&& loaded[i].statistics is None
            },
{
    let n = ps.len() as int;
    let written = apply_steps(dir, save_plan(ps), n);
    let saved = apply_steps(dir, save_plan(ps), n + 1);
    assert(save_plan(ps)[n].op == CacheOpView::WriteIndex { entries: index_of(ps) });
    assert(saved == CacheDir { index: Some(index_of(ps)), ..written });
    assert forall|i: int| 0 <= i < ps.len() implies saved.records.dom().contains(
        record_file(#[trigger] ps[i].name),
    ) && saved.records[record_file(ps[i].name)] == stored(ps[i]) by {
        lemma_file_written(dir, ps, n, i);
        lemma_writes_to(ps, record_file(ps[i].name), i + 1, n);
    }
    lemma_present_after_save(saved, ps, n);
    assert(present_records(saved, index_of(ps), n) =~= Seq::new(ps.len(), |i: int| stored(ps[i])));
}

proof fn lemma_present_after_save(saved: CacheDir, ps: Seq<DiscoveredProjectView>, m: int)
    requires
        0 <= m <= ps.len(),
        forall|i: int|
            0 <= i < ps.len() ==> saved.records.dom().contains(
                record_file(#[trigger] ps[i].name),
            ) && saved.records[record_file(ps[i].name)] == stored(ps[i]),
    ensures
        present_records(saved, index_of(ps), m).len() == m,
        forall|i: int|
            0 <= i < m ==> #[trigger] present_records(saved, index_of(ps), m)[i] == stored(ps[i]),
    decreases m,
{
    if m > 0 {
        lemma_present_after_save(saved, ps, m - 1);
        assert(index_of(ps)[m - 1].name == ps[m - 1].name);
    }
}

/// Round trip through the files: where the record files of the projects
/// differ, loading what a faithful read of the directory finds after a save
/// gives the projects that were saved, each without its heavy fields.
pub proof fn lemma_save_then_read(
    dir: CacheDir,
    ps: Seq<DiscoveredProjectView>,
    reads: Seq<FileRead<DiscoveredProject>>,
)
    requires
        forall|i: int, j: int|
            0 <= i < j < ps.len() ==> record_file(#[trigger] ps[i].name) != record_file(
                #[trigger] ps[j].name,
            ),
        reads_reflect(
            apply_steps(dir, save_plan(ps), (ps.len() + 1) as int),
            index_of(ps),
            reads,
        ),
    ensures
        loaded_records(reads, ps.len() as int) == Seq::new(ps.len(), |i: int| stored(ps[i])),
{
    let saved = apply_steps(dir, save_plan(ps), (ps.len() + 1) as int);
    lemma_save_then_load(dir, ps);
    lemma_index_kept(dir, ps, ps.len() as int);
    assert(save_plan(ps)[ps.len() as int].op == CacheOpView::WriteIndex { entries: index_of(ps) });
    assert(saved.index == Some(index_of(ps)));
    lemma_load_reflects(saved, index_of(ps), reads, ps.len() as int);
}

/// Every record that was there before is there after, so a load finds at
/// least as many.
pub proof fn lemma_no_record_lost(
    before: CacheDir,
    after: CacheDir,
    entries: Seq<ProjectIndexEntryView>,
    n: int,
)
    requires
        0 <= n <= entries.len(),
        forall|f: Seq<char>| #[trigger]
            before.records.dom().contains(f) ==> after.records.dom().contains(f),
    ensures
        present_records(before, entries, n).len() <= present_records(after, entries, n).len(),
    decreases n,
{
    if n > 0 {
        lemma_no_record_lost(before, after, entries, n - 1);
    }
}

/// Atomicity: a save that stops after any number of record writes, before
/// the index is written, leaves the index as it was and loses no record
/// file; a record file that was not written again holds what it held. So the
/// cache loads as before, with at least as many records.
pub proof fn lemma_crash_before_index(dir: CacheDir, ps: Seq<DiscoveredProjectView>, k: int)
    requires
        0 <= k <= ps.len(),
    ensures
        apply_steps(dir, save_plan(ps), k).index == dir.index,
        forall|f: Seq<char>| #[trigger]
            dir.records.dom().contains(f) ==> apply_steps(
                dir,
                save_plan(ps),
                k,
            ).records.dom().contains(f),
        forall|f: Seq<char>|
            dir.records.dom().contains(f) && (forall|i: int|
                0 <= i < k ==> record_file(#[trigger] ps[i].name) != f) ==> #[trigger] apply_steps(
                dir,
                save_plan(ps),
                k,
            ).records[f] == dir.records[f],
        load_dir(apply_steps(dir, save_plan(ps), k)) is Some == load_dir(dir) is Some,
        load_dir(dir) is Some ==> load_dir(dir)->0.len() <= load_dir(
            apply_steps(dir, save_plan(ps), k),
        )->0.len(),
{
    lemma_index_kept(dir, ps, k);
    assert forall|f: Seq<char>| #[trigger] dir.records.dom().contains(f) implies apply_steps(
        dir,
        save_plan(ps),
        k,
    ).records.dom().contains(f) by {
        lemma_file_kept(dir, ps, k, f);
    }
    assert forall|f: Seq<char>|
        dir.records.dom().contains(f) && (forall|i: int|
            0 <= i < k ==> record_file(#[trigger] ps[i].name) != f) implies #[trigger] apply_steps(
        dir,
        save_plan(ps),
        k,
    ).records[f] == dir.records[f] by {
        lemma_file_kept(dir, ps, k, f);
        lemma_writes_to(ps, f, 0, k);
    }
    if dir.index is Some {
        let entries = dir.index->0;
        lemma_no_record_lost(
            dir,
            apply_steps(dir, save_plan(ps), k),
            entries,
            entries.len() as int,
        );
    }
}

} // verus!
