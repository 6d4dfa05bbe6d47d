//! The scanner's rules: which of the entries of a directory walk mark a
//! project. The walk itself is the caller's.

use vstd::prelude::*;
use vstd::string::*;
use crate::sorting::{is_permutation, lists, reorder};
use crate::text::{same_text, texts};

verus! {

/// One entry that a walk of a root directory came by, as far as the scanner
/// reads it.
#[derive(Debug, Clone)]
pub struct WalkEntry {
    /// The file names on the way from the root, which comes first, down to
    /// the entry itself, which comes last. A name that is no valid text is
    /// absent.
    pub components: Vec<Option<String>>,
    /// The path of the directory that holds the entry, where it has one.
    pub parent: Option<String>,
    /// Whether the entry is a directory itself, not a link to one.
    pub is_dir: bool,
}

/// Whether `name` is among the excluded names.
pub open spec fn excludes(exclusions: Seq<String>, name: Seq<char>) -> bool {
    exists|x: int| 0 <= x < exclusions.len() && (#[trigger] exclusions[x])@ == name
}

/// Whether a file name keeps a walk out of the entry: it is excluded. A name
/// that is no valid text never is.
pub open spec fn name_excluded(exclusions: Seq<String>, name: Option<String>) -> bool {
    name is Some && excludes(exclusions, name->0@)
}

/// Whether an exclusion prunes the entry: one of the names on the way to it,
/// its own included, is excluded.
pub open spec fn is_pruned(e: WalkEntry, exclusions: Seq<String>) -> bool {
    exists|c: int|
        0 <= c < e.components@.len() && name_excluded(exclusions, #[trigger] e.components@[c])
}

/// How deep below the root the entry lies; the root itself lies at depth 0.
pub open spec fn depth(e: WalkEntry) -> int {
    e.components@.len() - 1
}

/// Whether the entry is a project marker: a directory named `.hegel`.
pub open spec fn is_marker(e: WalkEntry) -> bool {
    e.is_dir && e.components@.len() > 0 && e.components@.last() is Some
        && e.components@.last()->0@ == ".hegel"@
}

/// Whether the entry marks a project that the scan returns: a marker within
/// the depth that no exclusion prunes, inside some directory.
pub open spec fn is_found(e: WalkEntry, max_depth: usize, exclusions: Seq<String>) -> bool {
    is_marker(e) && depth(e) <= max_depth && !is_pruned(e, exclusions) && e.parent is Some
}

/// The project roots that the first `n` entries mark, in the order of the
/// entries.
pub open spec fn found_roots(
    entries: Seq<WalkEntry>,
    max_depth: usize,
    exclusions: Seq<String>,
    n: int,
) -> Seq<Seq<char>>
    decreases n,
{
    if n <= 0 {
        Seq::empty()
    } else {
        let rest = found_roots(entries, max_depth, exclusions, n - 1);
        if is_found(entries[n - 1], max_depth, exclusions) {
            rest.push(entries[n - 1].parent->0@)
        } else {
            rest
        }
    }
}

/// Whether `root` is the parent of one of the first `n` entries that marks a
/// project.
pub open spec fn marks(
    entries: Seq<WalkEntry>,
    max_depth: usize,
    exclusions: Seq<String>,
    n: int,
    root: Seq<char>,
) -> bool {
    exists|i: int|
        0 <= i < n && is_found(#[trigger] entries[i], max_depth, exclusions) && entries[i].parent->0@
            == root
}

/// The roots that a scan returns are the parents of the entries that mark a
/// project, and no others.
pub proof fn lemma_found_roots(
    entries: Seq<WalkEntry>,
    max_depth: usize,
    exclusions: Seq<String>,
    n: int,
    root: Seq<char>,
)
    requires
        0 <= n <= entries.len(),
    ensures
        found_roots(entries, max_depth, exclusions, n).contains(root) <==> marks(
            entries,
            max_depth,
            exclusions,
            n,
            root,
        ),
    decreases n,
{
    if n > 0 {
        lemma_found_roots(entries, max_depth, exclusions, n - 1, root);
        let rest = found_roots(entries, max_depth, exclusions, n - 1);
        let all = found_roots(entries, max_depth, exclusions, n);
        let e = entries[n - 1];
        if is_found(e, max_depth, exclusions) {
            let p = e.parent->0@;
            assert(all == rest.push(p));
            if all.contains(root) {
                let k = choose|k: int| 0 <= k < all.len() && all[k] == root;
                if k < rest.len() {
                    assert(rest[k] == root);
                    assert(rest.contains(root));
                } else {
                    assert(is_found(entries[n - 1], max_depth, exclusions));
                }
            }
            if marks(entries, max_depth, exclusions, n, root) {
                let i = choose|i: int|
                    0 <= i < n && is_found(#[trigger] entries[i], max_depth, exclusions)
                        && entries[i].parent->0@ == root;
                if i < n - 1 {
                    assert(marks(entries, max_depth, exclusions, n - 1, root));
                    let k = choose|k: int| 0 <= k < rest.len() && rest[k] == root;
                    assert(all[k] == root);
                } else {
                    assert(all[rest.len() as int] == root);
                }
            }
        } else {
            if marks(entries, max_depth, exclusions, n, root) {
                let i = choose|i: int|
                    0 <= i < n && is_found(#[trigger] entries[i], max_depth, exclusions)
                        && entries[i].parent->0@ == root;
                assert(i < n - 1);
                assert(marks(entries, max_depth, exclusions, n - 1, root));
            }
            if marks(entries, max_depth, exclusions, n - 1, root) {
                let i = choose|i: int|
                    0 <= i < n - 1 && is_found(#[trigger] entries[i], max_depth, exclusions)
                        && entries[i].parent->0@ == root;
                assert(0 <= i < n);
            }
        }
    } else {
        assert(!found_roots(entries, max_depth, exclusions, n).contains(root));
    }
}

/// Exclusion pruning: every root that a scan returns is the parent of a
/// marker on whose way, from the scanned root down to the marker itself, no
/// name is excluded. A marker beneath an excluded name is never returned, at
/// any depth.
pub proof fn lemma_exclusions_prune(
    entries: Seq<WalkEntry>,
    max_depth: usize,
    exclusions: Seq<String>,
    k: int,
)
    requires
        0 <= k < found_roots(entries, max_depth, exclusions, entries.len() as int).len(),
    ensures
        exists|i: int|
            0 <= i < entries.len() && is_marker(#[trigger] entries[i]) && !is_pruned(
                entries[i],
                exclusions,
            ) && entries[i].parent is Some && entries[i].parent->0@ == found_roots(
                entries,
                max_depth,
                exclusions,
                entries.len() as int,
            )[k],
{
    let roots = found_roots(entries, max_depth, exclusions, entries.len() as int);
    assert(roots.contains(roots[k]));
    lemma_found_roots(entries, max_depth, exclusions, entries.len() as int, roots[k]);
}

/// Order independence: two walks that came by the same entries in different
/// orders give the same set of project roots.
pub proof fn lemma_scan_order_independent(
    first: Seq<WalkEntry>,
    second: Seq<WalkEntry>,
    perm: Seq<int>,
    max_depth: usize,
    exclusions: Seq<String>,
)
    requires
        is_permutation(perm, first.len() as int),
        second == reorder(first, perm),
    ensures
        found_roots(first, max_depth, exclusions, first.len() as int).to_set() == found_roots(
            second,
            max_depth,
            exclusions,
            second.len() as int,
        ).to_set(),
{
    let a = found_roots(first, max_depth, exclusions, first.len() as int);
    let b = found_roots(second, max_depth, exclusions, second.len() as int);
    assert forall|root: Seq<char>| a.contains(root) == b.contains(root) by {
        lemma_found_roots(first, max_depth, exclusions, first.len() as int, root);
        lemma_found_roots(second, max_depth, exclusions, second.len() as int, root);
        if marks(first, max_depth, exclusions, first.len() as int, root) {
            let i = choose|i: int|
                0 <= i < first.len() && is_found(#[trigger] first[i], max_depth, exclusions)
                    && first[i].parent->0@ == root;
            assert(lists(perm, i));
            let j = choose|j: int| 0 <= j < perm.len() && perm[j] == i;
            assert(second[j] == first[i]);
        }
        if marks(second, max_depth, exclusions, second.len() as int, root) {
            let j = choose|j: int|
                0 <= j < second.len() && is_found(#[trigger] second[j], max_depth, exclusions)
                    && second[j].parent->0@ == root;
            assert(second[j] == first[perm[j]]);
            assert(0 <= perm[j] < first.len());
        }
    }
    assert(a.to_set() =~= b.to_set());
}

/// Whether `name` is among the excluded names.
pub fn is_excluded(name: &str, exclusions: &Vec<String>) -> (r: bool)
    ensures
        r == excludes(exclusions@, name@),
{
    let mut x: usize = 0;
    while x < exclusions.len()
        invariant
            x <= exclusions.len(),
            forall|k: int| 0 <= k < x ==> (#[trigger] exclusions@[k])@ != name@,
        decreases exclusions.len() - x,
    {
        if same_text(exclusions[x].as_str(), name) {
            return true;
        }
        x += 1;
    }
    false
}

/// Whether a walk goes on with an entry of that file name, and into it where
/// it is a directory: it does unless the name is excluded.
pub fn keeps_entry(file_name: &Option<String>, exclusions: &Vec<String>) -> (r: bool)
    ensures
        r == !name_excluded(exclusions@, *file_name),
{
    match file_name {
        Some(name) => !is_excluded(name.as_str(), exclusions),
        None => true,
    }
}

/// Whether an exclusion prunes the entry.
pub fn entry_is_pruned(e: &WalkEntry, exclusions: &Vec<String>) -> (r: bool)
    ensures
        r == is_pruned(*e, exclusions@),
{
    let mut c: usize = 0;
    while c < e.components.len()
        invariant
            c <= e.components.len(),
            forall|k: int| 0 <= k < c ==> !name_excluded(exclusions@, #[trigger] e.components@[k]),
        decreases e.components.len() - c,
    {
        if !keeps_entry(&e.components[c], exclusions) {
            return true;
        }
        c += 1;
    }
    false
}

/// Whether the entry is a project marker.
pub fn entry_is_marker(e: &WalkEntry) -> (r: bool)
    ensures
        r == is_marker(*e),
{
    if !e.is_dir || e.components.len() == 0 {
        return false;
    }
    match &e.components[e.components.len() - 1] {
        Some(name) => same_text(name.as_str(), ".hegel"),
        None => false,
    }
}

/// Finds the project roots among the entries of a walk: the parent of every
/// marker directory that lies within `max_depth` below the root and that no
/// exclusion prunes. An excluded name anywhere on the way to a marker,
/// whatever the depth, keeps the marker out. A marker inside another
/// project is found like any other.
pub fn find_hegel_directories(
    entries: &Vec<WalkEntry>,
    max_depth: usize,
    exclusions: &Vec<String>,
) -> (found: Vec<String>)
    ensures
        texts(found@) == found_roots(entries@, max_depth, exclusions@, entries@.len() as int),
{
    let mut found: Vec<String> = Vec::new();
    let mut i: usize = 0;
    while i < entries.len()
        invariant
            i <= entries.len(),
            texts(found@) == found_roots(entries@, max_depth, exclusions@, i as int),
        decreases entries.len() - i,
    {
        let e = &entries[i];
        if entry_is_marker(e) && e.components.len() - 1 <= max_depth && !entry_is_pruned(
            e,
            exclusions,
        ) {
            match &e.parent {
                Some(parent) => {
                    found.push(parent.clone());
                    assert(texts(found@) =~= found_roots(entries@, max_depth, exclusions@, i + 1));
                },
                None => {},
            }
        }
        i += 1;
    }
    found
}

} // verus!
