//! Media selection over a directory tree.
//!
//! The tree is held as a value: each file carries its full path and its
//! content bytes. Walking is bounded by a recursion-depth budget, files are
//! filtered by their classified kind, and the result can be sampled without
//! replacement.

use vstd::prelude::*;

use crate::mime::{spec_classify, detect_media_kind, MediaKind};

verus! {

/// A directory tree: files carry their path and content, directories their
/// entries.
pub enum FsTree {
    File { path: String, bytes: Vec<u8> },
    Dir { entries: Vec<FsTree> },
}

/// How deep a walk may descend below the starting directory: `Bounded(0)`
/// means "this directory only", `Bounded(n)` descends `n` levels, and
/// `Unbounded` never stops.
#[derive(Debug, Clone, Copy, PartialEq, Eq, Structural)]
pub enum DepthBudget {
    Unbounded,
    Bounded(u32),
}

/// Whether the budget allows descending into a subdirectory.
pub open spec fn may_descend(b: DepthBudget) -> bool {
    match b {
        DepthBudget::Unbounded => true,
        DepthBudget::Bounded(n) => n > 0,
    }
}

/// The budget left after descending one level.
pub open spec fn spec_child_budget(b: DepthBudget) -> DepthBudget {
    match b {
        DepthBudget::Unbounded => DepthBudget::Unbounded,
        DepthBudget::Bounded(n) => DepthBudget::Bounded((n - 1) as u32),
    }
}

/// The paths of the files under `t` whose content classifies as `kind`,
/// in tree order, honouring the depth budget.
pub open spec fn spec_scan(t: FsTree, kind: MediaKind, budget: DepthBudget) -> Seq<String>
    decreases t, 1int,
{
    match t {
        FsTree::File { path, bytes } => if spec_classify(bytes@) == kind {
            seq![path]
        } else {
            Seq::empty()
        },
        FsTree::Dir { entries } => spec_scan_children(
            entries@,
            kind,
            budget,
            entries@.len() as int,
        ),
    }
}

/// The scan of the first `n` entries of a directory, concatenated in order.
pub open spec fn spec_scan_children(
    s: Seq<FsTree>,
    kind: MediaKind,
    budget: DepthBudget,
    n: int,
) -> Seq<String>
    decreases s, 0int, n,
{
    if n <= 0 || n > s.len() {
        Seq::empty()
    } else {
        spec_scan_children(s, kind, budget, n - 1) + spec_scan_entry(s[n - 1], kind, budget)
    }
}

/// The contribution of one directory entry: files are always inspected,
/// subdirectories only while the budget allows another level.
pub open spec fn spec_scan_entry(t: FsTree, kind: MediaKind, budget: DepthBudget) -> Seq<String>
    decreases t, 2int,
{
    match t {
        FsTree::File { .. } => spec_scan(t, kind, budget),
        FsTree::Dir { .. } => if may_descend(budget) {
            spec_scan(t, kind, spec_child_budget(budget))
        } else {
            Seq::empty()
        },
    }
}

/// A file with path `p` classifying as `kind` occurs somewhere under `t`
/// (at any depth).
pub open spec fn file_with_kind_in(t: FsTree, p: String, kind: MediaKind) -> bool
    decreases t,
{
    match t {
        FsTree::File { path, bytes } => path == p && spec_classify(bytes@) == kind,
        FsTree::Dir { entries } => exists|i: int|
            0 <= i < entries@.len() && file_with_kind_in(#[trigger] entries@[i], p, kind),
    }
}

/// Walk the tree and collect the paths of the files whose content classifies
/// as `kind`, descending only while the budget allows.
pub fn scan_tree(t: &FsTree, kind: MediaKind, budget: DepthBudget) -> (r: Vec<String>)
    ensures
        r@ == spec_scan(*t, kind, budget),
    decreases *t, 1int,
{
    match t {
        FsTree::File { path, bytes } => {
            let mut r: Vec<String> = Vec::new();
            if detect_media_kind(bytes) == kind {
                r.push(path.clone());
            }
            r
        },
        FsTree::Dir { entries } => {
            let mut r: Vec<String> = Vec::new();
            let mut i: usize = 0;
            while i < entries.len()
                invariant
                    i <= entries@.len(),
                    *t is Dir,
                    t->Dir_entries@ == entries@,
                    r@ == spec_scan_children(entries@, kind, budget, i as int),
                decreases entries@.len() - i,
            {
                let e = &entries[i];
                proof {
                    assert(decreases_to!(*t => t->Dir_entries));
                    assert(decreases_to!(t->Dir_entries => t->Dir_entries@[i as int]));
                    assert(*e == t->Dir_entries@[i as int]);
                    assert(decreases_to!(*t => *e));
                }
                let mut sub: Vec<String> = match e {
                    FsTree::File { .. } => scan_tree(e, kind, budget),
                    FsTree::Dir { .. } => {
                        match budget {
                            DepthBudget::Unbounded => scan_tree(e, kind, DepthBudget::Unbounded),
                            DepthBudget::Bounded(n) => {
                                if n > 0 {
                                    scan_tree(e, kind, DepthBudget::Bounded(n - 1))
                                } else {
                                    Vec::new()
                                }
                            },
                        }
                    },
                };
                assert(sub@ == spec_scan_entry(entries@[i as int], kind, budget));
                r.append(&mut sub);
                i += 1;
            }
            r
        },
    }
}

/// Every path a scan returns names a file in the tree whose content
/// classifies as the requested kind.
pub proof fn lemma_scan_only_matching(t: FsTree, kind: MediaKind, budget: DepthBudget, p: String)
    requires
        spec_scan(t, kind, budget).contains(p),
    ensures
        file_with_kind_in(t, p, kind),
    decreases t, 1int,
{
    match t {
        FsTree::File { path, bytes } => {},
        FsTree::Dir { entries } => {
            lemma_scan_children_only_matching(entries@, kind, budget, entries@.len() as int, p);
        },
    }
}

proof fn lemma_scan_children_only_matching(
    s: Seq<FsTree>,
    kind: MediaKind,
    budget: DepthBudget,
    n: int,
    p: String,
)
    requires
        0 <= n <= s.len(),
        spec_scan_children(s, kind, budget, n).contains(p),
    ensures
        exists|i: int| 0 <= i < n && file_with_kind_in(#[trigger] s[i], p, kind),
    decreases s, 0int, n,
{
    let left = spec_scan_children(s, kind, budget, n - 1);
    let right = spec_scan_entry(s[n - 1], kind, budget);
    let k = choose|k: int| 0 <= k < (left + right).len() && (left + right)[k] == p;
    if k < left.len() {
        assert(left.contains(p));
        lemma_scan_children_only_matching(s, kind, budget, n - 1, p);
    } else {
        assert(right.contains(p)) by {
            assert(right[k - left.len()] == p);
        }
        match s[n - 1] {
            FsTree::File { .. } => {
                lemma_scan_only_matching(s[n - 1], kind, budget, p);
            },
            FsTree::Dir { .. } => {
                lemma_scan_only_matching(s[n - 1], kind, spec_child_budget(budget), p);
            },
        }
        assert(file_with_kind_in(s[n - 1], p, kind));
    }
}

/// Renaming a file never changes whether it is selected: two files with the
/// same bytes are both selected or both skipped, whatever their paths.
pub proof fn lemma_rename_keeps_selection(
    t1: FsTree,
    t2: FsTree,
    kind: MediaKind,
    budget: DepthBudget,
)
    requires
        t1 is File,
        t2 is File,
        t1->File_bytes@ == t2->File_bytes@,
    ensures
        spec_scan(t1, kind, budget) == seq![t1->File_path] <==> spec_scan(t2, kind, budget)
            == seq![t2->File_path],
        spec_scan(t1, kind, budget).len() == spec_scan(t2, kind, budget).len(),
{
    if spec_classify(t1->File_bytes@) == kind {
        assert(spec_scan(t1, kind, budget) =~= seq![t1->File_path]);
        assert(spec_scan(t2, kind, budget) =~= seq![t2->File_path]);
    } else {
        assert(spec_scan(t1, kind, budget).len() == 0);
        assert(spec_scan(t2, kind, budget).len() == 0);
        assert(seq![t1->File_path].len() == 1);
        assert(seq![t2->File_path].len() == 1);
    }
}

/// Relies on rand::random_range: a uniformly random value below `bound`,
/// freshly drawn on every call. It panics only on an empty range, which the
/// precondition rules out.
#[verifier::external_body]
fn random_index(bound: usize) -> (r: usize)
    requires
        bound > 0,
    ensures
        r < bound,
{
    rand::random_range(0..bound)
}

/// Draw `count` elements from `pool` without replacement, uniformly at
/// random. When `count` exceeds the pool it is clamped: the whole pool comes
/// back (in some order). The result never holds an element more often than
/// the pool did.
pub fn sample_paths(pool: Vec<String>, count: usize) -> (r: Vec<String>)
    ensures
        r@.len() == if count <= pool@.len() {
            count as int
        } else {
            pool@.len() as int
        },
        r@.to_multiset().subset_of(pool@.to_multiset()),
{
    broadcast use vstd::seq_lib::group_to_multiset_ensures;
    broadcast use vstd::multiset::group_multiset_axioms;

    let ghost all = pool@.to_multiset();
    let mut remaining = pool;
    let mut picked: Vec<String> = Vec::new();
    while picked.len() < count && remaining.len() > 0
        invariant
            picked@.len() <= count,
            picked@.to_multiset().add(remaining@.to_multiset()) =~= all,
            picked@.len() + remaining@.len() == all.len(),
        decreases remaining@.len(),
    {
        let j = random_index(remaining.len());
        let ghost rem0 = remaining@;
        let ghost picked0 = picked@;
        let x = remaining.remove(j);
        picked.push(x);
        proof {
            broadcast use vstd::seq_lib::group_to_multiset_ensures;
            broadcast use vstd::multiset::group_multiset_axioms;

            assert(x == rem0[j as int]);
            assert(remaining@ == rem0.remove(j as int));
            assert(rem0.remove(j as int).to_multiset() == rem0.to_multiset().remove(
                rem0[j as int],
            ));
            assert(picked@ == picked0.push(x));
            assert(picked0.push(x).to_multiset() =~= picked0.to_multiset().insert(x));
            assert(rem0.contains(x)) by {
                assert(rem0[j as int] == x);
            }
            assert(rem0.to_multiset().count(x) > 0);
            assert forall|v: String|
                picked@.to_multiset().add(remaining@.to_multiset()).count(v) == all.count(
                    v,
                ) by {
                assert(picked0.to_multiset().add(rem0.to_multiset()) =~= all);
                assert(picked0.to_multiset().count(v) + rem0.to_multiset().count(v) == all.count(
                    v,
                ));
            }
            assert(picked@.to_multiset().add(remaining@.to_multiset()) =~= all);
        }
    }
    proof {
        assert forall|v: String|
            picked@.to_multiset().count(v) <= #[trigger] all.count(v) by {
            assert(all.count(v) == picked@.to_multiset().count(v) + remaining@.to_multiset().count(
                v,
            ));
        }
    }
    picked
}

/// A sample drawn from a duplicate-free pool is itself duplicate-free: the
/// draws are without replacement.
pub proof fn lemma_sample_no_duplicates(pool: Seq<String>, picked: Seq<String>)
    requires
        pool.no_duplicates(),
        picked.to_multiset().subset_of(pool.to_multiset()),
    ensures
        picked.no_duplicates(),
{
    broadcast use vstd::seq_lib::group_to_multiset_ensures;

    pool.lemma_multiset_has_no_duplicates();
    picked.lemma_multiset_has_no_duplicates_conv();
}

/// The scan modes the command line offers.
#[derive(Debug, Clone, Copy, PartialEq, Eq, Structural)]
pub enum ScanMode {
    StaticImage,
    DynamicMedia,
}

impl ScanMode {
    /// The media kind a scan mode asks for.
    pub fn media_kind(&self) -> (r: MediaKind)
        ensures
            r == self.spec_media_kind(),
    {
        match self {
            ScanMode::StaticImage => MediaKind::StaticImage,
            ScanMode::DynamicMedia => MediaKind::AnimatedImage,
        }
    }

    pub open spec fn spec_media_kind(self) -> MediaKind {
        match self {
            ScanMode::StaticImage => MediaKind::StaticImage,
            ScanMode::DynamicMedia => MediaKind::AnimatedImage,
        }
    }
}

/// Why a media scan could not run.
#[derive(Debug, Clone, Copy, PartialEq, Eq, Structural)]
pub enum ScanError {
    /// No media path was provided.
    NoMediaPath,
}

/// Translate the command-line depth convention: a negative value means
/// unbounded recursion, zero or a positive value bounds the descent.
pub fn depth_budget_of(depth: i32) -> (r: DepthBudget)
    ensures
        depth < 0 ==> r == DepthBudget::Unbounded,
        depth >= 0 ==> r == DepthBudget::Bounded(depth as u32),
{
    if depth < 0 {
        DepthBudget::Unbounded
    } else {
        DepthBudget::Bounded(depth as u32)
    }
}

/// Collect every matching file under `root` with no depth bound.
pub fn scan_media_recursive(root: &FsTree, filter: MediaKind) -> (r: Vec<String>)
    ensures
        r@ == spec_scan(*root, filter, DepthBudget::Unbounded),
{
    scan_tree(root, filter, DepthBudget::Unbounded)
}

/// Select media files under `root`: walk within the depth budget, keep the
/// files classifying as `kind`, and, when asked, sample that many distinct
/// files without replacement (clamped to what is available).
pub fn select(
    root: &FsTree,
    kind: MediaKind,
    max_depth: DepthBudget,
    sample_count: Option<usize>,
) -> (r: Vec<String>)
    ensures
        ({
            let found = spec_scan(*root, kind, max_depth);
            match sample_count {
                None => r@ == found,
                Some(n) => r@.len() == if n <= found.len() {
                    n as int
                } else {
                    found.len() as int
                } && r@.to_multiset().subset_of(found.to_multiset()),
            }
        }),
{
    let found = scan_tree(root, kind, max_depth);
    match sample_count {
        None => found,
        Some(n) => sample_paths(found, n),
    }
}

/// Scan a media tree the way the orchestration asks for it: an absent root is
/// an error, and the random mode draws `random_amount` files (one when the
/// amount is absent) without replacement.
pub fn scan_media(
    root: Option<&FsTree>,
    mode: MediaKind,
    random: bool,
    random_amount: Option<usize>,
) -> (r: Result<Vec<String>, ScanError>)
    ensures
        root is None <==> r == Err::<Vec<String>, ScanError>(ScanError::NoMediaPath),
        ({
            match root {
                None => true,
                Some(t) => {
                    let found = spec_scan(*t, mode, DepthBudget::Unbounded);
                    let amount = if random_amount is Some {
                        random_amount->0
                    } else {
                        1
                    };
                    &&& r is Ok
                    &&& (!random ==> r->Ok_0@ == found)
                    &&& (random ==> r->Ok_0@.len() == if amount <= found.len() {
                        amount as int
                    } else {
                        found.len() as int
                    } && r->Ok_0@.to_multiset().subset_of(found.to_multiset()))
                },
            }
        }),
{
    match root {
        None => Err(ScanError::NoMediaPath),
        Some(t) => {
            let found = scan_tree(t, mode, DepthBudget::Unbounded);
            if random {
                let amount = match random_amount {
                    Some(n) => n,
                    None => 1,
                };
                Ok(sample_paths(found, amount))
            } else {
                Ok(found)
            }
        },
    }
}

} // verus!
