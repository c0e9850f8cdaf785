use crate::branch_status::BranchStatus;
use vstd::prelude::*;

verus! {

/// The change flags that git reports for one path: those of the index against
/// the head commit, those of the working tree against the index, and the
/// conflict flag.
#[derive(Clone, Copy, Debug, PartialEq, Eq, Structural)]
pub struct ChangeFlags {
    pub conflict: bool,
    pub index_new: bool,
    pub index_modified: bool,
    pub index_deleted: bool,
    pub index_typechange: bool,
    pub index_renamed: bool,
    pub wt_new: bool,
    pub wt_modified: bool,
    pub wt_deleted: bool,
    pub wt_typechange: bool,
    pub wt_renamed: bool,
}

/// The three questions that the classification asks of one path.
pub trait StatusEntryExt {
    /// The path has an unresolved conflict.
    spec fn has_conflict(&self) -> bool;

    /// The path has a change in the working tree that is not staged.
    spec fn has_unstaged(&self) -> bool;

    /// The path has a change recorded in the index.
    spec fn has_staged(&self) -> bool;

    fn is_conflicted(&self) -> (r: bool)
        ensures
            r == self.has_conflict(),
    ;

    fn is_unstaged(&self) -> (r: bool)
        ensures
            r == self.has_unstaged(),
    ;

    fn is_staged(&self) -> (r: bool)
        ensures
            r == self.has_staged(),
    ;
}

impl ChangeFlags {
    /// The flags of a path on which git reports nothing.
    pub open spec fn spec_none() -> ChangeFlags {
        ChangeFlags {
            conflict: false,
            index_new: false,
            index_modified: false,
            index_deleted: false,
            index_typechange: false,
            index_renamed: false,
            wt_new: false,
            wt_modified: false,
            wt_deleted: false,
            wt_typechange: false,
            wt_renamed: false,
        }
    }

    /// Returns the flags of a path on which git reports nothing.
    pub fn none() -> (r: ChangeFlags)
        ensures
            r == ChangeFlags::spec_none(),
    {
        ChangeFlags {
            conflict: false,
            index_new: false,
            index_modified: false,
            index_deleted: false,
            index_typechange: false,
            index_renamed: false,
            wt_new: false,
            wt_modified: false,
            wt_deleted: false,
            wt_typechange: false,
            wt_renamed: false,
        }
    }
}

impl StatusEntryExt for ChangeFlags {
    open spec fn has_conflict(&self) -> bool {
        self.conflict
    }

    /// A file that is new in the working tree does not count: `wt_new` is
    /// left out on purpose.
    open spec fn has_unstaged(&self) -> bool {
        self.wt_modified || self.wt_deleted || self.wt_typechange || self.wt_renamed
    }

    open spec fn has_staged(&self) -> bool {
        self.index_new || self.index_modified || self.index_deleted || self.index_typechange
            || self.index_renamed
    }

    fn is_conflicted(&self) -> (r: bool) {
        self.conflict
    }

    fn is_unstaged(&self) -> (r: bool) {
        self.wt_modified || self.wt_deleted || self.wt_typechange || self.wt_renamed
    }

    fn is_staged(&self) -> (r: bool) {
        self.index_new || self.index_modified || self.index_deleted || self.index_typechange
            || self.index_renamed
    }
}

/// The level that one path alone gives: the most severe of its flags.
pub open spec fn entry_status<T: StatusEntryExt>(e: &T) -> BranchStatus {
    if e.has_conflict() {
        BranchStatus::Conflicted
    } else if e.has_unstaged() {
        BranchStatus::Unstaged
    } else if e.has_staged() {
        BranchStatus::Staged
    } else {
        BranchStatus::NotChanged
    }
}

/// Some entry of `s` satisfies `f`.
pub open spec fn some_entry<T>(s: Seq<T>, f: spec_fn(T) -> bool) -> bool {
    exists|i: int| 0 <= i < s.len() && #[trigger] f(s[i])
}

pub open spec fn some_conflict<T: StatusEntryExt>(s: Seq<T>) -> bool {
    some_entry(s, |e: T| e.has_conflict())
}

pub open spec fn some_unstaged<T: StatusEntryExt>(s: Seq<T>) -> bool {
    some_entry(s, |e: T| e.has_unstaged())
}

pub open spec fn some_staged<T: StatusEntryExt>(s: Seq<T>) -> bool {
    some_entry(s, |e: T| e.has_staged())
}

/// The status of a working copy with the given entries: conflicted if any
/// path is, else unstaged if any path is, else staged if any path is, else
/// unchanged.
pub open spec fn classify_spec<T: StatusEntryExt>(s: Seq<T>) -> BranchStatus {
    if some_conflict(s) {
        BranchStatus::Conflicted
    } else if some_unstaged(s) {
        BranchStatus::Unstaged
    } else if some_staged(s) {
        BranchStatus::Staged
    } else {
        BranchStatus::NotChanged
    }
}

proof fn lemma_some_entry_take<T>(s: Seq<T>, i: int, f: spec_fn(T) -> bool)
    requires
        0 <= i < s.len(),
    ensures
        some_entry(s.take(i + 1), f) == (some_entry(s.take(i), f) || f(s[i])),
{
    let p = s.take(i);
    let q = s.take(i + 1);
    if some_entry(p, f) {
        let j = choose|j: int| 0 <= j < p.len() && #[trigger] f(p[j]);
        assert(q[j] == p[j]);
        assert(f(q[j]));
    }
    if f(s[i]) {
        assert(q[i] == s[i]);
        assert(f(q[i]));
    }
    if some_entry(q, f) {
        let j = choose|j: int| 0 <= j < q.len() && #[trigger] f(q[j]);
        if j < i {
            assert(p[j] == q[j]);
            assert(f(p[j]));
        } else {
            assert(q[j] == s[i]);
        }
    }
}

/// Taking one more entry into account raises the status to the level of that
/// entry, if it is the more severe.
pub proof fn lemma_classify_take<T: StatusEntryExt>(s: Seq<T>, i: int)
    requires
        0 <= i < s.len(),
    ensures
        classify_spec(s.take(i + 1)) == classify_spec(s.take(i)).worse(entry_status(&s[i])),
{
    lemma_some_entry_take(s, i, |e: T| e.has_conflict());
    lemma_some_entry_take(s, i, |e: T| e.has_unstaged());
    lemma_some_entry_take(s, i, |e: T| e.has_staged());
}

proof fn lemma_some_entry_permutation<T>(a: Seq<T>, b: Seq<T>, f: spec_fn(T) -> bool)
    requires
        a.to_multiset() == b.to_multiset(),
        some_entry(a, f),
    ensures
        some_entry(b, f),
{
    let i = choose|i: int| 0 <= i < a.len() && #[trigger] f(a[i]);
    a.to_multiset_ensures();
    b.to_multiset_ensures();
    assert(a.contains(a[i]));
    assert(b.to_multiset().count(a[i]) > 0);
    assert(b.contains(a[i]));
    let j = choose|j: int| 0 <= j < b.len() && b[j] == a[i];
    assert(f(b[j]));
}

/// The status does not depend on the order of the entries: two sequences
/// that hold the same entries, each as often, have the same status.
pub proof fn lemma_classify_permutation<T: StatusEntryExt>(a: Seq<T>, b: Seq<T>)
    requires
        a.to_multiset() == b.to_multiset(),
    ensures
        classify_spec(a) == classify_spec(b),
{
    let c = |e: T| e.has_conflict();
    let u = |e: T| e.has_unstaged();
    let g = |e: T| e.has_staged();
    if some_entry(a, c) {
        lemma_some_entry_permutation(a, b, c);
    }
    if some_entry(b, c) {
        lemma_some_entry_permutation(b, a, c);
    }
    if some_entry(a, u) {
        lemma_some_entry_permutation(a, b, u);
    }
    if some_entry(b, u) {
        lemma_some_entry_permutation(b, a, u);
    }
    if some_entry(a, g) {
        lemma_some_entry_permutation(a, b, g);
    }
    if some_entry(b, g) {
        lemma_some_entry_permutation(b, a, g);
    }
}

/// Without entries the working copy is unchanged.
pub proof fn lemma_classify_empty<T: StatusEntryExt>()
    ensures
        classify_spec(Seq::<T>::empty()) == BranchStatus::NotChanged,
{
}

/// One conflicted entry makes the status `Conflicted`, whatever the other
/// entries and the other flags of that entry are.
pub proof fn lemma_conflict_dominates<T: StatusEntryExt>(s: Seq<T>, i: int)
    requires
        0 <= i < s.len(),
        s[i].has_conflict(),
    ensures
        classify_spec(s) == BranchStatus::Conflicted,
{
    let c = |e: T| e.has_conflict();
    assert(c(s[i]));
}

/// Where no entry is conflicted, one unstaged entry makes the status
/// `Unstaged`.
pub proof fn lemma_unstaged_without_conflict<T: StatusEntryExt>(s: Seq<T>, i: int)
    requires
        0 <= i < s.len(),
        s[i].has_unstaged(),
        forall|j: int| 0 <= j < s.len() ==> !(#[trigger] s[j]).has_conflict(),
    ensures
        classify_spec(s) == BranchStatus::Unstaged,
{
    let u = |e: T| e.has_unstaged();
    assert(u(s[i]));
}

/// Where no entry is conflicted or unstaged, one staged entry makes the
/// status `Staged`.
pub proof fn lemma_staged_alone<T: StatusEntryExt>(s: Seq<T>, i: int)
    requires
        0 <= i < s.len(),
        s[i].has_staged(),
        forall|j: int| 0 <= j < s.len() ==> !(#[trigger] s[j]).has_conflict(),
        forall|j: int| 0 <= j < s.len() ==> !(#[trigger] s[j]).has_unstaged(),
    ensures
        classify_spec(s) == BranchStatus::Staged,
{
    let g = |e: T| e.has_staged();
    assert(g(s[i]));
}

/// The status is the maximum of the levels of the entries: no entry is more
/// severe, and unless the status is `NotChanged` some entry is as severe.
pub proof fn lemma_classify_is_maximum<T: StatusEntryExt>(s: Seq<T>)
    ensures
        forall|i: int|
            0 <= i < s.len() ==> (#[trigger] entry_status(&s[i])).severity() <= classify_spec(
                s,
            ).severity(),
        classify_spec(s) != BranchStatus::NotChanged ==> exists|i: int|
            0 <= i < s.len() && #[trigger] entry_status(&s[i]) == classify_spec(s),
{
    let c = |e: T| e.has_conflict();
    let u = |e: T| e.has_unstaged();
    let g = |e: T| e.has_staged();
    assert forall|i: int| 0 <= i < s.len() implies (#[trigger] entry_status(
        &s[i],
    )).severity() <= classify_spec(s).severity() by {
        assert(s[i].has_conflict() ==> c(s[i]));
        assert(s[i].has_unstaged() ==> u(s[i]));
        assert(s[i].has_staged() ==> g(s[i]));
    }
    if some_entry(s, c) {
        let i = choose|i: int| 0 <= i < s.len() && #[trigger] c(s[i]);
        assert(entry_status(&s[i]) == classify_spec(s));
    } else if some_entry(s, u) {
        let i = choose|i: int| 0 <= i < s.len() && #[trigger] u(s[i]);
        assert(!c(s[i]));
        assert(entry_status(&s[i]) == classify_spec(s));
    } else if some_entry(s, g) {
        let i = choose|i: int| 0 <= i < s.len() && #[trigger] g(s[i]);
        assert(!c(s[i]));
        assert(!u(s[i]));
        assert(entry_status(&s[i]) == classify_spec(s));
    }
}

/// Whether a path is new in the working tree changes nothing: the three
/// questions have the same answers with the flag and without it, and a path
/// with that flag alone leaves the working copy unchanged.
pub proof fn lemma_new_file_does_not_count(e: ChangeFlags, new: bool)
    ensures
        (ChangeFlags { wt_new: new, ..e }).has_conflict() == e.has_conflict(),
        (ChangeFlags { wt_new: new, ..e }).has_unstaged() == e.has_unstaged(),
        (ChangeFlags { wt_new: new, ..e }).has_staged() == e.has_staged(),
        entry_status(&(ChangeFlags { wt_new: new, ..e })) == entry_status(&e),
        classify_spec(seq![(ChangeFlags { wt_new: true, ..ChangeFlags::spec_none() })])
            == BranchStatus::NotChanged,
{
}

/// Raises `acc` to the level of the entry `e`, if that is the more severe.
pub fn raise_for<T: StatusEntryExt>(acc: BranchStatus, e: &T) -> (r: BranchStatus)
    ensures
        r == acc.worse(entry_status(e)),
{
    if acc < BranchStatus::Conflicted && e.is_conflicted() {
        BranchStatus::Conflicted
    } else if acc < BranchStatus::Unstaged && e.is_unstaged() {
        BranchStatus::Unstaged
    } else if acc < BranchStatus::Staged && e.is_staged() {
        BranchStatus::Staged
    } else {
        acc
    }
}

/// Reduces the entries of a working copy to its status.
pub fn classify<T: StatusEntryExt>(entries: &[T]) -> (r: BranchStatus)
    ensures
        r == classify_spec(entries@),
{
    let n: usize = entries.len();
    let mut acc = BranchStatus::NotChanged;
    let mut i: usize = 0;
    while i < n
        invariant
            n == entries@.len(),
            0 <= i <= n,
            acc == classify_spec(entries@.take(i as int)),
        decreases n - i,
    {
        proof {
            lemma_classify_take(entries@, i as int);
        }
        acc = raise_for(acc, &entries[i]);
        i += 1;
    }
    assert(entries@.take(n as int) =~= entries@);
    acc
}

} // verus!
