//! Selection of the workspace packages that hold guest programs.
use vstd::prelude::*;

verus! {

/// The kind of one build target of a package.
#[derive(PartialEq, Eq, Structural, Clone, Copy)]
pub enum TargetKind {
    Bin,
    Lib,
    Other,
}

/// One build target: the kinds it is tagged with.
pub struct Target {
    pub kinds: Vec<TargetKind>,
}

/// A resolved workspace package, as far as guest building reads it.
pub struct PackageInfo {
    pub name: String,
    pub manifest_path: String,
    /// Whether the package's metadata holds the guest build annotation.
    pub has_guest_metadata: bool,
    pub targets: Vec<Target>,
}

impl Target {
    pub open spec fn spec_is_bin(&self) -> bool {
        self.kinds@.contains(TargetKind::Bin)
    }

    /// Whether the target builds a binary.
    pub fn is_bin(&self) -> (r: bool)
        ensures
            r == self.spec_is_bin(),
    {
        let mut i: usize = 0;
        while i < self.kinds.len()
            invariant
                0 <= i <= self.kinds@.len(),
                forall|j: int| 0 <= j < i ==> self.kinds@[j] != TargetKind::Bin,
            decreases self.kinds@.len() - i,
        {
            if self.kinds[i] == TargetKind::Bin {
                return true;
            }
            i = i + 1;
        }
        false
    }
}

impl PackageInfo {
    pub open spec fn has_bin_target(&self) -> bool {
        exists|i: int| 0 <= i < self.targets@.len() && #[trigger] self.targets@[i].spec_is_bin()
    }

    /// A package is built as a guest if and only if it carries the annotation
    /// and declares at least one binary target.
    pub open spec fn spec_is_eligible(&self) -> bool {
        self.has_guest_metadata && self.has_bin_target()
    }

    /// Whether the package is built as a guest.
    pub fn is_eligible(&self) -> (r: bool)
        ensures
            r == self.spec_is_eligible(),
    {
        if !self.has_guest_metadata {
            return false;
        }
        let mut i: usize = 0;
        while i < self.targets.len()
            invariant
                0 <= i <= self.targets@.len(),
                self.has_guest_metadata,
                forall|j: int| 0 <= j < i ==> !(#[trigger] self.targets@[j].spec_is_bin()),
            decreases self.targets@.len() - i,
        {
            if self.targets[i].is_bin() {
                assert(self.targets@[i as int].spec_is_bin());
                return true;
            }
            i = i + 1;
        }
        false
    }
}

/// Indices of the eligible packages among the first `n`, in order.
pub open spec fn eligible_indices(pkgs: Seq<PackageInfo>, n: int) -> Seq<usize>
    decreases n,
{
    if n <= 0 {
        seq![]
    } else {
        let prev = eligible_indices(pkgs, n - 1);
        if pkgs[n - 1].spec_is_eligible() {
            prev.push((n - 1) as usize)
        } else {
            prev
        }
    }
}

/// The indices of the packages to build, in workspace order.
pub fn select_packages(pkgs: &Vec<PackageInfo>) -> (r: Vec<usize>)
    ensures
        r@ == eligible_indices(pkgs@, pkgs@.len() as int),
{
    let mut r: Vec<usize> = Vec::new();
    let mut i: usize = 0;
    while i < pkgs.len()
        invariant
            0 <= i <= pkgs@.len(),
            r@ == eligible_indices(pkgs@, i as int),
        decreases pkgs@.len() - i,
    {
        if pkgs[i].is_eligible() {
            r.push(i);
        }
        i = i + 1;
    }
    r
}

/// An index is selected exactly when it names an eligible package; the selection
/// is strictly increasing, so workspace order is kept.
pub proof fn lemma_eligible_indices(pkgs: Seq<PackageInfo>, n: int)
    requires
        0 <= n <= pkgs.len(),
        pkgs.len() <= usize::MAX,
    ensures
        forall|k: int|
            0 <= k < pkgs.len() ==> (eligible_indices(pkgs, n).contains(k as usize) <==> (k < n
                && pkgs[k].spec_is_eligible())),
        forall|a: int, b: int|
            0 <= a < b < eligible_indices(pkgs, n).len() ==> eligible_indices(pkgs, n)[a]
                < eligible_indices(pkgs, n)[b],
        forall|a: int|
            0 <= a < eligible_indices(pkgs, n).len() ==> eligible_indices(pkgs, n)[a] < n,
    decreases n,
{
    if n > 0 {
        lemma_eligible_indices(pkgs, n - 1);
        let prev = eligible_indices(pkgs, n - 1);
        if pkgs[n - 1].spec_is_eligible() {
            let cur = prev.push((n - 1) as usize);
            assert forall|k: int| 0 <= k < pkgs.len() implies (cur.contains(k as usize) <==> (k < n
                && pkgs[k].spec_is_eligible())) by {
                if k == n - 1 {
                    assert(cur[cur.len() - 1] == k as usize);
                }
                if cur.contains(k as usize) && k != n - 1 {
                    let j = choose|j: int| 0 <= j < cur.len() && cur[j] == k as usize;
                    assert(j < prev.len());
                    assert(prev.contains(k as usize));
                }
                if prev.contains(k as usize) {
                    let j = choose|j: int| 0 <= j < prev.len() && prev[j] == k as usize;
                    assert(cur[j] == k as usize);
                }
            }
        }
    }
}

/// A package without the guest annotation is never selected, whatever its targets.
pub proof fn lemma_unannotated_excluded(pkgs: Seq<PackageInfo>, k: int)
    requires
        0 <= k < pkgs.len(),
        pkgs.len() <= usize::MAX,
        !pkgs[k].has_guest_metadata,
    ensures
        !eligible_indices(pkgs, pkgs.len() as int).contains(k as usize),
{
    lemma_eligible_indices(pkgs, pkgs.len() as int);
}

/// A package without a binary target is never selected, even with the annotation.
pub proof fn lemma_no_bin_excluded(pkgs: Seq<PackageInfo>, k: int)
    requires
        0 <= k < pkgs.len(),
        pkgs.len() <= usize::MAX,
        forall|t: int| 0 <= t < pkgs[k].targets@.len() ==> !(#[trigger] pkgs[k].targets@[t].spec_is_bin()),
    ensures
        !eligible_indices(pkgs, pkgs.len() as int).contains(k as usize),
{
    assert(!pkgs[k].has_bin_target());
    lemma_eligible_indices(pkgs, pkgs.len() as int);
}

} // verus!
