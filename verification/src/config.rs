//! Choosing one graphics configuration out of those the platform offers.
//!
//! Candidates are ranked by transparency first and by sample count second.
//! [`negotiate`] returns the position of the best candidate; among equally
//! good ones the first seen wins.

use vstd::prelude::*;
use crate::error::SetupError;

verus! {

/// The family of graphics API that a configuration serves.
#[derive(Clone, Copy, Debug, PartialEq, Eq, Structural)]
pub enum ApiKind {
    OpenGl,
    Gles,
    Other,
}

/// What the negotiation reads of a configuration offered by the platform.
#[derive(Clone, Copy, Debug, PartialEq, Eq, Structural)]
pub struct CandidateConfig {
    pub supports_transparency: bool,
    pub sample_count: u32,
    pub api_kind: ApiKind,
}

impl CandidateConfig {
    /// A candidate with the given attributes.
    pub fn new(supports_transparency: bool, sample_count: u32, api_kind: ApiKind) -> (c:
        CandidateConfig)
        ensures
            c.supports_transparency == supports_transparency,
            c.sample_count == sample_count,
            c.api_kind == api_kind,
    {
        CandidateConfig { supports_transparency, sample_count, api_kind }
    }

    /// Whether `self` is strictly preferred to `other`: it is transparent and
    /// `other` is not, or the two agree on transparency and `self` has more
    /// samples.
    pub open spec fn beats(self, other: CandidateConfig) -> bool {
        (self.supports_transparency && !other.supports_transparency) || (self.supports_transparency
            == other.supports_transparency && self.sample_count > other.sample_count)
    }

    /// Whether `self` is strictly preferred to `other`.
    pub fn is_preferred_to(&self, other: &CandidateConfig) -> (b: bool)
        ensures
            b == self.beats(*other),
    {
        (self.supports_transparency && !other.supports_transparency) || (self.supports_transparency
            == other.supports_transparency && self.sample_count > other.sample_count)
    }
}

/// Position `i` holds the selection from `candidates`: no candidate beats it,
/// and it beats every candidate before it.
pub open spec fn is_selection(candidates: Seq<CandidateConfig>, i: int) -> bool {
    &&& 0 <= i < candidates.len()
    &&& forall|j: int| 0 <= j < candidates.len() ==> !(#[trigger] candidates[j]).beats(candidates[i])
    &&& forall|j: int| 0 <= j < i ==> candidates[i].beats(#[trigger] candidates[j])
}

/// The position of the preferred candidate, or `NoSuitableConfig` for an
/// empty list.
pub fn negotiate(candidates: &Vec<CandidateConfig>) -> (r: Result<usize, SetupError>)
    ensures
        candidates@.len() == 0 <==> r is Err,
        r is Err ==> r == Err::<usize, SetupError>(SetupError::NoSuitableConfig),
        r matches Ok(i) ==> is_selection(candidates@, i as int),
{
    if candidates.len() == 0 {
        return Err(SetupError::NoSuitableConfig);
    }
    let mut best: usize = 0;
    let mut k: usize = 1;
    while k < candidates.len()
        invariant
            1 <= k <= candidates@.len(),
            is_selection(candidates@.subrange(0, k as int), best as int),
        decreases candidates@.len() - k,
    {
        let ghost before = candidates@.subrange(0, k as int);
        let ghost after = candidates@.subrange(0, k + 1);
        let ghost old_best = best;
        if candidates[k].is_preferred_to(&candidates[best]) {
            best = k;
        }
        proof {
            assert forall|j: int| 0 <= j < after.len() implies !(#[trigger] after[j]).beats(
                after[best as int],
            ) by {
                if j < k {
                    assert(before[j] == after[j]);
                    assert(!before[j].beats(before[old_best as int]));
                }
            }
            assert forall|j: int| 0 <= j < best implies after[best as int].beats(
                #[trigger] after[j],
            ) by {
                assert(before[j] == after[j]);
                if best == k {
                    assert(!before[j].beats(before[old_best as int]));
                    if j < old_best {
                        assert(before[old_best as int].beats(before[j]));
                    }
                } else {
                    assert(before[old_best as int].beats(before[j]));
                }
            }
        }
        k = k + 1;
    }
    proof {
        assert(candidates@.subrange(0, k as int) =~= candidates@);
    }
    Ok(best)
}

/// The position that a reduction over the first `n` candidates ends with: it
/// starts with the first candidate and moves on to each later one that beats
/// the candidate it holds.
pub open spec fn reduced(candidates: Seq<CandidateConfig>, n: nat) -> int
    decreases n,
{
    if n <= 1 {
        0
    } else {
        let held = reduced(candidates, (n - 1) as nat);
        if candidates[n - 1].beats(candidates[held]) {
            n - 1
        } else {
            held
        }
    }
}

/// The reduction from left to right ends with the selection.
pub proof fn lemma_reduction_is_selection(candidates: Seq<CandidateConfig>, n: nat)
    requires
        1 <= n <= candidates.len(),
    ensures
        is_selection(candidates.subrange(0, n as int), reduced(candidates, n)),
    decreases n,
{
    let now = candidates.subrange(0, n as int);
    if n > 1 {
        lemma_reduction_is_selection(candidates, (n - 1) as nat);
        let before = candidates.subrange(0, n - 1);
        let held = reduced(candidates, (n - 1) as nat);
        let chosen = reduced(candidates, n);
        assert forall|j: int| 0 <= j < now.len() implies !(#[trigger] now[j]).beats(
            now[chosen],
        ) by {
            if j < n - 1 {
                assert(before[j] == now[j]);
                assert(!before[j].beats(before[held]));
            }
        }
        assert forall|j: int| 0 <= j < chosen implies now[chosen].beats(#[trigger] now[j]) by {
            assert(before[j] == now[j]);
            assert(!before[j].beats(before[held]));
            if j < held {
                assert(before[held].beats(before[j]));
            }
        }
    }
}

/// The selection is transparent whenever some candidate is, and no candidate
/// that agrees with it on transparency has more samples.
pub proof fn lemma_selection_is_lexicographic_maximum(candidates: Seq<CandidateConfig>, i: int)
    requires
        is_selection(candidates, i),
    ensures
        forall|j: int|
            0 <= j < candidates.len() && (#[trigger] candidates[j]).supports_transparency
                ==> candidates[i].supports_transparency,
        forall|j: int|
            0 <= j < candidates.len() && (#[trigger] candidates[j]).supports_transparency
                == candidates[i].supports_transparency ==> candidates[j].sample_count
                <= candidates[i].sample_count,
{
    assert forall|j: int|
        0 <= j < candidates.len() && (#[trigger] candidates[j]).supports_transparency
            implies candidates[i].supports_transparency by {
        assert(!candidates[j].beats(candidates[i]));
    }
    assert forall|j: int|
        0 <= j < candidates.len() && (#[trigger] candidates[j]).supports_transparency
            == candidates[i].supports_transparency implies candidates[j].sample_count
        <= candidates[i].sample_count by {
        assert(!candidates[j].beats(candidates[i]));
    }
}

/// A list has at most one selection: among equally good candidates the first
/// one is chosen.
pub proof fn lemma_selection_is_unique(candidates: Seq<CandidateConfig>, i: int, k: int)
    requires
        is_selection(candidates, i),
        is_selection(candidates, k),
    ensures
        i == k,
{
    if i < k {
        assert(candidates[k].beats(candidates[i]));
        assert(!candidates[k].beats(candidates[i]));
    } else if k < i {
        assert(candidates[i].beats(candidates[k]));
        assert(!candidates[i].beats(candidates[k]));
    }
}

/// Reordering the candidates does not change the attributes of the selection:
/// two lists with the same candidates, each as often as in the other, select
/// the same transparency and the same sample count.
pub proof fn lemma_selection_attributes_survive_reordering(
    a: Seq<CandidateConfig>,
    b: Seq<CandidateConfig>,
    i: int,
    k: int,
)
    requires
        a.to_multiset() == b.to_multiset(),
        is_selection(a, i),
        is_selection(b, k),
    ensures
        a[i].supports_transparency == b[k].supports_transparency,
        a[i].sample_count == b[k].sample_count,
{
    a.to_multiset_ensures();
    b.to_multiset_ensures();
    assert(a.contains(a[i]));
    assert(b.contains(b[k]));
    assert(b.to_multiset().count(a[i]) > 0);
    assert(a.to_multiset().count(b[k]) > 0);
    assert(b.contains(a[i]));
    assert(a.contains(b[k]));
    let j = choose|j: int| 0 <= j < b.len() && b[j] == a[i];
    let l = choose|l: int| 0 <= l < a.len() && a[l] == b[k];
    assert(!b[j].beats(b[k]));
    assert(!a[l].beats(a[i]));
}

} // verus!
