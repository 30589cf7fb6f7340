//! Setting up the rendering context, as far as it is decided here.
//!
//! The platform creates the context, creates the surface and makes the context
//! current; this module selects the configuration for them, keeps track of
//! which step is due, and names the failure of each.

use vstd::prelude::*;
use crate::config::{is_selection, ApiKind, CandidateConfig};
use crate::error::SetupError;

verus! {

/// A step that the platform performs for a selected configuration.
#[derive(Clone, Copy, Debug, PartialEq, Eq, Structural)]
pub enum SetupStep {
    CreateContext,
    CreateSurface,
    MakeCurrent,
}

/// How far the setup of the context has come.
#[derive(Clone, Copy, Debug, PartialEq, Eq, Structural)]
pub struct ContextSetup {
    /// The position of the selected configuration among the candidates.
    pub selected: usize,
    /// The step that is due, or nothing once the context is current.
    pub pending: Option<SetupStep>,
}

/// Position `i` holds the selection from the candidates of the family `api`:
/// it belongs to the family, no candidate of the family beats it, and it beats
/// every candidate of the family before it.
pub open spec fn is_selection_among(candidates: Seq<CandidateConfig>, api: ApiKind, i: int) -> bool {
    &&& 0 <= i < candidates.len()
    &&& candidates[i].api_kind == api
    &&& forall|j: int|
        0 <= j < candidates.len() && (#[trigger] candidates[j]).api_kind == api
            ==> !candidates[j].beats(candidates[i])
    &&& forall|j: int|
        0 <= j < i && (#[trigger] candidates[j]).api_kind == api ==> candidates[i].beats(
            candidates[j],
        )
}

/// Whether some candidate belongs to the family `api`.
pub open spec fn offers(candidates: Seq<CandidateConfig>, api: ApiKind) -> bool {
    exists|j: int| 0 <= j < candidates.len() && (#[trigger] candidates[j]).api_kind == api
}

/// The failure that a step ends in.
pub open spec fn failure_of(step: SetupStep) -> SetupError {
    match step {
        SetupStep::CreateContext => SetupError::ContextCreationFailed,
        SetupStep::CreateSurface => SetupError::SurfaceCreationFailed,
        SetupStep::MakeCurrent => SetupError::MakeCurrentFailed,
    }
}

/// The step that follows a step, or nothing after the last.
pub open spec fn step_after(step: SetupStep) -> Option<SetupStep> {
    match step {
        SetupStep::CreateContext => Some(SetupStep::CreateSurface),
        SetupStep::CreateSurface => Some(SetupStep::MakeCurrent),
        SetupStep::MakeCurrent => None,
    }
}

/// Begins the setup: selects the preferred candidate of the family
/// `requested`. An empty list is refused as `NoSuitableConfig`, a list without
/// a candidate of the family as `NoCompatibleApi`. The first step due is the
/// creation of the context.
pub fn setup(candidates: &Vec<CandidateConfig>, requested: ApiKind) -> (r: Result<
    ContextSetup,
    SetupError,
>)
    ensures
        candidates@.len() == 0 ==> r == Err::<ContextSetup, SetupError>(
            SetupError::NoSuitableConfig,
        ),
        candidates@.len() > 0 && !offers(candidates@, requested) ==> r == Err::<
            ContextSetup,
            SetupError,
        >(SetupError::NoCompatibleApi),
        offers(candidates@, requested) ==> (r matches Ok(s) && is_selection_among(
            candidates@,
            requested,
            s.selected as int,
        ) && s.pending == Some(SetupStep::CreateContext)),
{
    if candidates.len() == 0 {
        return Err(SetupError::NoSuitableConfig);
    }
    let mut best: Option<usize> = None;
    let mut k: usize = 0;
    while k < candidates.len()
        invariant
            k <= candidates@.len(),
            best is None ==> !offers(candidates@.subrange(0, k as int), requested),
            best matches Some(b) ==> is_selection_among(
                candidates@.subrange(0, k as int),
                requested,
                b as int,
            ),
        decreases candidates@.len() - k,
    {
        let ghost before = candidates@.subrange(0, k as int);
        let ghost after = candidates@.subrange(0, k + 1);
        let ghost old_best = best;
        let candidate = &candidates[k];
        if candidate.api_kind == requested {
            match best {
                None => {
                    best = Some(k);
                },
                Some(b) => {
                    if candidate.is_preferred_to(&candidates[b]) {
                        best = Some(k);
                    }
                },
            }
        }
        proof {
            assert(forall|j: int| 0 <= j < k ==> before[j] == after[j]);
            match best {
                None => {
                    assert forall|j: int| 0 <= j < after.len() implies (#[trigger] after[j]).api_kind
                        != requested by {
                        if j < k {
                            assert(before[j] == after[j]);
                        }
                    }
                },
                Some(b) => {
                    assert forall|j: int|
                        0 <= j < after.len() && (#[trigger] after[j]).api_kind
                            == requested implies !after[j].beats(after[b as int]) by {
                        if j < k {
                            assert(before[j] == after[j]);
                            if let Some(ob) = old_best {
                                assert(!before[j].beats(before[ob as int]));
                            }
                        }
                    }
                    assert forall|j: int|
                        0 <= j < b && (#[trigger] after[j]).api_kind
                            == requested implies after[b as int].beats(after[j]) by {
                        assert(before[j] == after[j]);
                        if let Some(ob) = old_best {
                            assert(!before[j].beats(before[ob as int]));
                            if j < ob {
                                assert(before[ob as int].beats(before[j]));
                            }
                        }
                    }
                },
            }
        }
        k = k + 1;
    }
    proof {
        assert(candidates@.subrange(0, k as int) =~= candidates@);
    }
    match best {
        None => Err(SetupError::NoCompatibleApi),
        Some(b) => Ok(ContextSetup { selected: b, pending: Some(SetupStep::CreateContext) }),
    }
}

impl ContextSetup {
    /// Whether the context is current: no step is due.
    pub fn is_current(&self) -> (b: bool)
        ensures
            b == (self.pending is None),
    {
        self.pending.is_none()
    }

    /// Records how the step that was due has ended. A failure ends the setup
    /// with the error of that step; a success makes the next step due. Once
    /// the context is current nothing changes any more.
    pub fn step_finished(self, succeeded: bool) -> (r: Result<ContextSetup, SetupError>)
        ensures
            self.pending is None ==> r == Ok::<ContextSetup, SetupError>(self),
            self.pending matches Some(step) ==> r == (if succeeded {
                Ok::<ContextSetup, SetupError>(
                    ContextSetup { selected: self.selected, pending: step_after(step) },
                )
            } else {
                Err::<ContextSetup, SetupError>(failure_of(step))
            }),
    {
        match self.pending {
            None => Ok(self),
            Some(step) => {
                if succeeded {
                    let next = match step {
                        SetupStep::CreateContext => Some(SetupStep::CreateSurface),
                        SetupStep::CreateSurface => Some(SetupStep::MakeCurrent),
                        SetupStep::MakeCurrent => None,
                    };
                    Ok(ContextSetup { selected: self.selected, pending: next })
                } else {
                    Err(
                        match step {
                            SetupStep::CreateContext => SetupError::ContextCreationFailed,
                            SetupStep::CreateSurface => SetupError::SurfaceCreationFailed,
                            SetupStep::MakeCurrent => SetupError::MakeCurrentFailed,
                        },
                    )
                }
            },
        }
    }
}

/// Where every candidate belongs to the requested family, the selection
/// among the family is the selection from the whole list.
pub proof fn lemma_selection_in_one_family(candidates: Seq<CandidateConfig>, api: ApiKind, i: int)
    requires
        forall|j: int| 0 <= j < candidates.len() ==> (#[trigger] candidates[j]).api_kind == api,
    ensures
        is_selection_among(candidates, api, i) <==> is_selection(candidates, i),
{
    if is_selection_among(candidates, api, i) {
        assert forall|j: int| 0 <= j < candidates.len() implies !(#[trigger] candidates[j]).beats(
            candidates[i],
        ) by {
            assert(candidates[j].api_kind == api);
        }
        assert forall|j: int| 0 <= j < i implies candidates[i].beats(#[trigger] candidates[j]) by {
            assert(candidates[j].api_kind == api);
        }
    }
}

} // verus!
