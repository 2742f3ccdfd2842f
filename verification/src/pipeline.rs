//! The order of the outside work that carries out a plan, and what a
//! failure of any of it means.

use crate::error::LayoutError;
use vstd::prelude::*;

verus! {

/// The piece of outside work that is due. A plan is carried out in this
/// order: its first directive, its second directive, the notification, and
/// at last the saving of the preferences.
#[derive(Clone, Copy, Debug, PartialEq, Eq, Structural)]
pub enum Stage {
    ApplyFirst,
    ApplySecond,
    Notify,
    Persist,
    Done,
}

impl Stage {
    /// The stage that is due once the work of this stage has succeeded.
    pub open spec fn spec_following(self) -> Stage {
        match self {
            Stage::ApplyFirst => Stage::ApplySecond,
            Stage::ApplySecond => Stage::Notify,
            Stage::Notify => Stage::Persist,
            Stage::Persist => Stage::Done,
            Stage::Done => Stage::Done,
        }
    }

    /// How many pieces of work have succeeded when this stage is due.
    pub open spec fn completed(self) -> nat {
        match self {
            Stage::ApplyFirst => 0,
            Stage::ApplySecond => 1,
            Stage::Notify => 2,
            Stage::Persist => 3,
            Stage::Done => 4,
        }
    }

    /// The stage at which a run begins.
    pub fn start() -> (stage: Stage)
        ensures
            stage == Stage::ApplyFirst,
    {
        Stage::ApplyFirst
    }

    /// The stage that is due after the work of this stage was tried. Work
    /// that failed ends the run: nothing is tried again and nothing that
    /// comes later is done.
    pub fn after(self, succeeded: bool) -> (next: Result<Stage, LayoutError>)
        ensures
            next == stage_after(self, succeeded),
    {
        if !succeeded {
            return Err(LayoutError::ExternalCapabilityFailure);
        }
        Ok(
            match self {
                Stage::ApplyFirst => Stage::ApplySecond,
                Stage::ApplySecond => Stage::Notify,
                Stage::Notify => Stage::Persist,
                Stage::Persist => Stage::Done,
                Stage::Done => Stage::Done,
            },
        )
    }
}

/// The stage that is due after the work of `stage` was tried.
pub open spec fn stage_after(stage: Stage, succeeded: bool) -> Result<Stage, LayoutError> {
    if succeeded {
        Ok(stage.spec_following())
    } else {
        Err(LayoutError::ExternalCapabilityFailure)
    }
}

/// Where a run stands after the pieces of work whose results are given,
/// first to last, counted from its beginning.
pub open spec fn stage_reached(results: Seq<bool>) -> Result<Stage, LayoutError>
    decreases results.len(),
{
    if results.len() == 0 {
        Ok(Stage::ApplyFirst)
    } else {
        match stage_reached(results.drop_last()) {
            Ok(stage) => stage_after(stage, results.last()),
            Err(e) => Err(e),
        }
    }
}

/// A run stands where it does only because everything before succeeded:
/// each piece of work that was tried succeeded, and as many pieces were
/// tried as the stage has before it, or more once the run is done.
pub proof fn lemma_stage_needs_every_success(results: Seq<bool>)
    ensures
        stage_reached(results) matches Ok(stage) ==> (forall|i: int|
            0 <= i < results.len() ==> results[i]) && (if stage == Stage::Done {
            results.len() >= 4
        } else {
            results.len() == stage.completed()
        }),
        stage_reached(results) matches Err(e) ==> e == LayoutError::ExternalCapabilityFailure && (
        exists|i: int| 0 <= i < results.len() && !results[i]),
    decreases results.len(),
{
    if results.len() > 0 {
        let earlier = results.drop_last();
        lemma_stage_needs_every_success(earlier);
        if stage_reached(earlier) is Ok && results.last() {
            assert forall|i: int| 0 <= i < results.len() implies results[i] by {
                if i < earlier.len() {
                    assert(earlier[i] == results[i]);
                }
            }
        }
    }
}

/// The preferences are saved only after both directives were applied and
/// the user was notified: the saving is due after exactly three successes.
pub proof fn lemma_persist_comes_last(results: Seq<bool>)
    requires
        stage_reached(results) == Ok::<Stage, LayoutError>(Stage::Persist),
    ensures
        results =~= seq![true, true, true],
{
    lemma_stage_needs_every_success(results);
}

} // verus!
