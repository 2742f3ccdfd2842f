//! The mode selector: from a request for a mode to the plan that brings the
//! mode about.

use crate::descriptor::{Descriptor, DescriptorView};
use crate::error::LayoutError;
use crate::layout::{compute_layout, layout, views, Directive, DirectiveView};
use crate::mode::{mode_at, mode_named, Mode};
use crate::reconcile::{get_and_validate_monitors, reconciled_monitors, reconciled_pair};
use crate::store::{descriptor_views, Store, StoreView};
use vstd::prelude::*;

verus! {

/// What is to be done to bring a mode about: the directives to apply, first
/// to last, and then the text to show the user.
#[derive(Debug, PartialEq, Eq)]
pub struct Plan {
    pub mode: Mode,
    pub notification: String,
    pub directives: [Directive; 2],
}

/// A plan as a mathematical value.
pub struct PlanView {
    pub mode: Mode,
    pub notification: Seq<char>,
    pub directives: Seq<DirectiveView>,
}

impl View for Plan {
    type V = PlanView;

    open spec fn view(&self) -> PlanView {
        PlanView {
            mode: self.mode,
            notification: self.notification@,
            directives: views(self.directives@),
        }
    }
}

impl Clone for Plan {
    fn clone(&self) -> (copy: Self)
        ensures
            copy@ == self@,
    {
        let directives = [self.directives[0].clone(), self.directives[1].clone()];
        assert(views(directives@) =~= views(self.directives@));
        Plan { mode: self.mode, notification: self.notification.clone(), directives }
    }
}

/// The plan that brings `mode` about for a primary and a secondary display.
pub open spec fn plan_for(
    primary: DescriptorView,
    secondary: DescriptorView,
    mode: Mode,
) -> PlanView {
    PlanView {
        mode,
        notification: mode.spec_notification(),
        directives: layout(primary, secondary, mode),
    }
}

/// A plan, or the failure to make one, as a mathematical value.
pub open spec fn outcome_view(outcome: Result<Plan, LayoutError>) -> Result<PlanView, LayoutError> {
    match outcome {
        Ok(plan) => Ok(plan@),
        Err(e) => Err(e),
    }
}

/// The plan for the mode with a saved index, where the index names a mode.
pub open spec fn plan_for_index(
    primary: DescriptorView,
    secondary: DescriptorView,
    index: int,
) -> Result<PlanView, LayoutError> {
    match mode_at(index) {
        Some(mode) => Ok(plan_for(primary, secondary, mode)),
        None => Err(LayoutError::InvalidModeInput),
    }
}

/// The store and the plan after a request for the mode named `name`, for a
/// primary and a secondary display that are already known.
pub open spec fn named_outcome(
    store: StoreView,
    name: Seq<char>,
    primary: DescriptorView,
    secondary: DescriptorView,
) -> (StoreView, Result<PlanView, LayoutError>) {
    match mode_named(name) {
        Some(mode) => (StoreView { mode, ..store }, Ok(plan_for(primary, secondary, mode))),
        None => (store, Err(LayoutError::InvalidModeInput)),
    }
}

/// The store and the plan after a request for the next mode, given the
/// displays that are connected. The displays are met first, so the store
/// learns of new ones even when the request then fails; the mode moves on
/// only when a plan is made.
pub open spec fn next_outcome(
    store: StoreView,
    live: Seq<DescriptorView>,
) -> (StoreView, Result<PlanView, LayoutError>) {
    let met = StoreView { monitors: reconciled_monitors(store.monitors, live), ..store };
    match reconciled_pair(store.default, live) {
        Ok((primary, secondary)) => {
            let mode = store.mode.spec_next();
            (StoreView { mode, ..met }, Ok(plan_for(primary, secondary, mode)))
        },
        Err(e) => (met, Err(e)),
    }
}

/// The store and the plan after a request for the mode named `name`, given
/// the displays that are connected. The displays are met first; the name is
/// read only when a primary was found.
pub open spec fn selection_outcome(
    store: StoreView,
    live: Seq<DescriptorView>,
    name: Seq<char>,
) -> (StoreView, Result<PlanView, LayoutError>) {
    let met = StoreView { monitors: reconciled_monitors(store.monitors, live), ..store };
    match reconciled_pair(store.default, live) {
        Ok((primary, secondary)) => named_outcome(met, name, primary, secondary),
        Err(e) => (met, Err(e)),
    }
}

/// Makes the plan that brings `mode` about.
pub fn plan_mode(mode: Mode, primary: &Descriptor, secondary: &Descriptor) -> (plan: Plan)
    ensures
        plan@ == plan_for(primary@, secondary@, mode),
{
    Plan {
        mode,
        notification: mode.notification(),
        directives: compute_layout(primary, secondary, mode),
    }
}

/// Makes the plan for the mode with the saved index `monitor_mode`. An
/// index that names no mode is refused.
pub fn set_monitor_mode(
    monitor_mode: u8,
    primary: &Descriptor,
    secondary: &Descriptor,
) -> (outcome: Result<Plan, LayoutError>)
    ensures
        outcome_view(outcome) == plan_for_index(primary@, secondary@, monitor_mode as int),
{
    match Mode::from_index(monitor_mode) {
        Ok(mode) => Ok(plan_mode(mode, primary, secondary)),
        Err(e) => Err(e),
    }
}

/// Makes the plan for the store's current mode.
pub fn apply_monitor_mode(
    store: &Store,
    primary: &Descriptor,
    secondary: &Descriptor,
) -> (plan: Plan)
    ensures
        plan@ == plan_for(primary@, secondary@, store@.mode),
{
    plan_mode(store.mode(), primary, secondary)
}

/// Moves the store to the mode named `mode` and makes the plan for it. A
/// name that names no mode is refused and leaves the store as it was.
pub fn set_monitor_mode_by_string(
    store: &mut Store,
    mode: &str,
    primary: &Descriptor,
    secondary: &Descriptor,
) -> (outcome: Result<Plan, LayoutError>)
    ensures
        (final(store)@, outcome_view(outcome)) == named_outcome(
            old(store)@,
            mode@,
            primary@,
            secondary@,
        ),
{
    match store.select(mode) {
        Ok(_) => Ok(apply_monitor_mode(store, primary, secondary)),
        Err(e) => Err(e),
    }
}

/// Answers a request for the next mode: meets the connected displays,
/// moves the store on to the mode after its current one, and makes the plan
/// for that mode.
pub fn switch_to_next(
    store: &mut Store,
    live: &Vec<Descriptor>,
) -> (outcome: Result<Plan, LayoutError>)
    ensures
        (final(store)@, outcome_view(outcome)) == next_outcome(
            old(store)@,
            descriptor_views(live@),
        ),
{
    match get_and_validate_monitors(store, live) {
        Ok((primary, secondary)) => {
            store.advance();
            Ok(apply_monitor_mode(store, &primary, &secondary))
        },
        Err(e) => Err(e),
    }
}

/// Answers a request for the mode named `name`: meets the connected
/// displays, moves the store to the named mode, and makes the plan for it.
pub fn switch_to_named(
    store: &mut Store,
    live: &Vec<Descriptor>,
    name: &str,
) -> (outcome: Result<Plan, LayoutError>)
    ensures
        (final(store)@, outcome_view(outcome)) == selection_outcome(
            old(store)@,
            descriptor_views(live@),
            name@,
        ),
{
    match get_and_validate_monitors(store, live) {
        Ok((primary, secondary)) => set_monitor_mode_by_string(store, name, &primary, &secondary),
        Err(e) => Err(e),
    }
}

/// A request for the next mode never fails once a primary was found, and
/// the mode that it saves is the mode of its plan.
pub proof fn lemma_next_follows_reconciliation(store: StoreView, live: Seq<DescriptorView>)
    ensures
        next_outcome(store, live).1 is Ok <==> reconciled_pair(store.default, live) is Ok,
        next_outcome(store, live).1 matches Ok(plan) ==> plan.mode == store.mode.spec_next()
            && next_outcome(store, live).0.mode == plan.mode,
        next_outcome(store, live).1 is Err ==> next_outcome(store, live).0.mode == store.mode,
        next_outcome(store, live).0.default == store.default,
        next_outcome(store, live).0.monitors == reconciled_monitors(store.monitors, live),
{
}

} // verus!
