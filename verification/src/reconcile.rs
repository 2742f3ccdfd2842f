//! The reconciler: which of the two connected displays is the primary one,
//! and which displays the store has not seen before.

use crate::descriptor::{Descriptor, DescriptorView};
use crate::error::LayoutError;
use crate::store::{descriptor_views, remembered, Store, StoreView};
use vstd::prelude::*;

verus! {

/// The number of displays that a layout is made of.
pub const DISPLAY_COUNT: usize = 2;

/// What the store knows after it has met the connected displays: each of
/// the two is added unless its description was known, the first before the
/// second. Any other number of displays teaches the store nothing.
pub open spec fn reconciled_monitors(
    known: Map<Seq<char>, DescriptorView>,
    live: Seq<DescriptorView>,
) -> Map<Seq<char>, DescriptorView> {
    if live.len() == 2 {
        remembered(remembered(known, live[0]), live[1])
    } else {
        known
    }
}

/// The primary and the secondary display among the connected ones. The
/// primary is the one whose description is the default; if both have it, the
/// first. With no such display, or with a number of displays other than two,
/// there is no pair.
pub open spec fn reconciled_pair(
    default: Seq<char>,
    live: Seq<DescriptorView>,
) -> Result<(DescriptorView, DescriptorView), LayoutError> {
    if live.len() != 2 {
        Err(LayoutError::TopologyUnsupported)
    } else if live[0].description == default {
        Ok((live[0], live[1]))
    } else if live[1].description == default {
        Ok((live[1], live[0]))
    } else {
        Err(LayoutError::NoDefaultMatch)
    }
}

/// A pair of displays, or the failure to find one, as a mathematical value.
pub open spec fn pair_view(
    pair: Result<(Descriptor, Descriptor), LayoutError>,
) -> Result<(DescriptorView, DescriptorView), LayoutError> {
    match pair {
        Ok((primary, secondary)) => Ok((primary@, secondary@)),
        Err(e) => Err(e),
    }
}

/// Matches the connected displays against the store.
///
/// With two displays connected, every one that the store has not seen is
/// added to it, also when no primary can be named afterwards. The primary is
/// the display whose description is the store's default, the secondary the
/// other one. The store never guesses: if neither display is the default,
/// the call fails.
pub fn get_and_validate_monitors(
    store: &mut Store,
    live: &Vec<Descriptor>,
) -> (pair: Result<(Descriptor, Descriptor), LayoutError>)
    ensures
        final(store)@ == (StoreView {
            monitors: reconciled_monitors(old(store)@.monitors, descriptor_views(live@)),
            ..old(store)@
        }),
        pair_view(pair) == reconciled_pair(old(store)@.default, descriptor_views(live@)),
{
    if live.len() != DISPLAY_COUNT {
        return Err(LayoutError::TopologyUnsupported);
    }
    let first = &live[0];
    let second = &live[1];
    store.remember(first);
    store.remember(second);
    if *store.default_identity() == *first.description() {
        Ok((first.clone(), second.clone()))
    } else if *store.default_identity() == *second.description() {
        Ok((second.clone(), first.clone()))
    } else {
        Err(LayoutError::NoDefaultMatch)
    }
}

/// The display whose description is the default is the primary and the
/// other one the secondary, in whichever order the two are reported. The
/// two must differ in their descriptions: of two displays that both have the
/// default description, the one reported first is the primary.
pub proof fn lemma_default_is_primary(default: Seq<char>, x: DescriptorView, y: DescriptorView)
    requires
        x.description == default,
        y.description != x.description,
    ensures
        reconciled_pair(default, seq![x, y]) matches Ok(pair) && pair == (x, y),
        reconciled_pair(default, seq![y, x]) matches Ok(pair) && pair == (x, y),
{
}

/// With two displays of which neither has the default description, no pair
/// is named.
pub proof fn lemma_no_default_no_pair(default: Seq<char>, x: DescriptorView, y: DescriptorView)
    requires
        x.description != default,
        y.description != default,
    ensures
        reconciled_pair(default, seq![x, y]) matches Err(e) && e == LayoutError::NoDefaultMatch,
{
}

/// A pair is named exactly when two displays are connected and one of them
/// has the default description; the two of a pair are the two connected.
pub proof fn lemma_pair_exactly_when_default_is_live(default: Seq<char>, live: Seq<DescriptorView>)
    ensures
        reconciled_pair(default, live) is Ok <==> live.len() == 2 && (live[0].description
            == default || live[1].description == default),
        reconciled_pair(default, live) matches Ok((primary, secondary)) ==> primary.description
            == default && (seq![primary, secondary] == live || seq![secondary, primary] == live),
        (reconciled_pair(default, live) matches Err(e) && e == LayoutError::TopologyUnsupported)
            <==> live.len() != 2,
{
}

/// Once a pair was named, the store knows its default display: the default
/// is the description of the primary, and the primary was met.
pub proof fn lemma_default_resolves_after_success(store: StoreView, live: Seq<DescriptorView>)
    requires
        reconciled_pair(store.default, live) is Ok,
    ensures
        reconciled_monitors(store.monitors, live).dom().contains(store.default),
{
}

/// After two displays were met, each is known to the store, whatever the
/// default is and so also when no primary could be named. A display that
/// the store had not seen is known as it was reported; of two unseen
/// displays with one description, the first is kept. Nothing that the store
/// knew before is lost or changed.
pub proof fn lemma_unseen_displays_are_added(
    known: Map<Seq<char>, DescriptorView>,
    live: Seq<DescriptorView>,
)
    requires
        live.len() == 2,
    ensures
        reconciled_monitors(known, live).dom().contains(live[0].description),
        reconciled_monitors(known, live).dom().contains(live[1].description),
        !known.dom().contains(live[0].description) ==> reconciled_monitors(
            known,
            live,
        )[live[0].description] == live[0],
        !known.dom().contains(live[1].description) && live[1].description != live[0].description
            ==> reconciled_monitors(known, live)[live[1].description] == live[1],
        known.submap_of(reconciled_monitors(known, live)),
        forall|identity: Seq<char>| #[trigger]
            reconciled_monitors(known, live).dom().contains(identity) ==> known.dom().contains(
                identity,
            ) || identity == live[0].description || identity == live[1].description,
{
}

} // verus!
