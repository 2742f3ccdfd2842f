//! The preference store: the default display, the mode that was applied
//! last, and every display that was ever seen, by its description.

use crate::descriptor::{Descriptor, DescriptorView};
use crate::error::LayoutError;
use crate::mode::{mode_at, mode_named, Mode};
use crate::text::same_text;
use vstd::prelude::*;

verus! {

/// The views of a row of descriptors, in order.
pub open spec fn descriptor_views(displays: Seq<Descriptor>) -> Seq<DescriptorView> {
    displays.map_values(|d: Descriptor| d@)
}

/// No two displays of the row share a description.
pub open spec fn distinct(displays: Seq<DescriptorView>) -> bool {
    forall|i: int, j: int|
        0 <= i < j < displays.len() ==> (#[trigger] displays[i]).description != (
        #[trigger] displays[j]).description
}

/// Some display of the row has the description `identity`.
pub open spec fn has_identity(displays: Seq<DescriptorView>, identity: Seq<char>) -> bool {
    exists|i: int| 0 <= i < displays.len() && (#[trigger] displays[i]).description == identity
}

/// The displays of a row by their descriptions. Where two share a
/// description, the later one is kept.
pub open spec fn table_of(displays: Seq<DescriptorView>) -> Map<Seq<char>, DescriptorView>
    decreases displays.len(),
{
    if displays.len() == 0 {
        Map::empty()
    } else {
        table_of(displays.drop_last()).insert(displays.last().description, displays.last())
    }
}

/// The table with `display` added under its description, unless a display
/// is already known by that description: what is known is never replaced.
pub open spec fn remembered(
    known: Map<Seq<char>, DescriptorView>,
    display: DescriptorView,
) -> Map<Seq<char>, DescriptorView> {
    if known.dom().contains(display.description) {
        known
    } else {
        known.insert(display.description, display)
    }
}

/// The table of a row knows exactly the descriptions that occur in the row.
pub proof fn lemma_table_domain(displays: Seq<DescriptorView>, identity: Seq<char>)
    ensures
        table_of(displays).dom().contains(identity) <==> has_identity(displays, identity),
    decreases displays.len(),
{
    if displays.len() > 0 {
        let front = displays.drop_last();
        lemma_table_domain(front, identity);
        if has_identity(displays, identity) {
            let i = choose|i: int|
                0 <= i < displays.len() && (#[trigger] displays[i]).description == identity;
            if i < front.len() {
                assert(front[i].description == identity);
            }
        }
    }
}

/// Every display of a table stands under its own description.
pub proof fn lemma_table_keys(displays: Seq<DescriptorView>, identity: Seq<char>)
    requires
        table_of(displays).dom().contains(identity),
    ensures
        table_of(displays)[identity].description == identity,
    decreases displays.len(),
{
    if displays.len() > 0 && displays.last().description != identity {
        lemma_table_keys(displays.drop_last(), identity);
    }
}

/// Where no two displays share a description, the table of a row holds
/// each display of the row under its description.
pub proof fn lemma_table_entry(displays: Seq<DescriptorView>, i: int)
    requires
        distinct(displays),
        0 <= i < displays.len(),
    ensures
        table_of(displays).dom().contains(displays[i].description),
        table_of(displays)[displays[i].description] == displays[i],
    decreases displays.len(),
{
    if i < displays.len() - 1 {
        lemma_table_entry(displays.drop_last(), i);
    }
}

/// Adding a display at the end of a row stores it under its description, and
/// keeps the row free of repeated descriptions if the row did not have that
/// description yet.
pub proof fn lemma_table_push(displays: Seq<DescriptorView>, display: DescriptorView)
    ensures
        table_of(displays.push(display)) == table_of(displays).insert(
            display.description,
            display,
        ),
        distinct(displays) && !has_identity(displays, display.description) ==> distinct(
            displays.push(display),
        ),
{
    assert(displays.push(display).drop_last() =~= displays);
}

/// Putting a display in the place of the one that has its description
/// stores it under that description and changes nothing else.
pub proof fn lemma_table_replace(displays: Seq<DescriptorView>, i: int, display: DescriptorView)
    requires
        distinct(displays),
        0 <= i < displays.len(),
        displays[i].description == display.description,
    ensures
        distinct(displays.update(i, display)),
        table_of(displays.update(i, display)) == table_of(displays).insert(
            display.description,
            display,
        ),
{
    let changed = displays.update(i, display);
    let before = table_of(displays);
    let after = table_of(changed);
    let wanted = before.insert(display.description, display);
    assert forall|key: Seq<char>| after.dom().contains(key) <==> wanted.dom().contains(key) by {
        lemma_table_domain(displays, key);
        lemma_table_domain(changed, key);
        if has_identity(displays, key) {
            let j = choose|j: int|
                0 <= j < displays.len() && (#[trigger] displays[j]).description == key;
            assert(changed[j].description == key);
        }
    }
    assert forall|key: Seq<char>| after.dom().contains(key) implies after[key] == wanted[key] by {
        lemma_table_domain(changed, key);
        let j = choose|j: int|
            0 <= j < changed.len() && (#[trigger] changed[j]).description == key;
        lemma_table_entry(changed, j);
        if j != i {
            lemma_table_entry(displays, j);
        }
    }
}

/// The preference store. No two of its displays share a description.
#[derive(Debug)]
pub struct Store {
    default: String,
    mode: Mode,
    monitors: Vec<Descriptor>,
}

/// A store as a mathematical value.
#[verifier::ext_equal]
pub struct StoreView {
    /// The description of the display that is the primary one.
    pub default: Seq<char>,
    /// The mode that was applied last.
    pub mode: Mode,
    /// Every display that was seen, by its description.
    pub monitors: Map<Seq<char>, DescriptorView>,
}

/// The preferences as they are saved: the default display, the index of
/// the mode, and the displays in some order.
#[derive(Debug, PartialEq, Eq)]
pub struct Snapshot {
    pub default: String,
    pub current_monitor_mode: u8,
    pub monitors: Vec<Descriptor>,
}

/// The store that saved preferences stand for, if the index names a mode.
/// Of two saved displays with one description the later one is kept.
pub open spec fn restored(
    default: Seq<char>,
    index: int,
    monitors: Seq<DescriptorView>,
) -> Result<StoreView, LayoutError> {
    match mode_at(index) {
        Some(mode) => Ok(StoreView { default, mode, monitors: table_of(monitors) }),
        None => Err(LayoutError::InvalidModeInput),
    }
}

impl View for Store {
    type V = StoreView;

    closed spec fn view(&self) -> StoreView {
        StoreView {
            default: self.default@,
            mode: self.mode,
            monitors: table_of(descriptor_views(self.monitors@)),
        }
    }
}

impl Clone for Store {
    fn clone(&self) -> (copy: Self)
        ensures
            copy@ == self@,
    {
        Store { default: self.default.clone(), mode: self.mode, monitors: self.copy_monitors() }
    }
}

impl Store {
    #[verifier::type_invariant]
    spec fn distinct_descriptions(self) -> bool {
        distinct(descriptor_views(self.monitors@))
    }

    /// A store that knows no display yet.
    pub fn new(default: String, mode: Mode) -> (store: Store)
        ensures
            store@ == (StoreView { default: default@, mode, monitors: Map::empty() }),
    {
        Store { default, mode, monitors: Vec::new() }
    }

    /// Makes the store from what was saved. Without saved preferences there
    /// is no store: setup has to run first. A saved index that names no mode
    /// is refused.
    pub fn restore(saved: Option<Snapshot>) -> (store: Result<Store, LayoutError>)
        ensures
            match saved {
                Some(snapshot) => match store {
                    Ok(store) => restored(
                        snapshot.default@,
                        snapshot.current_monitor_mode as int,
                        descriptor_views(snapshot.monitors@),
                    ) == Ok::<StoreView, LayoutError>(store@),
                    Err(e) => restored(
                        snapshot.default@,
                        snapshot.current_monitor_mode as int,
                        descriptor_views(snapshot.monitors@),
                    ) == Err::<StoreView, LayoutError>(e),
                },
                None => store matches Err(e) && e == LayoutError::ConfigurationAbsent,
            },
    {
        let snapshot = match saved {
            Some(snapshot) => snapshot,
            None => {
                return Err(LayoutError::ConfigurationAbsent);
            },
        };
        let mode = match Mode::from_index(snapshot.current_monitor_mode) {
            Ok(mode) => mode,
            Err(e) => {
                return Err(e);
            },
        };
        let ghost displays = descriptor_views(snapshot.monitors@);
        let mut store = Store::new(snapshot.default.clone(), mode);
        let mut i: usize = 0;
        while i < snapshot.monitors.len()
            invariant
                i <= snapshot.monitors@.len(),
                displays == descriptor_views(snapshot.monitors@),
                store@ == (StoreView {
                    default: snapshot.default@,
                    mode,
                    monitors: table_of(displays.take(i as int)),
                }),
            decreases snapshot.monitors@.len() - i,
        {
            assert(displays.take(i as int + 1).drop_last() =~= displays.take(i as int));
            store.insert(snapshot.monitors[i].clone());
            i = i + 1;
        }
        assert(displays.take(i as int) =~= displays);
        Ok(store)
    }

    /// The preferences as they are to be saved. Restoring them gives a store
    /// with the same default, mode and displays.
    pub fn snapshot(&self) -> (saved: Snapshot)
        ensures
            restored(
                saved.default@,
                saved.current_monitor_mode as int,
                descriptor_views(saved.monitors@),
            ) == Ok::<StoreView, LayoutError>(self@),
            distinct(descriptor_views(saved.monitors@)),
    {
        Snapshot {
            default: self.default.clone(),
            current_monitor_mode: self.mode.index(),
            monitors: self.copy_monitors(),
        }
    }

    /// A copy of the row of displays.
    fn copy_monitors(&self) -> (monitors: Vec<Descriptor>)
        ensures
            descriptor_views(monitors@) == descriptor_views(self.monitors@),
            distinct(descriptor_views(monitors@)),
            table_of(descriptor_views(monitors@)) == self@.monitors,
    {
        proof {
            use_type_invariant(self);
        }
        let mut monitors: Vec<Descriptor> = Vec::new();
        let mut i: usize = 0;
        while i < self.monitors.len()
            invariant
                i <= self.monitors@.len(),
                monitors@.len() == i,
                forall|j: int| 0 <= j < i ==> (#[trigger] monitors@[j])@ == self.monitors@[j]@,
            decreases self.monitors@.len() - i,
        {
            monitors.push(self.monitors[i].clone());
            i = i + 1;
        }
        monitors
    }

    pub fn default_identity(&self) -> (identity: &String)
        ensures
            identity@ == self@.default,
    {
        &self.default
    }

    pub fn mode(&self) -> (mode: Mode)
        ensures
            mode == self@.mode,
    {
        self.mode
    }

    /// The index under which the current mode is saved.
    pub fn current_monitor_mode(&self) -> (index: u8)
        ensures
            mode_at(index as int) == Some(self@.mode),
    {
        self.mode.index()
    }

    /// The displays that the store knows, each once.
    pub fn monitors(&self) -> (displays: &Vec<Descriptor>)
        ensures
            distinct(descriptor_views(displays@)),
            table_of(descriptor_views(displays@)) == self@.monitors,
    {
        proof {
            use_type_invariant(self);
        }
        &self.monitors
    }

    /// Where in the row the display with the description `identity` stands.
    fn position(&self, identity: &str) -> (found: Option<usize>)
        ensures
            match found {
                Some(i) => i < self.monitors@.len() && self.monitors@[i as int]@.description
                    == identity@,
                None => !has_identity(descriptor_views(self.monitors@), identity@),
            },
    {
        let mut i: usize = 0;
        while i < self.monitors.len()
            invariant
                i <= self.monitors@.len(),
                forall|j: int| 0 <= j < i ==> (#[trigger] self.monitors@[j])@.description != identity@,
            decreases self.monitors@.len() - i,
        {
            if same_text(self.monitors[i].description().as_str(), identity) {
                return Some(i);
            }
            i = i + 1;
        }
        proof {
            let views = descriptor_views(self.monitors@);
            if has_identity(views, identity@) {
                let j = choose|j: int|
                    0 <= j < views.len() && (#[trigger] views[j]).description == identity@;
            }
        }
        None
    }

    /// Whether a display is known by the description `identity`.
    pub fn contains(&self, identity: &str) -> (known: bool)
        ensures
            known == self@.monitors.dom().contains(identity@),
    {
        proof {
            lemma_table_domain(descriptor_views(self.monitors@), identity@);
        }
        match self.position(identity) {
            Some(i) => {
                assert(descriptor_views(self.monitors@)[i as int].description == identity@);
                true
            },
            None => false,
        }
    }

    /// The display that is known by the description `identity`.
    pub fn get(&self, identity: &str) -> (display: Option<&Descriptor>)
        ensures
            display is Some <==> self@.monitors.dom().contains(identity@),
            display matches Some(d) ==> d@ == self@.monitors[identity@] && d@.description
                == identity@,
    {
        proof {
            use_type_invariant(self);
            lemma_table_domain(descriptor_views(self.monitors@), identity@);
        }
        match self.position(identity) {
            Some(i) => {
                proof {
                    lemma_table_entry(descriptor_views(self.monitors@), i as int);
                }
                Some(&self.monitors[i])
            },
            None => None,
        }
    }

    /// Takes the row of displays out of the store, to put a changed row back.
    fn take_monitors(&mut self) -> (monitors: Vec<Descriptor>)
        ensures
            monitors == old(self).monitors,
            final(self).monitors@.len() == 0,
            final(self).default == old(self).default,
            final(self).mode == old(self).mode,
    {
        let mut monitors: Vec<Descriptor> = Vec::new();
        core::mem::swap(&mut monitors, &mut self.monitors);
        monitors
    }

    /// Stores `display` under its description, in place of the display that
    /// was known by that description, if there was one.
    pub fn insert(&mut self, display: Descriptor)
        ensures
            final(self)@ == (StoreView {
                monitors: old(self)@.monitors.insert(display@.description, display@),
                ..old(self)@
            }),
    {
        proof {
            use_type_invariant(&*self);
        }
        let ghost before = descriptor_views(self.monitors@);
        let place = self.position(display.description().as_str());
        let mut monitors = self.take_monitors();
        match place {
            Some(i) => {
                proof {
                    lemma_table_replace(before, i as int, display@);
                }
                monitors.set(i, display);
                assert(descriptor_views(monitors@) =~= before.update(i as int, display@));
            },
            None => {
                proof {
                    lemma_table_push(before, display@);
                }
                monitors.push(display);
                assert(descriptor_views(monitors@) =~= before.push(display@));
            },
        }
        self.monitors = monitors;
    }

    /// Stores `display` under its description unless a display is already
    /// known by it, and says whether the display was new.
    pub fn remember(&mut self, display: &Descriptor) -> (added: bool)
        ensures
            added == !old(self)@.monitors.dom().contains(display@.description),
            final(self)@ == (StoreView {
                monitors: remembered(old(self)@.monitors, display@),
                ..old(self)@
            }),
    {
        proof {
            use_type_invariant(&*self);
        }
        let ghost before = descriptor_views(self.monitors@);
        proof {
            lemma_table_domain(before, display@.description);
        }
        match self.position(display.description().as_str()) {
            Some(i) => {
                assert(before[i as int].description == display@.description);
                false
            },
            None => {
                proof {
                    lemma_table_push(before, display@);
                }
                let mut monitors = self.take_monitors();
                monitors.push(display.clone());
                assert(descriptor_views(monitors@) =~= before.push(display@));
                self.monitors = monitors;
                true
            },
        }
    }

    /// Makes `identity` the description of the primary display.
    pub fn set_default(&mut self, identity: String)
        ensures
            final(self)@ == (StoreView { default: identity@, ..old(self)@ }),
    {
        proof {
            use_type_invariant(&*self);
        }
        self.default = identity;
    }

    /// Records `mode` as the mode that was applied last.
    pub fn set_mode(&mut self, mode: Mode)
        ensures
            final(self)@ == (StoreView { mode, ..old(self)@ }),
    {
        proof {
            use_type_invariant(&*self);
        }
        self.mode = mode;
    }

    /// Moves on to the mode after the current one and returns it.
    pub fn advance(&mut self) -> (mode: Mode)
        ensures
            mode == old(self)@.mode.spec_next(),
            mode.spec_index() == (old(self)@.mode.spec_index() + 1) % 3,
            final(self)@ == (StoreView { mode, ..old(self)@ }),
    {
        proof {
            use_type_invariant(&*self);
        }
        let mode = self.mode.next();
        self.mode = mode;
        mode
    }

    /// Moves to the mode with the given name and returns it. A name that
    /// names no mode is refused and leaves the store as it was.
    pub fn select(&mut self, name: &str) -> (mode: Result<Mode, LayoutError>)
        ensures
            match mode_named(name@) {
                Some(m) => mode == Ok::<Mode, LayoutError>(m) && final(self)@ == (StoreView {
                    mode: m,
                    ..old(self)@
                }),
                None => mode == Err::<Mode, LayoutError>(LayoutError::InvalidModeInput)
                    && final(self)@ == old(self)@,
            },
    {
        proof {
            use_type_invariant(&*self);
        }
        match Mode::from_name(name) {
            Ok(mode) => {
                self.mode = mode;
                Ok(mode)
            },
            Err(e) => Err(e),
        }
    }
}

} // verus!
