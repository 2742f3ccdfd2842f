//! The state of the interactive viewer: the displays as they are drawn and
//! what the user has toggled with the keyboard.

use crate::descriptor::{Descriptor, DescriptorView};
use crate::store::{descriptor_views, Store, StoreView};
use crate::text::same_text;
use vstd::prelude::*;

verus! {

/// The key that toggles the fullscreen view.
pub const FULLSCREEN_KEY: char = 'f';

/// The key that ends the viewer.
pub const QUIT_KEY: char = 'q';

/// A display as the viewer draws it.
#[derive(Clone, Copy, Debug, PartialEq, Eq, Structural)]
pub struct Display {
    pub x: u16,
    pub y: u16,
    pub width: u16,
    pub height: u16,
    /// The place of the display among the connected ones, from zero.
    pub id: u16,
}

/// The low sixteen bits of a number: positions and places are drawn modulo
/// 65536.
pub open spec fn low_bits(v: int) -> u16 {
    (v % 65536) as u16
}

/// The display drawn for the monitor that is reported at place `id`.
pub open spec fn display_of(monitor: DescriptorView, id: int) -> Display {
    Display {
        x: low_bits(monitor.x),
        y: low_bits(monitor.y),
        width: monitor.width as u16,
        height: monitor.height as u16,
        id: low_bits(id),
    }
}

/// The displays drawn for a row of monitors, by description. Of two
/// monitors with one description the later one is drawn.
pub open spec fn display_table(monitors: Seq<DescriptorView>) -> Map<Seq<char>, Display>
    decreases monitors.len(),
{
    if monitors.len() == 0 {
        Map::empty()
    } else {
        display_table(monitors.drop_last()).insert(
            monitors.last().description,
            display_of(monitors.last(), monitors.len() - 1),
        )
    }
}

/// The section that a key selects, if it selects one: the keys 1, 2 and 3
/// select the sections 0, 1 and 2.
pub open spec fn section_of(key: char) -> Option<nat> {
    if key == '1' {
        Some(0)
    } else if key == '2' {
        Some(1)
    } else if key == '3' {
        Some(2)
    } else {
        None
    }
}

/// The state of the viewer.
#[derive(Debug)]
pub struct AppState {
    monitors: Vec<Descriptor>,
    config: Store,
    middle_x: u16,
    middle_y: u16,
    fullscreen: bool,
    selected_section: usize,
}

/// The state of the viewer as a mathematical value.
#[verifier::ext_equal]
pub struct AppStateView {
    pub monitors: Seq<DescriptorView>,
    pub displays: Map<Seq<char>, Display>,
    pub config: StoreView,
    pub default: Seq<char>,
    pub middle_x: u16,
    pub middle_y: u16,
    pub fullscreen: bool,
    pub selected_section: nat,
}

impl AppStateView {
    /// The state after the user has pressed `key`: the fullscreen key
    /// toggles the fullscreen view, a section key selects its section, and
    /// every other key changes nothing.
    pub open spec fn after_key(self, key: char) -> AppStateView {
        if key == FULLSCREEN_KEY {
            AppStateView { fullscreen: !self.fullscreen, ..self }
        } else {
            match section_of(key) {
                Some(section) => AppStateView { selected_section: section, ..self },
                None => self,
            }
        }
    }
}

impl View for AppState {
    type V = AppStateView;

    closed spec fn view(&self) -> AppStateView {
        AppStateView {
            monitors: descriptor_views(self.monitors@),
            displays: display_table(descriptor_views(self.monitors@)),
            config: self.config@,
            default: self.config@.default,
            middle_x: self.middle_x,
            middle_y: self.middle_y,
            fullscreen: self.fullscreen,
            selected_section: self.selected_section as nat,
        }
    }
}

/// The monitor that is drawn under a description is the last one of the row
/// that has it; a description that no monitor has is not drawn.
pub proof fn lemma_last_monitor_is_drawn(
    monitors: Seq<DescriptorView>,
    identity: Seq<char>,
    from: int,
)
    requires
        0 <= from <= monitors.len(),
        forall|j: int| from <= j < monitors.len() ==> (#[trigger] monitors[j]).description != identity,
    ensures
        from > 0 && monitors[from - 1].description == identity ==> display_table(
            monitors,
        ).dom().contains(identity) && display_table(monitors)[identity] == display_of(
            monitors[from - 1],
            from - 1,
        ),
        from == 0 ==> !display_table(monitors).dom().contains(identity),
    decreases monitors.len(),
{
    if monitors.len() > from {
        lemma_last_monitor_is_drawn(monitors.drop_last(), identity, from);
    }
}

/// The low sixteen bits of a coordinate.
pub fn truncate_coordinate(v: i32) -> (low: u16)
    ensures
        low == low_bits(v as int),
{
    if v >= 0 {
        (v % 65536) as u16
    } else {
        let below: i64 = -(v as i64);
        let rest: i64 = below % 65536;
        if rest == 0 {
            0
        } else {
            (65536 - rest) as u16
        }
    }
}

/// Whether a key ends the viewer.
pub fn is_quit_key(key: char) -> (quit: bool)
    ensures
        quit == (key == QUIT_KEY),
{
    key == QUIT_KEY
}

impl AppState {
    /// The state in which the viewer starts: nothing is toggled and the
    /// first section is selected.
    pub fn new(
        monitors: Vec<Descriptor>,
        config: Store,
        middle_x: u16,
        middle_y: u16,
    ) -> (state: AppState)
        ensures
            state@ == (AppStateView {
                monitors: descriptor_views(monitors@),
                displays: display_table(descriptor_views(monitors@)),
                config: config@,
                default: config@.default,
                middle_x,
                middle_y,
                fullscreen: false,
                selected_section: 0,
            }),
    {
        AppState { monitors, config, middle_x, middle_y, fullscreen: false, selected_section: 0 }
    }

    /// The state in which the viewer starts when it is centred on the
    /// default display. There is none if the store does not know its default
    /// display.
    pub fn centered(monitors: Vec<Descriptor>, config: Store) -> (state: Option<AppState>)
        ensures
            state is Some <==> config@.monitors.dom().contains(config@.default),
            state matches Some(state) ==> state@ == (AppStateView {
                monitors: descriptor_views(monitors@),
                displays: display_table(descriptor_views(monitors@)),
                config: config@,
                default: config@.default,
                middle_x: low_bits(config@.monitors[config@.default].x),
                middle_y: low_bits(config@.monitors[config@.default].y),
                fullscreen: false,
                selected_section: 0,
            }),
    {
        let (middle_x, middle_y) = match config.get(config.default_identity().as_str()) {
            Some(default) => (truncate_coordinate(default.x()), truncate_coordinate(default.y())),
            None => {
                return None;
            },
        };
        Some(AppState::new(monitors, config, middle_x, middle_y))
    }

    /// The connected monitors, in the order in which they were reported.
    pub fn monitors(&self) -> (monitors: &Vec<Descriptor>)
        ensures
            descriptor_views(monitors@) == self@.monitors,
    {
        &self.monitors
    }

    /// The preferences that the viewer was started with.
    pub fn config(&self) -> (config: &Store)
        ensures
            config@ == self@.config,
    {
        &self.config
    }

    /// The description of the default display.
    pub fn default_identity(&self) -> (identity: &String)
        ensures
            identity@ == self@.default,
    {
        self.config.default_identity()
    }

    pub fn middle_x(&self) -> (x: u16)
        ensures
            x == self@.middle_x,
    {
        self.middle_x
    }

    pub fn middle_y(&self) -> (y: u16)
        ensures
            y == self@.middle_y,
    {
        self.middle_y
    }

    pub fn fullscreen(&self) -> (on: bool)
        ensures
            on == self@.fullscreen,
    {
        self.fullscreen
    }

    pub fn selected_section(&self) -> (section: usize)
        ensures
            section == self@.selected_section,
    {
        self.selected_section
    }

    /// The display that is drawn for the description `identity`.
    pub fn display(&self, identity: &str) -> (drawn: Option<Display>)
        ensures
            drawn is Some <==> self@.displays.dom().contains(identity@),
            drawn matches Some(d) ==> d == self@.displays[identity@],
    {
        let ghost monitors = descriptor_views(self.monitors@);
        let mut i: usize = self.monitors.len();
        while i > 0
            invariant
                i <= self.monitors@.len(),
                monitors == descriptor_views(self.monitors@),
                forall|j: int| i <= j < monitors.len() ==> (#[trigger] monitors[j]).description != identity@,
            decreases i,
        {
            let monitor = &self.monitors[i - 1];
            if same_text(monitor.description().as_str(), identity) {
                proof {
                    lemma_last_monitor_is_drawn(monitors, identity@, i as int);
                }
                return Some(
                    Display {
                        x: truncate_coordinate(monitor.x()),
                        y: truncate_coordinate(monitor.y()),
                        width: monitor.width(),
                        height: monitor.height(),
                        id: ((i - 1) % 65536) as u16,
                    },
                );
            }
            i = i - 1;
        }
        proof {
            lemma_last_monitor_is_drawn(monitors, identity@, 0);
        }
        None
    }

    /// Takes a key that the user has pressed.
    pub fn handle_input(&mut self, key: char)
        ensures
            final(self)@ == old(self)@.after_key(key),
    {
        if key == FULLSCREEN_KEY {
            self.fullscreen = !self.fullscreen;
        } else if key == '1' {
            self.selected_section = 0;
        } else if key == '2' {
            self.selected_section = 1;
        } else if key == '3' {
            self.selected_section = 2;
        }
    }
}

} // verus!
