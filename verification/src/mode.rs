//! The three layouts and how one is chosen.

use crate::error::LayoutError;
use crate::text::same_text;
use vstd::prelude::*;
use vstd::string::StringExecFns;

verus! {

/// One of the three layouts of a pair of displays.
#[derive(Clone, Copy, Debug, PartialEq, Eq, Structural)]
pub enum Mode {
    /// The secondary display duplicates the primary.
    Mirror,
    /// The secondary display stands to the left of the primary.
    ExtendLeft,
    /// The secondary display stands to the right of the primary.
    ExtendRight,
}

/// The number of modes; mode indices run from 0 up to it, exclusive.
pub const MODE_COUNT: u8 = 3;

/// The mode that a saved index stands for, if it stands for one.
pub open spec fn mode_at(index: int) -> Option<Mode> {
    if index == 0 {
        Some(Mode::Mirror)
    } else if index == 1 {
        Some(Mode::ExtendLeft)
    } else if index == 2 {
        Some(Mode::ExtendRight)
    } else {
        None
    }
}

/// The mode with the given name, if there is one.
pub open spec fn mode_named(name: Seq<char>) -> Option<Mode> {
    if name == Mode::Mirror.spec_name() {
        Some(Mode::Mirror)
    } else if name == Mode::ExtendLeft.spec_name() {
        Some(Mode::ExtendLeft)
    } else if name == Mode::ExtendRight.spec_name() {
        Some(Mode::ExtendRight)
    } else {
        None
    }
}

impl Mode {
    /// The index under which the mode is saved.
    pub open spec fn spec_index(self) -> int {
        match self {
            Mode::Mirror => 0,
            Mode::ExtendLeft => 1,
            Mode::ExtendRight => 2,
        }
    }

    /// The mode that follows this one when the user asks for the next.
    pub open spec fn spec_next(self) -> Mode {
        match self {
            Mode::Mirror => Mode::ExtendLeft,
            Mode::ExtendLeft => Mode::ExtendRight,
            Mode::ExtendRight => Mode::Mirror,
        }
    }

    /// The name by which the user asks for the mode.
    pub open spec fn spec_name(self) -> Seq<char> {
        match self {
            Mode::Mirror => "mirror"@,
            Mode::ExtendLeft => "extend_left"@,
            Mode::ExtendRight => "extend_right"@,
        }
    }

    /// The text that tells the user which mode was applied.
    pub open spec fn spec_notification(self) -> Seq<char> {
        match self {
            Mode::Mirror => "Mirroring monitor"@,
            Mode::ExtendLeft => "Extending monitor to left"@,
            Mode::ExtendRight => "Extending monitor to right"@,
        }
    }

    pub fn index(self) -> (index: u8)
        ensures
            index == self.spec_index(),
            index < MODE_COUNT,
    {
        match self {
            Mode::Mirror => 0,
            Mode::ExtendLeft => 1,
            Mode::ExtendRight => 2,
        }
    }

    /// Reads a saved index. Only 0, 1 and 2 name a mode.
    pub fn from_index(index: u8) -> (mode: Result<Mode, LayoutError>)
        ensures
            match mode_at(index as int) {
                Some(m) => mode == Ok::<Mode, LayoutError>(m),
                None => mode == Err::<Mode, LayoutError>(LayoutError::InvalidModeInput),
            },
    {
        if index == 0 {
            Ok(Mode::Mirror)
        } else if index == 1 {
            Ok(Mode::ExtendLeft)
        } else if index == 2 {
            Ok(Mode::ExtendRight)
        } else {
            Err(LayoutError::InvalidModeInput)
        }
    }

    /// The mode after this one, in the cycle mirror, extend left, extend right.
    pub fn next(self) -> (following: Mode)
        ensures
            following == self.spec_next(),
            following.spec_index() == (self.spec_index() + 1) % 3,
    {
        match self {
            Mode::Mirror => Mode::ExtendLeft,
            Mode::ExtendLeft => Mode::ExtendRight,
            Mode::ExtendRight => Mode::Mirror,
        }
    }

    pub fn name(self) -> (name: &'static str)
        ensures
            name@ == self.spec_name(),
    {
        match self {
            Mode::Mirror => "mirror",
            Mode::ExtendLeft => "extend_left",
            Mode::ExtendRight => "extend_right",
        }
    }

    /// Reads a mode name as the user gives it. The three names are matched
    /// exactly; anything else is refused.
    pub fn from_name(name: &str) -> (mode: Result<Mode, LayoutError>)
        ensures
            match mode_named(name@) {
                Some(m) => mode == Ok::<Mode, LayoutError>(m),
                None => mode == Err::<Mode, LayoutError>(LayoutError::InvalidModeInput),
            },
    {
        if same_text(name, "mirror") {
            Ok(Mode::Mirror)
        } else if same_text(name, "extend_left") {
            Ok(Mode::ExtendLeft)
        } else if same_text(name, "extend_right") {
            Ok(Mode::ExtendRight)
        } else {
            Err(LayoutError::InvalidModeInput)
        }
    }

    pub fn notification(self) -> (text: String)
        ensures
            text@ == self.spec_notification(),
    {
        match self {
            Mode::Mirror => String::from_str("Mirroring monitor"),
            Mode::ExtendLeft => String::from_str("Extending monitor to left"),
            Mode::ExtendRight => String::from_str("Extending monitor to right"),
        }
    }
}

/// Saved indices and modes correspond one to one.
pub proof fn lemma_index_round_trip(mode: Mode, index: int)
    ensures
        mode_at(mode.spec_index()) == Some(mode),
        mode_at(index) is Some ==> mode_at(index)->0.spec_index() == index,
        mode_at(index) is Some <==> 0 <= index < 3,
{
}

/// Asking for the next mode three times comes back to the mode one started
/// from, and the mode after extend right is mirror.
pub proof fn lemma_next_is_cyclic(mode: Mode)
    ensures
        mode.spec_next().spec_next().spec_next() == mode,
        Mode::ExtendRight.spec_next() == Mode::Mirror,
        mode.spec_next().spec_index() == (mode.spec_index() + 1) % 3,
{
}

/// No two modes share a name, so a name picks at most one mode and every
/// mode is found again by its own name.
pub proof fn lemma_names_are_distinct(a: Mode, b: Mode)
    ensures
        a.spec_name() == b.spec_name() ==> a == b,
        mode_named(a.spec_name()) == Some(a),
{
    reveal_strlit("mirror");
    reveal_strlit("extend_left");
    reveal_strlit("extend_right");
    assert("extend_left"@.len() == 11);
    assert("extend_right"@.len() == 12);
}

} // verus!
