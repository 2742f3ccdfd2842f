//! The selection menu: what it offers and when it is over.

use crate::mode::{mode_named, Mode};
use vstd::prelude::*;
use vstd::string::StringExecFns;

verus! {

/// How one showing of the menu ended.
#[derive(Clone, Copy, Debug, PartialEq, Eq, Structural)]
pub enum MenuOutcome {
    /// The user typed something that is not on the menu.
    Selection,
    /// The user picked an action that belongs to no entry.
    Action,
    /// An entry was picked and its mode was applied.
    Success,
    /// The blank entry was picked.
    Blank,
    /// The menu could not be shown, or applying the mode failed.
    Error,
    /// The user left the menu.
    Cancel,
    /// The exit entry was picked.
    Exit,
}

impl MenuOutcome {
    /// Whether the menu is over after this outcome. It is shown again only
    /// after the user typed or picked what no entry stands for.
    pub open spec fn spec_closes_menu(self) -> bool {
        !(self == MenuOutcome::Selection || self == MenuOutcome::Action)
    }

    /// Whether the menu is over after this outcome.
    pub fn closes_menu(self) -> (closed: bool)
        ensures
            closed == self.spec_closes_menu(),
    {
        match self {
            MenuOutcome::Error => true,
            MenuOutcome::Exit => true,
            MenuOutcome::Cancel => true,
            MenuOutcome::Blank => true,
            MenuOutcome::Success => true,
            MenuOutcome::Selection => false,
            MenuOutcome::Action => false,
        }
    }
}

/// The modes that the menu offers, top to bottom.
pub open spec fn offered_modes() -> Seq<Mode> {
    seq![Mode::Mirror, Mode::ExtendRight, Mode::ExtendLeft]
}

/// The entries of the menu: the names of the modes that it offers, top to
/// bottom.
pub fn menu_items() -> (items: Vec<String>)
    ensures
        items@.len() == offered_modes().len(),
        forall|i: int|
            0 <= i < items@.len() ==> (#[trigger] items@[i])@ == offered_modes()[i].spec_name(),
{
    let mut items: Vec<String> = Vec::new();
    items.push(String::from_str(Mode::Mirror.name()));
    items.push(String::from_str(Mode::ExtendRight.name()));
    items.push(String::from_str(Mode::ExtendLeft.name()));
    items
}

/// The question that the menu asks.
pub fn menu_prompt() -> (prompt: String)
    ensures
        prompt@ == "Select a monitor mode"@,
{
    String::from_str("Select a monitor mode")
}

/// The menu offers every mode once, and each of its entries is read back as
/// the mode that it stands for.
pub proof fn lemma_menu_offers_every_mode(mode: Mode)
    ensures
        exists|i: int| 0 <= i < offered_modes().len() && #[trigger] offered_modes()[i] == mode,
        forall|i: int, j: int|
            0 <= i < j < offered_modes().len() ==> #[trigger] offered_modes()[i]
                != #[trigger] offered_modes()[j],
        forall|i: int|
            0 <= i < offered_modes().len() ==> mode_named(
                (#[trigger] offered_modes()[i]).spec_name(),
            ) == Some(offered_modes()[i]),
{
    crate::mode::lemma_names_are_distinct(Mode::Mirror, Mode::Mirror);
    crate::mode::lemma_names_are_distinct(Mode::ExtendLeft, Mode::Mirror);
    crate::mode::lemma_names_are_distinct(Mode::ExtendRight, Mode::Mirror);
}

} // verus!
