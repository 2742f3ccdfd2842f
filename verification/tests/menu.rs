use hyprdisplay::menu::{menu_items, menu_prompt, MenuOutcome};
use hyprdisplay::mode::Mode;

#[test]
fn the_menu_offers_the_three_modes_by_name() {
    assert_eq!(menu_items(), ["mirror", "extend_right", "extend_left"]);
    assert_eq!(menu_prompt(), "Select a monitor mode");
}

#[test]
fn every_menu_entry_names_a_mode() {
    let modes: Vec<Mode> = menu_items().iter().map(|name| Mode::from_name(name).unwrap()).collect();
    assert_eq!(modes, [Mode::Mirror, Mode::ExtendRight, Mode::ExtendLeft]);
}

#[test]
fn the_menu_is_shown_again_only_after_an_entry_that_is_not_on_it() {
    for outcome in [
        MenuOutcome::Error,
        MenuOutcome::Exit,
        MenuOutcome::Cancel,
        MenuOutcome::Blank,
        MenuOutcome::Success,
    ] {
        assert!(outcome.closes_menu(), "{outcome:?}");
    }
    assert!(!MenuOutcome::Selection.closes_menu());
    assert!(!MenuOutcome::Action.closes_menu());
}
