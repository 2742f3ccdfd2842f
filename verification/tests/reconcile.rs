use hyprdisplay::descriptor::Descriptor;
use hyprdisplay::error::LayoutError;
use hyprdisplay::mode::Mode;
use hyprdisplay::reconcile::{get_and_validate_monitors, DISPLAY_COUNT};
use hyprdisplay::store::Store;

fn monitor(description: &str, name: &str) -> Descriptor {
    Descriptor::new(description.to_string(), name.to_string(), 0, 0, 1920, 1080, 60_000, 100).unwrap()
}

fn store_with(default: &str, known: &[Descriptor]) -> Store {
    let mut store = Store::new(default.to_string(), Mode::Mirror);
    for d in known {
        store.insert(d.clone());
    }
    store
}

#[test]
fn the_default_display_is_primary_when_it_is_reported_first() {
    let (x, y) = (monitor("X", "DP-1"), monitor("Y", "DP-2"));
    let mut store = store_with("X", &[x.clone(), y.clone()]);
    let pair = get_and_validate_monitors(&mut store, &vec![x.clone(), y.clone()]);
    assert_eq!(pair, Ok((x, y)));
}

#[test]
fn the_default_display_is_primary_when_it_is_reported_second() {
    let (x, y) = (monitor("X", "DP-1"), monitor("Y", "DP-2"));
    let mut store = store_with("X", &[x.clone(), y.clone()]);
    let pair = get_and_validate_monitors(&mut store, &vec![y.clone(), x.clone()]);
    assert_eq!(pair, Ok((x, y)));
}

#[test]
fn the_live_descriptor_is_returned_and_not_the_saved_one() {
    let saved = monitor("X", "DP-1");
    let live = monitor("X", "DP-5");
    let other = monitor("Y", "DP-2");
    let mut store = store_with("X", &[saved.clone()]);
    let pair = get_and_validate_monitors(&mut store, &vec![other.clone(), live.clone()]);
    assert_eq!(pair, Ok((live, other)));
    assert_eq!(store.get("X"), Some(&saved));
}

#[test]
fn reconciliation_fails_when_neither_display_is_the_default() {
    let (x, y) = (monitor("X", "DP-1"), monitor("Y", "DP-2"));
    let mut store = store_with("Z", &[x.clone(), y.clone(), monitor("Z", "DP-3")]);
    let pair = get_and_validate_monitors(&mut store, &vec![x, y]);
    assert_eq!(pair, Err(LayoutError::NoDefaultMatch));
}

#[test]
fn the_default_is_matched_by_description_and_not_by_name() {
    let (x, y) = (monitor("X", "DP-1"), monitor("Y", "DP-2"));
    let mut store = store_with("DP-1", &[]);
    assert_eq!(
        get_and_validate_monitors(&mut store, &vec![x, y]),
        Err(LayoutError::NoDefaultMatch)
    );
}

#[test]
fn unseen_displays_are_added_to_the_store() {
    let (x, y) = (monitor("X", "DP-1"), monitor("Y", "DP-2"));
    let mut store = store_with("X", &[x.clone()]);
    assert!(!store.contains("Y"));
    get_and_validate_monitors(&mut store, &vec![x.clone(), y.clone()]).unwrap();
    assert_eq!(store.get("Y"), Some(&y));
    assert_eq!(store.get("X"), Some(&x));
    assert_eq!(store.monitors().len(), 2);
}

#[test]
fn unseen_displays_are_added_even_when_no_primary_is_found() {
    let (x, y) = (monitor("X", "DP-1"), monitor("Y", "DP-2"));
    let mut store = store_with("Z", &[]);
    let pair = get_and_validate_monitors(&mut store, &vec![x.clone(), y.clone()]);
    assert_eq!(pair, Err(LayoutError::NoDefaultMatch));
    assert_eq!(store.get("X"), Some(&x));
    assert_eq!(store.get("Y"), Some(&y));
    assert_eq!(store.default_identity(), "Z");
    assert_eq!(store.mode(), Mode::Mirror);
}

#[test]
fn known_displays_are_neither_replaced_nor_removed() {
    let old = monitor("W", "DP-9");
    let (x, y) = (monitor("X", "DP-1"), monitor("Y", "DP-2"));
    let mut store = store_with("X", &[old.clone(), x.clone()]);
    let moved = Descriptor::new("X".to_string(), "DP-4".to_string(), 50, 60, 800, 600, 75_000, 200).unwrap();
    get_and_validate_monitors(&mut store, &vec![moved, y]).unwrap();
    assert_eq!(store.get("W"), Some(&old));
    assert_eq!(store.get("X"), Some(&x));
    assert_eq!(store.monitors().len(), 3);
}

#[test]
fn any_number_of_displays_but_two_is_unsupported() {
    let all = vec![monitor("X", "DP-1"), monitor("Y", "DP-2"), monitor("Z", "DP-3")];
    for count in [0usize, 1, 3] {
        let mut store = store_with("X", &[]);
        let pair = get_and_validate_monitors(&mut store, &all[..count].to_vec());
        assert_eq!(pair, Err(LayoutError::TopologyUnsupported));
        assert!(store.monitors().is_empty(), "nothing is learnt from {count} displays");
    }
    assert_eq!(DISPLAY_COUNT, 2);
}

#[test]
fn of_two_displays_with_the_default_description_the_first_is_primary() {
    let (a, b) = (monitor("X", "DP-1"), monitor("X", "DP-2"));
    let mut store = store_with("X", &[]);
    let pair = get_and_validate_monitors(&mut store, &vec![b.clone(), a.clone()]);
    assert_eq!(pair, Ok((b.clone(), a)));
    assert_eq!(store.get("X"), Some(&b));
    assert_eq!(store.monitors().len(), 1);
}
