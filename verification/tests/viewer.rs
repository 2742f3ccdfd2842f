use hyprdisplay::descriptor::Descriptor;
use hyprdisplay::mode::Mode;
use hyprdisplay::store::Store;
use hyprdisplay::viewer::{is_quit_key, truncate_coordinate, AppState, Display};

fn monitor(description: &str, x: i32, y: i32, width: u16, height: u16) -> Descriptor {
    Descriptor::new(description.to_string(), "DP-1".to_string(), x, y, width, height, 60_000, 100).unwrap()
}

fn store_with(default: &str, known: &[Descriptor]) -> Store {
    let mut store = Store::new(default.to_string(), Mode::Mirror);
    for d in known {
        store.insert(d.clone());
    }
    store
}

#[test]
fn the_viewer_starts_with_nothing_toggled() {
    let monitors = vec![monitor("A", 0, 0, 1920, 1080), monitor("B", 1920, 0, 2560, 1440)];
    let state = AppState::new(monitors.clone(), store_with("A", &monitors), 12, 34);
    assert!(!state.fullscreen());
    assert_eq!(state.selected_section(), 0);
    assert_eq!(state.middle_x(), 12);
    assert_eq!(state.middle_y(), 34);
    assert_eq!(state.default_identity(), "A");
    assert_eq!(state.monitors(), &monitors);
    assert_eq!(state.config().default_identity(), "A");
}

#[test]
fn displays_are_numbered_in_the_order_of_the_monitors() {
    let monitors = vec![monitor("A", 0, 0, 1920, 1080), monitor("B", 1920, 40, 2560, 1440)];
    let state = AppState::new(monitors.clone(), store_with("A", &monitors), 0, 0);
    assert_eq!(state.display("A"), Some(Display { x: 0, y: 0, width: 1920, height: 1080, id: 0 }));
    assert_eq!(state.display("B"), Some(Display { x: 1920, y: 40, width: 2560, height: 1440, id: 1 }));
    assert_eq!(state.display("C"), None);
    assert_eq!(state.display(""), None);
}

#[test]
fn the_later_of_two_monitors_with_one_description_is_drawn() {
    let monitors = vec![
        monitor("A", 1, 1, 10, 10),
        monitor("B", 2, 2, 20, 20),
        monitor("A", 3, 3, 30, 30),
    ];
    let state = AppState::new(monitors, store_with("A", &[]), 0, 0);
    assert_eq!(state.display("A"), Some(Display { x: 3, y: 3, width: 30, height: 30, id: 2 }));
    assert_eq!(state.display("B"), Some(Display { x: 2, y: 2, width: 20, height: 20, id: 1 }));
}

#[test]
fn coordinates_keep_their_low_sixteen_bits() {
    assert_eq!(truncate_coordinate(0), 0);
    assert_eq!(truncate_coordinate(1920), 1920);
    assert_eq!(truncate_coordinate(65_535), 65_535);
    assert_eq!(truncate_coordinate(65_536), 0);
    assert_eq!(truncate_coordinate(70_000), 4_464);
    assert_eq!(truncate_coordinate(-1), 65_535);
    assert_eq!(truncate_coordinate(-1920), 63_616);
    assert_eq!(truncate_coordinate(-65_536), 0);
    assert_eq!(truncate_coordinate(i32::MAX), 65_535);
    assert_eq!(truncate_coordinate(i32::MIN), 0);
    for v in [-200_000i32, -65_537, -3, 5, 131_071, 1 << 30] {
        assert_eq!(truncate_coordinate(v), v as u16);
    }
    let state = AppState::new(vec![monitor("A", -1920, 70_000, 1, 1)], store_with("A", &[]), 0, 0);
    assert_eq!(state.display("A"), Some(Display { x: 63_616, y: 4_464, width: 1, height: 1, id: 0 }));
}

#[test]
fn the_viewer_is_centred_on_the_default_display() {
    let monitors = vec![monitor("A", 0, 0, 1920, 1080), monitor("B", 1920, -40, 2560, 1440)];
    let state = AppState::centered(monitors.clone(), store_with("B", &monitors)).unwrap();
    assert_eq!(state.middle_x(), 1920);
    assert_eq!(state.middle_y(), 65_496);
    assert_eq!(state.default_identity(), "B");
    assert!(!state.fullscreen());
    assert_eq!(state.selected_section(), 0);
}

#[test]
fn the_viewer_is_not_centred_on_a_default_that_the_store_does_not_know() {
    let monitors = vec![monitor("A", 0, 0, 1920, 1080)];
    assert!(AppState::centered(monitors.clone(), store_with("B", &monitors)).is_none());
    assert!(AppState::centered(Vec::new(), store_with("A", &monitors)).is_some());
}

#[test]
fn the_fullscreen_key_toggles() {
    let mut state = AppState::new(Vec::new(), store_with("A", &[]), 0, 0);
    state.handle_input('f');
    assert!(state.fullscreen());
    state.handle_input('f');
    assert!(!state.fullscreen());
    assert_eq!(state.selected_section(), 0);
}

#[test]
fn the_number_keys_select_a_section() {
    let mut state = AppState::new(Vec::new(), store_with("A", &[]), 0, 0);
    state.handle_input('3');
    assert_eq!(state.selected_section(), 2);
    state.handle_input('2');
    assert_eq!(state.selected_section(), 1);
    state.handle_input('1');
    assert_eq!(state.selected_section(), 0);
    assert!(!state.fullscreen());
}

#[test]
fn other_keys_change_nothing() {
    let mut state = AppState::new(Vec::new(), store_with("A", &[]), 5, 6);
    state.handle_input('2');
    state.handle_input('f');
    for key in ['0', '4', 'F', 'q', ' ', 'h', 'j', 'k', 'l', '\n'] {
        state.handle_input(key);
        assert!(state.fullscreen());
        assert_eq!(state.selected_section(), 1);
        assert_eq!((state.middle_x(), state.middle_y()), (5, 6));
    }
}

#[test]
fn only_q_quits() {
    assert!(is_quit_key('q'));
    for key in ['Q', 'f', '1', ' ', 'x'] {
        assert!(!is_quit_key(key));
    }
}
