use hyprdisplay::descriptor::Descriptor;
use hyprdisplay::mode::Mode;
use hyprdisplay::setup::{is_whitespace, parse_selection, setup};

fn monitor(description: &str, name: &str) -> Descriptor {
    Descriptor::new(description.to_string(), name.to_string(), 0, 0, 1920, 1080, 60_000, 100).unwrap()
}

#[test]
fn a_number_in_range_is_the_selection() {
    assert_eq!(parse_selection("0", 2), Some(0));
    assert_eq!(parse_selection("1", 2), Some(1));
    assert_eq!(parse_selection("1\n", 2), Some(1));
    assert_eq!(parse_selection("  1 \r\n", 2), Some(1));
    assert_eq!(parse_selection("\t0\u{a0}", 1), Some(0));
    assert_eq!(parse_selection("+1", 2), Some(1));
    assert_eq!(parse_selection("007", 8), Some(7));
    assert_eq!(parse_selection("41", 42), Some(41));
}

#[test]
fn a_number_out_of_range_is_no_selection() {
    assert_eq!(parse_selection("2", 2), None);
    assert_eq!(parse_selection("0", 0), None);
    assert_eq!(parse_selection("42", 42), None);
    assert_eq!(parse_selection("18446744073709551615", usize::MAX), None);
    assert_eq!(parse_selection("18446744073709551616", usize::MAX), None);
    assert_eq!(parse_selection("99999999999999999999999999999999999999999", usize::MAX), None);
    assert_eq!(parse_selection("18446744073709551614", usize::MAX), Some(usize::MAX - 1));
}

#[test]
fn what_is_no_number_is_no_selection() {
    for input in ["", " ", "\n", "one", "1a", "a1", "1 0", "-1", "-0", "+", "++1", "+-1", "1.0", "0x1", "１"] {
        assert_eq!(parse_selection(input, 10), None, "{input:?}");
    }
}

#[test]
fn parse_selection_agrees_with_the_standard_parser() {
    for input in ["0", "1", " 3\n", "+2", "+", "", "12", "x", "4 ", "\u{2003}5\u{3000}", "00000000000000000000000001"] {
        let expected = input.trim().parse::<usize>().ok().filter(|n| *n < 6);
        assert_eq!(parse_selection(input, 6), expected, "{input:?}");
    }
}

#[test]
fn white_space_is_what_unicode_calls_white_space() {
    for code in 0u32..0x3100 {
        if let Some(c) = char::from_u32(code) {
            assert_eq!(is_whitespace(c), c.is_whitespace(), "U+{code:04X}");
        }
    }
}

#[test]
fn setup_makes_a_fresh_store_with_the_chosen_default() {
    let live = vec![monitor("Laptop panel", "eDP-1"), monitor("Desk monitor", "HDMI-A-1")];
    let store = setup(&live, "1\n").unwrap();
    assert_eq!(store.default_identity(), "Desk monitor");
    assert_eq!(store.mode(), Mode::Mirror);
    assert_eq!(store.current_monitor_mode(), 0);
    assert_eq!(store.get("Laptop panel"), Some(&live[0]));
    assert_eq!(store.get("Desk monitor"), Some(&live[1]));
    assert_eq!(store.monitors().len(), 2);
    let store = setup(&live, "0").unwrap();
    assert_eq!(store.default_identity(), "Laptop panel");
}

#[test]
fn setup_takes_any_number_of_displays() {
    let live = vec![monitor("A", "DP-1"), monitor("B", "DP-2"), monitor("C", "DP-3")];
    let store = setup(&live, "2").unwrap();
    assert_eq!(store.default_identity(), "C");
    assert_eq!(store.monitors().len(), 3);
    let store = setup(&live[..1].to_vec(), "0").unwrap();
    assert_eq!(store.default_identity(), "A");
    assert_eq!(store.monitors().len(), 1);
}

#[test]
fn setup_makes_no_store_from_a_bad_answer() {
    let live = vec![monitor("A", "DP-1"), monitor("B", "DP-2")];
    assert!(setup(&live, "2").is_none());
    assert!(setup(&live, "").is_none());
    assert!(setup(&live, "first").is_none());
    assert!(setup(&Vec::new(), "0").is_none());
}

#[test]
fn setup_keeps_the_later_of_two_displays_with_one_description() {
    let live = vec![monitor("A", "DP-1"), monitor("A", "DP-2")];
    let store = setup(&live, "0").unwrap();
    assert_eq!(store.default_identity(), "A");
    assert_eq!(store.monitors().len(), 1);
    assert_eq!(store.get("A"), Some(&live[1]));
}
