use hyprdisplay::paths::{get_config_dir_path, get_config_file_path, push_component};

#[test]
fn the_config_file_lies_below_the_home_directory() {
    assert_eq!(get_config_dir_path("/home/ada"), "/home/ada/.config/HyprDisplay");
    assert_eq!(
        get_config_file_path("/home/ada"),
        "/home/ada/.config/HyprDisplay/HyprDisplay.json"
    );
}

#[test]
fn a_home_directory_that_ends_in_a_separator_gets_no_second_one() {
    assert_eq!(get_config_file_path("/home/ada/"), "/home/ada/.config/HyprDisplay/HyprDisplay.json");
    assert_eq!(get_config_file_path("/"), "/.config/HyprDisplay/HyprDisplay.json");
}

#[test]
fn an_empty_home_directory_gives_a_relative_path() {
    assert_eq!(get_config_dir_path(""), ".config/HyprDisplay");
    assert_eq!(get_config_file_path(""), ".config/HyprDisplay/HyprDisplay.json");
}

#[test]
fn the_config_file_path_agrees_with_the_standard_path_type() {
    for home in ["/home/ada", "/home/ada/", "", "/", "relative/dir", "/home/zoë"] {
        let mut expected = std::path::PathBuf::from(home);
        expected.push(".config");
        expected.push("HyprDisplay");
        assert_eq!(std::path::Path::new(&get_config_dir_path(home)), expected.as_path());
        expected.push("HyprDisplay.json");
        assert_eq!(get_config_file_path(home), expected.to_str().unwrap());
    }
}

#[test]
fn push_component_joins_with_one_separator() {
    let mut path = String::from("a");
    push_component(&mut path, "b");
    assert_eq!(path, "a/b");
    push_component(&mut path, "");
    assert_eq!(path, "a/b/");
    push_component(&mut path, "c");
    assert_eq!(path, "a/b/c");
}
