use gluey::location::{config_under, get_config_loc, ConfigEnv, CONFIG_SUFFIX, SEPARATOR};

fn bytes(text: &str) -> Vec<u8> {
    text.as_bytes().to_vec()
}

fn env(explicit: Option<&str>, xdg: Option<&str>, home: Option<&str>) -> ConfigEnv {
    ConfigEnv {
        gluey_config: explicit.map(bytes),
        xdg_config_home: xdg.map(bytes),
        home: home.map(bytes),
    }
}

#[test]
fn explicit_location_wins_over_both_bases() {
    let settings = env(Some("/tmp/note.txt"), Some("/xdg"), Some("/home/ada"));
    assert!(settings.is_resolvable());
    assert_eq!(get_config_loc(&settings), bytes("/tmp/note.txt"));
}

#[test]
fn explicit_location_is_taken_as_it_is() {
    let settings = env(Some("relative/dir/"), None, None);
    assert_eq!(get_config_loc(&settings), bytes("relative/dir/"));
    let empty = env(Some(""), Some("/xdg"), None);
    assert_eq!(get_config_loc(&empty), bytes(""));
}

#[test]
fn xdg_base_wins_over_home() {
    let settings = env(None, Some("/xdg"), Some("/home/ada"));
    assert!(settings.is_resolvable());
    assert_eq!(get_config_loc(&settings), bytes("/xdg/.gluey/config"));
}

#[test]
fn home_is_the_last_resort() {
    let settings = env(None, None, Some("/home/ada"));
    assert!(settings.is_resolvable());
    assert_eq!(get_config_loc(&settings), bytes("/home/ada/.gluey/config"));
}

#[test]
fn nothing_set_is_not_resolvable() {
    assert!(!env(None, None, None).is_resolvable());
    assert!(env(Some("a"), None, None).is_resolvable());
    assert!(env(None, Some("a"), None).is_resolvable());
    assert!(env(None, None, Some("a")).is_resolvable());
}

#[test]
fn base_that_ends_in_a_separator_gets_no_second_one() {
    assert_eq!(config_under(&bytes("/home/ada/")), bytes("/home/ada/.gluey/config"));
    assert_eq!(config_under(&bytes("/")), bytes("/.gluey/config"));
    let settings = env(None, Some("/xdg/"), Some("/home/ada"));
    assert_eq!(get_config_loc(&settings), bytes("/xdg/.gluey/config"));
}

#[test]
fn empty_base_gives_a_relative_location() {
    assert_eq!(config_under(&bytes("")), bytes(".gluey/config"));
    let settings = env(None, Some(""), Some("/home/ada"));
    assert_eq!(get_config_loc(&settings), bytes(".gluey/config"));
}

#[test]
fn relative_base_stays_relative() {
    assert_eq!(config_under(&bytes("notes")), bytes("notes/.gluey/config"));
}

#[test]
fn base_need_not_be_text() {
    let base: Vec<u8> = vec![0x2f, 0xff, 0xfe];
    let mut expected: Vec<u8> = vec![0x2f, 0xff, 0xfe, 0x2f];
    expected.extend_from_slice(b".gluey/config");
    assert_eq!(config_under(&base), expected);
}

#[test]
fn suffix_and_separator_are_fixed() {
    assert_eq!(CONFIG_SUFFIX, ".gluey/config");
    assert_eq!(SEPARATOR, b'/');
}

#[test]
fn joining_agrees_with_the_standard_library() {
    for base in ["/home/ada", "/home/ada/", "", "/", "notes", "a/b/", "a//", "//", "."] {
        let joined: std::path::PathBuf = [base, CONFIG_SUFFIX].iter().collect();
        assert_eq!(config_under(&bytes(base)), bytes(joined.to_str().unwrap()));
    }
}
