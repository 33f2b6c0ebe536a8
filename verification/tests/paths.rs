use live_scoreboard::paths::{
    from_relative_path, relative_part, remove_file_from_path, to_relative_path, web_path,
};
use live_scoreboard::text::{after_last, chars_of, ends_with_from, holds_double, leading_count, text_from};

#[test]
fn web_path_uses_forward_slashes_and_drops_leading_dots() {
    assert_eq!(web_path("./assets/logo.png"), "/assets/logo.png");
    assert_eq!(web_path(".\\assets\\logo.png"), "/assets/logo.png");
    assert_eq!(web_path("..\\x"), "/x");
    assert_eq!(web_path("assets/a.b"), "assets/a.b");
    assert_eq!(web_path("..."), "");
    assert_eq!(web_path(""), "");
}

#[test]
fn relative_part_drops_leading_slashes() {
    assert_eq!(relative_part("/assets/logo.png"), "assets/logo.png");
    assert_eq!(relative_part("///a/b/"), "a/b/");
    assert_eq!(relative_part("a/b"), "a/b");
    assert_eq!(relative_part("//"), "");
}

#[test]
fn remove_file_from_path_gives_the_directory() {
    assert_eq!(remove_file_from_path("/home/me/event/config.json"), "/home/me/event");
    assert_eq!(remove_file_from_path("config.json"), "");
}

#[test]
fn to_relative_path_is_rooted_at_the_base() {
    assert_eq!(
        to_relative_path("/home/me/event", "/home/me/event/assets/logo.png"),
        Some(String::from("/assets/logo.png"))
    );
    assert_eq!(
        to_relative_path("/home/me/event/", "/home/me/event/a.png"),
        Some(String::from("/a.png"))
    );
}

#[test]
fn to_relative_path_of_a_file_elsewhere_is_none() {
    assert_eq!(to_relative_path("/home/me/event", "/home/you/logo.png"), None);
    assert_eq!(to_relative_path("/home/me/event", "/home/me/eventual/logo.png"), None);
}

#[test]
fn to_relative_path_of_the_base_itself_is_the_root() {
    assert_eq!(to_relative_path("/home/me/event", "/home/me/event"), Some(String::from("/")));
}

#[test]
fn path_functions_answer_the_same_for_the_same_texts() {
    let base = "/home/me/event";
    let file = "/home/me/event/assets/logo.png";
    assert_eq!(to_relative_path(base, file), to_relative_path(base, file));
    assert_eq!(from_relative_path(base, "//a/b.png"), from_relative_path(base, "a/b.png"));
    assert_eq!(remove_file_from_path(file), remove_file_from_path(file));
    assert_eq!(remove_file_from_path(file), "/home/me/event/assets");
}

#[test]
fn from_relative_path_lies_below_the_base() {
    assert_eq!(
        from_relative_path("/home/me/event", "/assets/logo.png"),
        "/home/me/event/assets/logo.png"
    );
    assert_eq!(from_relative_path("/home/me/event", "templates/**/*"), "/home/me/event/templates/**/*");
}

#[test]
fn relative_paths_round_trip() {
    let base = "/home/me/event";
    let file = "/home/me/event/assets/img/logo.png";
    let relative = to_relative_path(base, file).unwrap();
    assert_eq!(from_relative_path(base, &relative), file);
}

#[test]
fn text_helpers_work_on_characters() {
    let chars = chars_of("a.b.cd");
    assert_eq!(chars, vec!['a', '.', 'b', '.', 'c', 'd']);
    assert_eq!(after_last(&chars, '.'), 4);
    assert_eq!(after_last(&chars, 'x'), 0);
    assert_eq!(text_from(&chars, 4), "cd");
    assert_eq!(text_from(&chars, 6), "");
    assert!(ends_with_from(&chars, 4, "cd"));
    assert!(!ends_with_from(&chars, 4, "c"));
    assert!(!ends_with_from(&chars, 4, "cde"));
    assert!(ends_with_from(&chars, 6, ""));
    assert_eq!(leading_count(&chars_of("//a/"), '/'), 2);
    assert_eq!(leading_count(&chars_of(""), '/'), 0);
    assert!(holds_double(&chars_of("a..b"), '.'));
    assert!(!holds_double(&chars_of("a.b.c."), '.'));
    assert!(!holds_double(&chars_of("."), '.'));
    assert_eq!(chars_of("h\u{e9}llo").len(), 5);
}
