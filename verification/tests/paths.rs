use react_source_string::path::{normalized, relative_path};

#[test]
fn file_under_the_working_directory_is_made_relative() {
    assert_eq!(relative_path("/home/app", "/home/app/src/Foo.jsx"), "src/Foo.jsx");
}

#[test]
fn file_outside_the_working_directory_stays_absolute() {
    assert_eq!(relative_path("/home/app", "/other/Foo.jsx"), "/other/Foo.jsx");
}

#[test]
fn trailing_slashes_of_the_working_directory_are_ignored() {
    assert_eq!(relative_path("/home/app/", "/home/app/src/Foo.jsx"), "src/Foo.jsx");
    assert_eq!(relative_path("/home/app///", "/home/app/src/Foo.jsx"), "src/Foo.jsx");
}

#[test]
fn every_slash_after_the_prefix_is_dropped() {
    assert_eq!(relative_path("/home/app", "/home/app///src/Foo.jsx"), "src/Foo.jsx");
}

#[test]
fn backslashes_become_forward_slashes_in_the_file_name() {
    assert_eq!(relative_path("C:/proj", "C:\\proj\\src\\Foo.jsx"), "src/Foo.jsx");
    assert_eq!(relative_path("/home/app", "\\other\\Foo.jsx"), "/other/Foo.jsx");
}

#[test]
fn backslashes_become_forward_slashes_in_the_working_directory() {
    assert_eq!(relative_path("C:\\proj", "C:\\proj\\src\\Foo.jsx"), "src/Foo.jsx");
    assert_eq!(relative_path("C:\\proj\\", "C:/proj/src/Foo.jsx"), "src/Foo.jsx");
}

#[test]
fn the_prefix_is_matched_as_text_only() {
    assert_eq!(relative_path("/home/app", "/home/application/Foo.jsx"), "lication/Foo.jsx");
    assert_eq!(relative_path("/home/app", "/home/app/../Foo.jsx"), "../Foo.jsx");
}

#[test]
fn file_equal_to_the_working_directory_gives_the_empty_path() {
    assert_eq!(relative_path("/home/app", "/home/app"), "");
    assert_eq!(relative_path("/home/app", "/home/app/"), "");
}

#[test]
fn working_directory_of_slashes_only_strips_the_leading_slashes() {
    assert_eq!(relative_path("/", "/other/Foo.jsx"), "other/Foo.jsx");
    assert_eq!(relative_path("", "//other/Foo.jsx"), "other/Foo.jsx");
}

#[test]
fn working_directory_longer_than_the_file_name_does_not_match() {
    assert_eq!(relative_path("/home/app/src", "/home/app"), "/home/app");
}

#[test]
fn letters_beyond_ascii_are_kept() {
    assert_eq!(relative_path("/home/café", "/home/café/übung/Foo.jsx"), "übung/Foo.jsx");
}

#[test]
fn normalized_turns_each_backslash() {
    let chars: Vec<char> = "a\\b/c\\".chars().collect();
    let expected: Vec<char> = "a/b/c/".chars().collect();
    assert_ne!(chars, expected);
    assert_eq!(normalized("a\\b/c\\"), expected);
    assert_eq!(normalized(""), Vec::<char>::new());
}
