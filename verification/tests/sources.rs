use react_source_string::source::{resolve, SourceLocation, SourceSpan, RESERVED_FROM};

fn place(file: &str, line: usize) -> SourceLocation {
    SourceLocation { file: String::from(file), line }
}

#[test]
fn all_zero_span_is_a_dummy() {
    assert!(SourceSpan { lo: 0, hi: 0 }.is_dummy());
}

#[test]
fn span_with_a_real_start_is_no_dummy() {
    assert!(!SourceSpan { lo: 1, hi: 1 }.is_dummy());
    assert!(!SourceSpan { lo: 0, hi: 5 }.is_dummy());
    assert!(!SourceSpan { lo: 17, hi: 42 }.is_dummy());
    assert!(!SourceSpan { lo: 7, hi: 0 }.is_dummy());
}

#[test]
fn span_among_the_reserved_positions_is_a_dummy() {
    assert_eq!(RESERVED_FROM, u32::MAX - 65536);
    assert!(SourceSpan { lo: RESERVED_FROM, hi: RESERVED_FROM }.is_dummy());
    assert!(SourceSpan { lo: u32::MAX, hi: u32::MAX }.is_dummy());
    assert!(SourceSpan { lo: u32::MAX - 1, hi: 3 }.is_dummy());
    assert!(!SourceSpan { lo: RESERVED_FROM - 1, hi: RESERVED_FROM }.is_dummy());
    assert!(!SourceSpan { lo: 5, hi: u32::MAX }.is_dummy());
}

#[test]
fn resolve_gives_relative_path_and_line() {
    let span = SourceSpan { lo: 10, hi: 20 };
    let at = place("/home/app/src/Foo.jsx", 10);
    let dir = Some(String::from("/home/app"));
    assert_eq!(resolve(span, &at, &dir), Some(String::from("src/Foo.jsx:10")));
}

#[test]
fn resolve_keeps_a_path_outside_the_working_directory() {
    let span = SourceSpan { lo: 10, hi: 20 };
    let at = place("/other/Foo.jsx", 10);
    let dir = Some(String::from("/home/app"));
    assert_eq!(resolve(span, &at, &dir), Some(String::from("/other/Foo.jsx:10")));
}

#[test]
fn resolve_without_working_directory_gives_the_whole_path() {
    let span = SourceSpan { lo: 1, hi: 2 };
    let at = place("/home/app/src/Foo.jsx", 3);
    assert_eq!(resolve(span, &at, &None), Some(String::from("/home/app/src/Foo.jsx:3")));
}

#[test]
fn resolve_without_working_directory_still_turns_backslashes() {
    let span = SourceSpan { lo: 1, hi: 2 };
    let at = place("C:\\proj\\src\\Foo.jsx", 121);
    assert_eq!(resolve(span, &at, &None), Some(String::from("C:/proj/src/Foo.jsx:121")));
}

#[test]
fn resolve_gives_nothing_for_a_synthetic_span() {
    let at = place("/home/app/src/Foo.jsx", 10);
    let dir = Some(String::from("/home/app"));
    assert_eq!(resolve(SourceSpan { lo: 0, hi: 0 }, &at, &dir), None);
    assert_eq!(resolve(SourceSpan { lo: u32::MAX, hi: u32::MAX }, &at, &dir), None);
    assert_eq!(resolve(SourceSpan { lo: 0, hi: 0 }, &at, &None), None);
}

#[test]
fn resolve_writes_the_line_as_the_host_gave_it() {
    let span = SourceSpan { lo: 1, hi: 2 };
    let dir = Some(String::from("/w"));
    assert_eq!(resolve(span, &place("/w/a.tsx", 1), &dir), Some(String::from("a.tsx:1")));
    assert_eq!(resolve(span, &place("/w/a.tsx", 99), &dir), Some(String::from("a.tsx:99")));
    assert_eq!(resolve(span, &place("/w/a.tsx", 100), &dir), Some(String::from("a.tsx:100")));
    assert_eq!(resolve(span, &place("/w/a.tsx", 40321), &dir), Some(String::from("a.tsx:40321")));
}
