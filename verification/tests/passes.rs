use react_source_string::ast::{
    AttrName, AttrValue, Attribute, ImportDecl, ImportSpecifier, OpeningElement, TagName,
};
use react_source_string::config::PluginConfig;
use react_source_string::source::{SourceLocation, SourceSpan};
use react_source_string::transform::{process_transform, Metadata, Node, Program};

fn names(list: &[&str]) -> Option<Vec<String>> {
    Some(list.iter().map(|name| String::from(*name)).collect())
}

fn metadata(libraries: &[&str], excluded: &[&str], root: Option<&str>) -> Metadata {
    Metadata {
        config: Some(
            PluginConfig {
                libraries: names(libraries),
                excluded: names(excluded),
                root: root.map(String::from),
            },
        ),
        cwd: None,
    }
}

fn import(source: &str, local: &str) -> Node {
    Node::Import {
        decl: ImportDecl {
            source: String::from(source),
            specifiers: vec![ImportSpecifier::Named { local: String::from(local) }],
        },
    }
}

fn element(name: &str, file: &str, line: usize) -> Node {
    Node::Element {
        opening: OpeningElement {
            name: TagName::Ident { name: String::from(name) },
            attrs: Vec::new(),
            span: SourceSpan { lo: 100, hi: 120 },
        },
        at: SourceLocation { file: String::from(file), line },
    }
}

fn synthetic(name: &str) -> Node {
    Node::Element {
        opening: OpeningElement {
            name: TagName::Ident { name: String::from(name) },
            attrs: Vec::new(),
            span: SourceSpan { lo: 0, hi: 0 },
        },
        at: SourceLocation { file: String::new(), line: 0 },
    }
}

fn sources(program: &Program) -> Vec<Option<String>> {
    let mut found = Vec::new();
    for node in &program.body {
        if let Node::Element { opening, .. } = node {
            let mut value = None;
            for attr in &opening.attrs {
                if let Attribute::Named {
                    name: AttrName::Ident { name },
                    value: AttrValue::Str { text },
                } = attr {
                    if name == "data-source" {
                        assert_eq!(value, None);
                        value = Some(text.clone());
                    }
                }
            }
            found.push(value);
        }
    }
    found
}

#[test]
fn card_and_div_are_annotated_and_untracked_is_not() {
    let program = Program {
        body: vec![
            import("ui-lib", "Card"),
            element("div", "app/Page.jsx", 1),
            element("Card", "app/Page.jsx", 1),
            element("Untracked", "app/Page.jsx", 1),
        ],
    };
    let out = process_transform(program.clone(), metadata(&["ui-lib"], &[], None));
    assert_eq!(
        sources(&out),
        vec![Some(String::from("app/Page.jsx:1")), Some(String::from("app/Page.jsx:1")), None],
    );
    assert_eq!(out.body[0], program.body[0]);
    assert_eq!(out.body[3], program.body[3]);
    assert_eq!(out.body.len(), 4);
}

#[test]
fn import_after_the_usage_comes_too_late() {
    let program = Program {
        body: vec![element("Button", "/w/a.jsx", 3), import("ui-lib", "Button")],
    };
    let out = process_transform(program.clone(), metadata(&["ui-lib"], &[], None));
    assert_eq!(out, program);
}

#[test]
fn import_before_the_usage_is_seen() {
    let program = Program {
        body: vec![import("ui-lib", "Button"), element("Button", "/w/a.jsx", 3)],
    };
    let out = process_transform(program, metadata(&["ui-lib"], &[], None));
    assert_eq!(sources(&out), vec![Some(String::from("/w/a.jsx:3"))]);
}

#[test]
fn import_between_two_usages_serves_the_second_only() {
    let program = Program {
        body: vec![
            element("Button", "/w/a.jsx", 3),
            import("ui-lib/Button", "Button"),
            element("Button", "/w/a.jsx", 9),
        ],
    };
    let out = process_transform(program, metadata(&["ui-lib"], &[], None));
    assert_eq!(sources(&out), vec![None, Some(String::from("/w/a.jsx:9"))]);
}

#[test]
fn second_pass_gives_what_the_first_gave() {
    let program = Program {
        body: vec![
            element("Late", "/w/a.jsx", 1),
            import("ui-lib", "Card"),
            import("ui-lib", "Late"),
            element("div", "/w/a.jsx", 2),
            element("Card", "/w/a.jsx", 3),
            element("Untracked", "/w/a.jsx", 4),
            synthetic("span"),
            element("Late", "/w/a.jsx", 5),
        ],
    };
    let once = process_transform(program, metadata(&["ui-lib"], &["untracked"], Some("/w")));
    assert_eq!(
        sources(&once),
        vec![
            None,
            Some(String::from("a.jsx:2")),
            Some(String::from("a.jsx:3")),
            None,
            None,
            Some(String::from("a.jsx:5")),
        ],
    );
    let twice = process_transform(once.clone(), metadata(&["ui-lib"], &["untracked"], Some("/w")));
    assert_eq!(twice, once);
}

#[test]
fn excluded_names_are_never_annotated() {
    let program = Program {
        body: vec![
            import("ui-lib", "Card"),
            import("ui-lib", "Panel"),
            element("div", "/w/a.jsx", 1),
            element("DIV", "/w/a.jsx", 2),
            element("Card", "/w/a.jsx", 3),
            element("card", "/w/a.jsx", 4),
            element("Panel", "/w/a.jsx", 5),
            element("span", "/w/a.jsx", 6),
        ],
    };
    let out = process_transform(program, metadata(&["ui-lib"], &["Div", "CARD"], None));
    assert_eq!(
        sources(&out),
        vec![
            None,
            None,
            None,
            None,
            Some(String::from("/w/a.jsx:5")),
            Some(String::from("/w/a.jsx:6")),
        ],
    );
}

#[test]
fn synthetic_elements_are_never_annotated() {
    let program = Program {
        body: vec![import("ui-lib", "Card"), synthetic("div"), synthetic("Card")],
    };
    let out = process_transform(program.clone(), metadata(&["ui-lib"], &[], None));
    assert_eq!(out, program);
}

#[test]
fn without_configuration_lowercase_tags_are_annotated_with_the_whole_path() {
    let program = Program {
        body: vec![
            import("ui-lib", "Card"),
            element("div", "C:\\proj\\src\\a.jsx", 8),
            element("Card", "C:\\proj\\src\\a.jsx", 9),
        ],
    };
    let out = process_transform(program, Metadata { config: None, cwd: None });
    assert_eq!(sources(&out), vec![Some(String::from("C:/proj/src/a.jsx:8")), None]);
}

#[test]
fn host_directory_is_the_fallback_for_the_root() {
    let body = vec![element("div", "/srv/site/src/a.jsx", 8)];
    let out = process_transform(
        Program { body: body.clone() },
        Metadata { config: None, cwd: Some(String::from("/srv/site")) },
    );
    assert_eq!(sources(&out), vec![Some(String::from("src/a.jsx:8"))]);
    let mut with_root = metadata(&[], &[], Some("/srv"));
    with_root.cwd = Some(String::from("/srv/site"));
    let out = process_transform(Program { body: body.clone() }, with_root);
    assert_eq!(sources(&out), vec![Some(String::from("site/src/a.jsx:8"))]);
    let out = process_transform(
        Program { body },
        Metadata { config: None, cwd: Some(String::new()) },
    );
    assert_eq!(sources(&out), vec![Some(String::from("/srv/site/src/a.jsx:8"))]);
}

#[test]
fn bindings_do_not_outlive_a_pass() {
    let first = Program { body: vec![import("ui-lib", "Card"), element("Card", "/w/a.jsx", 1)] };
    let second = Program { body: vec![element("Card", "/w/b.jsx", 1)] };
    let out = process_transform(first, metadata(&["ui-lib"], &[], None));
    assert_eq!(sources(&out), vec![Some(String::from("/w/a.jsx:1"))]);
    let out = process_transform(second.clone(), metadata(&["ui-lib"], &[], None));
    assert_eq!(out, second);
}

#[test]
fn empty_module_stays_empty() {
    let out = process_transform(Program { body: Vec::new() }, metadata(&["ui-lib"], &[], None));
    assert!(out.body.is_empty());
}
