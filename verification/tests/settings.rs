use react_source_string::config::{parse_config, PluginConfig};

fn names(list: &[&str]) -> Option<Vec<String>> {
    Some(list.iter().map(|name| String::from(*name)).collect())
}

#[test]
fn no_configuration_gives_empty_settings() {
    let settings = parse_config(None);
    assert!(settings.excluded().is_empty());
    assert!(settings.libraries().is_empty());
    assert_eq!(settings.working_directory(), &None);
}

#[test]
fn configuration_without_fields_gives_empty_settings() {
    let settings = parse_config(Some(PluginConfig { libraries: None, excluded: None, root: None }));
    assert!(settings.excluded().is_empty());
    assert!(settings.libraries().is_empty());
    assert_eq!(settings.working_directory(), &None);
}

#[test]
fn excluded_names_are_lowercased() {
    let settings = parse_config(
        Some(PluginConfig {
            libraries: None,
            excluded: names(&["Fragment", "DIV", "span", "ÉCRAN"]),
            root: None,
        }),
    );
    assert!(settings.excluded().contains("fragment"));
    assert!(settings.excluded().contains("div"));
    assert!(settings.excluded().contains("span"));
    assert!(settings.excluded().contains("écran"));
    assert!(!settings.excluded().contains("Fragment"));
    assert!(!settings.excluded().contains("DIV"));
    assert_eq!(settings.excluded().len(), 4);
}

#[test]
fn excluded_names_that_differ_in_case_only_are_one() {
    let settings = parse_config(
        Some(PluginConfig { libraries: None, excluded: names(&["Div", "div", "DIV"]), root: None }),
    );
    assert_eq!(settings.excluded().len(), 1);
    assert!(settings.excluded().contains("div"));
}

#[test]
fn libraries_are_kept_as_written() {
    let settings = parse_config(
        Some(PluginConfig {
            libraries: names(&["ui-lib", "@Scope/Kit", "ui-lib"]),
            excluded: None,
            root: None,
        }),
    );
    assert!(settings.libraries().contains("ui-lib"));
    assert!(settings.libraries().contains("@Scope/Kit"));
    assert!(!settings.libraries().contains("@scope/kit"));
    assert_eq!(settings.libraries().len(), 2);
    assert!(settings.excluded().is_empty());
}

#[test]
fn root_becomes_the_working_directory() {
    let settings = parse_config(
        Some(PluginConfig { libraries: None, excluded: None, root: Some(String::from("/home/app")) }),
    );
    assert_eq!(settings.working_directory(), &Some(String::from("/home/app")));
}

#[test]
fn empty_root_counts_as_none() {
    let settings = parse_config(
        Some(PluginConfig { libraries: None, excluded: None, root: Some(String::new()) }),
    );
    assert_eq!(settings.working_directory(), &None);
}

#[test]
fn host_directory_is_used_where_no_root_is_set() {
    let settings = parse_config(None).or_working_in(Some(String::from("/srv/site")));
    assert_eq!(settings.working_directory(), &Some(String::from("/srv/site")));
}

#[test]
fn empty_host_directory_counts_as_none() {
    let settings = parse_config(None).or_working_in(Some(String::new()));
    assert_eq!(settings.working_directory(), &None);
    let settings = parse_config(None).or_working_in(None);
    assert_eq!(settings.working_directory(), &None);
}

#[test]
fn root_wins_over_the_host_directory() {
    let settings = parse_config(
        Some(PluginConfig { libraries: None, excluded: None, root: Some(String::from("/home/app")) }),
    ).or_working_in(Some(String::from("/srv/site")));
    assert_eq!(settings.working_directory(), &Some(String::from("/home/app")));
}

#[test]
fn empty_root_gives_way_to_the_host_directory() {
    let settings = parse_config(
        Some(PluginConfig { libraries: None, excluded: None, root: Some(String::new()) }),
    ).or_working_in(Some(String::from("/srv/site")));
    assert_eq!(settings.working_directory(), &Some(String::from("/srv/site")));
}
