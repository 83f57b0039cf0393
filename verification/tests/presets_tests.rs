use std::collections::HashSet;
use trustfall_git_adapter::presets::{all_presets, find_preset};

#[test]
fn test_all_presets_returns_five() {
    assert_eq!(all_presets().len(), 5);
}

#[test]
fn test_find_preset_exists() {
    let preset = find_preset("recent-commits");
    assert!(preset.is_some());
    assert_eq!(preset.unwrap().name, "recent-commits");
}

#[test]
fn test_find_preset_not_found() {
    assert!(find_preset("nonexistent").is_none());
}

#[test]
fn test_all_preset_names_unique() {
    let presets = all_presets();
    let names: HashSet<&str> = presets.iter().map(|p| p.name).collect();
    assert_eq!(names.len(), all_presets().len());
}

#[test]
fn test_all_preset_queries_nonempty() {
    for preset in all_presets() {
        assert!(
            !preset.query.is_empty(),
            "Preset '{}' has an empty query",
            preset.name
        );
    }
}

#[test]
fn test_recent_commits_has_limit_param_with_default() {
    let preset = find_preset("recent-commits").unwrap();
    assert_eq!(preset.params.len(), 1);
    let param = &preset.params[0];
    assert_eq!(param.name, "limit");
    assert!(!param.required);
    assert_eq!(param.default, Some("10"));
}

#[test]
fn test_commits_by_author_has_required_param() {
    let preset = find_preset("commits-by-author").unwrap();
    assert_eq!(preset.params.len(), 1);
    let param = &preset.params[0];
    assert_eq!(param.name, "author");
    assert!(param.required);
    assert_eq!(param.default, None);
}

#[test]
fn test_branches_has_no_params() {
    let preset = find_preset("branches").unwrap();
    assert!(preset.params.is_empty());
}

#[test]
fn presets_are_listed_in_order() {
    let names: Vec<&str> = all_presets().iter().map(|p| p.name).collect();
    assert_eq!(
        names,
        vec!["recent-commits", "branches", "tags", "commits-by-author", "search-commits"]
    );
}

#[test]
fn every_preset_is_found_by_its_name() {
    for preset in all_presets() {
        assert_eq!(find_preset(preset.name), Some(preset));
    }
}

#[test]
fn find_preset_is_exact_about_names() {
    assert!(find_preset("").is_none());
    assert!(find_preset("Tags").is_none());
    assert!(find_preset("tags ").is_none());
    let tags = find_preset("tags").unwrap();
    assert_eq!(tags.description, "List all tags with their commit");
    assert!(tags.query.contains("tags {"));
}

#[test]
fn inline_parameters_go_into_the_query_text() {
    let recent = find_preset("recent-commits").unwrap();
    assert!(recent.params[0].inline);
    assert!(recent.query.contains("commits(limit: $limit)"));
    let search = find_preset("search-commits").unwrap();
    assert_eq!(search.params[0].name, "pattern");
    assert!(search.params[0].required);
    assert!(!search.params[0].inline);
    assert_eq!(search.params[0].default, None);
}
