use alfalfa::constants::{JOURNAL_LOG_SEED, JOURNAL_OVERVIEW_TEMPLATE, JOURNAL_SCHEMA};
use alfalfa::journal::{
    get_journal_path, journal_dir_for_project, journal_seeds_for, overview_path_for,
    render_overview, resolved_journal_path,
};

#[test]
fn journal_dir_is_under_lf_agent() {
    assert_eq!(journal_dir_for_project("/work/proj"), "/work/proj/.lf_agent/journal");
}

#[test]
fn journal_dir_of_a_path_with_trailing_separator() {
    assert_eq!(journal_dir_for_project("/work/proj/"), "/work/proj/.lf_agent/journal");
}

#[test]
fn journal_dir_of_an_empty_project_path() {
    assert_eq!(journal_dir_for_project(""), ".lf_agent/journal");
}

#[test]
fn get_journal_path_matches_journal_dir() {
    assert_eq!(
        get_journal_path("/work/proj".to_string()),
        Ok(journal_dir_for_project("/work/proj"))
    );
}

#[test]
fn seeds_are_schema_then_log() {
    let seeds = journal_seeds_for("/j");
    assert_eq!(seeds.len(), 2);
    assert_eq!(seeds[0].file_name, "_schema.md");
    assert_eq!(seeds[0].path, "/j/_schema.md");
    assert_eq!(seeds[0].content, JOURNAL_SCHEMA);
    assert_eq!(seeds[1].file_name, "_log.md");
    assert_eq!(seeds[1].path, "/j/_log.md");
    assert_eq!(seeds[1].content, JOURNAL_LOG_SEED);
}

#[test]
fn overview_is_in_the_journal() {
    assert_eq!(overview_path_for("/j"), "/j/overview.md");
}

#[test]
fn overview_carries_the_date_twice() {
    let text = render_overview("2024-05-01");
    assert!(text.starts_with("---\ntags: [overview]\ncreated: 2024-05-01\nupdated: 2024-05-01\nlinks: []\n---\n"));
    assert!(!text.contains("{{DATE}}"));
    assert_eq!(text, JOURNAL_OVERVIEW_TEMPLATE.replace("{{DATE}}", "2024-05-01"));
}

#[test]
fn overview_of_an_empty_date() {
    let text = render_overview("");
    assert!(text.starts_with("---\ntags: [overview]\ncreated: \nupdated: \nlinks: []\n"));
}

#[test]
fn distinct_projects_get_distinct_journals() {
    assert_ne!(journal_dir_for_project("/a/b"), journal_dir_for_project("/a/c"));
    assert_eq!(journal_dir_for_project("/a/b"), journal_dir_for_project("/a/b/"));
}

#[test]
fn relative_project_is_resolved_in_the_working_dir() {
    assert_eq!(
        resolved_journal_path(Some("/home/u".to_string()), "proj".to_string()),
        Ok("/home/u/proj/.lf_agent/journal".to_string())
    );
    assert_eq!(
        resolved_journal_path(None, "/abs/proj".to_string()),
        Ok("/abs/proj/.lf_agent/journal".to_string())
    );
    assert_eq!(
        resolved_journal_path(Some("/home/u".to_string()), "/abs/proj".to_string()),
        Ok("/abs/proj/.lf_agent/journal".to_string())
    );
    assert_eq!(
        resolved_journal_path(None, "proj".to_string()),
        Err("Failed to resolve the project path".to_string())
    );
}
