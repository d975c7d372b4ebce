use alfalfa::config::identity_config_text;
use alfalfa::constants::{
    GITIGNORE_CONTENT, LF_TOOL_PACKAGE_JSON, LF_TOOL_SOURCE, SYSTEM_PROMPT_BUILD, SYSTEM_PROMPT_PLAN,
};
use alfalfa::plan::{
    auth_copy_needed, identity_config_file, plan_lf_tool, writes_for_missing, PendingFile,
};

fn pending(name: &'static str) -> PendingFile {
    PendingFile { name, path: format!("/d/{name}"), content: format!("content of {name}") }
}

#[test]
fn identity_config_text_is_the_pretty_document() {
    let text = identity_config_text();
    let value: serde_json::Value = serde_json::from_str(&text).unwrap();
    assert_eq!(value["agent"]["build"]["mode"], "primary");
    assert_eq!(value["agent"]["build"]["prompt"], SYSTEM_PROMPT_BUILD);
    assert_eq!(value["agent"]["plan"]["prompt"], SYSTEM_PROMPT_PLAN);
    assert_eq!(
        value["agent"]["plan"]["description"],
        "Plan mode - analyze and plan evaluations without modifying anything"
    );
    assert_eq!(value["permission"]["bash"], "ask");
    assert_eq!(value["permission"]["read"], "allow");
    assert_eq!(value["permission"].as_object().unwrap().len(), 8);
    assert_eq!(value.as_object().unwrap().len(), 2);
    assert_eq!(text, serde_json::to_string_pretty(&value).unwrap());
    assert!(text.starts_with("{\n  \"agent\": {\n    \"build\": {\n      \"description\": "));
}

#[test]
fn only_missing_files_are_written() {
    let files = vec![pending("a"), pending("b"), pending("c")];
    let out = writes_for_missing(files, &vec![false, true, false]);
    let names: Vec<&str> = out.iter().map(|f| f.name).collect();
    assert_eq!(names, vec!["a", "c"]);
    assert_eq!(out[1].path, "/d/c");
    assert_eq!(out[1].content, "content of c");
}

#[test]
fn nothing_is_written_when_all_exist() {
    let out = writes_for_missing(vec![pending("a"), pending("b")], &vec![true, true]);
    assert!(out.is_empty());
}

#[test]
fn identity_config_file_is_opencode_json() {
    let f = identity_config_file("/b");
    assert_eq!(f.name, "opencode.json");
    assert_eq!(f.path, "/b/config/opencode/opencode.json");
    assert_eq!(f.content, identity_config_text());
}

#[test]
fn lf_tool_plan_for_a_fresh_setup() {
    let p = plan_lf_tool("/b", false, false, false, false);
    assert_eq!(p.writes_before_install.len(), 2);
    assert_eq!(p.writes_before_install[0].path, "/b/config/opencode/tools/lf.ts");
    assert_eq!(p.writes_before_install[0].content, LF_TOOL_SOURCE);
    assert_eq!(p.writes_before_install[1].path, "/b/config/opencode/package.json");
    assert_eq!(p.writes_before_install[1].content, LF_TOOL_PACKAGE_JSON);
    assert_eq!(
        p.install,
        Some("cd /b/config/opencode && (bun install 2>/dev/null || npm install 2>/dev/null)".to_string())
    );
    assert_eq!(p.writes_after_install.len(), 1);
    assert_eq!(p.writes_after_install[0].path, "/b/config/opencode/.gitignore");
    assert_eq!(p.writes_after_install[0].content, GITIGNORE_CONTENT);
}

#[test]
fn lf_tool_plan_keeps_existing_files() {
    let p = plan_lf_tool("/b", true, false, true, true);
    assert_eq!(p.writes_before_install.len(), 1);
    assert_eq!(p.writes_before_install[0].name, "package.json");
    assert_eq!(p.install, None);
    assert!(p.writes_after_install.is_empty());
}

#[test]
fn auth_is_copied_only_when_missing_and_available() {
    assert!(auth_copy_needed(false, true));
    assert!(!auth_copy_needed(true, true));
    assert!(!auth_copy_needed(false, false));
    assert!(!auth_copy_needed(true, false));
}
