use alfalfa::layout::{
    auth_destination_for, base_dir, base_dir_from_home, global_auth_file, global_auth_file_with,
    identity_config, identity_config_path_for, install_command_for, lf_tool_layout,
    opencode_db_path, opencode_db_path_for, opencode_db_path_for_home, xdg_overrides_for_home, setup_directories_for, xdg_env_overrides,
    xdg_overrides_for, PermissionAction,
};
use alfalfa::path::join_path;

#[test]
fn join_adds_a_separator() {
    assert_eq!(join_path("/tmp", "file.bk"), "/tmp/file.bk");
}

#[test]
fn join_keeps_an_existing_separator() {
    assert_eq!(join_path("/tmp/", "file.bk"), "/tmp/file.bk");
}

#[test]
fn join_on_empty_base_is_the_component() {
    assert_eq!(join_path("", ".lf_agent"), ".lf_agent");
}

#[test]
fn join_with_absolute_component_replaces() {
    assert_eq!(join_path("/etc", "/bin/sh"), "/bin/sh");
}

#[test]
fn join_with_empty_component_ends_in_separator() {
    assert_eq!(join_path("a", ""), "a/");
}

#[test]
fn base_dir_is_under_home() {
    assert_eq!(
        base_dir_from_home(Some("/home/alice".to_string())),
        Ok("/home/alice/.alfalfa".to_string())
    );
}

#[test]
fn base_dir_without_home_is_an_error() {
    assert_eq!(
        base_dir_from_home(None),
        Err("Cannot determine home directory".to_string())
    );
}

#[test]
fn base_dir_of_this_process() {
    match base_dir() {
        Ok(p) => assert!(p.ends_with("/.alfalfa") && p.len() > "/.alfalfa".len()),
        Err(e) => assert_eq!(e, "Cannot determine home directory"),
    }
}

#[test]
fn xdg_overrides_point_into_base() {
    let v = xdg_overrides_for("/home/alice/.alfalfa");
    let expected = vec![
        ("XDG_DATA_HOME", "/home/alice/.alfalfa/data".to_string()),
        ("XDG_CONFIG_HOME", "/home/alice/.alfalfa/config".to_string()),
        ("XDG_STATE_HOME", "/home/alice/.alfalfa/state".to_string()),
        ("XDG_CACHE_HOME", "/home/alice/.alfalfa/cache".to_string()),
    ];
    assert_eq!(v, expected);
}

#[test]
fn xdg_overrides_of_this_process_stay_inside_base() {
    match (xdg_env_overrides(), base_dir()) {
        (Ok(v), Ok(base)) => {
            assert_eq!(v.len(), 4);
            for (_, dir) in v {
                assert!(dir.starts_with(&base));
                assert!(dir.len() > base.len());
            }
        }
        (Err(e), Err(_)) => assert_eq!(e, "Cannot determine home directory"),
        _ => panic!("the overrides and the base directory disagree"),
    }
}

#[test]
fn db_path_is_in_the_data_dir() {
    assert_eq!(
        opencode_db_path_for("/home/alice/.alfalfa"),
        "/home/alice/.alfalfa/data/opencode/opencode.db"
    );
}

#[test]
fn db_path_of_this_process() {
    match opencode_db_path() {
        Ok(p) => assert!(p.ends_with("/data/opencode/opencode.db")),
        Err(e) => assert_eq!(e, "Cannot determine home directory"),
    }
}

#[test]
fn db_path_follows_the_data_override() {
    let base = "/srv/u/.alfalfa";
    let data = xdg_overrides_for(base)[0].1.clone();
    let expected = join_path(&join_path(&data, "opencode"), "opencode.db");
    assert_eq!(opencode_db_path_for(base), expected);
}

#[test]
fn setup_creates_five_directories() {
    assert_eq!(
        setup_directories_for("/b"),
        vec![
            "/b".to_string(),
            "/b/data".to_string(),
            "/b/config/opencode".to_string(),
            "/b/state".to_string(),
            "/b/cache".to_string(),
        ]
    );
}

#[test]
fn setup_creates_the_directories_of_the_overrides() {
    let dirs = setup_directories_for("/b");
    let v = xdg_overrides_for("/b");
    assert!(dirs.contains(&v[0].1));
    assert!(dirs.contains(&v[2].1));
    assert!(dirs.contains(&v[3].1));
    assert!(dirs.contains(&join_path(&v[1].1, "opencode")));
}

#[test]
fn auth_copy_goes_into_the_data_dir() {
    let (dir, file) = auth_destination_for("/b");
    assert_eq!(dir, "/b/data/opencode");
    assert_eq!(file, "/b/data/opencode/auth.json");
}

#[test]
fn global_auth_prefers_xdg_data_home() {
    assert_eq!(
        global_auth_file_with(Some("/xdg".to_string()), Some("/home/alice".to_string())),
        "/xdg/opencode/auth.json"
    );
    assert_eq!(global_auth_file(Some("/xdg".to_string())), "/xdg/opencode/auth.json");
}

#[test]
fn global_auth_falls_back_to_local_share() {
    assert_eq!(
        global_auth_file_with(None, Some("/home/alice".to_string())),
        "/home/alice/.local/share/opencode/auth.json"
    );
}

#[test]
fn global_auth_without_home_is_relative() {
    assert_eq!(global_auth_file_with(None, None), "opencode/auth.json");
}

#[test]
fn global_auth_without_xdg_ends_in_auth_json() {
    assert!(global_auth_file(None).ends_with("opencode/auth.json"));
}

#[test]
fn identity_config_has_two_primary_agents() {
    let c = identity_config();
    assert_eq!(c.agents.len(), 2);
    assert_eq!(c.agents[0].name, "build");
    assert_eq!(
        c.agents[0].description,
        "Build mode - full tool access for creating and running evaluations"
    );
    assert_eq!(c.agents[1].name, "plan");
    assert_eq!(
        c.agents[1].description,
        "Plan mode - analyze and plan evaluations without modifying anything"
    );
    assert!(c.agents.iter().all(|a| a.mode == "primary"));
    assert!(c.agents[0].prompt.starts_with("IMPORTANT IDENTITY OVERRIDE"));
    assert!(c.agents[1].prompt.contains("planning mode"));
}

#[test]
fn identity_config_asks_only_for_bash() {
    let c = identity_config();
    let tools: Vec<&str> = c.permissions.iter().map(|p| p.tool).collect();
    assert_eq!(tools, vec!["read", "glob", "grep", "webfetch", "lf", "bash", "edit", "write"]);
    for p in &c.permissions {
        let expected = if p.tool == "bash" { "ask" } else { "allow" };
        assert_eq!(p.action.as_str(), expected);
    }
    assert_eq!(PermissionAction::Ask.as_str(), "ask");
}

#[test]
fn identity_config_path_is_in_the_config_dir() {
    assert_eq!(identity_config_path_for("/b"), "/b/config/opencode/opencode.json");
}

#[test]
fn lf_tool_layout_under_base() {
    let l = lf_tool_layout("/b");
    assert_eq!(l.opencode_dir, "/b/config/opencode");
    assert_eq!(l.tools_dir, "/b/config/opencode/tools");
    assert_eq!(l.tool_file, "/b/config/opencode/tools/lf.ts");
    assert_eq!(l.package_file, "/b/config/opencode/package.json");
    assert_eq!(l.node_modules_dir, "/b/config/opencode/node_modules");
    assert_eq!(l.gitignore_file, "/b/config/opencode/.gitignore");
}

#[test]
fn install_command_tries_bun_then_npm() {
    assert_eq!(
        install_command_for("/b/config/opencode"),
        "cd /b/config/opencode && (bun install 2>/dev/null || npm install 2>/dev/null)"
    );
}

#[test]
fn overrides_and_db_for_a_given_home() {
    let v = xdg_overrides_for_home(Some("/home/bob".to_string())).unwrap();
    assert_eq!(v[1], ("XDG_CONFIG_HOME", "/home/bob/.alfalfa/config".to_string()));
    assert_eq!(
        opencode_db_path_for_home(Some("/home/bob".to_string())),
        Ok("/home/bob/.alfalfa/data/opencode/opencode.db".to_string())
    );
    assert_eq!(xdg_overrides_for_home(None), Err("Cannot determine home directory".to_string()));
    assert_eq!(opencode_db_path_for_home(None), Err("Cannot determine home directory".to_string()));
}
