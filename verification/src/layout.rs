//! Where AlfAlfa keeps its data: the base directory `~/.alfalfa`, the XDG
//! overrides that redirect the opencode server into it, and the files that the
//! setup puts there.

use vstd::prelude::*;
use crate::constants::{SYSTEM_PROMPT_BUILD, SYSTEM_PROMPT_PLAN};
use crate::path::{join_path, joined};

verus! {

/// The base directory for a home directory: `<home>/.alfalfa`.
pub open spec fn alfalfa_base(home: Seq<char>) -> Seq<char> {
    joined(home, ".alfalfa"@)
}

/// The error given when no home directory is known.
pub open spec fn no_home_message() -> Seq<char> {
    "Cannot determine home directory"@
}

/// The user's home directory, as `dirs::home_dir` finds it, in text (a path
/// that is not valid UTF-8 has each invalid sequence replaced by U+FFFD).
///
/// Which directory comes back depends on `$HOME` and the password database,
/// and is not stated; what is stated is that `dirs` never gives an empty one.
#[verifier::external_body]
fn home_dir() -> (r: Option<String>)
    ensures
        r matches Some(h) ==> h@.len() > 0,
{
    match dirs::home_dir() {
        Some(home) => Some(home.to_string_lossy().into_owned()),
        None => None,
    }
}

/// The base directory for a home directory that may be unknown.
pub fn base_dir_from_home(home: Option<String>) -> (r: Result<String, String>)
    ensures
        home is Some ==> r is Ok && r->Ok_0@ == alfalfa_base(home->Some_0@),
        home is None ==> r is Err && r->Err_0@ == no_home_message(),
{
    match home {
        Some(h) => Ok(join_path(h.as_str(), ".alfalfa")),
        None => Err(String::from_str("Cannot determine home directory")),
    }
}

/// The base AlfAlfa directory, `~/.alfalfa`.
pub fn base_dir() -> (r: Result<String, String>)
    ensures
        r matches Ok(p) ==> exists|h: Seq<char>| h.len() > 0 && p@ == #[trigger] alfalfa_base(h),
        r matches Err(e) ==> e@ == no_home_message(),
{
    let home = home_dir();
    let r = base_dir_from_home(home);
    proof {
        if r is Ok {
            let h = home->Some_0@;
            assert(r->Ok_0@ == alfalfa_base(h));
        }
    }
    r
}

/// The XDG variables and the directories under `base` that they are set to.
pub open spec fn xdg_overrides(base: Seq<char>) -> Seq<(Seq<char>, Seq<char>)> {
    seq![
        ("XDG_DATA_HOME"@, joined(base, "data"@)),
        ("XDG_CONFIG_HOME"@, joined(base, "config"@)),
        ("XDG_STATE_HOME"@, joined(base, "state"@)),
        ("XDG_CACHE_HOME"@, joined(base, "cache"@)),
    ]
}

/// The pairs of a list of overrides, as text.
pub open spec fn overrides_view(v: Seq<(&'static str, String)>) -> Seq<(Seq<char>, Seq<char>)> {
    v.map_values(|p: (&'static str, String)| (p.0@, p.1@))
}

/// The XDG overrides that redirect the opencode server's data into `base`.
pub fn xdg_overrides_for(base: &str) -> (r: Vec<(&'static str, String)>)
    ensures
        overrides_view(r@) == xdg_overrides(base@),
{
    let mut r: Vec<(&'static str, String)> = Vec::new();
    r.push(("XDG_DATA_HOME", join_path(base, "data")));
    r.push(("XDG_CONFIG_HOME", join_path(base, "config")));
    r.push(("XDG_STATE_HOME", join_path(base, "state")));
    r.push(("XDG_CACHE_HOME", join_path(base, "cache")));
    assert(overrides_view(r@) =~= xdg_overrides(base@));
    r
}

/// The XDG overrides for a home directory that may be unknown.
pub fn xdg_overrides_for_home(home: Option<String>) -> (r: Result<Vec<(&'static str, String)>, String>)
    ensures
        home is Some ==> r is Ok && overrides_view(r->Ok_0@) == xdg_overrides(
            alfalfa_base(home->Some_0@),
        ),
        home is None ==> r is Err && r->Err_0@ == no_home_message(),
{
    match base_dir_from_home(home) {
        Ok(base) => Ok(xdg_overrides_for(base.as_str())),
        Err(e) => Err(e),
    }
}

/// The XDG overrides that redirect the opencode server's data into `~/.alfalfa/`.
pub fn xdg_env_overrides() -> (r: Result<Vec<(&'static str, String)>, String>)
    ensures
        r matches Ok(v) ==> exists|h: Seq<char>|
            h.len() > 0 && overrides_view(v@) == #[trigger] xdg_overrides(alfalfa_base(h)),
        r matches Err(e) ==> e@ == no_home_message(),
{
    let home = home_dir();
    let r = xdg_overrides_for_home(home);
    proof {
        if r is Ok {
            let h = home->Some_0@;
            assert(overrides_view(r->Ok_0@) == xdg_overrides(alfalfa_base(h)));
        }
    }
    r
}

/// The opencode database under `base`: `<base>/data/opencode/opencode.db`.
pub open spec fn db_path(base: Seq<char>) -> Seq<char> {
    joined(joined(joined(base, "data"@), "opencode"@), "opencode.db"@)
}

/// The path of `opencode.db` under the data directory of `base`.
pub fn opencode_db_path_for(base: &str) -> (r: String)
    ensures
        r@ == db_path(base@),
{
    let data = join_path(base, "data");
    let dir = join_path(data.as_str(), "opencode");
    join_path(dir.as_str(), "opencode.db")
}

/// The path of `opencode.db` for a home directory that may be unknown.
pub fn opencode_db_path_for_home(home: Option<String>) -> (r: Result<String, String>)
    ensures
        home is Some ==> r is Ok && r->Ok_0@ == db_path(alfalfa_base(home->Some_0@)),
        home is None ==> r is Err && r->Err_0@ == no_home_message(),
{
    match base_dir_from_home(home) {
        Ok(base) => Ok(opencode_db_path_for(base.as_str())),
        Err(e) => Err(e),
    }
}

/// The path of `opencode.db` under the AlfAlfa data directory.
pub fn opencode_db_path() -> (r: Result<String, String>)
    ensures
        r matches Ok(p) ==> exists|h: Seq<char>|
            h.len() > 0 && p@ == #[trigger] db_path(alfalfa_base(h)),
        r matches Err(e) ==> e@ == no_home_message(),
{
    let home = home_dir();
    let r = opencode_db_path_for_home(home);
    proof {
        if r is Ok {
            let h = home->Some_0@;
            assert(r->Ok_0@ == db_path(alfalfa_base(h)));
        }
    }
    r
}

/// The directory of the opencode configuration under `base`.
pub open spec fn config_dir(base: Seq<char>) -> Seq<char> {
    joined(joined(base, "config"@), "opencode"@)
}

/// The directories that the setup creates under `base`, in the order it does.
pub open spec fn setup_directories(base: Seq<char>) -> Seq<Seq<char>> {
    seq![
        base,
        joined(base, "data"@),
        config_dir(base),
        joined(base, "state"@),
        joined(base, "cache"@),
    ]
}

/// The texts of a list of strings.
pub open spec fn texts(v: Seq<String>) -> Seq<Seq<char>> {
    v.map_values(|s: String| s@)
}

/// The directories that the setup creates under `base`.
pub fn setup_directories_for(base: &str) -> (r: Vec<String>)
    ensures
        texts(r@) == setup_directories(base@),
{
    let mut r: Vec<String> = Vec::new();
    r.push(String::from_str(base));
    r.push(join_path(base, "data"));
    let config = join_path(base, "config");
    r.push(join_path(config.as_str(), "opencode"));
    r.push(join_path(base, "state"));
    r.push(join_path(base, "cache"));
    assert(texts(r@) =~= setup_directories(base@));
    r
}

/// The directory that holds the AlfAlfa copy of `auth.json`.
pub open spec fn auth_dir(base: Seq<char>) -> Seq<char> {
    joined(joined(base, "data"@), "opencode"@)
}

/// The AlfAlfa copy of `auth.json`.
pub open spec fn auth_destination(base: Seq<char>) -> Seq<char> {
    joined(auth_dir(base), "auth.json"@)
}

/// Where the copied credentials go under `base`: the directory and the file.
pub fn auth_destination_for(base: &str) -> (r: (String, String))
    ensures
        r.0@ == auth_dir(base@),
        r.1@ == auth_destination(base@),
{
    let data = join_path(base, "data");
    let dir = join_path(data.as_str(), "opencode");
    let file = join_path(dir.as_str(), "auth.json");
    (dir, file)
}

/// The user's global data directory: `$XDG_DATA_HOME` when it is set, else
/// `<home>/.local/share`, else the empty path.
pub open spec fn global_data_home(xdg_data_home: Option<Seq<char>>, home: Option<Seq<char>>) -> Seq<
    char,
> {
    match xdg_data_home {
        Some(x) => x,
        None => match home {
            Some(h) => joined(joined(h, ".local"@), "share"@),
            None => Seq::empty(),
        },
    }
}

/// The global `auth.json` of opencode under a data directory.
pub open spec fn global_auth_source(data_home: Seq<char>) -> Seq<char> {
    joined(joined(data_home, "opencode"@), "auth.json"@)
}

/// The texts of an optional string.
pub open spec fn opt_text(s: Option<String>) -> Option<Seq<char>> {
    match s {
        Some(t) => Some(t@),
        None => None,
    }
}

/// The global `auth.json` for the given value of `XDG_DATA_HOME` and home directory.
pub fn global_auth_file_with(xdg_data_home: Option<String>, home: Option<String>) -> (r: String)
    ensures
        r@ == global_auth_source(global_data_home(opt_text(xdg_data_home), opt_text(home))),
{
    let data_home = match xdg_data_home {
        Some(x) => x,
        None => match home {
            Some(h) => {
                let local = join_path(h.as_str(), ".local");
                join_path(local.as_str(), "share")
            },
            None => String::new(),
        },
    };
    let dir = join_path(data_home.as_str(), "opencode");
    join_path(dir.as_str(), "auth.json")
}

/// The global `auth.json` for the given value of `XDG_DATA_HOME`; the home
/// directory is looked up only when that value is absent.
pub fn global_auth_file(xdg_data_home: Option<String>) -> (r: String)
    ensures
        xdg_data_home matches Some(x) ==> r@ == global_auth_source(x@),
        xdg_data_home is None ==> exists|home: Option<Seq<char>>|
            r@ == #[trigger] global_auth_source(global_data_home(None, home)),
{
    match xdg_data_home {
        Some(x) => global_auth_file_with(Some(x), None),
        None => {
            let home = home_dir();
            let r = global_auth_file_with(None, home);
            assert(r@ == global_auth_source(global_data_home(None, opt_text(home))));
            r
        },
    }
}

/// What a tool is allowed to do without asking.
#[derive(Clone, Copy, Debug, PartialEq, Eq, Structural)]
pub enum PermissionAction {
    Allow,
    Ask,
}

impl PermissionAction {
    /// The word for the action in the opencode configuration.
    pub open spec fn word(self) -> Seq<char> {
        match self {
            PermissionAction::Allow => "allow"@,
            PermissionAction::Ask => "ask"@,
        }
    }

    /// The word for the action in the opencode configuration.
    pub fn as_str(&self) -> (r: &'static str)
        ensures
            r@ == self.word(),
    {
        match self {
            PermissionAction::Allow => "allow",
            PermissionAction::Ask => "ask",
        }
    }
}

/// An agent of the opencode configuration.
pub struct AgentProfile {
    pub name: &'static str,
    pub description: &'static str,
    pub mode: &'static str,
    pub prompt: &'static str,
}

/// The permission of one tool.
pub struct ToolPermission {
    pub tool: &'static str,
    pub action: PermissionAction,
}

/// The opencode configuration that gives the agents the AlfAlfa identity.
pub struct IdentityConfig {
    pub agents: Vec<AgentProfile>,
    pub permissions: Vec<ToolPermission>,
}

/// An agent as text: name, description, mode and prompt.
pub open spec fn agent_view(a: AgentProfile) -> (Seq<char>, Seq<char>, Seq<char>, Seq<char>) {
    (a.name@, a.description@, a.mode@, a.prompt@)
}

/// A permission as text and action.
pub open spec fn permission_view(p: ToolPermission) -> (Seq<char>, PermissionAction) {
    (p.tool@, p.action)
}

/// The agents of the identity configuration.
pub open spec fn identity_agents() -> Seq<(Seq<char>, Seq<char>, Seq<char>, Seq<char>)> {
    seq![
        (
            "build"@,
            "Build mode - full tool access for creating and running evaluations"@,
            "primary"@,
            SYSTEM_PROMPT_BUILD@,
        ),
        (
            "plan"@,
            "Plan mode - analyze and plan evaluations without modifying anything"@,
            "primary"@,
            SYSTEM_PROMPT_PLAN@,
        ),
    ]
}

/// The tool permissions of the identity configuration: everything is allowed
/// but `bash`, which asks.
pub open spec fn identity_permissions() -> Seq<(Seq<char>, PermissionAction)> {
    seq![
        ("read"@, PermissionAction::Allow),
        ("glob"@, PermissionAction::Allow),
        ("grep"@, PermissionAction::Allow),
        ("webfetch"@, PermissionAction::Allow),
        ("lf"@, PermissionAction::Allow),
        ("bash"@, PermissionAction::Ask),
        ("edit"@, PermissionAction::Allow),
        ("write"@, PermissionAction::Allow),
    ]
}

/// The opencode configuration with the AlfAlfa system prompts.
pub fn identity_config() -> (c: IdentityConfig)
    ensures
        c.agents@.map_values(|a: AgentProfile| agent_view(a)) == identity_agents(),
        c.permissions@.map_values(|p: ToolPermission| permission_view(p)) == identity_permissions(),
{
    let mut agents: Vec<AgentProfile> = Vec::new();
    agents.push(
        AgentProfile {
            name: "build",
            description: "Build mode - full tool access for creating and running evaluations",
            mode: "primary",
            prompt: SYSTEM_PROMPT_BUILD,
        },
    );
    agents.push(
        AgentProfile {
            name: "plan",
            description: "Plan mode - analyze and plan evaluations without modifying anything",
            mode: "primary",
            prompt: SYSTEM_PROMPT_PLAN,
        },
    );
    let mut permissions: Vec<ToolPermission> = Vec::new();
    permissions.push(ToolPermission { tool: "read", action: PermissionAction::Allow });
    permissions.push(ToolPermission { tool: "glob", action: PermissionAction::Allow });
    permissions.push(ToolPermission { tool: "grep", action: PermissionAction::Allow });
    permissions.push(ToolPermission { tool: "webfetch", action: PermissionAction::Allow });
    permissions.push(ToolPermission { tool: "lf", action: PermissionAction::Allow });
    permissions.push(ToolPermission { tool: "bash", action: PermissionAction::Ask });
    permissions.push(ToolPermission { tool: "edit", action: PermissionAction::Allow });
    permissions.push(ToolPermission { tool: "write", action: PermissionAction::Allow });
    let c = IdentityConfig { agents, permissions };
    assert(c.agents@.map_values(|a: AgentProfile| agent_view(a)) =~= identity_agents());
    assert(c.permissions@.map_values(|p: ToolPermission| permission_view(p))
        =~= identity_permissions());
    c
}

/// The opencode configuration file under `base`.
pub open spec fn identity_config_path(base: Seq<char>) -> Seq<char> {
    joined(config_dir(base), "opencode.json"@)
}

/// The path of `opencode.json` under `base`.
pub fn identity_config_path_for(base: &str) -> (r: String)
    ensures
        r@ == identity_config_path(base@),
{
    let config = join_path(base, "config");
    let dir = join_path(config.as_str(), "opencode");
    join_path(dir.as_str(), "opencode.json")
}

/// The files and directories of the custom `lf` tool.
pub struct LfToolLayout {
    pub opencode_dir: String,
    pub tools_dir: String,
    pub tool_file: String,
    pub package_file: String,
    pub node_modules_dir: String,
    pub gitignore_file: String,
}

/// The directory of the `lf` tool under `base`.
pub open spec fn tools_dir(base: Seq<char>) -> Seq<char> {
    joined(config_dir(base), "tools"@)
}

/// The files and directories of the custom `lf` tool under `base`.
pub fn lf_tool_layout(base: &str) -> (r: LfToolLayout)
    ensures
        r.opencode_dir@ == config_dir(base@),
        r.tools_dir@ == tools_dir(base@),
        r.tool_file@ == joined(tools_dir(base@), "lf.ts"@),
        r.package_file@ == joined(config_dir(base@), "package.json"@),
        r.node_modules_dir@ == joined(config_dir(base@), "node_modules"@),
        r.gitignore_file@ == joined(config_dir(base@), ".gitignore"@),
{
    let config = join_path(base, "config");
    let opencode_dir = join_path(config.as_str(), "opencode");
    let tools_dir = join_path(opencode_dir.as_str(), "tools");
    let tool_file = join_path(tools_dir.as_str(), "lf.ts");
    let package_file = join_path(opencode_dir.as_str(), "package.json");
    let node_modules_dir = join_path(opencode_dir.as_str(), "node_modules");
    let gitignore_file = join_path(opencode_dir.as_str(), ".gitignore");
    LfToolLayout {
        opencode_dir,
        tools_dir,
        tool_file,
        package_file,
        node_modules_dir,
        gitignore_file,
    }
}

/// The shell command that installs the `lf` tool's dependencies in `dir`.
pub open spec fn install_command(dir: Seq<char>) -> Seq<char> {
    "cd "@ + dir + " && (bun install 2>/dev/null || npm install 2>/dev/null)"@
}

/// The shell command that installs the `lf` tool's dependencies in `dir`,
/// with `bun` and, failing that, `npm`.
pub fn install_command_for(dir: &str) -> (r: String)
    ensures
        r@ == install_command(dir@),
{
    let mut r = String::from_str("cd ");
    r.append(dir);
    r.append(" && (bun install 2>/dev/null || npm install 2>/dev/null)");
    r
}

} // verus!
