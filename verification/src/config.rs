//! The text of the opencode configuration file that gives the agents the
//! AlfAlfa identity: the configuration as a two-level JSON document, printed
//! by `serde_json`.

use vstd::prelude::*;
use crate::layout::{
    agent_view, identity_agents, identity_config, identity_permissions, permission_view,
    AgentProfile, PermissionAction, ToolPermission,
};
use serde_json::Value;


verus! {

/// A value inside a section of the document: a string, or an object of
/// string fields.
pub enum JsonEntry {
    Text(String),
    Object(Vec<(String, String)>),
}

/// A field list as text.
pub open spec fn fields_view(f: Seq<(String, String)>) -> Seq<(Seq<char>, Seq<char>)> {
    f.map_values(|p: (String, String)| (p.0@, p.1@))
}

/// An entry as text: whether it is a string, the string, and the fields.
pub open spec fn entry_view(e: JsonEntry) -> (bool, Seq<char>, Seq<(Seq<char>, Seq<char>)>) {
    match e {
        JsonEntry::Text(t) => (true, t@, Seq::empty()),
        JsonEntry::Object(f) => (false, Seq::empty(), fields_view(f@)),
    }
}

/// A section as text: its keys and their entries.
pub open spec fn section_view(s: Seq<(String, JsonEntry)>) -> Seq<
    (Seq<char>, (bool, Seq<char>, Seq<(Seq<char>, Seq<char>)>)),
> {
    s.map_values(|p: (String, JsonEntry)| (p.0@, entry_view(p.1)))
}

/// A document as text: its top-level keys and their sections.
pub open spec fn document_view(doc: Seq<(String, Vec<(String, JsonEntry)>)>) -> Seq<
    (Seq<char>, Seq<(Seq<char>, (bool, Seq<char>, Seq<(Seq<char>, Seq<char>)>))>),
> {
    doc.map_values(|p: (String, Vec<(String, JsonEntry)>)| (p.0@, section_view(p.1@)))
}

/// The text that `serde_json::to_string_pretty` gives for the document made of
/// these sections.
pub uninterp spec fn json_pretty(
    doc: Seq<(Seq<char>, Seq<(Seq<char>, (bool, Seq<char>, Seq<(Seq<char>, Seq<char>)>))>)>,
) -> Seq<char>;

/// `serde_json::to_string_pretty` on the document, each section a
/// `serde_json::Map`. The text is named by `json_pretty`. It always succeeds:
/// serde_json fails only where a `Serialize` impl fails or a map has keys that
/// are not strings, and a `Value` made of strings and string-keyed objects has
/// neither.
#[verifier::external_body]
fn to_json_pretty(doc: Vec<(String, Vec<(String, JsonEntry)>)>) -> (r: Result<String, String>)
    ensures
        r is Ok,
        r matches Ok(t) ==> t@ == json_pretty(document_view(doc@)),
{
    let mut root = serde_json::Map::new();
    for (key, section) in doc {
        let mut object = serde_json::Map::new();
        for (name, entry) in section {
            object.insert(name, match entry {
                JsonEntry::Text(t) => Value::String(t),
                JsonEntry::Object(f) => Value::Object(f.into_iter().map(|(k, v)| (k, Value::String(v))).collect()),
            });
        }
        root.insert(key, Value::Object(object));
    }
    match serde_json::to_string_pretty(&Value::Object(root)) {
        Ok(text) => Ok(text),
        Err(e) => Err(e.to_string()),
    }
}

/// An agent as a JSON entry: its name, and an object with its description,
/// mode and prompt.
pub open spec fn agent_entry(a: (Seq<char>, Seq<char>, Seq<char>, Seq<char>)) -> (
    Seq<char>,
    (bool, Seq<char>, Seq<(Seq<char>, Seq<char>)>),
) {
    (a.0, (false, Seq::empty(), seq![("description"@, a.1), ("mode"@, a.2), ("prompt"@, a.3)]))
}

/// A permission as a JSON entry: the tool and the action's word.
pub open spec fn permission_entry(p: (Seq<char>, PermissionAction)) -> (
    Seq<char>,
    (bool, Seq<char>, Seq<(Seq<char>, Seq<char>)>),
) {
    (p.0, (true, p.1.word(), Seq::empty()))
}

/// The identity configuration as a document: `agent` with the agents,
/// `permission` with the tool permissions.
pub open spec fn identity_document() -> Seq<
    (Seq<char>, Seq<(Seq<char>, (bool, Seq<char>, Seq<(Seq<char>, Seq<char>)>))>),
> {
    seq![
        ("agent"@, identity_agents().map_values(|a| agent_entry(a))),
        ("permission"@, identity_permissions().map_values(|p| permission_entry(p))),
    ]
}

/// The text of `opencode.json`: the identity configuration printed as
/// indented JSON.
pub fn identity_config_text() -> (r: String)
    ensures
        r@ == json_pretty(identity_document()),
{
    let config = identity_config();
    let mut agents: Vec<(String, JsonEntry)> = Vec::new();
    let n = config.agents.len();
    let ghost av = config.agents@.map_values(|a: AgentProfile| agent_view(a));
    let mut i: usize = 0;
    while i < n
        invariant
            n == config.agents@.len(),
            av == config.agents@.map_values(|a: AgentProfile| agent_view(a)),
            i <= n,
            section_view(agents@) == av.take(i as int).map_values(|a| agent_entry(a)),
        decreases n - i,
    {
        let a = &config.agents[i];
        let mut fields: Vec<(String, String)> = Vec::new();
        fields.push((String::from_str("description"), String::from_str(a.description)));
        fields.push((String::from_str("mode"), String::from_str(a.mode)));
        fields.push((String::from_str("prompt"), String::from_str(a.prompt)));
        assert(fields_view(fields@) =~= seq![
            ("description"@, av[i as int].1),
            ("mode"@, av[i as int].2),
            ("prompt"@, av[i as int].3),
        ]);
        let ghost before = agents@;
        let entry = (String::from_str(a.name), JsonEntry::Object(fields));
        assert(entry_view(entry.1) == agent_entry(av[i as int]).1);
        agents.push(entry);
        assert(agents@ =~= before.push(entry));
        assert(section_view(agents@) =~= section_view(before).push((entry.0@, entry_view(entry.1))));
        assert(av.take(i + 1) =~= av.take(i as int).push(av[i as int]));
        assert(section_view(agents@) =~= av.take(i + 1).map_values(|a| agent_entry(a)));
        i = i + 1;
    }
    assert(av.take(n as int) =~= av);
    let mut permissions: Vec<(String, JsonEntry)> = Vec::new();
    let m = config.permissions.len();
    let ghost pv = config.permissions@.map_values(|p: ToolPermission| permission_view(p));
    let mut k: usize = 0;
    while k < m
        invariant
            m == config.permissions@.len(),
            pv == config.permissions@.map_values(|p: ToolPermission| permission_view(p)),
            k <= m,
            section_view(permissions@) == pv.take(k as int).map_values(|p| permission_entry(p)),
        decreases m - k,
    {
        let p = &config.permissions[k];
        let word = p.action.as_str();
        let ghost before = permissions@;
        let entry = (String::from_str(p.tool), JsonEntry::Text(String::from_str(word)));
        assert(entry_view(entry.1) == permission_entry(pv[k as int]).1);
        permissions.push(entry);
        assert(permissions@ =~= before.push(entry));
        assert(section_view(permissions@) =~= section_view(before).push(
            (entry.0@, entry_view(entry.1)),
        ));
        assert(pv.take(k + 1) =~= pv.take(k as int).push(pv[k as int]));
        assert(section_view(permissions@) =~= pv.take(k + 1).map_values(|p| permission_entry(p)));
        k = k + 1;
    }
    assert(pv.take(m as int) =~= pv);
    let mut doc: Vec<(String, Vec<(String, JsonEntry)>)> = Vec::new();
    doc.push((String::from_str("agent"), agents));
    doc.push((String::from_str("permission"), permissions));
    assert(document_view(doc@) =~= identity_document());
    match to_json_pretty(doc) {
        Ok(text) => text,
        Err(_) => {
            proof {
                assert(false);
            }
            String::new()
        },
    }
}

} // verus!
