//! A project's journal: its directory `<project>/.lf_agent/journal`, the seed
//! files it starts with, and its overview page dated on the day it is written.

use vstd::prelude::*;
use crate::constants::{JOURNAL_LOG_SEED, JOURNAL_OVERVIEW_TEMPLATE, JOURNAL_SCHEMA};
use crate::path::{is_absolute, join_path, joined};
use crate::text::{
    lemma_replaced_clear_prefix, lemma_replaced_leading_pattern, replace_all, replaced,
};

verus! {

/// The journal directory of a project: `<project>/.lf_agent/journal`.
pub open spec fn journal_dir(project: Seq<char>) -> Seq<char> {
    joined(joined(project, ".lf_agent"@), "journal"@)
}

/// The journal directory for a given project path: `<project>/.lf_agent/journal/`.
pub fn journal_dir_for_project(project_path: &str) -> (r: String)
    ensures
        r@ == journal_dir(project_path@),
{
    let agent_dir = join_path(project_path, ".lf_agent");
    join_path(agent_dir.as_str(), "journal")
}

/// The absolute journal directory path for a project at an absolute path; it
/// is always found.
pub fn get_journal_path(project_path: String) -> (r: Result<String, String>)
    requires
        is_absolute(project_path@),
    ensures
        r is Ok,
        r->Ok_0@ == journal_dir(project_path@),
        is_absolute(r->Ok_0@),
{
    Ok(journal_dir_for_project(project_path.as_str()))
}

/// The message when a relative project path cannot be resolved.
pub open spec fn unresolved_message() -> Seq<char> {
    "Failed to resolve the project path"@
}

/// The journal directory path for a project path, resolved against the
/// working directory when it is relative: an absolute project path is used as
/// it is; a relative one is taken inside the working directory, and fails
/// only when that is unknown. With an absolute working directory the result
/// is always absolute.
pub fn resolved_journal_path(working_dir: Option<String>, project_path: String) -> (r: Result<
    String,
    String,
>)
    ensures
        is_absolute(project_path@) ==> r is Ok && r->Ok_0@ == journal_dir(project_path@),
        !is_absolute(project_path@) ==> match working_dir {
            Some(w) => r is Ok && r->Ok_0@ == journal_dir(joined(w@, project_path@)),
            None => r is Err && r->Err_0@ == unresolved_message(),
        },
        r is Ok && (is_absolute(project_path@) || (working_dir matches Some(w) && is_absolute(w@)))
            ==> is_absolute(r->Ok_0@),
{
    let n = project_path.as_str().unicode_len();
    if n > 0 && project_path.as_str().get_char(0) == '/' {
        return get_journal_path(project_path);
    }
    match working_dir {
        Some(w) => {
            let resolved = join_path(w.as_str(), project_path.as_str());
            Ok(journal_dir_for_project(resolved.as_str()))
        },
        None => Err(String::from_str("Failed to resolve the project path")),
    }
}

/// A file that a new journal starts with.
pub struct JournalSeed {
    pub file_name: &'static str,
    pub path: String,
    pub content: &'static str,
}

/// The seed files of a journal in `dir`: name, path and content.
pub open spec fn journal_seeds(dir: Seq<char>) -> Seq<(Seq<char>, Seq<char>, Seq<char>)> {
    seq![
        ("_schema.md"@, joined(dir, "_schema.md"@), JOURNAL_SCHEMA@),
        ("_log.md"@, joined(dir, "_log.md"@), JOURNAL_LOG_SEED@),
    ]
}

/// A seed file as text.
pub open spec fn seed_view(s: JournalSeed) -> (Seq<char>, Seq<char>, Seq<char>) {
    (s.file_name@, s.path@, s.content@)
}

/// The seed files of a journal in `journal_dir`, in the order they are written.
pub fn journal_seeds_for(journal_dir: &str) -> (r: Vec<JournalSeed>)
    ensures
        r@.map_values(|s: JournalSeed| seed_view(s)) == journal_seeds(journal_dir@),
{
    let mut r: Vec<JournalSeed> = Vec::new();
    r.push(
        JournalSeed {
            file_name: "_schema.md",
            path: join_path(journal_dir, "_schema.md"),
            content: JOURNAL_SCHEMA,
        },
    );
    r.push(
        JournalSeed {
            file_name: "_log.md",
            path: join_path(journal_dir, "_log.md"),
            content: JOURNAL_LOG_SEED,
        },
    );
    assert(r@.map_values(|s: JournalSeed| seed_view(s)) =~= journal_seeds(journal_dir@));
    r
}

/// The overview page of the journal in `dir`.
pub open spec fn overview_path(dir: Seq<char>) -> Seq<char> {
    joined(dir, "overview.md"@)
}

/// The path of `overview.md` in `journal_dir`.
pub fn overview_path_for(journal_dir: &str) -> (r: String)
    ensures
        r@ == overview_path(journal_dir@),
{
    join_path(journal_dir, "overview.md")
}

/// The placeholder of the date in the overview template.
pub open spec fn date_placeholder() -> Seq<char> {
    "{{DATE}}"@
}

/// The overview page written on `date`: the template with every date
/// placeholder replaced by the date.
pub open spec fn overview_text(date: Seq<char>) -> Seq<char> {
    replaced(JOURNAL_OVERVIEW_TEMPLATE@, date_placeholder(), date)
}

/// The overview page for a given date, such as `2024-05-01`.
pub fn render_overview(date: &str) -> (r: String)
    ensures
        r@ == overview_text(date@),
{
    let placeholder = "{{DATE}}";
    proof {
        reveal_strlit("{{DATE}}");
    }
    replace_all(JOURNAL_OVERVIEW_TEMPLATE, placeholder, date)
}

/// The overview template up to the first date.
pub open spec fn overview_head() -> Seq<char> {
    r#"---
tags: [overview]
created: "#@
}

/// The overview template between the two dates.
pub open spec fn overview_middle() -> Seq<char> {
    r#"
updated: "#@
}

/// The overview template after the second date.
pub open spec fn overview_tail() -> Seq<char> {
    r#"
links: []
---

# Project Overview

This journal has just been initialized. As the project progresses, this page will be
updated with a high-level synthesis of the evaluation project — what's been tried,
what works, current status, and next steps.
"#@
}

/// The overview page carries the date it was written on as both its creation
/// and its update date, and is otherwise the template.
pub proof fn lemma_overview_dated(date: Seq<char>)
    ensures
        overview_text(date) == overview_head() + date + overview_middle() + date + overview_tail(),
{
    reveal_strlit(r#"---
tags: [overview]
created: "#);
    reveal_strlit(r#"
updated: "#);
    reveal_strlit(r#"
links: []
---

# Project Overview

This journal has just been initialized. As the project progresses, this page will be
updated with a high-level synthesis of the evaluation project — what's been tried,
what works, current status, and next steps.
"#);
    reveal_strlit("{{DATE}}");
    reveal_strlit(r#"---
tags: [overview]
created: {{DATE}}
updated: {{DATE}}
links: []
---

# Project Overview

This journal has just been initialized. As the project progresses, this page will be
updated with a high-level synthesis of the evaluation project — what's been tried,
what works, current status, and next steps.
"#);
    let p = date_placeholder();
    let (h, m, t) = (overview_head(), overview_middle(), overview_tail());
    assert(JOURNAL_OVERVIEW_TEMPLATE@ =~= h + (p + (m + (p + t))));
    assert(forall|i: int| 0 <= i < h.len() ==> h[i] != p[0]);
    assert(forall|i: int| 0 <= i < m.len() ==> m[i] != p[0]);
    assert(forall|i: int| 0 <= i < t.len() ==> t[i] != p[0]);
    lemma_replaced_clear_prefix(h, p + (m + (p + t)), p, date);
    lemma_replaced_leading_pattern(m + (p + t), p, date);
    lemma_replaced_clear_prefix(m, p + t, p, date);
    lemma_replaced_leading_pattern(t, p, date);
    lemma_replaced_clear_prefix(t, Seq::empty(), p, date);
    assert(t + Seq::<char>::empty() =~= t);
    assert(replaced(Seq::<char>::empty(), p, date) =~= Seq::<char>::empty());
    assert(h + (date + (m + (date + t))) =~= h + date + m + date + t);
}

} // verus!
