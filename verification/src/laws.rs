//! What holds across the layout: the overrides stay inside the base
//! directory, and the files that the setup writes are where the redirected
//! opencode server looks for them.

use vstd::prelude::*;
use crate::journal::{journal_dir, journal_seeds, overview_path};
use crate::layout::{
    global_auth_source, global_data_home,
    alfalfa_base, auth_destination, config_dir, db_path, identity_config_path, setup_directories,
    xdg_overrides,
};
use crate::path::{is_absolute, joined, lemma_join_extends, sep};

verus! {

proof fn lemma_relative_components()
    ensures
        !is_absolute("data"@),
        !is_absolute("config"@),
        !is_absolute("state"@),
        !is_absolute("cache"@),
        !is_absolute("opencode"@),
        "data"@.len() > 0,
        "config"@.len() > 0,
        "state"@.len() > 0,
        "cache"@.len() > 0,
{
    reveal_strlit("data");
    reveal_strlit("config");
    reveal_strlit("state");
    reveal_strlit("cache");
    reveal_strlit("opencode");
}

/// Every XDG override names a directory strictly inside the base directory.
pub proof fn lemma_overrides_inside_base(base: Seq<char>)
    ensures
        xdg_overrides(base).len() == 4,
        forall|i: int|
            0 <= i < 4 ==> base.is_prefix_of(#[trigger] xdg_overrides(base)[i].1)
                && xdg_overrides(base)[i].1.len() > base.len(),
{
    lemma_relative_components();
    lemma_join_extends(base, "data"@);
    lemma_join_extends(base, "config"@);
    lemma_join_extends(base, "state"@);
    lemma_join_extends(base, "cache"@);
}

/// The files that the setup writes are where an opencode server started with
/// the XDG overrides looks: the database and the copied credentials under
/// `$XDG_DATA_HOME/opencode`, the identity configuration under
/// `$XDG_CONFIG_HOME/opencode`, in a directory that the setup creates.
pub proof fn lemma_files_follow_overrides(base: Seq<char>)
    ensures
        db_path(base) == joined(joined(xdg_overrides(base)[0].1, "opencode"@), "opencode.db"@),
        auth_destination(base) == joined(
            joined(xdg_overrides(base)[0].1, "opencode"@),
            "auth.json"@,
        ),
        config_dir(base) == joined(xdg_overrides(base)[1].1, "opencode"@),
        identity_config_path(base) == joined(setup_directories(base)[2], "opencode.json"@),
        setup_directories(base).contains(config_dir(base)),
        setup_directories(base).contains(xdg_overrides(base)[0].1),
        setup_directories(base).contains(xdg_overrides(base)[2].1),
        setup_directories(base).contains(xdg_overrides(base)[3].1),
{
    assert(setup_directories(base)[2] == config_dir(base));
    assert(setup_directories(base)[1] == xdg_overrides(base)[0].1);
    assert(setup_directories(base)[3] == xdg_overrides(base)[2].1);
    assert(setup_directories(base)[4] == xdg_overrides(base)[3].1);
}

/// For every home directory given as a plain path, everything the setup
/// derives from it in closed form: the base directory is `<home>/.alfalfa`;
/// each XDG override is that base with its own name adjoined, exactly one
/// level below it; the database is `<home>/.alfalfa/data/opencode/opencode.db`,
/// inside the data override; and, with `XDG_DATA_HOME` unset, the global
/// credentials are `<home>/.local/share/opencode/auth.json`.
pub proof fn lemma_home_layout(home: Seq<char>)
    requires
        home.len() > 0,
        home.last() != sep(),
    ensures
        alfalfa_base(home) == home + "/.alfalfa"@,
        xdg_overrides(alfalfa_base(home)) == seq![
            ("XDG_DATA_HOME"@, home + "/.alfalfa/data"@),
            ("XDG_CONFIG_HOME"@, home + "/.alfalfa/config"@),
            ("XDG_STATE_HOME"@, home + "/.alfalfa/state"@),
            ("XDG_CACHE_HOME"@, home + "/.alfalfa/cache"@),
        ],
        forall|i: int|
            0 <= i < 4 ==> (#[trigger] xdg_overrides(alfalfa_base(home))[i]).1 == alfalfa_base(home)
                + seq![sep()] + seq![
                "data"@,
                "config"@,
                "state"@,
                "cache"@,
            ][i],
        db_path(alfalfa_base(home)) == home + "/.alfalfa/data/opencode/opencode.db"@,
        db_path(alfalfa_base(home)) == xdg_overrides(alfalfa_base(home))[0].1
            + "/opencode/opencode.db"@,
        global_auth_source(global_data_home(None, Some(home))) == home
            + "/.local/share/opencode/auth.json"@,
{
    reveal_strlit(".alfalfa");
    reveal_strlit("/.alfalfa");
    reveal_strlit("data");
    reveal_strlit("config");
    reveal_strlit("state");
    reveal_strlit("cache");
    reveal_strlit("/.alfalfa/data");
    reveal_strlit("/.alfalfa/config");
    reveal_strlit("/.alfalfa/state");
    reveal_strlit("/.alfalfa/cache");
    reveal_strlit("opencode");
    reveal_strlit("opencode.db");
    reveal_strlit("/.alfalfa/data/opencode/opencode.db");
    reveal_strlit("/opencode/opencode.db");
    reveal_strlit(".local");
    reveal_strlit("share");
    reveal_strlit("auth.json");
    reveal_strlit("/.local/share/opencode/auth.json");
    let base = alfalfa_base(home);
    assert(base =~= home + "/.alfalfa"@);
    assert(joined(base, "data"@) =~= home + "/.alfalfa/data"@);
    assert(joined(base, "config"@) =~= home + "/.alfalfa/config"@);
    assert(joined(base, "state"@) =~= home + "/.alfalfa/state"@);
    assert(joined(base, "cache"@) =~= home + "/.alfalfa/cache"@);
    assert(xdg_overrides(base) =~= seq![
        ("XDG_DATA_HOME"@, home + "/.alfalfa/data"@),
        ("XDG_CONFIG_HOME"@, home + "/.alfalfa/config"@),
        ("XDG_STATE_HOME"@, home + "/.alfalfa/state"@),
        ("XDG_CACHE_HOME"@, home + "/.alfalfa/cache"@),
    ]);
    let names = seq!["data"@, "config"@, "state"@, "cache"@];
    assert forall|i: int| 0 <= i < 4 implies (#[trigger] xdg_overrides(base)[i]).1 == base + seq![
        sep(),
    ] + names[i] by {
        assert(joined(base, names[i]) =~= base + seq![sep()] + names[i]);
    }
    let data = joined(base, "data"@);
    let odir = joined(data, "opencode"@);
    assert(odir =~= home + "/.alfalfa/data"@ + "/opencode"@) by {
        reveal_strlit("/opencode");
    }
    assert(db_path(base) =~= home + "/.alfalfa/data/opencode/opencode.db"@);
    assert(db_path(base) =~= xdg_overrides(base)[0].1 + "/opencode/opencode.db"@);
    let share = joined(joined(home, ".local"@), "share"@);
    assert(global_auth_source(global_data_home(None, Some(home))) =~= home
        + "/.local/share/opencode/auth.json"@);
}

/// For a home directory given as a plain path, the base directory is
/// `<home>/.alfalfa` and its data directory `<home>/.alfalfa/data`.
pub proof fn lemma_base_under_home(home: Seq<char>)
    requires
        home.len() > 0,
        home.last() != sep(),
    ensures
        alfalfa_base(home) == home + "/.alfalfa"@,
        xdg_overrides(alfalfa_base(home))[0].1 == home + "/.alfalfa/data"@,
{
    reveal_strlit(".alfalfa");
    reveal_strlit("/.alfalfa");
    reveal_strlit("data");
    reveal_strlit("/.alfalfa/data");
    assert(alfalfa_base(home) =~= home + "/.alfalfa"@);
    assert(xdg_overrides(alfalfa_base(home))[0].1 =~= home + "/.alfalfa/data"@);
}

/// A path ready to take a relative component: itself when empty or ending in a
/// separator, else itself followed by one.
pub open spec fn with_separator(p: Seq<char>) -> Seq<char> {
    if p.len() == 0 || p.last() == sep() {
        p
    } else {
        p.push(sep())
    }
}

/// The journal of any project is `.lf_agent/journal` inside it: the project
/// path (with a separator) followed by `.lf_agent/journal`. It is absolute
/// exactly when the project path is, and its seed files and overview lie in it.
pub proof fn lemma_journal_layout(project: Seq<char>)
    ensures
        journal_dir(project) == with_separator(project) + ".lf_agent/journal"@,
        project.is_prefix_of(journal_dir(project)),
        is_absolute(journal_dir(project)) <==> is_absolute(project),
        forall|i: int|
            0 <= i < journal_seeds(journal_dir(project)).len() ==> journal_dir(project).is_prefix_of(
                #[trigger] journal_seeds(journal_dir(project))[i].1,
            ),
        journal_dir(project).is_prefix_of(overview_path(journal_dir(project))),
{
    reveal_strlit(".lf_agent");
    reveal_strlit("journal");
    reveal_strlit(".lf_agent/journal");
    reveal_strlit("_schema.md");
    reveal_strlit("_log.md");
    reveal_strlit("overview.md");
    let agent = joined(project, ".lf_agent"@);
    assert(agent =~= with_separator(project) + ".lf_agent"@);
    assert(journal_dir(project) =~= with_separator(project) + ".lf_agent/journal"@);
    assert(journal_dir(project).subrange(0, project.len() as int) =~= project);
    if project.len() > 0 {
        assert(journal_dir(project)[0] == project[0]);
    } else {
        assert(journal_dir(project)[0] == '.');
    }
    let dir = journal_dir(project);
    lemma_join_extends(dir, "_schema.md"@);
    lemma_join_extends(dir, "_log.md"@);
    lemma_join_extends(dir, "overview.md"@);
}

/// Two projects share a journal directory exactly when their paths agree but
/// for one trailing separator.
pub proof fn lemma_journal_dirs_distinct(p1: Seq<char>, p2: Seq<char>)
    ensures
        journal_dir(p1) == journal_dir(p2) <==> with_separator(p1) == with_separator(p2),
{
    lemma_journal_layout(p1);
    lemma_journal_layout(p2);
    let suffix = ".lf_agent/journal"@;
    let (a, b) = (with_separator(p1), with_separator(p2));
    if journal_dir(p1) == journal_dir(p2) {
        assert(a.len() == b.len());
        assert(a =~= (a + suffix).subrange(0, a.len() as int));
        assert(b =~= (b + suffix).subrange(0, b.len() as int));
    }
}

} // verus!
