//! Which seed files to write: every file that the setup provides is written
//! only where no file exists yet, so that the user's edits are kept.

use vstd::prelude::*;
use crate::config::{identity_config_text, identity_document, json_pretty};
use crate::constants::{GITIGNORE_CONTENT, LF_TOOL_PACKAGE_JSON, LF_TOOL_SOURCE};
use crate::layout::{config_dir, identity_config_path, identity_config_path_for, install_command, install_command_for, lf_tool_layout, tools_dir};
use crate::path::joined;

verus! {

/// A file that the setup provides: a short name for messages, where it goes,
/// and what it holds.
pub struct PendingFile {
    pub name: &'static str,
    pub path: String,
    pub content: String,
}

/// The files among `files` to write, in order: those whose `present` flag,
/// at the same position, is false.
pub open spec fn to_write<A>(files: Seq<A>, present: Seq<bool>) -> Seq<A>
    decreases files.len(),
{
    if files.len() == 0 {
        Seq::empty()
    } else {
        let rest = to_write(files.drop_last(), present);
        if present[files.len() - 1] {
            rest
        } else {
            rest.push(files.last())
        }
    }
}

/// The files to write, given for each file whether a file already exists at
/// its path.
pub fn writes_for_missing(files: Vec<PendingFile>, present: &Vec<bool>) -> (r: Vec<PendingFile>)
    requires
        files@.len() == present@.len(),
    ensures
        r@ == to_write(files@, present@),
{
    let ghost all = files@;
    let n = files.len();
    let mut r: Vec<PendingFile> = Vec::new();
    let mut i: usize = 0;
    let mut files = files;
    assert(files@ =~= all.subrange(0, n as int));
    while i < n
        invariant
            n == all.len(),
            n == present@.len(),
            i <= n,
            files@ =~= all.subrange(i as int, n as int),
            r@ == to_write(all.take(i as int), present@),
        decreases n - i,
    {
        let f = files.remove(0);
        assert(f == all[i as int]);
        let ghost before = r@;
        if !present[i] {
            r.push(f);
        }
        assert(all.take(i + 1).drop_last() =~= all.take(i as int));
        assert(r@ == to_write(all.take(i + 1), present@));
        i = i + 1;
        assert(files@ =~= all.subrange(i as int, n as int));
    }
    assert(all.take(n as int) =~= all);
    r
}

/// Every file to write is one of the given files that is not present, and
/// every given file that is not present is to be written: the setup never
/// writes over an existing file and leaves none of its files missing.
pub proof fn lemma_writes_only_missing<A>(files: Seq<A>, present: Seq<bool>)
    requires
        files.len() == present.len(),
    ensures
        forall|j: int|
            0 <= j < to_write(files, present).len() ==> exists|i: int|
                0 <= i < files.len() && !present[i] && files[i] == #[trigger] to_write(
                    files,
                    present,
                )[j],
        forall|i: int|
            0 <= i < files.len() && !present[i] ==> to_write(files, present).contains(
                #[trigger] files[i],
            ),
    decreases files.len(),
{
    if files.len() > 0 {
        let last = files.len() - 1;
        let shorter = files.drop_last();
        let flags = present.take(last);
        lemma_writes_only_missing(shorter, flags);
        lemma_to_write_prefix(shorter, present);
        let rest = to_write(shorter, present);
        assert forall|j: int| 0 <= j < to_write(files, present).len() implies exists|i: int|
            0 <= i < files.len() && !present[i] && files[i] == #[trigger] to_write(
                files,
                present,
            )[j] by {
            if j < rest.len() {
                let i = choose|i: int|
                    0 <= i < shorter.len() && !flags[i] && shorter[i] == #[trigger] to_write(
                        shorter,
                        flags,
                    )[j];
                assert(files[i] == shorter[i]);
                assert(flags[i] == present[i]);
                assert(to_write(files, present)[j] == rest[j]);
                assert(0 <= i < files.len() && !present[i] && files[i] == to_write(files, present)[j]);
            } else {
                assert(!present[last]);
                assert(files[last] == to_write(files, present)[j]);
            }
        }
        assert forall|i: int| 0 <= i < files.len() && !present[i] implies to_write(
            files,
            present,
        ).contains(#[trigger] files[i]) by {
            if i < last {
                assert(shorter[i] == files[i]);
                assert(!flags[i]);
                assert(rest.contains(files[i]));
                let k = choose|k: int| 0 <= k < rest.len() && rest[k] == files[i];
                assert(to_write(files, present)[k] == files[i]);
            } else {
                assert(to_write(files, present).last() == files[i]);
            }
        }
    }
}

/// The files to write depend only on the flags at the files' own positions.
proof fn lemma_to_write_prefix<A>(files: Seq<A>, present: Seq<bool>)
    requires
        files.len() <= present.len(),
    ensures
        to_write(files, present) == to_write(files, present.take(files.len() as int)),
    decreases files.len(),
{
    if files.len() > 0 {
        let shorter = files.drop_last();
        lemma_to_write_prefix(shorter, present);
        lemma_to_write_prefix(shorter, present.take(files.len() as int));
        assert(present.take(files.len() as int).take(shorter.len() as int) =~= present.take(
            shorter.len() as int,
        ));
    }
}

/// A file as text: its name, path and content.
pub open spec fn pending_view(f: PendingFile) -> (Seq<char>, Seq<char>, Seq<char>) {
    (f.name@, f.path@, f.content@)
}

/// Files as text.
pub open spec fn pending_views(fs: Seq<PendingFile>) -> Seq<(Seq<char>, Seq<char>, Seq<char>)> {
    fs.map_values(|f: PendingFile| pending_view(f))
}

/// Choosing the files to write commutes with viewing them.
pub proof fn lemma_to_write_views(files: Seq<PendingFile>, present: Seq<bool>)
    requires
        files.len() <= present.len(),
    ensures
        pending_views(to_write(files, present)) == to_write(pending_views(files), present),
    decreases files.len(),
{
    if files.len() > 0 {
        lemma_to_write_views(files.drop_last(), present);
        assert(pending_views(files).drop_last() =~= pending_views(files.drop_last()));
        let rest = to_write(files.drop_last(), present);
        assert(pending_views(rest.push(files.last())) =~= pending_views(rest).push(
            pending_view(files.last()),
        ));
    }
}

/// The files of the `lf` tool that come before its install: the tool's
/// source and its `package.json`.
pub open spec fn lf_tool_files(base: Seq<char>) -> Seq<(Seq<char>, Seq<char>, Seq<char>)> {
    seq![
        ("lf.ts"@, joined(tools_dir(base), "lf.ts"@), LF_TOOL_SOURCE@),
        ("package.json"@, joined(config_dir(base), "package.json"@), LF_TOOL_PACKAGE_JSON@),
    ]
}

/// The `.gitignore` of the opencode configuration directory.
pub open spec fn gitignore_file(base: Seq<char>) -> (Seq<char>, Seq<char>, Seq<char>) {
    (".gitignore"@, joined(config_dir(base), ".gitignore"@), GITIGNORE_CONTENT@)
}

/// What the `lf` tool setup does: the files to write, then the install
/// command to run if any, then the files to write after it.
pub struct LfToolPlan {
    pub writes_before_install: Vec<PendingFile>,
    pub install: Option<String>,
    pub writes_after_install: Vec<PendingFile>,
}

/// The `lf` tool setup under `base`, given whether the tool source, its
/// `package.json`, `node_modules` and `.gitignore` already exist: each missing
/// file is written and no existing one, and the dependencies are installed
/// only when `node_modules` is missing.
pub fn plan_lf_tool(
    base: &str,
    tool_present: bool,
    package_present: bool,
    node_modules_present: bool,
    gitignore_present: bool,
) -> (r: LfToolPlan)
    ensures
        pending_views(r.writes_before_install@) == to_write(
            lf_tool_files(base@),
            seq![tool_present, package_present],
        ),
        node_modules_present ==> r.install is None,
        !node_modules_present ==> (r.install matches Some(c) && c@ == install_command(
            config_dir(base@),
        )),
        pending_views(r.writes_after_install@) == to_write(
            seq![gitignore_file(base@)],
            seq![gitignore_present],
        ),
{
    let layout = lf_tool_layout(base);
    let mut before: Vec<PendingFile> = Vec::new();
    before.push(
        PendingFile {
            name: "lf.ts",
            path: layout.tool_file,
            content: String::from_str(LF_TOOL_SOURCE),
        },
    );
    before.push(
        PendingFile {
            name: "package.json",
            path: layout.package_file,
            content: String::from_str(LF_TOOL_PACKAGE_JSON),
        },
    );
    assert(pending_views(before@) =~= lf_tool_files(base@));
    let mut flags: Vec<bool> = Vec::new();
    flags.push(tool_present);
    flags.push(package_present);
    assert(flags@ =~= seq![tool_present, package_present]);
    proof {
        lemma_to_write_views(before@, flags@);
    }
    let writes_before_install = writes_for_missing(before, &flags);
    let install = if node_modules_present {
        None
    } else {
        Some(install_command_for(layout.opencode_dir.as_str()))
    };
    let mut after: Vec<PendingFile> = Vec::new();
    after.push(
        PendingFile {
            name: ".gitignore",
            path: layout.gitignore_file,
            content: String::from_str(GITIGNORE_CONTENT),
        },
    );
    assert(pending_views(after@) =~= seq![gitignore_file(base@)]);
    let mut after_flags: Vec<bool> = Vec::new();
    after_flags.push(gitignore_present);
    assert(after_flags@ =~= seq![gitignore_present]);
    proof {
        lemma_to_write_views(after@, after_flags@);
    }
    let writes_after_install = writes_for_missing(after, &after_flags);
    LfToolPlan { writes_before_install, install, writes_after_install }
}

/// The `opencode.json` that gives the agents the AlfAlfa identity, as a file
/// to write under `base`.
pub fn identity_config_file(base: &str) -> (r: PendingFile)
    ensures
        pending_view(r) == ("opencode.json"@, identity_config_path(base@), json_pretty(
            identity_document(),
        )),
{
    PendingFile {
        name: "opencode.json",
        path: identity_config_path_for(base),
        content: identity_config_text(),
    }
}

/// Whether to copy the global `auth.json`: only when the AlfAlfa copy does
/// not exist yet and the global one does.
pub fn auth_copy_needed(destination_present: bool, source_present: bool) -> (r: bool)
    ensures
        r == (!destination_present && source_present),
{
    !destination_present && source_present
}

} // verus!
