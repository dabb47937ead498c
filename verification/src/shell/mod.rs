//! Driving scoop inside the depy installation: the command lines to run and how
//! to judge what scoop printed.
//!
//! Commands are run by the caller inside the depy scoop installation (with the
//! `SCOOP` environment variable pointing at it); the caller hands back either
//! what the command printed, or the error that running it gave
//! (`ShellError::ExecutionError` when it exited unsuccessfully).
use vstd::prelude::*;
use crate::text::{has_prefix, has_substring, has_suffix, join3};

pub mod bucket;
pub mod cleanup;
pub mod dir;
pub mod error;
pub mod install;
pub mod venv;

verus! {

/// What is run before a scoop command so that scoop does not touch the user's PATH.
pub open spec fn isolated_prefix() -> Seq<char> {
    "scoop config use_isolated_path DEPY_TEMP_VAL & "@
}

/// What is run after a scoop command to drop the temporary variable scoop used
/// instead of the PATH and to restore scoop's configuration.
pub open spec fn isolated_suffix() -> Seq<char> {
    "set DEPY_TEMP_VAL= & "@ + "setx DEPY_TEMP_VAL %DEPY_TEMP_VAL% & "@
        + "scoop config rm use_isolated_path"@
}

/// `cmd` wrapped so that scoop keeps its PATH changes in a temporary variable,
/// which is cleared afterwards.
pub open spec fn isolated(cmd: Seq<char>) -> Seq<char> {
    isolated_prefix() + cmd + isolated_suffix()
}

/// `cmd` wrapped so that scoop keeps its PATH changes in a temporary variable,
/// which is cleared afterwards.
pub fn isolated_path_script(cmd: &str) -> (res: String)
    ensures
        res@ == isolated(cmd@),
{
    let suffix = join3(
        "set DEPY_TEMP_VAL= & ",
        "setx DEPY_TEMP_VAL %DEPY_TEMP_VAL% & ",
        "scoop config rm use_isolated_path",
    );
    join3("scoop config use_isolated_path DEPY_TEMP_VAL & ", cmd, suffix.as_str())
}

/// A script for `<head><id>@<version> & ` names `<id>@<version>`, and two such
/// scripts for different versions differ.
pub(crate) proof fn lemma_pinned_command(head: Seq<char>, id: Seq<char>, v1: Seq<char>, v2: Seq<char>)
    ensures
        has_substring(isolated(head + id + "@"@ + v1 + " & "@), id + "@"@ + v1),
        v1 != v2 ==> isolated(head + id + "@"@ + v1 + " & "@) != isolated(
            head + id + "@"@ + v2 + " & "@,
        ),
{
    reveal_strlit("@");
    reveal_strlit(" & ");
    let s1 = isolated(head + id + "@"@ + v1 + " & "@);
    let s2 = isolated(head + id + "@"@ + v2 + " & "@);
    let o: int = isolated_prefix().len() as int + head.len() as int;
    let w1 = id + "@"@ + v1;
    assert(s1.subrange(o, o + w1.len()) =~= w1);
    if v1 != v2 && s1 == s2 {
        assert(s1.len() == o + id.len() + 1 + v1.len() + 3 + isolated_suffix().len());
        assert(s2.len() == o + id.len() + 1 + v2.len() + 3 + isolated_suffix().len());
        assert(v1.len() == v2.len());
        let p: int = o + id.len() + 1;
        assert(s1.subrange(p, p + v1.len()) =~= v1);
        assert(s2.subrange(p, p + v2.len()) =~= v2);
    }
}

/// Recreating the shims of a pinned version names that version: for a version
/// other than `latest`, the script holds `<name>@<version>`, and scripts for two
/// different versions differ.
pub proof fn reset_keeps_the_version(name: Seq<char>, v1: Seq<char>, v2: Seq<char>)
    requires
        v1 != "latest"@,
        v2 != "latest"@,
    ensures
        has_substring(isolated(venv::reset_command(name, v1)), name + "@"@ + v1),
        v1 != v2 ==> isolated(venv::reset_command(name, v1)) != isolated(venv::reset_command(name, v2)),
{
    lemma_pinned_command("scoop reset "@, name, v1, v2);
}

/// The script switches scoop to a temporary PATH variable before anything else
/// and, at its very end, clears that variable and restores scoop's configuration.
pub open spec fn restores_path(script: Seq<char>) -> bool {
    has_prefix(script, isolated_prefix()) && has_suffix(script, isolated_suffix())
}

/// Every scoop script depy runs against the depy installation (installing a
/// package, recreating its shims, uninstalling it, and cleaning up after an
/// interrupted run) keeps scoop's PATH changes in a temporary variable and
/// clears it at the end, so the user's PATH is left as it was.
pub proof fn scripts_leave_path_alone(identifier: Seq<char>, name: Seq<char>, version: Seq<char>)
    ensures
        restores_path(install::install_script(identifier, version)),
        restores_path(isolated(venv::reset_command(name, version))),
        restores_path(isolated("scoop uninstall "@ + name + " --purge & "@)),
        restores_path(isolated(Seq::<char>::empty())),
{
    assert forall|cmd: Seq<char>| #[trigger] restores_path(isolated(cmd)) by {
        let s = isolated(cmd);
        assert(s.subrange(0, isolated_prefix().len() as int) =~= isolated_prefix());
        assert(s.subrange(s.len() - isolated_suffix().len(), s.len() as int) =~= isolated_suffix());
    }
    assert(restores_path(isolated(install::install_command(identifier, version))));
    assert(restores_path(isolated(venv::reset_command(name, version))));
    assert(restores_path(isolated("scoop uninstall "@ + name + " --purge & "@)));
    assert(restores_path(isolated(Seq::<char>::empty())));
}

} // verus!
