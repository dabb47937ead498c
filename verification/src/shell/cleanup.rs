//! Uninstalling depy's packages and cleaning up after scoop.
use vstd::prelude::*;
use super::{isolated, isolated_path_script};
use super::error::{ShellError, shell_error_text};
use crate::dir::{depy_dir_of, get_depy_dir_location};
use crate::text::{contains, has_substring, join2, join3, lowercase, same_text, to_lowercase};

verus! {

/// The apps of the depy scoop installation to uninstall: all but scoop itself
/// (compared after lower-casing), in the given order.
pub open spec fn removable_apps(names: Seq<String>) -> Seq<String> {
    names.filter(|n: String| lowercase(n@) != "scoop"@)
}

/// The apps of the depy scoop installation to uninstall: all but scoop itself.
pub fn packages_to_uninstall(names: Vec<String>) -> (res: Vec<String>)
    ensures
        res@ == removable_apps(names@),
{
    let ghost input = names@;
    let mut out: Vec<String> = Vec::new();
    let mut rest = names;
    let mut i: usize = 0;
    let n = rest.len();
    assert(input.take(0) =~= Seq::<String>::empty());
    assert(input.skip(0) =~= input);
    while rest.len() > 0
        invariant
            n == input.len(),
            i + rest@.len() == n,
            rest@ == input.skip(i as int),
            out@ == removable_apps(input.take(i as int)),
        decreases rest.len(),
    {
        let name = rest.remove(0);
        assert(name == input[i as int]);
        assert(rest@ =~= input.skip(i + 1));
        assert(input.take(i + 1).drop_last() =~= input.take(i as int));
        reveal_with_fuel(Seq::<_>::filter, 1);
        let lower = to_lowercase(name.as_str());
        if !same_text(lower.as_str(), "scoop") {
            out.push(name);
        }
        i = i + 1;
    }
    assert(input.take(n as int) =~= input);
    out
}

/// The script that uninstalls an app of the depy scoop installation, with its data.
pub fn uninstall_script(package: &str) -> (res: String)
    ensures
        res@ == isolated("scoop uninstall "@ + package@ + " --purge & "@),
{
    let cmd = join3("scoop uninstall ", package, " --purge & ");
    isolated_path_script(cmd.as_str())
}

/// The command that deletes an app's folder from the depy scoop installation.
pub fn force_remove_command(user_profile: &str, package: &str) -> (res: String)
    ensures
        res@ == "rmdir /S /Q "@ + depy_dir_of(user_profile@) + "\\apps\\"@ + package@,
{
    let dir = get_depy_dir_location(user_profile);
    let a = join3("rmdir /S /Q ", dir.as_str(), "\\apps\\");
    join2(a.as_str(), package)
}

/// What to do after running `uninstall_script` for an app: go on with the next
/// app, delete the app's folder by force (and then go on), or stop with an error.
pub enum UninstallStep {
    Next,
    ForceRemove(String),
    Fail(ShellError),
}

/// Scoop's output says the app is gone: it was uninstalled or was not installed.
pub open spec fn uninstall_reported(output: Seq<char>, package: Seq<char>) -> bool {
    has_substring(output, "'"@ + package + "' was uninstalled"@) || has_substring(
        output,
        "'"@ + package + "' isn't installed."@,
    )
}

/// An uninstall counts as done exactly when scoop's output holds
/// `'<package>' was uninstalled` or `'<package>' isn't installed.`; any other
/// mention of the package (such as scoop's `Uninstalling '<package>'` progress
/// line, or an error naming it) does not count. A report counts wherever it stands
/// in the output, whatever comes before or after it.
pub proof fn only_a_report_counts_as_uninstalled(
    before: Seq<char>,
    output: Seq<char>,
    after: Seq<char>,
    package: Seq<char>,
)
    ensures
        uninstall_reported(output, package) <==> (has_substring(
            output,
            "'"@ + package + "' was uninstalled"@,
        ) || has_substring(output, "'"@ + package + "' isn't installed."@)),
        uninstall_reported(output, package) ==> uninstall_reported(before + output + after, package),
{
    let whole = before + output + after;
    assert forall|needle: Seq<char>| has_substring(output, needle) implies #[trigger] has_substring(
        whole,
        needle,
    ) by {
        let i = choose|i: int|
            0 <= i && i + needle.len() <= output.len() && #[trigger] output.subrange(
                i,
                i + needle.len(),
            ) == needle;
        let j = before.len() + i;
        assert(whole.subrange(j, j + needle.len()) =~= output.subrange(i, i + needle.len()));
    }
}

/// Judges the run of `uninstall_script` for `package`. An app that scoop reports
/// as gone is done; otherwise, with `force_uninstall` its folder is deleted, and
/// without it the run ends with `PackageUninstallError`.
pub fn uninstall_outcome(
    package: &str,
    force_uninstall: bool,
    user_profile: &str,
    cmd_output: Result<String, ShellError>,
) -> (res: UninstallStep)
    ensures
        match cmd_output {
            Ok(out) if uninstall_reported(out@, package@) => res is Next,
            _ => if force_uninstall {
                res matches UninstallStep::ForceRemove(cmd) && cmd@ == "rmdir /S /Q "@
                    + depy_dir_of(user_profile@) + "\\apps\\"@ + package@
            } else {
                match cmd_output {
                    Err(e) => res matches UninstallStep::Fail(ShellError::PackageUninstallError(
                        p,
                        m,
                    )) && p@ == package@ && m@ == shell_error_text(e),
                    Ok(out) => res matches UninstallStep::Fail(ShellError::PackageUninstallError(
                        p,
                        m,
                    )) && p@ == package@ && m@ == out@,
                }
            },
        },
{
    let out = match cmd_output {
        Ok(out) => out,
        Err(err) => {
            if force_uninstall {
                return UninstallStep::ForceRemove(force_remove_command(user_profile, package));
            }
            return UninstallStep::Fail(
                ShellError::PackageUninstallError(String::from_str(package), err.message()),
            );
        },
    };
    let uninstalled = join3("'", package, "' was uninstalled");
    let not_installed = join3("'", package, "' isn't installed.");
    if contains(out.as_str(), uninstalled.as_str()) || contains(
        out.as_str(),
        not_installed.as_str(),
    ) {
        return UninstallStep::Next;
    }
    if force_uninstall {
        UninstallStep::ForceRemove(force_remove_command(user_profile, package))
    } else {
        UninstallStep::Fail(ShellError::PackageUninstallError(String::from_str(package), out))
    }
}

/// The folder that uninstalling depy deletes: `<depy scoop>\..\..\depy`.
pub fn uninstall_target(user_profile: &str) -> (res: String)
    ensures
        res@ == depy_dir_of(user_profile@) + "\\..\\..\\depy"@,
{
    let dir = get_depy_dir_location(user_profile);
    join2(dir.as_str(), "\\..\\..\\depy")
}

/// The script that clears the temporary PATH variable scoop may have left behind
/// and restores scoop's configuration.
pub fn cleanup_path_script() -> (res: String)
    ensures
        res@ == isolated(Seq::<char>::empty()),
{
    proof {
        reveal_strlit("");
    }
    let res = isolated_path_script("");
    assert(""@ =~= Seq::<char>::empty());
    res
}

/// Judges the run of `cleanup_path_script`: a failed run stays as it is, and
/// otherwise both the variable and scoop's configuration must be reported reset.
pub fn cleanup_path(cmd_output: Result<String, ShellError>) -> (res: Result<(), ShellError>)
    ensures
        match cmd_output {
            Err(e) => res == Err::<(), ShellError>(e),
            Ok(out) => if has_substring(out@, "SUCCESS: Specified value was saved"@)
                && has_substring(out@, "'use_isolated_path' has been removed"@) {
                res is Ok
            } else {
                res matches Err(ShellError::CleanupError(m)) && m@ == out@
            },
        },
{
    let out = match cmd_output {
        Ok(out) => out,
        Err(err) => {
            return Err(err);
        },
    };
    if !(contains(out.as_str(), "SUCCESS: Specified value was saved") && contains(
        out.as_str(),
        "'use_isolated_path' has been removed",
    )) {
        return Err(ShellError::CleanupError(out));
    }
    Ok(())
}

} // verus!
