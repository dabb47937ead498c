//! The `.depyvenv` activation scripts: a batch file and a PowerShell script that
//! put the installed programs on the PATH of the current shell only, set the
//! environment variables their manifests ask for, and mark the prompt.
use vstd::prelude::*;
use super::{isolated, isolated_path_script};
use super::error::{ShellError, shell_error_text};
use crate::arch::Arch;
use crate::dir::{expandable_arch, expanded, expand_vars, get_version_location, version_location_of};
use crate::parsing::{EnvVar, Manifest};
use crate::text::{join2, join3, same_text};

verus! {

/// The scoop command that recreates the shims of a manifest's package.
pub open spec fn reset_command(name: Seq<char>, version: Seq<char>) -> Seq<char> {
    if version == "latest"@ {
        "scoop reset "@ + name + " & "@
    } else {
        "scoop reset "@ + name + "@"@ + version + " & "@
    }
}

/// The script that recreates the shims of a package without touching the PATH.
pub fn reset_script(name: &str, version: &str) -> (res: String)
    ensures
        res@ == isolated(reset_command(name@, version@)),
{
    let cmd = if same_text(version, "latest") {
        join3("scoop reset ", name, " & ")
    } else {
        let a = join3("scoop reset ", name, "@");
        join3(a.as_str(), version, " & ")
    };
    isolated_path_script(cmd.as_str())
}

/// Judges the run of `reset_script` for a package: a failed run becomes
/// `MakeShimError`.
pub fn make_shims(name: &str, cmd_output: Result<String, ShellError>) -> (res: Result<(), ShellError>)
    ensures
        match cmd_output {
            Ok(_) => res is Ok,
            Err(e) => res matches Err(ShellError::MakeShimError(n, m)) && n@ == name@ && m@
                == shell_error_text(e),
        },
{
    match cmd_output {
        Ok(_) => Ok(()),
        Err(err) => Err(ShellError::MakeShimError(String::from_str(name), err.message())),
    }
}

/// The PATH entries for the directories `paths` of an app installed at `location`:
/// `<location>\<path>;` for each.
pub open spec fn path_entries(paths: Seq<String>, location: Seq<char>) -> Seq<char>
    decreases paths.len(),
{
    if paths.len() == 0 {
        Seq::empty()
    } else {
        path_entries(paths.drop_last(), location) + location + "\\"@ + paths.last()@ + ";"@
    }
}

/// The PATH entries of all the manifests, in order.
pub open spec fn venv_paths(ms: Seq<Manifest>, user_profile: Seq<char>) -> Seq<char>
    decreases ms.len(),
{
    if ms.len() == 0 {
        Seq::empty()
    } else {
        venv_paths(ms.drop_last(), user_profile) + path_entries(
            ms.last().added_paths@,
            version_location_of(user_profile, ms.last().name@, ms.last().version@),
        )
    }
}

/// The batch lines setting a manifest's variables, their values expanded.
pub open spec fn bat_lines(
    vars: Seq<EnvVar>,
    name: Seq<char>,
    version: Seq<char>,
    user_profile: Seq<char>,
    arch: Arch,
) -> Seq<char>
    decreases vars.len(),
{
    if vars.len() == 0 {
        Seq::empty()
    } else {
        bat_lines(vars.drop_last(), name, version, user_profile, arch) + "set \""@
            + vars.last().name@ + "="@ + expanded(
            vars.last().value@,
            name,
            version,
            user_profile,
            arch,
        ) + "\"\n"@
    }
}

/// The PowerShell lines setting a manifest's variables, their values expanded.
pub open spec fn ps_lines(
    vars: Seq<EnvVar>,
    name: Seq<char>,
    version: Seq<char>,
    user_profile: Seq<char>,
    arch: Arch,
) -> Seq<char>
    decreases vars.len(),
{
    if vars.len() == 0 {
        Seq::empty()
    } else {
        ps_lines(vars.drop_last(), name, version, user_profile, arch) + "Set-Item -Path Env:'"@
            + vars.last().name@ + "' -Value '"@ + expanded(
            vars.last().value@,
            name,
            version,
            user_profile,
            arch,
        ) + "'\n"@
    }
}

/// The batch lines setting the variables of all the manifests, in order.
pub open spec fn venv_bat_vars(ms: Seq<Manifest>, user_profile: Seq<char>, arch: Arch) -> Seq<char>
    decreases ms.len(),
{
    if ms.len() == 0 {
        Seq::empty()
    } else {
        venv_bat_vars(ms.drop_last(), user_profile, arch) + bat_lines(
            ms.last().env_vars@,
            ms.last().name@,
            ms.last().version@,
            user_profile,
            arch,
        )
    }
}

/// The PowerShell lines setting the variables of all the manifests, in order.
pub open spec fn venv_ps_vars(ms: Seq<Manifest>, user_profile: Seq<char>, arch: Arch) -> Seq<char>
    decreases ms.len(),
{
    if ms.len() == 0 {
        Seq::empty()
    } else {
        venv_ps_vars(ms.drop_last(), user_profile, arch) + ps_lines(
            ms.last().env_vars@,
            ms.last().name@,
            ms.last().version@,
            user_profile,
            arch,
        )
    }
}

/// The first line of the batch activation script: it marks the prompt.
pub open spec fn bat_header() -> Seq<char> {
    "@echo off & PROMPT (CURENTLY IN DEV SHELL) $P$G \n"@
}

/// The first line of the PowerShell activation script: it marks the prompt.
pub open spec fn ps_header() -> Seq<char> {
    "function global:prompt { return \"(CURENTLY IN DEV SHELL) \" + (Get-Location) + \"> \" } $function:prompt = $function:prompt"@
        + "\n"@
}

/// The two activation scripts.
pub struct VenvScripts {
    /// `activate.bat`.
    pub bat: String,
    /// `activate.ps1`.
    pub ps: String,
}

/// Every manifest whose variables need expanding is for an architecture whose
/// `$architecture` can be expanded.
pub open spec fn vars_expandable(ms: Seq<Manifest>, arch: Arch) -> bool {
    forall|i: int| 0 <= i < ms.len() && (#[trigger] ms[i]).env_vars@.len() > 0 ==> expandable_arch(arch)
}

proof fn lemma_take_last<T>(s: Seq<T>, i: int)
    requires
        0 <= i < s.len(),
    ensures
        s.take(i + 1).drop_last() == s.take(i),
        s.take(i + 1).last() == s[i],
{
    assert(s.take(i + 1).drop_last() =~= s.take(i));
}

/// The activation scripts for the installed manifests. The PATH gets, in order,
/// each manifest's `env_add_path` directories inside its installation folder and
/// then the local copy of the shims (`local_shims`, an absolute path); each
/// manifest's variables are set with `$dir` and `$architecture` expanded.
pub fn venv_scripts(manifests: &Vec<Manifest>, user_profile: &str, arch: Arch, local_shims: &str) -> (res:
    VenvScripts)
    requires
        vars_expandable(manifests@, arch),
    ensures
        res.bat@ == bat_header() + venv_bat_vars(manifests@, user_profile@, arch) + "set PATH="@
            + venv_paths(manifests@, user_profile@) + local_shims@ + ";"@ + "%PATH%\n"@,
        res.ps@ == ps_header() + venv_ps_vars(manifests@, user_profile@, arch)
            + "$env:PATH = \""@ + venv_paths(manifests@, user_profile@) + local_shims@ + ";"@
            + "\" + $env:PATH\n"@,
{
    let mut bat_vars = String::new();
    let mut ps_vars = String::new();
    let mut paths = String::new();
    let mut i: usize = 0;
    assert(manifests@.take(0) =~= Seq::<Manifest>::empty());
    while i < manifests.len()
        invariant
            vars_expandable(manifests@, arch),
            i <= manifests@.len(),
            paths@ == venv_paths(manifests@.take(i as int), user_profile@),
            bat_vars@ == venv_bat_vars(manifests@.take(i as int), user_profile@, arch),
            ps_vars@ == venv_ps_vars(manifests@.take(i as int), user_profile@, arch),
        decreases manifests.len() - i,
    {
        let man = &manifests[i];
        let location = get_version_location(user_profile, man.name.as_str(), man.version.as_str());
        let ghost paths_before = paths@;
        let mut j: usize = 0;
        assert(man.added_paths@.take(0) =~= Seq::<String>::empty());
        while j < man.added_paths.len()
            invariant
                j <= man.added_paths@.len(),
                location@ == version_location_of(user_profile@, man.name@, man.version@),
                paths@ == paths_before + path_entries(man.added_paths@.take(j as int), location@),
            decreases man.added_paths.len() - j,
        {
            proof {
                lemma_take_last(man.added_paths@, j as int);
            }
            let a = join3(paths.as_str(), location.as_str(), "\\");
            paths = join3(a.as_str(), man.added_paths[j].as_str(), ";");
            j = j + 1;
        }
        let ghost bat_before = bat_vars@;
        let ghost ps_before = ps_vars@;
        let mut k: usize = 0;
        assert(man.env_vars@.take(0) =~= Seq::<EnvVar>::empty());
        while k < man.env_vars.len()
            invariant
                vars_expandable(manifests@, arch),
                i < manifests@.len(),
                man == manifests@[i as int],
                k <= man.env_vars@.len(),
                bat_vars@ == bat_before + bat_lines(
                    man.env_vars@.take(k as int),
                    man.name@,
                    man.version@,
                    user_profile@,
                    arch,
                ),
                ps_vars@ == ps_before + ps_lines(
                    man.env_vars@.take(k as int),
                    man.name@,
                    man.version@,
                    user_profile@,
                    arch,
                ),
            decreases man.env_vars.len() - k,
        {
            proof {
                lemma_take_last(man.env_vars@, k as int);
                assert(manifests@[i as int].env_vars@.len() > 0);
            }
            let var = &man.env_vars[k];
            let value = expand_vars(
                var.value.as_str(),
                man.name.as_str(),
                man.version.as_str(),
                user_profile,
                arch,
            );
            let b1 = join3(bat_vars.as_str(), "set \"", var.name.as_str());
            let b2 = join3(b1.as_str(), "=", value.as_str());
            bat_vars = join2(b2.as_str(), "\"\n");
            let p1 = join3(ps_vars.as_str(), "Set-Item -Path Env:'", var.name.as_str());
            let p2 = join3(p1.as_str(), "' -Value '", value.as_str());
            ps_vars = join2(p2.as_str(), "'\n");
            k = k + 1;
        }
        proof {
            lemma_take_last(manifests@, i as int);
            assert(man.added_paths@.take(j as int) =~= man.added_paths@);
            assert(man.env_vars@.take(k as int) =~= man.env_vars@);
        }
        i = i + 1;
    }
    assert(manifests@.take(i as int) =~= manifests@);
    let full_paths = join3(paths.as_str(), local_shims, ";");
    let b1 = join3("@echo off & PROMPT (CURENTLY IN DEV SHELL) $P$G \n", bat_vars.as_str(), "set PATH=");
    let bat = join3(b1.as_str(), full_paths.as_str(), "%PATH%\n");
    let header = join2(
        "function global:prompt { return \"(CURENTLY IN DEV SHELL) \" + (Get-Location) + \"> \" } $function:prompt = $function:prompt",
        "\n",
    );
    let p1 = join3(header.as_str(), ps_vars.as_str(), "$env:PATH = \"");
    let ps = join3(p1.as_str(), full_paths.as_str(), "\" + $env:PATH\n");
    VenvScripts { bat, ps }
}

} // verus!
