//! Where depy keeps its scoop installation, derived from the user's profile
//! directory (`%USERPROFILE%`).
use vstd::prelude::*;
use crate::arch::{Arch, arch_key};
use crate::text::{has_substring, join2, join3, replace_all, replaced, replacing_what_is_absent};

verus! {

/// The depy scoop installation: `<profile>\depy\scoop`.
pub open spec fn depy_dir_of(user_profile: Seq<char>) -> Seq<char> {
    user_profile + "\\depy\\scoop"@
}

/// The user's own scoop installation: `<profile>\scoop`.
pub open spec fn scoop_dir_of(user_profile: Seq<char>) -> Seq<char> {
    user_profile + "\\scoop"@
}

/// Where a version of an app is installed: `<depy scoop>\apps\<name>\<version>`.
pub open spec fn version_location_of(user_profile: Seq<char>, name: Seq<char>, version: Seq<char>) -> Seq<char> {
    depy_dir_of(user_profile) + "\\apps\\"@ + name + "\\"@ + version
}

/// `value` with `$dir` replaced by the app's installation directory and then
/// `$architecture` replaced by the manifest name of `arch`.
pub open spec fn expanded(
    value: Seq<char>,
    name: Seq<char>,
    version: Seq<char>,
    user_profile: Seq<char>,
    arch: Arch,
) -> Seq<char> {
    replaced(
        replaced(value, "$dir"@, version_location_of(user_profile, name, version)),
        "$architecture"@,
        arch_key(arch),
    )
}

/// `arch` is one for which `$architecture` can be expanded (x86 or x86_64).
pub open spec fn expandable_arch(arch: Arch) -> bool {
    arch is X86 || arch is X86_64
}

/// The location of the depy scoop installation: `<profile>\depy\scoop`.
pub fn get_depy_dir_location(user_profile: &str) -> (res: String)
    ensures
        res@ == depy_dir_of(user_profile@),
{
    join2(user_profile, "\\depy\\scoop")
}

/// The location of the user's own scoop installation: `<profile>\scoop`.
pub fn get_scoop_dir_location(user_profile: &str) -> (res: String)
    ensures
        res@ == scoop_dir_of(user_profile@),
{
    join2(user_profile, "\\scoop")
}

/// The location of a specific version of an app in the depy scoop installation.
pub fn get_version_location(user_profile: &str, name: &str, version: &str) -> (res: String)
    ensures
        res@ == version_location_of(user_profile@, name@, version@),
{
    let base = get_depy_dir_location(user_profile);
    let a = join3(base.as_str(), "\\apps\\", name);
    join3(a.as_str(), "\\", version)
}

/// A value that names neither `$dir` nor `$architecture` is left as it is.
pub proof fn plain_values_stay(value: Seq<char>, name: Seq<char>, version: Seq<char>, user_profile: Seq<char>, arch: Arch)
    requires
        !has_substring(value, "$dir"@),
        !has_substring(value, "$architecture"@),
    ensures
        expanded(value, name, version, user_profile, arch) == value,
{
    reveal_strlit("$dir");
    reveal_strlit("$architecture");
    replacing_what_is_absent(value, "$dir"@, version_location_of(user_profile, name, version));
    replacing_what_is_absent(value, "$architecture"@, arch_key(arch));
}

/// Expands the scoop variables `$dir` (the app's installation directory) and then
/// `$architecture` in an environment variable's value.
pub fn expand_vars(value: &str, name: &str, version: &str, user_profile: &str, arch: Arch) -> (res:
    String)
    requires
        expandable_arch(arch),
    ensures
        res@ == expanded(value@, name@, version@, user_profile@, arch),
{
    proof {
        reveal_strlit("$dir");
        reveal_strlit("$architecture");
    }
    let location = get_version_location(user_profile, name, version);
    let with_dir = replace_all(value, "$dir", location.as_str());
    replace_all(with_dir.as_str(), "$architecture", arch.key())
}

} // verus!
