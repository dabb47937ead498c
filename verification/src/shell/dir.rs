//! Locations inside the depy scoop installation, for a user profile directory
//! that may be unknown.
use vstd::prelude::*;
use super::error::ShellError;
use crate::dir::{depy_dir_of, scoop_dir_of, version_location_of};
use crate::text::{join2, join3};

verus! {

/// The user profile directory, or `MissingUserProfileError` when it is unknown.
fn get_user_profile(user_profile: Option<&str>) -> (res: Result<&str, ShellError>)
    ensures
        match user_profile {
            Some(p) => res == Ok::<&str, ShellError>(p),
            None => res == Err::<&str, ShellError>(ShellError::MissingUserProfileError),
        },
{
    match user_profile {
        Some(p) => Ok(p),
        None => Err(ShellError::MissingUserProfileError),
    }
}

/// The location of the depy scoop installation: `<profile>\depy\scoop`.
pub fn get_depy_scoop_location(user_profile: Option<&str>) -> (res: Result<String, ShellError>)
    ensures
        match user_profile {
            Some(p) => res matches Ok(s) && s@ == depy_dir_of(p@),
            None => res == Err::<String, ShellError>(ShellError::MissingUserProfileError),
        },
{
    let p = get_user_profile(user_profile)?;
    Ok(join2(p, "\\depy\\scoop"))
}

/// The location of the user's own scoop installation: `<profile>\scoop`.
pub fn get_scoop_dir_location(user_profile: Option<&str>) -> (res: Result<String, ShellError>)
    ensures
        match user_profile {
            Some(p) => res matches Ok(s) && s@ == scoop_dir_of(p@),
            None => res == Err::<String, ShellError>(ShellError::MissingUserProfileError),
        },
{
    let p = get_user_profile(user_profile)?;
    Ok(join2(p, "\\scoop"))
}

/// The location of a specific version of an app in the depy scoop installation.
pub fn get_version_location(user_profile: Option<&str>, name: &str, version: &str) -> (res: Result<
    String,
    ShellError,
>)
    ensures
        match user_profile {
            Some(p) => res matches Ok(s) && s@ == version_location_of(p@, name@, version@),
            None => res == Err::<String, ShellError>(ShellError::MissingUserProfileError),
        },
{
    let base = get_depy_scoop_location(user_profile)?;
    let a = join3(base.as_str(), "\\apps\\", name);
    Ok(join3(a.as_str(), "\\", version))
}

/// What initializing the depy directory involves: the folders to create
/// (`buckets`, `shims` and `apps` under the depy scoop installation), and the
/// scoop program folder to copy (from the user's scoop installation) together
/// with where to copy it.
pub struct DepyDirPlan {
    pub folders: Vec<String>,
    pub scoop_source: String,
    pub scoop_target: String,
}

/// The folders and the copy that initializing the depy directory needs.
pub fn init_depy_dir_plan(user_profile: Option<&str>) -> (res: Result<DepyDirPlan, ShellError>)
    ensures
        match user_profile {
            Some(p) => res matches Ok(plan) && plan.folders@.len() == 3
                && plan.folders@[0]@ == depy_dir_of(p@) + "\\buckets"@
                && plan.folders@[1]@ == depy_dir_of(p@) + "\\shims"@
                && plan.folders@[2]@ == depy_dir_of(p@) + "\\apps"@
                && plan.scoop_source@ == scoop_dir_of(p@) + "\\apps\\scoop"@
                && plan.scoop_target@ == depy_dir_of(p@) + "\\apps"@ + "\\scoop"@,
            None => res is Err && res->Err_0 == ShellError::MissingUserProfileError,
        },
{
    let base = get_depy_scoop_location(user_profile)?;
    let scoop = get_scoop_dir_location(user_profile)?;
    let apps = join2(base.as_str(), "\\apps");
    let mut folders: Vec<String> = Vec::new();
    folders.push(join2(base.as_str(), "\\buckets"));
    folders.push(join2(base.as_str(), "\\shims"));
    let scoop_target = join2(apps.as_str(), "\\scoop");
    folders.push(apps);
    let scoop_source = join2(scoop.as_str(), "\\apps\\scoop");
    Ok(DepyDirPlan { folders, scoop_source, scoop_target })
}

} // verus!
