//! Errors met while driving scoop.
use vstd::prelude::*;
use crate::text::{join2, join3};

verus! {

/// Why an operation on the depy scoop installation failed.
#[derive(Debug, PartialEq, Eq)]
pub enum ShellError {
    /// A command could not be run or exited unsuccessfully, with the reason.
    ExecutionError(String),
    /// Initializing the depy scoop installation failed, with the reason.
    InitializeError(String),
    /// Updating scoop did not report success; what scoop printed.
    UpdateError(String),
    /// A package was not installed: what scoop printed, and the package.
    SingleInstallError(String, String),
    /// A file or folder could not be deleted, with the reason.
    DeleteError(String),
    /// The shims of a package could not be made: the package and the reason.
    MakeShimError(String, String),
    /// The `.depyvenv` folder could not be created, with the reason.
    CreateEnvError(String),
    /// The shims could not be copied, with the reason.
    CopyShimError(String),
    /// A file could not be written, with the reason.
    WriteError(String),
    /// Something could not be read: what, and the reason.
    ReadError(String, String),
    /// A package could not be uninstalled: the package and the reason.
    PackageUninstallError(String, String),
    /// Cleaning up the PATH changes failed; what scoop printed.
    CleanupError(String),
    /// Removing the buckets failed, with the reason.
    CleanBucketError(String),
    /// A bucket could not be added: its name, its url and the reason.
    AddBucketError(String, String, String),
    /// A bucket could not be removed: its name and the reason.
    RemoveBucketError(String, String),
    /// The url of a bucket could not be found: the bucket and the reason.
    BucketUrlError(String, String),
    /// A manifest could not be read: the manifest and the reason.
    ManifestParseError(String, String),
    /// A download failed, with the reason.
    ResponseError(String),
    /// The `USERPROFILE` environment variable is not set.
    MissingUserProfileError,
    /// A folder could not be created: the folder and the reason.
    CreateFolderError(String, String),
}

/// The text shown to the user for `e`.
pub open spec fn shell_error_text(e: ShellError) -> Seq<char> {
    match e {
        ShellError::ExecutionError(m) => "Error: Couldn't execute a command!\nGot error: "@ + m@,
        ShellError::InitializeError(m) => "Error: Couldn't initialize depy!\n Got error "@ + m@
            + "\n\nPlease make sure scoop is installed on your system!"@,
        ShellError::UpdateError(m) =>
            "Error: Couldn't update the scoop instalation inside depy!\nGot scoop output "@ + m@
                + "\nMake sure scoop is installed and you are connected to the internet!"@,
        ShellError::SingleInstallError(out, name) => "Error: Couldn't install an application!\n"@
            + out@ + "\n\nFailed to install "@ + name@
            + ", scoop error above ^^^^^^^^^^^^^^^^\n\nMake sure all required buckets are installed!"@,
        ShellError::DeleteError(m) => "Error: Couldn't delete a file or folder!\nGot error"@ + m@,
        ShellError::MakeShimError(n, m) => "Error: Couldn't make shims for"@ + n@
            + "!\nGot error:"@ + m@,
        ShellError::CreateEnvError(m) => "Error: Couldn't create .depyenv folder!\nGot error"@
            + m@,
        ShellError::CopyShimError(m) => "Error: Couldn't copy shims!\nGot error:"@ + m@,
        ShellError::WriteError(m) => "Error: Couldn't write to a file!\nGot error"@ + m@,
        ShellError::ReadError(w, m) => "Error: Couldn't read from "@ + w@ + "!\nGot error"@ + m@,
        ShellError::PackageUninstallError(p, m) => "Error: Couldn't uninstall "@ + p@ + ", error:"@
            + m@
            + "\nIf you want to try force uninstall run cli with the -g/-d and the -f flag"@,
        ShellError::CleanupError(m) =>
            "Error: Couldn't cleanup a packages!\nScoop errored out on:\n"@ + m@
                + "\n\nFailed to cleanup paths, output above ^^^^^^^^^^^^^^^^"@,
        ShellError::CleanBucketError(m) => "Error: Couldn't clean buckets!\nGot error"@ + m@,
        ShellError::AddBucketError(n, u, m) => "Error: Couldn't add bucket name: "@ + n@
            + " bucket url: "@ + u@ + ".\nGot error"@ + m@,
        ShellError::RemoveBucketError(n, m) => "Error: Couldn't remove bucket name: "@ + n@
            + ".\nGot error"@ + m@ + "!"@,
        ShellError::BucketUrlError(b, m) => "Error: Couldn't determine the url of bucket "@ + b@
            + "!\nGot error: "@ + m@,
        ShellError::ManifestParseError(f, m) => "Error: Couldn't parse manifest: "@ + f@
            + "!\nGot error: "@ + m@,
        ShellError::ResponseError(m) => "Error: Invalid response recieved!\nGot error from github:"@
            + m@,
        ShellError::MissingUserProfileError =>
            "Error: %USERPROFILE% environment variable not found!"@,
        ShellError::CreateFolderError(f, m) => "Error: Couldn't create folder "@ + f@
            + "!\nGot error: "@ + m@,
    }
}

impl ShellError {
    /// The text shown to the user for this error.
    pub fn message(&self) -> (res: String)
        ensures
            res@ == shell_error_text(*self),
    {
        match self {
            ShellError::ExecutionError(m) => join2(
                "Error: Couldn't execute a command!\nGot error: ",
                m.as_str(),
            ),
            ShellError::InitializeError(m) => join3(
                "Error: Couldn't initialize depy!\n Got error ",
                m.as_str(),
                "\n\nPlease make sure scoop is installed on your system!",
            ),
            ShellError::UpdateError(m) => join3(
                "Error: Couldn't update the scoop instalation inside depy!\nGot scoop output ",
                m.as_str(),
                "\nMake sure scoop is installed and you are connected to the internet!",
            ),
            ShellError::SingleInstallError(out, name) => {
                let a = join3(
                    "Error: Couldn't install an application!\n",
                    out.as_str(),
                    "\n\nFailed to install ",
                );
                join3(
                    a.as_str(),
                    name.as_str(),
                    ", scoop error above ^^^^^^^^^^^^^^^^\n\nMake sure all required buckets are installed!",
                )
            },
            ShellError::DeleteError(m) => join2(
                "Error: Couldn't delete a file or folder!\nGot error",
                m.as_str(),
            ),
            ShellError::MakeShimError(n, m) => {
                let a = join3("Error: Couldn't make shims for", n.as_str(), "!\nGot error:");
                join2(a.as_str(), m.as_str())
            },
            ShellError::CreateEnvError(m) => join2(
                "Error: Couldn't create .depyenv folder!\nGot error",
                m.as_str(),
            ),
            ShellError::CopyShimError(m) => join2(
                "Error: Couldn't copy shims!\nGot error:",
                m.as_str(),
            ),
            ShellError::WriteError(m) => join2(
                "Error: Couldn't write to a file!\nGot error",
                m.as_str(),
            ),
            ShellError::ReadError(w, m) => {
                let a = join3("Error: Couldn't read from ", w.as_str(), "!\nGot error");
                join2(a.as_str(), m.as_str())
            },
            ShellError::PackageUninstallError(p, m) => {
                let a = join3("Error: Couldn't uninstall ", p.as_str(), ", error:");
                join3(
                    a.as_str(),
                    m.as_str(),
                    "\nIf you want to try force uninstall run cli with the -g/-d and the -f flag",
                )
            },
            ShellError::CleanupError(m) => join3(
                "Error: Couldn't cleanup a packages!\nScoop errored out on:\n",
                m.as_str(),
                "\n\nFailed to cleanup paths, output above ^^^^^^^^^^^^^^^^",
            ),
            ShellError::CleanBucketError(m) => join2(
                "Error: Couldn't clean buckets!\nGot error",
                m.as_str(),
            ),
            ShellError::AddBucketError(n, u, m) => {
                let a = join3("Error: Couldn't add bucket name: ", n.as_str(), " bucket url: ");
                let b = join3(a.as_str(), u.as_str(), ".\nGot error");
                join2(b.as_str(), m.as_str())
            },
            ShellError::RemoveBucketError(n, m) => {
                let a = join3("Error: Couldn't remove bucket name: ", n.as_str(), ".\nGot error");
                join3(a.as_str(), m.as_str(), "!")
            },
            ShellError::BucketUrlError(b, m) => {
                let a = join3(
                    "Error: Couldn't determine the url of bucket ",
                    b.as_str(),
                    "!\nGot error: ",
                );
                join2(a.as_str(), m.as_str())
            },
            ShellError::ManifestParseError(f, m) => {
                let a = join3("Error: Couldn't parse manifest: ", f.as_str(), "!\nGot error: ");
                join2(a.as_str(), m.as_str())
            },
            ShellError::ResponseError(m) => join2(
                "Error: Invalid response recieved!\nGot error from github:",
                m.as_str(),
            ),
            ShellError::MissingUserProfileError => String::from_str(
                "Error: %USERPROFILE% environment variable not found!",
            ),
            ShellError::CreateFolderError(f, m) => {
                let a = join3("Error: Couldn't create folder ", f.as_str(), "!\nGot error: ");
                join2(a.as_str(), m.as_str())
            },
        }
    }
}

} // verus!
