//! The command line of depy and what it asks for.
use vstd::prelude::*;

verus! {

/// The options depy is started with.
pub struct Args {
    /// Print debugging information.
    pub verbose: bool,
    /// Do not initialize depy before running other commands.
    pub no_init: bool,
    /// Uninstall depy's packages and delete the folder `%userprofile%\depy`.
    pub dir_cleanup: bool,
    /// Initialize depy under `%userprofile%\depy` and exit.
    pub only_initialize: bool,
    /// Delete the folders of packages that cannot be uninstalled.
    pub force_uninstall: bool,
    /// Uninstall all of depy's packages.
    pub garbage_clean: bool,
    /// Clean up the PATH changes a forcefully closed run may have left.
    pub path_clean: bool,
    /// Search the local buckets for packages whose name contains this.
    pub search: Option<String>,
    /// Search the local buckets for packages whose name or programs contain this.
    pub deep_search: Option<String>,
}

/// What a run of depy does.
pub enum CliCommand {
    /// Initialize depy and stop.
    Initialize,
    /// Uninstall depy (deleting package folders by force when asked).
    Uninstall(bool),
    /// Uninstall depy's packages (deleting package folders by force when asked).
    CleanPackages(bool),
    /// Clean up left-over PATH changes.
    CleanupPath,
    /// Search the local buckets: the query, and whether to search deeply.
    Search(String, bool),
    /// Initialize depy and install the packages of `./depy.json`.
    Install,
}

impl Args {
    /// What the options ask for, the first that applies of: initializing only,
    /// uninstalling depy, uninstalling its packages, cleaning up the PATH,
    /// searching (the plain query taking precedence), and otherwise installing.
    pub fn command(&self) -> (res: CliCommand)
        ensures
            self.only_initialize ==> res is Initialize,
            !self.only_initialize && self.dir_cleanup ==> res == CliCommand::Uninstall(
                self.force_uninstall,
            ),
            !self.only_initialize && !self.dir_cleanup && self.garbage_clean ==> res
                == CliCommand::CleanPackages(self.force_uninstall),
            !self.only_initialize && !self.dir_cleanup && !self.garbage_clean && self.path_clean
                ==> res is CleanupPath,
            !self.only_initialize && !self.dir_cleanup && !self.garbage_clean && !self.path_clean
                ==> match (self.search, self.deep_search) {
                (Some(q), d) => res == CliCommand::Search(q, d is Some),
                (None, Some(q)) => res == CliCommand::Search(q, true),
                (None, None) => res is Install,
            },
    {
        if self.only_initialize {
            return CliCommand::Initialize;
        }
        if self.dir_cleanup {
            return CliCommand::Uninstall(self.force_uninstall);
        }
        if self.garbage_clean {
            return CliCommand::CleanPackages(self.force_uninstall);
        }
        if self.path_clean {
            return CliCommand::CleanupPath;
        }
        let deep = self.deep_search.is_some();
        match &self.search {
            Some(q) => CliCommand::Search(q.clone(), deep),
            None => match &self.deep_search {
                Some(q) => CliCommand::Search(q.clone(), true),
                None => CliCommand::Install,
            },
        }
    }
}

} // verus!
