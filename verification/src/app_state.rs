//! The state of depy's graphical front end and how it reacts to commands: the
//! package search results, the packages chosen for installation, the bucket
//! list, the error messages shown, and the busy flags of background work.
//!
//! Each command updates the state and may ask the front end to start some
//! background work, which reports back with a further command.
use vstd::prelude::*;
use crate::package::{Package, same_package};
use crate::text::{join2, join3};

verus! {

/// What the button next to a package in the search results offers.
#[derive(Clone, Copy, Debug, PartialEq, Eq)]
pub enum InstalledPackageState {
    /// The package can be added to the packages to install.
    AddPackage,
    /// A version is being chosen before adding the package.
    SelectVersion,
    /// The package is among the packages to install and can be removed.
    Remove,
}

/// A package in the search results, with what its button offers.
#[derive(Clone, Debug)]
pub struct InstalledPackageWrapper {
    pub visual_package_state: InstalledPackageState,
    pub package: Package,
}

/// The section of the window that is shown.
#[derive(Clone, Copy, Debug, PartialEq, Eq)]
pub enum WindowSection {
    PackageSearch,
    BucketManagement,
    GarbageClean,
}

/// Background work that ended by panicking, with the panic's message.
#[derive(Debug, PartialEq, Eq)]
pub enum ControllerError {
    BucketAddError(String),
    BucketRemoveError(String),
    ThreadSearchError(String),
    InstallError(String),
    InitDepyError(String),
    CleanupError(String),
    UninstallErrror(String),
}

/// The text shown to the user for `e`.
pub open spec fn controller_error_text(e: ControllerError) -> Seq<char> {
    match e {
        ControllerError::BucketAddError(m) =>
            "Error: Thread paniced while adding a bucket! Paniced on error "@ + m@,
        ControllerError::BucketRemoveError(m) =>
            "Error: Thread paniced while removing a bucket! Paniced on error "@ + m@,
        ControllerError::ThreadSearchError(m) =>
            "Error: Thread paniced while searching for a packages! Paniced on error "@ + m@,
        ControllerError::InstallError(m) =>
            "Error: Thread paniced while installing packages! Paniced on error "@ + m@,
        ControllerError::InitDepyError(m) =>
            "Error: Thread paniced while initializing depy! Paniced on error "@ + m@,
        ControllerError::CleanupError(m) =>
            "Error: Thread paniced while cleaning up depy packages! Paniced on error "@ + m@,
        ControllerError::UninstallErrror(m) =>
            "Error: Thread paniced while uninstalling depy! Paniced on error "@ + m@,
    }
}

impl ControllerError {
    /// The text shown to the user for this error.
    pub fn message(&self) -> (res: String)
        ensures
            res@ == controller_error_text(*self),
    {
        match self {
            ControllerError::BucketAddError(m) => join2(
                "Error: Thread paniced while adding a bucket! Paniced on error ",
                m.as_str(),
            ),
            ControllerError::BucketRemoveError(m) => join2(
                "Error: Thread paniced while removing a bucket! Paniced on error ",
                m.as_str(),
            ),
            ControllerError::ThreadSearchError(m) => join2(
                "Error: Thread paniced while searching for a packages! Paniced on error ",
                m.as_str(),
            ),
            ControllerError::InstallError(m) => join2(
                "Error: Thread paniced while installing packages! Paniced on error ",
                m.as_str(),
            ),
            ControllerError::InitDepyError(m) => join2(
                "Error: Thread paniced while initializing depy! Paniced on error ",
                m.as_str(),
            ),
            ControllerError::CleanupError(m) => join2(
                "Error: Thread paniced while cleaning up depy packages! Paniced on error ",
                m.as_str(),
            ),
            ControllerError::UninstallErrror(m) => join2(
                "Error: Thread paniced while uninstalling depy! Paniced on error ",
                m.as_str(),
            ),
        }
    }
}

/// The state of the graphical front end.
pub struct AppState {
    pub is_searching: bool,
    pub initializing_depy: bool,
    pub is_cleaning_depy: bool,
    pub is_uninstalled: bool,
    pub search_term: String,
    pub last_search_term: String,
    pub package_list: Vec<InstalledPackageWrapper>,
    pub no_packages_found: bool,
    pub installed_packages: Vec<Package>,
    pub cur_window: WindowSection,
    pub add_bucket_name_field: String,
    pub add_bucket_url_field: String,
    pub bucket_list: Vec<(String, String)>,
    pub error_message: Option<String>,
}

/// A command the front end reacts to.
pub enum AppCommand {
    /// A search ended with these results.
    FinishedSearch(Vec<InstalledPackageWrapper>),
    /// A search failed with this message.
    FailedSearch(String),
    /// Add this package to the packages to install.
    AddPackage(Package),
    /// Remove this package from the packages to install.
    RemovePackage(Package),
    /// An installation ended.
    FinishedInstall,
    /// An installation failed with this message.
    FailedInstall(String),
    /// Add the bucket named in the bucket fields.
    AddBucket,
    /// Remove the bucket named in the bucket name field.
    RemoveBucket,
    /// The buckets were listed anew.
    UpdateBuckets(Vec<(String, String)>),
    /// Start up: load the packages of `./depy.json`, then set up depy.
    Initialize,
    /// The packages of `./depy.json` were loaded.
    InstalledPackagesLoaded(Vec<Package>),
    /// Setting up depy ended.
    FinishedInitialize,
    /// Uninstall depy's packages.
    CleanDepy,
    /// Uninstall depy.
    UninstallDepy,
    /// Uninstalling depy's packages ended.
    FinishedClean,
}

/// Background work the front end is asked to start.
pub enum AppAction {
    /// Add a bucket: its name and url.
    AddBucket(String, String),
    /// Remove a bucket: its name.
    RemoveBucket(String),
    /// Load the packages of `./depy.json`, if it exists.
    LoadInstalledPackages,
    /// Set up depy.
    InitDepy,
    /// Uninstall depy's packages.
    CleanDepy,
    /// Uninstall depy.
    UninstallDepy,
}

impl InstalledPackageWrapper {
    /// Sets the version of the package, as the version field does while the user
    /// chooses one.
    pub fn set_version(&mut self, version: String)
        ensures
            final(self).package.version == version,
            final(self).package.name == old(self).package.name,
            final(self).package.bucket_name == old(self).package.bucket_name,
            final(self).package.bucket_url == old(self).package.bucket_url,
            final(self).visual_package_state == old(self).visual_package_state,
    {
        self.package.version = version;
    }

    /// A click on the package's button. Offering to add it, the click asks for a
    /// version first (and sends nothing); with a version chosen, it sends the
    /// package to be added; offering removal, it sends the package to be removed.
    pub fn click(&mut self) -> (res: Option<AppCommand>)
        ensures
            final(self).package == old(self).package,
            match old(self).visual_package_state {
                InstalledPackageState::AddPackage => {
                    &&& final(self).visual_package_state == InstalledPackageState::SelectVersion
                    &&& res is None
                },
                InstalledPackageState::SelectVersion => {
                    &&& final(self).visual_package_state == old(self).visual_package_state
                    &&& res == Some(AppCommand::AddPackage(old(self).package))
                },
                InstalledPackageState::Remove => {
                    &&& final(self).visual_package_state == old(self).visual_package_state
                    &&& res == Some(AppCommand::RemovePackage(old(self).package))
                },
            },
    {
        match self.visual_package_state {
            InstalledPackageState::AddPackage => {
                self.visual_package_state = InstalledPackageState::SelectVersion;
                None
            },
            InstalledPackageState::SelectVersion => Some(AppCommand::AddPackage(self.package.clone())),
            InstalledPackageState::Remove => Some(AppCommand::RemovePackage(self.package.clone())),
        }
    }
}

/// `pkg` names the same program as one of `ps`.
pub open spec fn contains_package(ps: Seq<Package>, pkg: Package) -> bool {
    exists|i: int| 0 <= i < ps.len() && same_package(#[trigger] ps[i], pkg)
}

/// The index of the first search result for the same program as `pkg`, if any.
pub open spec fn first_result_for(list: Seq<InstalledPackageWrapper>, pkg: Package) -> Option<int> {
    if exists|i: int| 0 <= i < list.len() && same_package(#[trigger] list[i].package, pkg) {
        Some(
            choose|i: int|
                0 <= i < list.len() && same_package(list[i].package, pkg) && forall|k: int|
                    0 <= k < i ==> !same_package(#[trigger] list[k].package, pkg),
        )
    } else {
        None
    }
}

/// `list` with the button of the first result for `pkg` set to `state`.
pub open spec fn mark_first(
    list: Seq<InstalledPackageWrapper>,
    pkg: Package,
    state: InstalledPackageState,
) -> Seq<InstalledPackageWrapper> {
    match first_result_for(list, pkg) {
        Some(i) => list.update(
            i,
            InstalledPackageWrapper { visual_package_state: state, package: list[i].package },
        ),
        None => list,
    }
}

/// The search results for the packages found: a package already chosen for
/// installation offers removal, any other offers adding.
pub open spec fn wrapped_results(found: Seq<Package>, installed: Seq<Package>) -> Seq<InstalledPackageWrapper> {
    found.map_values(
        |p: Package|
            InstalledPackageWrapper {
                visual_package_state: if contains_package(installed, p) {
                    InstalledPackageState::Remove
                } else {
                    InstalledPackageState::AddPackage
                },
                package: p,
            },
    )
}

/// Whether `pkg` names the same program as one of `ps`.
pub fn has_package(ps: &Vec<Package>, pkg: &Package) -> (res: bool)
    ensures
        res == contains_package(ps@, *pkg),
{
    let mut i: usize = 0;
    while i < ps.len()
        invariant
            i <= ps@.len(),
            forall|k: int| 0 <= k < i ==> !same_package(#[trigger] ps@[k], *pkg),
        decreases ps.len() - i,
    {
        if ps[i].eq(pkg) {
            return true;
        }
        i = i + 1;
    }
    false
}

/// The search results for the packages found: a package already chosen for
/// installation offers removal, any other offers adding.
pub fn wrap_search_results(found: Vec<Package>, installed: &Vec<Package>) -> (res: Vec<
    InstalledPackageWrapper,
>)
    ensures
        res@ == wrapped_results(found@, installed@),
{
    let ghost input = found@;
    let mut rest = found;
    let mut out: Vec<InstalledPackageWrapper> = Vec::new();
    let mut i: usize = 0;
    let n = rest.len();
    assert(input.skip(0) =~= input);
    while rest.len() > 0
        invariant
            n == input.len(),
            i + rest@.len() == n,
            rest@ == input.skip(i as int),
            out@ == wrapped_results(input.take(i as int), installed@),
        decreases rest.len(),
    {
        let p = rest.remove(0);
        assert(p == input[i as int]);
        assert(rest@ =~= input.skip(i + 1));
        let state = if has_package(installed, &p) {
            InstalledPackageState::Remove
        } else {
            InstalledPackageState::AddPackage
        };
        out.push(InstalledPackageWrapper { visual_package_state: state, package: p });
        i = i + 1;
        assert(out@ =~= wrapped_results(input.take(i as int), installed@));
    }
    assert(input.take(n as int) =~= input);
    out
}

/// Sets the button of the first search result for `pkg` to `state`.
fn mark_first_result(list: &mut Vec<InstalledPackageWrapper>, pkg: &Package, state: InstalledPackageState)
    ensures
        final(list)@ == mark_first(old(list)@, *pkg, state),
{
    let mut i: usize = 0;
    while i < list.len()
        invariant
            list@ == old(list)@,
            i <= list@.len(),
            forall|k: int| 0 <= k < i ==> !same_package(#[trigger] list@[k].package, *pkg),
        decreases list.len() - i,
    {
        if list[i].package.eq(pkg) {
            let p = list[i].package.clone();
            proof {
                let j = first_result_for(list@, *pkg)->0;
                assert(same_package(list@[i as int].package, *pkg));
                assert(j == i as int) by {
                    if j < i {
                    } else if j > i {
                    }
                }
            }
            list.set(i, InstalledPackageWrapper { visual_package_state: state, package: p });
            return;
        }
        i = i + 1;
    }
}

/// `installed` without the packages for the same program as `pkg`.
pub open spec fn without_package(installed: Seq<Package>, pkg: Package) -> Seq<Package> {
    installed.filter(|p: Package| !same_package(p, pkg))
}

/// Keeps the packages that are not for the same program as `pkg`, in order.
fn remove_package(installed: &mut Vec<Package>, pkg: &Package)
    ensures
        final(installed)@ == without_package(old(installed)@, *pkg),
{
    let ghost input = installed@;
    let mut kept: Vec<Package> = Vec::new();
    let mut i: usize = 0;
    assert(input.take(0) =~= Seq::<Package>::empty());
    while i < installed.len()
        invariant
            installed@ == input,
            i <= input.len(),
            kept@ == without_package(input.take(i as int), *pkg),
        decreases installed.len() - i,
    {
        assert(input.take(i + 1).drop_last() =~= input.take(i as int));
        reveal_with_fuel(Seq::<_>::filter, 1);
        if !installed[i].eq(pkg) {
            kept.push(installed[i].clone());
        }
        i = i + 1;
    }
    assert(input.take(i as int) =~= input);
    *installed = kept;
}

proof fn lemma_filter_keeps_all(s: Seq<Package>, pkg: Package)
    requires
        !contains_package(s, pkg),
    ensures
        without_package(s, pkg) == s,
    decreases s.len(),
{
    if s.len() > 0 {
        let u = s.drop_last();
        assert(!contains_package(u, pkg)) by {
            if contains_package(u, pkg) {
                let k = choose|k: int| 0 <= k < u.len() && same_package(#[trigger] u[k], pkg);
                assert(s[k] == u[k]);
            }
        }
        lemma_filter_keeps_all(u, pkg);
        assert(u.push(s.last()) =~= s);
        u.lemma_filter_push(s.last(), |p: Package| !same_package(p, pkg));
        assert(!same_package(s[s.len() - 1], pkg));
    }
}

/// Removing a package keeps every package for another program, in order: the
/// packages of a list are removed part by part, each part on its own, and a
/// package for another program is still there afterwards, wherever it stood;
/// what remains holds no package for the removed program and nothing new.
pub proof fn removing_keeps_the_other_programs(a: Seq<Package>, b: Seq<Package>, pkg: Package)
    ensures
        without_package(a + b, pkg) == without_package(a, pkg) + without_package(b, pkg),
        forall|i: int|
            0 <= i < a.len() && !same_package(a[i], pkg) ==> #[trigger] without_package(
                a,
                pkg,
            ).contains(a[i]),
        forall|k: int|
            0 <= k < without_package(a, pkg).len() ==> !same_package(
                #[trigger] without_package(a, pkg)[k],
                pkg,
            ) && a.contains(without_package(a, pkg)[k]),
{
    let pred = |p: Package| !same_package(p, pkg);
    Seq::filter_distributes_over_add(a, b, pred);
    assert forall|i: int| 0 <= i < a.len() && !same_package(a[i], pkg) implies #[trigger] without_package(
        a,
        pkg,
    ).contains(a[i]) by {
        a.lemma_filter_contains(pred, i);
    }
    assert forall|k: int| 0 <= k < without_package(a, pkg).len() implies !same_package(
        #[trigger] without_package(a, pkg)[k],
        pkg,
    ) && a.contains(without_package(a, pkg)[k]) by {
        a.lemma_filter_pred(pred, k);
        a.lemma_filter_contains_rev(pred, without_package(a, pkg)[k]);
    }
}

/// Removing a package that was just added to packages that held no package for
/// the same program gives those packages back.
pub proof fn removing_undoes_adding(installed: Seq<Package>, pkg: Package)
    requires
        !contains_package(installed, pkg),
    ensures
        without_package(installed.push(pkg), pkg) == installed,
{
    crate::package::same_package_is_equivalence(pkg, pkg, pkg);
    installed.lemma_filter_push(pkg, |p: Package| !same_package(p, pkg));
    lemma_filter_keeps_all(installed, pkg);
}

/// After adding a package, a package for the same program is among the packages;
/// after removing a package, none is.
pub proof fn adding_and_removing_packages(installed: Seq<Package>, pkg: Package)
    ensures
        contains_package(installed.push(pkg), pkg),
        !contains_package(without_package(installed, pkg), pkg),
{
    crate::package::same_package_is_equivalence(pkg, pkg, pkg);
    assert(installed.push(pkg)[installed.len() as int] == pkg);
    let w = without_package(installed, pkg);
    if contains_package(w, pkg) {
        let k = choose|k: int| 0 <= k < w.len() && same_package(#[trigger] w[k], pkg);
        installed.lemma_filter_pred(|p: Package| !same_package(p, pkg), k);
    }
}

/// `msg` added to the error message shown: it starts the message when there was
/// none, and is otherwise appended after `prefix`, followed by a line feed.
pub open spec fn appended_error(old_msg: Option<String>, prefix: Seq<char>, msg: Seq<char>) -> Seq<char> {
    match old_msg {
        None => msg,
        Some(m) => m@ + prefix + msg + "\n"@,
    }
}

/// The error message shown after `msg` was added to `current`.
fn appended_message(current: &Option<String>, prefix: &str, msg: &str) -> (res: String)
    ensures
        res@ == appended_error(*current, prefix@, msg@),
{
    match current {
        None => String::from_str(msg),
        Some(m) => {
            let a = join3(m.as_str(), prefix, msg);
            join2(a.as_str(), "\n")
        },
    }
}

/// The parts of the front end's state that a command may change.
#[derive(Clone, Copy, Debug, PartialEq, Eq)]
pub enum StatePart {
    /// Whether a search is running.
    Searching,
    /// The term of the last search and whether it found nothing.
    SearchOutcome,
    /// The search results shown.
    Results,
    /// The packages chosen for installation.
    Installed,
    /// The error message shown.
    Errors,
    /// The bucket list shown.
    Buckets,
    /// Whether depy is being set up.
    Initializing,
    /// Whether depy's packages are being uninstalled.
    Cleaning,
    /// Whether depy was uninstalled.
    Uninstalled,
}

/// `b` is `a` but for the parts in `parts`. The search term, the window shown and
/// the bucket fields are never changed by a command.
pub open spec fn changes_only(a: AppState, b: AppState, parts: Set<StatePart>) -> bool {
    &&& (!parts.contains(StatePart::Searching) ==> b.is_searching == a.is_searching)
    &&& (!parts.contains(StatePart::SearchOutcome) ==> b.last_search_term == a.last_search_term
        && b.no_packages_found == a.no_packages_found)
    &&& (!parts.contains(StatePart::Results) ==> b.package_list == a.package_list)
    &&& (!parts.contains(StatePart::Installed) ==> b.installed_packages == a.installed_packages)
    &&& (!parts.contains(StatePart::Errors) ==> b.error_message == a.error_message)
    &&& (!parts.contains(StatePart::Buckets) ==> b.bucket_list == a.bucket_list)
    &&& (!parts.contains(StatePart::Initializing) ==> b.initializing_depy == a.initializing_depy)
    &&& (!parts.contains(StatePart::Cleaning) ==> b.is_cleaning_depy == a.is_cleaning_depy)
    &&& (!parts.contains(StatePart::Uninstalled) ==> b.is_uninstalled == a.is_uninstalled)
    &&& b.search_term == a.search_term
    &&& b.cur_window == a.cur_window
    &&& b.add_bucket_name_field == a.add_bucket_name_field
    &&& b.add_bucket_url_field == a.add_bucket_url_field
}

/// The parts of the state that `cmd` may change.
pub open spec fn parts_changed_by(cmd: AppCommand) -> Set<StatePart> {
    match cmd {
        AppCommand::FinishedSearch(_) => set![
            StatePart::Searching,
            StatePart::SearchOutcome,
            StatePart::Results,
        ],
        AppCommand::FailedSearch(_) => set![
            StatePart::Searching,
            StatePart::SearchOutcome,
            StatePart::Results,
            StatePart::Errors,
        ],
        AppCommand::AddPackage(_) => set![StatePart::Installed, StatePart::Results],
        AppCommand::RemovePackage(_) => set![StatePart::Installed, StatePart::Results],
        AppCommand::FinishedInstall => Set::empty(),
        AppCommand::FailedInstall(_) => set![StatePart::Errors],
        AppCommand::AddBucket => Set::empty(),
        AppCommand::RemoveBucket => Set::empty(),
        AppCommand::UpdateBuckets(_) => set![StatePart::Buckets],
        AppCommand::Initialize => set![StatePart::Initializing],
        AppCommand::InstalledPackagesLoaded(_) => set![StatePart::Installed],
        AppCommand::FinishedInitialize => set![StatePart::Initializing],
        AppCommand::CleanDepy => set![StatePart::Cleaning],
        AppCommand::UninstallDepy => set![StatePart::Uninstalled],
        AppCommand::FinishedClean => set![StatePart::Cleaning],
    }
}

impl AppState {
    /// The state the front end starts in.
    pub fn default() -> (res: AppState)
        ensures
            !res.is_searching && !res.initializing_depy && !res.is_cleaning_depy
                && !res.is_uninstalled,
            res.search_term@.len() == 0 && res.last_search_term@.len() == 0,
            res.package_list@.len() == 0 && res.installed_packages@.len() == 0
                && res.bucket_list@.len() == 0,
            !res.no_packages_found,
            res.cur_window == WindowSection::PackageSearch,
            res.add_bucket_name_field@.len() == 0 && res.add_bucket_url_field@.len() == 0,
            res.error_message is None,
    {
        AppState {
            is_searching: false,
            initializing_depy: false,
            is_cleaning_depy: false,
            is_uninstalled: false,
            search_term: String::new(),
            last_search_term: String::new(),
            package_list: Vec::new(),
            no_packages_found: false,
            installed_packages: Vec::new(),
            cur_window: WindowSection::PackageSearch,
            add_bucket_name_field: String::new(),
            add_bucket_url_field: String::new(),
            bucket_list: Vec::new(),
            error_message: None,
        }
    }

    /// Starts searching: the search flag is raised.
    pub fn start_search(&mut self)
        ensures
            final(self).is_searching,
            changes_only(*old(self), *final(self), set![StatePart::Searching]),
    {
        self.is_searching = true;
    }

    /// Reacts to a command, and says which background work to start.
    pub fn handle_command(&mut self, cmd: AppCommand) -> (res: Vec<AppAction>)
        ensures
            changes_only(*old(self), *final(self), parts_changed_by(cmd)),
            match cmd {
                AppCommand::FinishedSearch(list) => {
                    &&& final(self).package_list == list
                    &&& final(self).no_packages_found == (list@.len() == 0)
                    &&& final(self).last_search_term@ == old(self).search_term@
                    &&& !final(self).is_searching
                    &&& res@.len() == 0
                },
                AppCommand::FailedSearch(msg) => {
                    &&& final(self).package_list@.len() == 0
                    &&& !final(self).no_packages_found
                    &&& final(self).last_search_term@ == old(self).search_term@
                    &&& !final(self).is_searching
                    &&& final(self).error_message matches Some(m) && m@ == appended_error(
                        old(self).error_message,
                        ""@,
                        msg@,
                    )
                    &&& res@.len() == 0
                },
                AppCommand::AddPackage(pkg) => {
                    &&& if contains_package(old(self).installed_packages@, pkg) {
                        &&& final(self).installed_packages == old(self).installed_packages
                        &&& final(self).package_list == old(self).package_list
                    } else {
                        &&& final(self).installed_packages@ == old(self).installed_packages@.push(pkg)
                        &&& final(self).package_list@ == mark_first(
                            old(self).package_list@,
                            pkg,
                            InstalledPackageState::Remove,
                        )
                    }
                    &&& res@.len() == 0
                },
                AppCommand::RemovePackage(pkg) => {
                    &&& final(self).installed_packages@ == without_package(
                        old(self).installed_packages@,
                        pkg,
                    )
                    &&& final(self).package_list@ == mark_first(
                        old(self).package_list@,
                        pkg,
                        InstalledPackageState::AddPackage,
                    )
                    &&& res@.len() == 0
                },
                AppCommand::FinishedInstall => {
                    &&& res@.len() == 0
                },
                AppCommand::FailedInstall(msg) => {
                    &&& final(self).error_message matches Some(m) && m@ == appended_error(
                        old(self).error_message,
                        "Got an error while installing: "@,
                        msg@,
                    )
                    &&& res@.len() == 0
                },
                AppCommand::AddBucket => {
                    &&& res@.len() == 1
                    &&& res@[0] matches AppAction::AddBucket(n, u) && n
                        == old(self).add_bucket_name_field && u == old(self).add_bucket_url_field
                },
                AppCommand::RemoveBucket => {
                    &&& res@.len() == 1
                    &&& res@[0] matches AppAction::RemoveBucket(n) && n
                        == old(self).add_bucket_name_field
                },
                AppCommand::UpdateBuckets(list) => {
                    &&& final(self).bucket_list == list
                    &&& res@.len() == 0
                },
                AppCommand::Initialize => {
                    &&& final(self).initializing_depy
                    &&& res@.len() == 2
                    &&& res@[0] is LoadInstalledPackages
                    &&& res@[1] is InitDepy
                },
                AppCommand::InstalledPackagesLoaded(ps) => {
                    &&& final(self).installed_packages == ps
                    &&& res@.len() == 0
                },
                AppCommand::FinishedInitialize => {
                    &&& !final(self).initializing_depy
                    &&& res@.len() == 0
                },
                AppCommand::CleanDepy => {
                    &&& final(self).is_cleaning_depy
                    &&& res@.len() == 1
                    &&& res@[0] is CleanDepy
                },
                AppCommand::UninstallDepy => {
                    &&& final(self).is_uninstalled
                    &&& res@.len() == 1
                    &&& res@[0] is UninstallDepy
                },
                AppCommand::FinishedClean => {
                    &&& !final(self).is_cleaning_depy
                    &&& res@.len() == 0
                },
            },
    {
        let mut actions: Vec<AppAction> = Vec::new();
        match cmd {
            AppCommand::FinishedSearch(list) => {
                self.no_packages_found = list.len() == 0;
                self.package_list = list;
                self.last_search_term = self.search_term.clone();
                self.is_searching = false;
            },
            AppCommand::FailedSearch(msg) => {
                self.package_list = Vec::new();
                self.no_packages_found = false;
                self.last_search_term = self.search_term.clone();
                self.is_searching = false;
                self.error_message = Some(appended_message(&self.error_message, "", msg.as_str()));
            },
            AppCommand::AddPackage(pkg) => {
                if !has_package(&self.installed_packages, &pkg) {
                    self.installed_packages.push(pkg.clone());
                    mark_first_result(&mut self.package_list, &pkg, InstalledPackageState::Remove);
                }
            },
            AppCommand::RemovePackage(pkg) => {
                remove_package(&mut self.installed_packages, &pkg);
                mark_first_result(&mut self.package_list, &pkg, InstalledPackageState::AddPackage);
            },
            AppCommand::FinishedInstall => {},
            AppCommand::FailedInstall(msg) => {
                self.error_message = Some(
                    appended_message(&self.error_message, "Got an error while installing: ", msg.as_str()),
                );
            },
            AppCommand::AddBucket => {
                actions.push(
                    AppAction::AddBucket(
                        self.add_bucket_name_field.clone(),
                        self.add_bucket_url_field.clone(),
                    ),
                );
            },
            AppCommand::RemoveBucket => {
                actions.push(AppAction::RemoveBucket(self.add_bucket_name_field.clone()));
            },
            AppCommand::UpdateBuckets(list) => {
                self.bucket_list = list;
            },
            AppCommand::Initialize => {
                self.initializing_depy = true;
                actions.push(AppAction::LoadInstalledPackages);
                actions.push(AppAction::InitDepy);
            },
            AppCommand::InstalledPackagesLoaded(ps) => {
                self.installed_packages = ps;
            },
            AppCommand::FinishedInitialize => {
                self.initializing_depy = false;
            },
            AppCommand::CleanDepy => {
                self.is_cleaning_depy = true;
                actions.push(AppAction::CleanDepy);
            },
            AppCommand::UninstallDepy => {
                self.is_uninstalled = true;
                actions.push(AppAction::UninstallDepy);
            },
            AppCommand::FinishedClean => {
                self.is_cleaning_depy = false;
            },
        }
        actions
    }
}

} // verus!
