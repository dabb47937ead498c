use depy::app_state::{
    has_package, wrap_search_results, AppAction, AppCommand, AppState, ControllerError,
    InstalledPackageState, InstalledPackageWrapper, WindowSection,
};
use depy::args::{Args, CliCommand};
use depy::package::Package;

fn package(bucket_name: &str, name: &str) -> Package {
    Package {
        bucket_url: "https://github.com/ScoopInstaller/Main".to_string(),
        bucket_name: bucket_name.to_string(),
        name: name.to_string(),
        version: "latest".to_string(),
    }
}

fn wrapped(p: Package, state: InstalledPackageState) -> InstalledPackageWrapper {
    InstalledPackageWrapper { visual_package_state: state, package: p }
}

fn names(list: &[InstalledPackageWrapper]) -> Vec<(String, InstalledPackageState)> {
    list.iter().map(|w| (w.package.name.clone(), w.visual_package_state)).collect()
}

fn args() -> Args {
    Args {
        verbose: false,
        no_init: false,
        dir_cleanup: false,
        only_initialize: false,
        force_uninstall: false,
        garbage_clean: false,
        path_clean: false,
        search: None,
        deep_search: None,
    }
}

#[test]
fn a_new_state_is_empty() {
    let s = AppState::default();
    assert!(!s.is_searching && !s.initializing_depy && !s.is_cleaning_depy && !s.is_uninstalled);
    assert!(s.package_list.is_empty() && s.installed_packages.is_empty());
    assert_eq!(s.cur_window, WindowSection::PackageSearch);
    assert_eq!(s.error_message, None);
}

#[test]
fn search_results_offer_add_or_remove() {
    let installed = vec![package("Main", "Python")];
    let found = vec![package("main", "python"), package("main", "git")];
    let res = wrap_search_results(found, &installed);
    assert_eq!(
        names(&res),
        vec![
            ("python".to_string(), InstalledPackageState::Remove),
            ("git".to_string(), InstalledPackageState::AddPackage)
        ]
    );
    assert!(has_package(&installed, &package("MAIN", "PYTHON")));
    assert!(!has_package(&installed, &package("extras", "python")));
}

#[test]
fn finished_and_failed_searches() {
    let mut s = AppState::default();
    s.search_term = "py".to_string();
    s.start_search();
    assert!(s.is_searching);
    let acts = s.handle_command(AppCommand::FinishedSearch(vec![]));
    assert!(acts.is_empty());
    assert!(!s.is_searching && s.no_packages_found);
    assert_eq!(s.last_search_term, "py");

    s.handle_command(AppCommand::FailedSearch("first".to_string()));
    assert_eq!(s.error_message, Some("first".to_string()));
    assert!(!s.no_packages_found);
    s.handle_command(AppCommand::FailedSearch("second".to_string()));
    assert_eq!(s.error_message, Some("firstsecond\n".to_string()));
    s.handle_command(AppCommand::FailedInstall("disk".to_string()));
    assert_eq!(
        s.error_message,
        Some("firstsecond\nGot an error while installing: disk\n".to_string())
    );
}

#[test]
fn adding_then_removing_a_package_restores_the_list() {
    let mut s = AppState::default();
    s.installed_packages = vec![package("main", "git")];
    s.handle_command(AppCommand::FinishedSearch(vec![
        wrapped(package("main", "python"), InstalledPackageState::AddPackage),
        wrapped(package("main", "git"), InstalledPackageState::Remove),
    ]));
    s.handle_command(AppCommand::AddPackage(package("main", "python")));
    assert_eq!(s.installed_packages.len(), 2);
    assert_eq!(s.installed_packages[1].name, "python");
    assert_eq!(names(&s.package_list)[0].1, InstalledPackageState::Remove);
    // adding the same program again changes nothing
    s.handle_command(AppCommand::AddPackage(package("MAIN", "Python")));
    assert_eq!(s.installed_packages.len(), 2);

    s.handle_command(AppCommand::RemovePackage(package("main", "PYTHON")));
    assert_eq!(s.installed_packages, vec![package("main", "git")]);
    assert_eq!(names(&s.package_list)[0].1, InstalledPackageState::AddPackage);
    assert_eq!(names(&s.package_list)[1].1, InstalledPackageState::Remove);
}

#[test]
fn commands_that_start_background_work() {
    let mut s = AppState::default();
    s.add_bucket_name_field = "extras".to_string();
    s.add_bucket_url_field = "https://github.com/ScoopInstaller/Extras".to_string();
    match s.handle_command(AppCommand::AddBucket).as_slice() {
        [AppAction::AddBucket(n, u)] => {
            assert_eq!(n, "extras");
            assert_eq!(u, "https://github.com/ScoopInstaller/Extras");
        }
        _ => panic!("expected one bucket to add"),
    }
    match s.handle_command(AppCommand::RemoveBucket).as_slice() {
        [AppAction::RemoveBucket(n)] => assert_eq!(n, "extras"),
        _ => panic!("expected one bucket to remove"),
    }
    let acts = s.handle_command(AppCommand::Initialize);
    assert!(s.initializing_depy);
    assert!(matches!(acts.as_slice(), [AppAction::LoadInstalledPackages, AppAction::InitDepy]));
    s.handle_command(AppCommand::FinishedInitialize);
    assert!(!s.initializing_depy);
    let acts = s.handle_command(AppCommand::CleanDepy);
    assert!(s.is_cleaning_depy && matches!(acts.as_slice(), [AppAction::CleanDepy]));
    s.handle_command(AppCommand::FinishedClean);
    assert!(!s.is_cleaning_depy);
    let acts = s.handle_command(AppCommand::UninstallDepy);
    assert!(s.is_uninstalled && matches!(acts.as_slice(), [AppAction::UninstallDepy]));
    s.handle_command(AppCommand::UpdateBuckets(vec![("main".to_string(), "url".to_string())]));
    assert_eq!(s.bucket_list, vec![("main".to_string(), "url".to_string())]);
    s.handle_command(AppCommand::InstalledPackagesLoaded(vec![package("main", "git")]));
    assert_eq!(s.installed_packages, vec![package("main", "git")]);
}

#[test]
fn controller_error_messages() {
    assert_eq!(
        ControllerError::BucketAddError("x".to_string()).message(),
        "Error: Thread paniced while adding a bucket! Paniced on error x"
    );
    assert_eq!(
        ControllerError::UninstallErrror("y".to_string()).message(),
        "Error: Thread paniced while uninstalling depy! Paniced on error y"
    );
    assert_eq!(
        ControllerError::ThreadSearchError("z".to_string()).message(),
        "Error: Thread paniced while searching for a packages! Paniced on error z"
    );
}

#[test]
fn command_line_choices() {
    let mut a = args();
    assert!(matches!(a.command(), CliCommand::Install));
    a.deep_search = Some("vim".to_string());
    assert!(matches!(a.command(), CliCommand::Search(q, true) if q == "vim"));
    a.search = Some("git".to_string());
    assert!(matches!(a.command(), CliCommand::Search(q, true) if q == "git"));
    a.deep_search = None;
    assert!(matches!(a.command(), CliCommand::Search(q, false) if q == "git"));
    a.path_clean = true;
    assert!(matches!(a.command(), CliCommand::CleanupPath));
    a.garbage_clean = true;
    a.force_uninstall = true;
    assert!(matches!(a.command(), CliCommand::CleanPackages(true)));
    a.dir_cleanup = true;
    assert!(matches!(a.command(), CliCommand::Uninstall(true)));
    a.only_initialize = true;
    assert!(matches!(a.command(), CliCommand::Initialize));
}

#[test]
fn package_buttons_choose_a_version_then_add() {
    let mut w = wrapped(package("main", "python"), InstalledPackageState::AddPackage);
    assert!(w.click().is_none());
    assert_eq!(w.visual_package_state, InstalledPackageState::SelectVersion);
    w.set_version("3.11.0".to_string());
    match w.click() {
        Some(AppCommand::AddPackage(p)) => {
            assert_eq!(p.name, "python");
            assert_eq!(p.version, "3.11.0");
        }
        _ => panic!("expected the package to be added"),
    }
    let mut r = wrapped(package("main", "git"), InstalledPackageState::Remove);
    match r.click() {
        Some(AppCommand::RemovePackage(p)) => assert_eq!(p.name, "git"),
        _ => panic!("expected the package to be removed"),
    }
    assert_eq!(r.visual_package_state, InstalledPackageState::Remove);
}
