use depy::arch::Arch;
use depy::bucket::{is_github_bucket_name, resolve_bucket_name, resolve_bucket_raw};
use depy::dir::{expand_vars, get_depy_dir_location, get_scoop_dir_location, get_version_location};
use depy::package::Package;
use depy::parsing::{EnvVar, Manifest};
use depy::shell::bucket::{
    add_bucket, add_bucket_command, bucket_origin_command, clean_buckets, clean_buckets_command,
    find_bucket_origin, parse_bucket, remove_bucket, remove_bucket_command,
};
use depy::shell::cleanup::{
    cleanup_path, cleanup_path_script, force_remove_command, packages_to_uninstall,
    uninstall_outcome, uninstall_script, UninstallStep,
};
use depy::shell::dir::{get_depy_scoop_location, init_depy_dir_plan};
use depy::shell::error::ShellError;
use depy::shell::install::{
    dedup_packages, generate_install_script, init_depy, init_depy_command, install_cleanly,
    install_cleanly_start, install_order, manifest_url, sort_by_name, InstallSource, InstallStep,
};
use depy::shell::venv::{make_shims, reset_script, venv_scripts};
use depy::side_menu::{label_color, HoverDetector};
use depy::text::{less_than, replace_all, split_lines};

fn package(bucket_name: &str, name: &str, version: &str) -> Package {
    Package {
        bucket_url: "main".to_string(),
        bucket_name: bucket_name.to_string(),
        name: name.to_string(),
        version: version.to_string(),
    }
}

fn manifest(name: &str, version: &str, paths: &[&str], vars: &[(&str, &str)]) -> Manifest {
    Manifest {
        version: version.to_string(),
        name: name.to_string(),
        url: format!("https://example/{name}.json"),
        added_paths: paths.iter().map(|p| p.to_string()).collect(),
        env_vars: vars.iter().map(|(n, v)| EnvVar::new(n.to_string(), v.to_string())).collect(),
    }
}

#[test]
fn install_script_for_version_and_latest() {
    assert_eq!(
        generate_install_script("neovim", "0.9.0"),
        "scoop config use_isolated_path DEPY_TEMP_VAL & scoop install neovim@0.9.0 & set DEPY_TEMP_VAL= & setx DEPY_TEMP_VAL %DEPY_TEMP_VAL% & scoop config rm use_isolated_path"
    );
    assert_eq!(
        generate_install_script("neovim", "latest"),
        "scoop config use_isolated_path DEPY_TEMP_VAL & scoop install neovim & set DEPY_TEMP_VAL= & setx DEPY_TEMP_VAL %DEPY_TEMP_VAL% & scoop config rm use_isolated_path"
    );
}

#[test]
fn init_depy_judges_scoop_update() {
    assert!(init_depy_command().contains("scoop update"));
    assert_eq!(init_depy(Ok("...\nScoop was updated successfully!\n".to_string())), Ok(()));
    assert_eq!(
        init_depy(Ok("offline".to_string())),
        Err(ShellError::UpdateError("offline".to_string()))
    );
    assert_eq!(
        init_depy(Err(ShellError::ExecutionError("no scoop".to_string()))),
        Err(ShellError::InitializeError(
            "Error: Couldn't execute a command!\nGot error: no scoop".to_string()
        ))
    );
}

#[test]
fn install_tries_url_then_bucket() {
    let m = manifest("neovim", "0.9.0", &[], &[]);
    match install_cleanly_start(&m) {
        InstallStep::Run(InstallSource::Url, script) => {
            assert_eq!(script, generate_install_script("https://example/neovim.json", "0.9.0"))
        }
        _ => panic!("expected a run from the url"),
    }
    let ok = "Installing 'neovim' (0.9.0)\r\n'neovim' (0.9.0) was installed successfully!\r\n";
    match install_cleanly(&m, InstallSource::Url, Ok(ok.to_string())) {
        InstallStep::Done(Ok(out)) => assert_eq!(out, ok),
        _ => panic!("expected success"),
    }
    match install_cleanly(&m, InstallSource::Url, Ok("nothing".to_string())) {
        InstallStep::Run(InstallSource::Bucket, script) => {
            assert_eq!(script, generate_install_script("neovim", "0.9.0"))
        }
        _ => panic!("expected a retry from the buckets"),
    }
    match install_cleanly(&m, InstallSource::Bucket, Ok("nothing".to_string())) {
        InstallStep::Done(Err(e)) => assert_eq!(
            e,
            ShellError::SingleInstallError("nothing".to_string(), "neovim".to_string())
        ),
        _ => panic!("expected the error of the second attempt"),
    }
    let failed = Err(ShellError::ExecutionError("boom".to_string()));
    match install_cleanly(&m, InstallSource::Bucket, failed) {
        InstallStep::Done(Err(e)) => assert_eq!(e, ShellError::ExecutionError("boom".to_string())),
        _ => panic!("expected the run error"),
    }
    // the name and the success text must be on the same line
    let split = "neovim\nwas installed successfully!\n";
    match install_cleanly(&m, InstallSource::Bucket, Ok(split.to_string())) {
        InstallStep::Done(Err(_)) => {}
        _ => panic!("expected a failure"),
    }
    match install_cleanly(&m, InstallSource::Bucket, Ok("'neovim' is already installed".to_string())) {
        InstallStep::Done(Ok(_)) => {}
        _ => panic!("expected success"),
    }
}

#[test]
fn bucket_commands_and_outcomes() {
    assert_eq!(clean_buckets_command(), "scoop bucket rm *");
    assert_eq!(clean_buckets(Ok(String::new())), Ok(()));
    assert_eq!(
        clean_buckets(Err(ShellError::ExecutionError("x".to_string()))),
        Err(ShellError::CleanBucketError("Error: Couldn't execute a command!\nGot error: x".to_string()))
    );
    assert_eq!(
        add_bucket_command("https://github.com/a/b", "b"),
        "scoop bucket add b https://github.com/a/b"
    );
    assert_eq!(add_bucket("u", "b", Ok("The b bucket was added successfully.".to_string())), Ok(()));
    assert_eq!(add_bucket("u", "b", Ok("WARN The 'b' bucket already exists.".to_string())), Ok(()));
    assert_eq!(
        add_bucket("u", "b", Ok("fatal".to_string())),
        Err(ShellError::AddBucketError("b".to_string(), "u".to_string(), "fatal".to_string()))
    );
    assert_eq!(remove_bucket_command("b"), "scoop bucket rm b");
    assert_eq!(remove_bucket("b", Ok("The b bucket was removed successfully.".to_string())), Ok(()));
    assert_eq!(
        remove_bucket("b", Ok("no".to_string())),
        Err(ShellError::RemoveBucketError("b".to_string(), "no".to_string()))
    );
    assert_eq!(
        ShellError::RemoveBucketError("b".to_string(), "no".to_string()).message(),
        "Error: Couldn't remove bucket name: b.\nGot errorno!"
    );
}

#[test]
fn bucket_names_resolve_to_raw_urls() {
    assert_eq!(resolve_bucket_name("main"), "https://github.com/ScoopInstaller/Main");
    assert_eq!(resolve_bucket_name("extras"), "https://github.com/ScoopInstaller/Extras");
    assert_eq!(resolve_bucket_name("versions"), "https://github.com/ScoopInstaller/Versions");
    assert_eq!(resolve_bucket_name("https://github.com/me/b"), "https://github.com/me/b");
    assert_eq!(
        resolve_bucket_raw("main"),
        "https://raw.githubusercontent.com/ScoopInstaller/Main/master/bucket"
    );
    assert_eq!(parse_bucket("https://github.com/me/b"), "https://raw.githubusercontent.com/me/b/master/bucket");
    assert!(is_github_bucket_name("versions"));
    assert!(!is_github_bucket_name("https://gitlab.com/me/b"));
    let p = package("main", "python", "3.11.0");
    assert_eq!(
        manifest_url(&p),
        "https://raw.githubusercontent.com/ScoopInstaller/Main/master/bucket/python.json"
    );
}

#[test]
fn directory_locations() {
    assert_eq!(get_depy_dir_location("C:\\Users\\me"), "C:\\Users\\me\\depy\\scoop");
    assert_eq!(get_scoop_dir_location("C:\\Users\\me"), "C:\\Users\\me\\scoop");
    assert_eq!(
        get_version_location("C:\\U", "python", "3.11.0"),
        "C:\\U\\depy\\scoop\\apps\\python\\3.11.0"
    );
    assert_eq!(get_depy_scoop_location(None), Err(ShellError::MissingUserProfileError));
    let plan = init_depy_dir_plan(Some("C:\\U")).unwrap();
    assert_eq!(
        plan.folders,
        vec![
            "C:\\U\\depy\\scoop\\buckets".to_string(),
            "C:\\U\\depy\\scoop\\shims".to_string(),
            "C:\\U\\depy\\scoop\\apps".to_string()
        ]
    );
    assert_eq!(plan.scoop_source, "C:\\U\\scoop\\apps\\scoop");
    assert_eq!(plan.scoop_target, "C:\\U\\depy\\scoop\\apps\\scoop");
}

#[test]
fn variables_are_expanded() {
    assert_eq!(
        expand_vars("$dir\\lib;$dir\\bin", "jdk", "17", "C:\\U", Arch::X86_64),
        "C:\\U\\depy\\scoop\\apps\\jdk\\17\\lib;C:\\U\\depy\\scoop\\apps\\jdk\\17\\bin"
    );
    assert_eq!(expand_vars("lib-$architecture", "jdk", "17", "C:\\U", Arch::X86), "lib-32bit");
    assert_eq!(expand_vars("plain", "jdk", "17", "C:\\U", Arch::X86), "plain");
}

#[test]
fn uninstalling_packages() {
    let names = vec!["Scoop".to_string(), "git".to_string(), "scoop".to_string(), "7zip".to_string()];
    assert_eq!(packages_to_uninstall(names), vec!["git".to_string(), "7zip".to_string()]);
    assert_eq!(
        uninstall_script("git"),
        "scoop config use_isolated_path DEPY_TEMP_VAL & scoop uninstall git --purge & set DEPY_TEMP_VAL= & setx DEPY_TEMP_VAL %DEPY_TEMP_VAL% & scoop config rm use_isolated_path"
    );
    assert!(matches!(
        uninstall_outcome("git", false, "C:\\U", Ok("'git' was uninstalled.".to_string())),
        UninstallStep::Next
    ));
    assert!(matches!(
        uninstall_outcome("git", false, "C:\\U", Ok("'git' isn't installed.".to_string())),
        UninstallStep::Next
    ));
    match uninstall_outcome("git", true, "C:\\U", Ok("?".to_string())) {
        UninstallStep::ForceRemove(cmd) => assert_eq!(cmd, force_remove_command("C:\\U", "git")),
        _ => panic!("expected a forced removal"),
    }
    assert_eq!(force_remove_command("C:\\U", "git"), "rmdir /S /Q C:\\U\\depy\\scoop\\apps\\git");
    match uninstall_outcome("git", false, "C:\\U", Err(ShellError::ExecutionError("e".to_string()))) {
        UninstallStep::Fail(e) => assert_eq!(
            e,
            ShellError::PackageUninstallError(
                "git".to_string(),
                "Error: Couldn't execute a command!\nGot error: e".to_string()
            )
        ),
        _ => panic!("expected a failure"),
    }
}

#[test]
fn cleaning_up_the_path() {
    assert_eq!(
        cleanup_path_script(),
        "scoop config use_isolated_path DEPY_TEMP_VAL & set DEPY_TEMP_VAL= & setx DEPY_TEMP_VAL %DEPY_TEMP_VAL% & scoop config rm use_isolated_path"
    );
    let ok = "SUCCESS: Specified value was saved.\n'use_isolated_path' has been removed\n";
    assert_eq!(cleanup_path(Ok(ok.to_string())), Ok(()));
    assert_eq!(
        cleanup_path(Ok("SUCCESS: Specified value was saved.".to_string())),
        Err(ShellError::CleanupError("SUCCESS: Specified value was saved.".to_string()))
    );
}

#[test]
fn activation_scripts() {
    let ms = vec![
        manifest("python", "3.11.0", &["Scripts", "."], &[("PYTHONHOME", "$dir")]),
        manifest("git", "latest", &["cmd"], &[]),
    ];
    let s = venv_scripts(&ms, "C:\\U", Arch::X86_64, "C:\\proj\\.depyvenv\\localshims");
    let paths = "C:\\U\\depy\\scoop\\apps\\python\\3.11.0\\Scripts;C:\\U\\depy\\scoop\\apps\\python\\3.11.0\\.;C:\\U\\depy\\scoop\\apps\\git\\latest\\cmd;C:\\proj\\.depyvenv\\localshims;";
    assert_eq!(
        s.bat,
        format!(
            "@echo off & PROMPT (CURENTLY IN DEV SHELL) $P$G \nset \"PYTHONHOME=C:\\U\\depy\\scoop\\apps\\python\\3.11.0\"\nset PATH={paths}%PATH%\n"
        )
    );
    assert_eq!(
        s.ps,
        format!(
            "function global:prompt {{ return \"(CURENTLY IN DEV SHELL) \" + (Get-Location) + \"> \" }} $function:prompt = $function:prompt\nSet-Item -Path Env:'PYTHONHOME' -Value 'C:\\U\\depy\\scoop\\apps\\python\\3.11.0'\n$env:PATH = \"{paths}\" + $env:PATH\n"
        )
    );
    assert_eq!(
        reset_script("git", "latest"),
        "scoop config use_isolated_path DEPY_TEMP_VAL & scoop reset git & set DEPY_TEMP_VAL= & setx DEPY_TEMP_VAL %DEPY_TEMP_VAL% & scoop config rm use_isolated_path"
    );
    assert_eq!(
        make_shims("git", Err(ShellError::ExecutionError("x".to_string()))),
        Err(ShellError::MakeShimError(
            "git".to_string(),
            "Error: Couldn't execute a command!\nGot error: x".to_string()
        ))
    );
}

#[test]
fn install_order_sorts_and_drops_repeats() {
    let ps = vec![
        package("main", "python", "3.11.0"),
        package("extras", "firefox", "latest"),
        package("Main", "Python", "3.12.0"),
        package("main", "python", "3.9.0"),
        package("main", "git", "1"),
    ];
    let sorted = sort_by_name(ps.clone());
    let names: Vec<&str> = sorted.iter().map(|p| p.name.as_str()).collect();
    assert_eq!(names, vec!["Python", "firefox", "git", "python", "python"]);
    let versions: Vec<&str> = sorted.iter().map(|p| p.version.as_str()).collect();
    assert_eq!(versions, vec!["3.12.0", "latest", "1", "3.11.0", "3.9.0"]);

    let order = install_order(ps.clone());
    for p in &ps {
        assert!(order.iter().any(|q| q == p), "{} is left out", p.name);
    }
    let versions: Vec<&str> = order.iter().map(|p| p.version.as_str()).collect();
    assert_eq!(versions, vec!["3.12.0", "latest", "1", "3.11.0"]);
    let again = install_order(order.clone());
    let again_versions: Vec<&str> = again.iter().map(|p| p.version.as_str()).collect();
    assert_eq!(again_versions, versions);

    let d = dedup_packages(vec![package("a", "x", "1"), package("A", "X", "2"), package("a", "x", "3")]);
    assert_eq!(d.len(), 1);
    assert_eq!(d[0].version, "1");
}

#[test]
fn text_helpers() {
    assert_eq!(replace_all("a.github.com/github.com", "github.com", "x"), "a.x/x");
    assert_eq!(replace_all("aaa", "aa", "b"), "ba");
    assert_eq!(split_lines("a\r\nb\n\nc"), vec!["a", "b", "", "c"]);
    assert_eq!(split_lines("a\n"), vec!["a"]);
    assert_eq!(split_lines(""), Vec::<String>::new());
    assert_eq!(split_lines("a\rb\r"), vec!["a\rb\r"]);
    assert!(less_than("Zeta", "alpha"));
    assert!(less_than("ab", "abc"));
    assert!(!less_than("abc", "abc"));
}

#[test]
fn every_scoop_script_restores_the_path() {
    let prefix = "scoop config use_isolated_path DEPY_TEMP_VAL & ";
    let suffix = "set DEPY_TEMP_VAL= & setx DEPY_TEMP_VAL %DEPY_TEMP_VAL% & scoop config rm use_isolated_path";
    let scripts = vec![
        generate_install_script("https://example/python.json", "3.11.0"),
        generate_install_script("python", "latest"),
        reset_script("python", "3.11.0"),
        uninstall_script("python"),
        cleanup_path_script(),
    ];
    for script in scripts {
        assert!(script.starts_with(prefix), "{script}");
        assert!(script.ends_with(suffix), "{script}");
    }
}

#[test]
fn installing_from_the_buckets_always_ends() {
    let m = manifest("git", "latest", &[], &[]);
    for out in [Ok("nothing".to_string()), Err(ShellError::ExecutionError("x".to_string()))] {
        assert!(matches!(install_cleanly(&m, InstallSource::Bucket, out), InstallStep::Done(_)));
    }
}

#[test]
fn bucket_origins() {
    assert_eq!(
        bucket_origin_command("C:\\depy\\buckets\\main"),
        "git -C C:\\depy\\buckets\\main config remote.origin.url"
    );
    assert_eq!(
        find_bucket_origin("b", true, "  https://github.com/ScoopInstaller/Main\r\n", ""),
        Ok("https://github.com/ScoopInstaller/Main".to_string())
    );
    assert_eq!(
        find_bucket_origin("b", true, "\u{3000}\u{a0}a b\u{2028}\t", ""),
        Ok("a b".to_string())
    );
    assert_eq!(find_bucket_origin("b", true, " \n ", ""), Ok(String::new()));
    assert_eq!(
        find_bucket_origin("b", false, "", "fatal: not a git repository"),
        Err(ShellError::BucketUrlError("b".to_string(), "fatal: not a git repository".to_string()))
    );
}

#[test]
fn menu_entries_show_hovering() {
    let mut h = HoverDetector::new("entry");
    assert!(!h.is_hovering);
    assert!(!h.observe(true, false));
    assert!(h.is_hovering);
    assert!(!h.observe(false, false));
    assert!(!h.is_hovering);
    assert!(h.observe(false, true));
    assert!(h.is_hovering);
    assert_eq!(h.child, "entry");
    assert_eq!(label_color(Some(true), "text", "grey"), "grey");
    assert_eq!(label_color(Some(false), "text", "grey"), "text");
    assert_eq!(label_color(None, "text", "grey"), "text");
}
