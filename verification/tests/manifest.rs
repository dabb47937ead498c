use depy::arch::Arch;
use depy::json::{JsonData, JsonValue};
use depy::parsing::parse_json::{json_file_outcome, read_manifest_json};
use depy::package::error::PackageError;
use depy::package::{multiple_packages_from_json, single_package_from_json, Package};
use depy::parse_json_manifest::{self, ParseJsonError};
use depy::parsing::error::ParseError;
use depy::parsing::parse_json::{
    get_env_paths, get_env_variables, get_version, query_bin, query_bin_fails,
};
use depy::parsing::{EnvVar, Manifest};
use depy::path::Path;
use depy::shell::bucket::{needs_manifest, package_name_of, query_single_bucket, ManifestFile};
use depy::shell::error::ShellError;
use depy::error::DepyError;

fn parse(text: &str) -> JsonValue {
    read_manifest_json("test.json", Ok(text.to_string())).unwrap()
}

/// Every architecture depy runs on: the manifest is checked for each of them.
fn all_arches() -> Vec<Arch> {
    vec![Arch::X86, Arch::X86_64, Arch::Aarch64]
}

const FULL_MANIFEST: &str = r###"
        {
            "version": "20.584",
            "bin":[
                "bin1",
                ["bin2","alias2"],
                ["bin3","alias3","arg3"]
            ],
            "env_set": {
                "env_var1": "val1",
                "env_var2": "val2"
            },
            "env_add_path" : [
                "path1",
                "path2\\random"
            ],
            "architecture" : {
                "64bit": {
                    "env_set": {"64bitenv_var2": "val2"},
                    "env_add_path" :["64bitpath1"],
                    "bin":[
                        "64bitbinarch1"
                    ]
                },
                "32bit":{
                    "env_set": {"32bitenv_var2": "val2"},
                    "env_add_path" :["32bitpath1"],
                    "bin":[
                        "32bitbinarch1"
                    ]
                },
                "arm64":{
                    "env_set": {"arm64env_var2": "val2"},
                    "env_add_path" :["arm64path1"],
                    "bin":[
                        "arm64binarch1"
                    ]
                }
            }
        }
        "###;

#[test]
fn correct_manifest_build() {
    for arch_value in all_arches() {
        check_manifest_build(arch_value);
    }
}

fn check_manifest_build(arch_value: Arch) {
    let body = parse(FULL_MANIFEST);
    let arch = arch_value.key();

    let tested_man = Manifest::from_str(
        FULL_MANIFEST,
        "pkg_name".to_string(),
        "url".to_string(),
        "20.584".to_string(),
        arch_value,
    )
    .unwrap();

    let added_paths = vec![
        "path1".to_string(),
        "path2\\random".to_string(),
        format!("{arch}path1"),
    ];

    let env_vars = vec![
        EnvVar::new("env_var1".to_string(), "val1".to_string()),
        EnvVar::new("env_var2".to_string(), "val2".to_string()),
        EnvVar::new(format!("{arch}env_var2"), "val2".to_string()),
    ];

    let correct = Manifest {
        version: "20.584".to_string(),
        name: "pkg_name".to_string(),
        url: "url".to_string(),
        added_paths,
        env_vars,
    };
    assert_eq!(correct, tested_man);

    let mut bin_paths = Path::bin_to_paths(body.get_member("bin").unwrap());
    let arch_bins = body
        .get_member("architecture")
        .unwrap()
        .get_member(arch)
        .unwrap()
        .get_member("bin")
        .unwrap();
    bin_paths.extend(Path::bin_to_paths(arch_bins));
    let expected = vec![
        Path::new("bin1".to_string(), None, None),
        Path::new("bin2".to_string(), Some("alias2".to_string()), None),
        Path::new("bin3".to_string(), Some("alias3".to_string()), Some("arg3".to_string())),
        Path::new(format!("{arch}binarch1"), None, None),
    ];
    assert_eq!(expected, bin_paths);
}

#[test]
fn bin_entry_with_several_arguments() {
    let v = parse(r#"["tool.exe", "tool", "--a", "--b"]"#);
    let p = Path::from_value(&v);
    assert_eq!(
        p,
        Path::new("tool.exe".to_string(), Some("tool".to_string()), Some("--a --b".to_string()))
    );
    let single = parse(r#""only.exe""#);
    assert_eq!(Path::bin_to_paths(&single), vec![Path::new("only.exe".to_string(), None, None)]);
}

const DEPY_JSON: &str = r#"
[
    {
        "name": "python",
        "version": "3.11.0",
        "bucket_url": "main",
        "bucket_name": "main"
    },
    {
        "name": "firefox",
        "version": "latest",
        "bucket_url": "extras",
        "bucket_name": "extras"
    }
]
"#;

#[test]
fn reads_packages_of_depy_json() {
    let packages = multiple_packages_from_json(&parse(DEPY_JSON)).unwrap();
    assert_eq!(packages.len(), 2);
    assert_eq!(packages[0].name, "python");
    assert_eq!(packages[0].version, "3.11.0");
    assert_eq!(packages[0].bucket_url, "main");
    assert_eq!(packages[0].bucket_name, "main");
    assert_eq!(packages[1].name, "firefox");
    assert_eq!(packages[1].version, "latest");
    assert_eq!(packages[1].bucket_url, "extras");
    assert_eq!(packages[1].bucket_name, "extras");
}

#[test]
fn package_errors_name_the_first_bad_member() {
    let cases = [
        (r#"5"#, PackageError::PackageStructureError),
        (r#"{"bucket_name":"m","name":"n","version":"v"}"#, PackageError::BucketUrlFormatError),
        (r#"{"bucket_url":1,"bucket_name":"m","name":"n","version":"v"}"#, PackageError::BucketUrlFormatError),
        (r#"{"bucket_url":"u","name":"n","version":"v"}"#, PackageError::BucketNameFormatError),
        (r#"{"bucket_url":"u","bucket_name":"m","version":"v"}"#, PackageError::NameFormatError),
        (r#"{"bucket_url":"u","bucket_name":"m","name":"n","version":null}"#, PackageError::VersionFormatError),
        (r#"{"version":3}"#, PackageError::BucketUrlFormatError),
    ];
    for (text, err) in cases {
        assert_eq!(single_package_from_json(&parse(text)).unwrap_err(), err);
    }
}

#[test]
fn depy_json_must_be_an_array() {
    assert_eq!(
        multiple_packages_from_json(&parse(r#"{"name":"x"}"#)).unwrap_err(),
        PackageError::PacakgeFormatError
    );
    let bad = r#"[{"bucket_url":"u","bucket_name":"m","name":"n","version":"v"}, {"name": 3}]"#;
    assert_eq!(
        multiple_packages_from_json(&parse(bad)).unwrap_err(),
        PackageError::BucketUrlFormatError
    );
    assert_eq!(multiple_packages_from_json(&parse("[]")).unwrap().len(), 0);
}

#[test]
fn package_error_messages() {
    assert_eq!(
        PackageError::PackageStructureError.message(),
        "Error: Invalid package structure!\nExpected each package to be an package_object"
    );
    assert_eq!(
        PackageError::PacakgeSaveError("disk full".to_string()).message(),
        "Error: Couldn't save packages to ./depy.json!\nGot errordisk full"
    );
}

#[test]
fn env_paths_join_top_level_and_architecture() {
    let body = parse(r#"{"env_add_path": "bin", "architecture": {"64bit": {"env_add_path": ["x"]}}}"#);
    let err = get_env_paths(&body, Arch::X86_64).unwrap_err();
    assert_eq!(
        err,
        ParseError::EnvPathFormatError(
            "Expected env_add_path to be a list of paths. Instead got \"bin\"".to_string()
        )
    );
    let body = parse(r#"{"env_add_path": ["a", 7]}"#);
    assert_eq!(
        get_env_paths(&body, Arch::X86).unwrap_err(),
        ParseError::EnvPathFormatError(
            "Expected env_add_path value to be string, instead found: 7".to_string()
        )
    );
    let body = parse(r#"{"env_add_path": null, "architecture": {"32bit": {"env_add_path": ["x", "y"]}}}"#);
    assert_eq!(get_env_paths(&body, Arch::X86).unwrap(), vec!["x".to_string(), "y".to_string()]);
    assert_eq!(get_env_paths(&body, Arch::X86_64).unwrap(), Vec::<String>::new());
}

#[test]
fn env_variables_must_be_strings() {
    let body = parse(r#"{"env_set": {"A": "1", "B": 2}}"#);
    let err = get_env_variables(&body, Arch::X86_64).unwrap_err();
    assert_eq!(
        err,
        ParseError::EnvVariableFormatError(
            "environemnt variables is supposed to be a string. Instead got (\"B\", Number(2))"
                .to_string()
        )
    );
    let body = parse(r#"{"env_set": ["A"]}"#);
    assert_eq!(
        EnvVar::from_value(body.get_member("env_set").unwrap()).unwrap_err(),
        ParseError::EnvVariableFormatError(
            "environemnt variables are supposed to be a dictionary/object. Instead got [\"A\"]"
                .to_string()
        )
    );
    let body = parse(r#"{"env_set": {"A": "1"}, "architecture": {"arm64": {"env_set": {"B": "2"}}}}"#);
    assert_eq!(
        get_env_variables(&body, Arch::Aarch64).unwrap(),
        vec![
            EnvVar::new("A".to_string(), "1".to_string()),
            EnvVar::new("B".to_string(), "2".to_string())
        ]
    );
}

#[test]
fn manifest_errors_become_create_errors() {
    let body = parse(r#"{"env_add_path": 1}"#);
    let err = Manifest::new(&body, "n".to_string(), "u".to_string(), "v".to_string(), Arch::X86)
        .unwrap_err();
    assert_eq!(
        err,
        ParseError::ManifestCreateError(
            "Error: Couldn't parse an env_add_path from a given json!\nFormat error was Expected env_add_path to be a list of paths. Instead got 1".to_string()
        )
    );
    let err = Manifest::from_parsed(
        Err("expected value at line 1 column 1".to_string()),
        "n".to_string(),
        "u".to_string(),
        "v".to_string(),
        Arch::X86,
    )
    .unwrap_err();
    assert_eq!(
        err.message(),
        "Error: Couldn't create a manifest from a given json!\nGot error expected value at line 1 column 1"
    );
}

#[test]
fn query_bin_searches_names_and_aliases() {
    let body = parse(FULL_MANIFEST);
    assert_eq!(query_bin(&body, "alias3", Arch::X86_64).unwrap(), true);
    assert_eq!(query_bin(&body, "64bitbin", Arch::X86_64).unwrap(), true);
    assert_eq!(query_bin(&body, "64bitbin", Arch::X86).unwrap(), false);
    assert_eq!(query_bin(&body, "nothing", Arch::X86).unwrap(), false);
    let bad = parse(r#"{"bin": 4}"#);
    assert_eq!(
        query_bin(&bad, "x", Arch::X86).unwrap_err(),
        ParseError::BinFormatError(
            "Expected bin attribute to be either a string or array, instead found: 4".to_string()
        )
    );
    let no_valid_entry = parse(r#"{"bin": [4, [5]]}"#);
    assert!(query_bin(&no_valid_entry, "x", Arch::X86).is_err());
    let stuck = parse(r#"{"bin": ["a", 4]}"#);
    assert!(query_bin_fails(&stuck, "zzz", Arch::X86));
    assert!(!query_bin_fails(&stuck, "a", Arch::X86));
    assert_eq!(query_bin(&stuck, "a", Arch::X86).unwrap(), true);
}

#[test]
fn version_of_manifest() {
    assert_eq!(get_version(&parse(r#"{"version": "1.2"}"#)).unwrap(), "1.2");
    assert_eq!(get_version(&parse(r#"{"version": 1}"#)).unwrap_err(), ParseError::MissingVersionError);
    assert_eq!(
        parse_json_manifest::get_version(&parse(r#"{}"#)).unwrap_err(),
        ParseJsonError::MissingVersionError
    );
}

#[test]
fn unknown_architecture_is_reported() {
    let body = parse(FULL_MANIFEST);
    assert_eq!(
        parse_json_manifest::find_all_added_paths(&body, None).unwrap_err(),
        ParseJsonError::ArchError
    );
    let bad = parse(r#"{"env_add_path": 3}"#);
    assert_eq!(
        parse_json_manifest::find_all_added_paths(&bad, None).unwrap_err(),
        ParseJsonError::EnvPathFormatError
    );
    assert_eq!(
        parse_json_manifest::get_env_variables(&body, None).unwrap_err(),
        ParseJsonError::ArchError
    );
    assert_eq!(parse_json_manifest::query_bin(&body, "bin1", None).unwrap(), true);
    assert_eq!(
        parse_json_manifest::query_bin(&body, "zzz", None).unwrap_err(),
        ParseJsonError::ArchError
    );
    assert_eq!(
        parse_json_manifest::find_all_added_paths(&body, Some(Arch::X86)).unwrap(),
        vec!["path1".to_string(), "path2\\random".to_string(), "32bitpath1".to_string()]
    );
    assert_eq!(Arch::from_target("x86_64"), Some(Arch::X86_64));
    assert_eq!(Arch::from_target("riscv64"), None);
    assert_eq!(ParseJsonError::ArchError.message(), "Error: Invalid system arch!");
}

fn manifest_file(name: &str, content: Option<&str>) -> ManifestFile {
    ManifestFile { file_name: name.to_string(), content: content.map(parse) }
}

#[test]
fn bucket_search_by_name_and_by_programs() {
    assert_eq!(package_name_of("neovim.json"), "neovim");
    assert_eq!(package_name_of("README"), "README");
    assert!(needs_manifest("neovim.json", "vim", false));
    assert!(!needs_manifest("git.json", "vim", false));
    assert!(needs_manifest("git.json", "vim", true));

    let files = vec![
        manifest_file("neovim.json", Some(r#"{"version": "0.9.0", "bin": "nvim.exe"}"#)),
        manifest_file("gvim.json", None),
        manifest_file("editor.json", Some(r#"{"version": "2", "bin": [["ed.exe", "vimlike"]]}"#)),
    ];
    let found = query_single_bucket("vim", "https://github.com/x/y", "y", false, &files, Arch::X86_64)
        .unwrap();
    assert_eq!(found.len(), 1);
    assert_eq!(found[0].name, "neovim");
    assert_eq!(found[0].version, "0.9.0");
    assert_eq!(found[0].bucket_url, "https://github.com/x/y");
    assert_eq!(found[0].bucket_name, "y");

    let deep = query_single_bucket("vim", "u", "b", true, &files, Arch::X86_64).unwrap();
    let names: Vec<&str> = deep.iter().map(|p| p.name.as_str()).collect();
    assert_eq!(names, vec!["neovim", "editor"]);

    let no_version = vec![manifest_file("vim.json", Some(r#"{"bin": "vim.exe"}"#))];
    let err = query_single_bucket("vim", "u", "b", false, &no_version, Arch::X86_64).unwrap_err();
    assert_eq!(
        err,
        DepyError::Shell(ShellError::ManifestParseError(
            "vim.json".to_string(),
            "Error: Couldn't find a version attribute".to_string()
        ))
    );
}

#[test]
fn package_equality_ignores_case() {
    let a = Package {
        bucket_url: "main".to_string(),
        bucket_name: "Main".to_string(),
        name: "Python".to_string(),
        version: "3".to_string(),
    };
    let b = Package {
        bucket_url: "other".to_string(),
        bucket_name: "main".to_string(),
        name: "python".to_string(),
        version: "4".to_string(),
    };
    assert!(a == b);
    assert!(!a.equal(&b));
    assert!(a.equal(&a.clone()));
}

#[test]
fn reading_json_text() {
    let v = parse(r#"{"a": [1, "x", null, true]}"#);
    match &v.data {
        JsonData::Object(members) => {
            assert_eq!(members.len(), 1);
            assert_eq!(members[0].0, "a");
            match &members[0].1.data {
                JsonData::Array(items) => {
                    assert_eq!(items.len(), 4);
                    assert!(matches!(items[0].data, JsonData::Number));
                    assert!(matches!(&items[1].data, JsonData::Str(s) if s == "x"));
                    assert!(matches!(items[2].data, JsonData::Null));
                    assert!(matches!(items[3].data, JsonData::Bool(true)));
                }
                _ => panic!("expected an array"),
            }
        }
        _ => panic!("expected an object"),
    }
    assert_eq!(v.text, r#"{"a":[1,"x",null,true]}"#);
    assert_eq!(v.debug, r#"Object {"a": Array [Number(1), String("x"), Null, Bool(true)]}"#);

    match read_manifest_json("depy.json", Ok("[1,".to_string())) {
        Err(ParseError::ManifestParseError(f, m)) => {
            assert_eq!(f, "depy.json");
            assert!(m.contains("line 1"), "{m}");
        }
        _ => panic!("expected a parse error"),
    }
    assert!(matches!(
        read_manifest_json("depy.json", Err("not found".to_string())),
        Err(ParseError::ManifestReadError(f, m)) if f == "depy.json" && m == "not found"
    ));
    assert!(matches!(
        json_file_outcome("m.json", Err("bad".to_string())),
        Err(ParseError::ManifestParseError(f, m)) if f == "m.json" && m == "bad"
    ));
    let err = Manifest::from_str("{", "n".to_string(), "u".to_string(), "v".to_string(), Arch::X86)
        .unwrap_err();
    assert!(matches!(err, ParseError::ManifestCreateError(_)));
}
