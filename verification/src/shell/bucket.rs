//! Managing the buckets of the depy scoop installation and searching their
//! manifests.
use vstd::prelude::*;
use super::error::{ShellError, shell_error_text};
use crate::arch::Arch;
use crate::bucket::{is_github_bucket, raw_bucket_url_of, resolve_bucket_raw};
use crate::error::DepyError;
use crate::json::{JsonData, JsonValue, member, string_of_json};
use crate::package::Package;
use crate::parsing::error::{ParseError, ParseErrorView, parse_error_text};
use crate::parsing::parse_json::{query_bin, query_bin_fails, query_bin_outcome};
use crate::text::{contains, has_substring, has_suffix, join2, join3, strip_suffix, trim_text, trimmed};

verus! {

/// The command that removes every bucket of the depy scoop installation.
pub fn clean_buckets_command() -> (res: &'static str)
    ensures
        res@ == "scoop bucket rm *"@,
{
    "scoop bucket rm *"
}

/// Judges the run of `clean_buckets_command`: a failed run becomes
/// `CleanBucketError` with the failure's text.
pub fn clean_buckets(cmd_output: Result<String, ShellError>) -> (res: Result<(), ShellError>)
    ensures
        match cmd_output {
            Ok(_) => res is Ok,
            Err(e) => res matches Err(ShellError::CleanBucketError(m)) && m@ == shell_error_text(e),
        },
{
    match cmd_output {
        Ok(_) => Ok(()),
        Err(err) => Err(ShellError::CleanBucketError(err.message())),
    }
}

/// The command that adds a bucket: `scoop bucket add <name> <url>`.
pub fn add_bucket_command(bucket_url: &str, bucket_name: &str) -> (res: String)
    ensures
        res@ == "scoop bucket add "@ + bucket_name@ + " "@ + bucket_url@,
{
    let a = join3("scoop bucket add ", bucket_name, " ");
    join2(a.as_str(), bucket_url)
}

/// What scoop prints when it added a bucket.
pub open spec fn bucket_added_text(bucket_name: Seq<char>) -> Seq<char> {
    "The "@ + bucket_name + " bucket was added successfully"@
}

/// What scoop prints when a bucket to add is already there.
pub open spec fn bucket_exists_text(bucket_name: Seq<char>) -> Seq<char> {
    "The '"@ + bucket_name + "' bucket already exists"@
}

/// Judges the run of `add_bucket_command`: the bucket counts as added when scoop
/// reported that it was added or that it already exists.
pub fn add_bucket(bucket_url: &str, bucket_name: &str, cmd_output: Result<String, ShellError>) -> (res:
    Result<(), ShellError>)
    ensures
        match cmd_output {
            Err(e) => res matches Err(ShellError::AddBucketError(n, u, m)) && n@ == bucket_name@
                && u@ == bucket_url@ && m@ == shell_error_text(e),
            Ok(out) => if has_substring(out@, bucket_added_text(bucket_name@)) || has_substring(
                out@,
                bucket_exists_text(bucket_name@),
            ) {
                res is Ok
            } else {
                res matches Err(ShellError::AddBucketError(n, u, m)) && n@ == bucket_name@ && u@
                    == bucket_url@ && m@ == out@
            },
        },
{
    let out = match cmd_output {
        Ok(out) => out,
        Err(err) => {
            return Err(
                ShellError::AddBucketError(
                    String::from_str(bucket_name),
                    String::from_str(bucket_url),
                    err.message(),
                ),
            );
        },
    };
    let added = join3("The ", bucket_name, " bucket was added successfully");
    let exists = join3("The '", bucket_name, "' bucket already exists");
    if !contains(out.as_str(), added.as_str()) && !contains(out.as_str(), exists.as_str()) {
        return Err(
            ShellError::AddBucketError(String::from_str(bucket_name), String::from_str(bucket_url), out),
        );
    }
    Ok(())
}

/// The command that removes a bucket: `scoop bucket rm <name>`.
pub fn remove_bucket_command(bucket_name: &str) -> (res: String)
    ensures
        res@ == "scoop bucket rm "@ + bucket_name@,
{
    join2("scoop bucket rm ", bucket_name)
}

/// What scoop prints when it removed a bucket.
pub open spec fn bucket_removed_text(bucket_name: Seq<char>) -> Seq<char> {
    "The "@ + bucket_name + " bucket was removed successfully"@
}

/// Judges the run of `remove_bucket_command`: the bucket counts as removed when
/// scoop reported so.
pub fn remove_bucket(bucket_name: &str, cmd_output: Result<String, ShellError>) -> (res: Result<
    (),
    ShellError,
>)
    ensures
        match cmd_output {
            Err(e) => res matches Err(ShellError::RemoveBucketError(n, m)) && n@ == bucket_name@
                && m@ == shell_error_text(e),
            Ok(out) => if has_substring(out@, bucket_removed_text(bucket_name@)) {
                res is Ok
            } else {
                res matches Err(ShellError::RemoveBucketError(n, m)) && n@ == bucket_name@ && m@
                    == out@
            },
        },
{
    let out = match cmd_output {
        Ok(out) => out,
        Err(err) => {
            return Err(ShellError::RemoveBucketError(String::from_str(bucket_name), err.message()));
        },
    };
    let removed = join3("The ", bucket_name, " bucket was removed successfully");
    if !contains(out.as_str(), removed.as_str()) {
        return Err(ShellError::RemoveBucketError(String::from_str(bucket_name), out));
    }
    Ok(())
}

/// The command that prints the url a bucket was cloned from.
pub fn bucket_origin_command(bucket_path: &str) -> (res: String)
    ensures
        res@ == "git -C "@ + bucket_path@ + " config remote.origin.url"@,
{
    join3("git -C ", bucket_path, " config remote.origin.url")
}

/// Judges the run of `bucket_origin_command` for the bucket at `bucket_path`: a
/// failed run becomes `BucketUrlError` with what git wrote to its error stream; a
/// successful one gives the url git printed, without surrounding white space.
pub fn find_bucket_origin(bucket_path: &str, succeeded: bool, stdout: &str, stderr: &str) -> (res:
    Result<String, ShellError>)
    ensures
        succeeded ==> (res matches Ok(u) && u@ == trimmed(stdout@)),
        !succeeded ==> (res matches Err(ShellError::BucketUrlError(b, m)) && b@ == bucket_path@
            && m@ == stderr@),
{
    if !succeeded {
        return Err(ShellError::BucketUrlError(String::from_str(bucket_path), String::from_str(stderr)));
    }
    Ok(trim_text(stdout))
}

/// The url under which the manifests of a GitHub bucket can be downloaded raw.
pub fn parse_bucket(bucket_name: &str) -> (res: String)
    requires
        is_github_bucket(bucket_name@),
    ensures
        res@ == raw_bucket_url_of(bucket_name@),
{
    resolve_bucket_raw(bucket_name)
}

/// A manifest file of a bucket: its file name and, when the search read it, its
/// parsed content (`None` when it was not read or could not be read or parsed).
pub struct ManifestFile {
    pub file_name: String,
    pub content: Option<JsonValue>,
}

/// The package a manifest file stands for: its file name without `.json`.
pub open spec fn manifest_package_name(file_name: Seq<char>) -> Seq<char> {
    if has_suffix(file_name, ".json"@) {
        file_name.subrange(0, file_name.len() - ".json"@.len())
    } else {
        file_name
    }
}

/// What searching one manifest file gives.
pub enum FileOutcome {
    /// The file does not match, or it matches but could not be read.
    Skip,
    /// The file matches; the version its manifest names.
    Found(Seq<char>),
    /// The file matches but its manifest names no version.
    NoVersion,
    /// Searching the programs of the manifest failed with this error.
    BinError(ParseErrorView),
    /// Searching the programs of the manifest cannot finish.
    Stuck,
}

/// The version a manifest names, as a search outcome.
pub open spec fn version_outcome(content: JsonValue) -> FileOutcome {
    match member(content, "version"@) {
        Some(v) => match string_of_json(v) {
            Some(s) => FileOutcome::Found(s),
            None => FileOutcome::NoVersion,
        },
        None => FileOutcome::NoVersion,
    }
}

/// A manifest file matches when its package name contains the query; with a deep
/// search, also when one of the programs its manifest exposes has a name or
/// alias containing the query. A file that matches but was not read is skipped.
pub open spec fn file_outcome(f: ManifestFile, query: Seq<char>, deep_search: bool, arch: Arch) -> FileOutcome {
    if has_substring(manifest_package_name(f.file_name@), query) {
        match f.content {
            None => FileOutcome::Skip,
            Some(j) => version_outcome(j),
        }
    } else if deep_search {
        match f.content {
            None => FileOutcome::Skip,
            Some(j) => match query_bin_outcome(j, query, arch) {
                None => FileOutcome::Stuck,
                Some(Err(e)) => FileOutcome::BinError(e),
                Some(Ok(false)) => FileOutcome::Skip,
                Some(Ok(true)) => version_outcome(j),
            },
        }
    } else {
        FileOutcome::Skip
    }
}

/// A deep search finds at least what a plain search finds. For one manifest file:
/// whatever the plain search makes of it (other than skipping it), the deep search
/// makes the same. For a bucket: when both searches finish, every package the
/// plain search found is among those the deep search found.
pub proof fn deep_search_finds_what_plain_search_finds(
    files: Seq<ManifestFile>,
    query: Seq<char>,
    arch: Arch,
)
    ensures
        forall|i: int|
            0 <= i < files.len() && !(file_outcome(files[i], query, false, arch) is Skip) ==> #[trigger] file_outcome(
                files[i],
                query,
                true,
                arch,
            ) == file_outcome(files[i], query, false, arch),
        ({
            let plain = search_outcome(files, query, false, arch);
            let deep = search_outcome(files, query, true, arch);
            plain is Found && deep is Found ==> forall|k: int|
                0 <= k < plain->Found_0.len() ==> deep->Found_0.contains(
                    #[trigger] plain->Found_0[k],
                )
        }),
    decreases files.len(),
{
    if files.len() > 0 {
        let rest = files.drop_first();
        deep_search_finds_what_plain_search_finds(rest, query, arch);
        assert forall|i: int|
            0 <= i < files.len() && !(file_outcome(files[i], query, false, arch) is Skip) implies #[trigger] file_outcome(
                files[i],
                query,
                true,
                arch,
            ) == file_outcome(files[i], query, false, arch) by {
            if i > 0 {
                assert(files[i] == rest[i - 1]);
            }
        }
        let p0 = file_outcome(files[0], query, false, arch);
        let d0 = file_outcome(files[0], query, true, arch);
        let so = search_outcome(files, query, false, arch);
        let sd = search_outcome(files, query, true, arch);
        if so is Found && sd is Found {
            let plain = so->Found_0;
            let deep = sd->Found_0;
            let rp = search_outcome(rest, query, false, arch);
            let rd = search_outcome(rest, query, true, arch);
            assert(rd is Found);
            assert(rp is Found);
            let head = (manifest_package_name(files[0].file_name@), d0->Found_0);
            assert forall|k: int| 0 <= k < plain.len() implies deep.contains(#[trigger] plain[k]) by {
                if p0 is Found {
                    assert(d0 == p0);
                    assert(plain == seq![head] + rp->Found_0);
                    assert(deep == seq![head] + rd->Found_0);
                    if k == 0 {
                        assert(deep[0] == plain[k]);
                    } else {
                        assert(plain[k] == rp->Found_0[k - 1]);
                        let j = choose|j: int| 0 <= j < rd->Found_0.len() && rd->Found_0[j] == plain[k];
                        assert(deep[j + 1] == plain[k]);
                    }
                } else {
                    assert(plain == rp->Found_0);
                    assert(rp->Found_0[k] == plain[k]);
                    let j = choose|j: int| 0 <= j < rd->Found_0.len() && rd->Found_0[j] == plain[k];
                    if d0 is Found {
                        assert(deep == seq![head] + rd->Found_0);
                        assert(deep[j + 1] == plain[k]);
                    } else {
                        assert(deep == rd->Found_0);
                        assert(deep[j] == plain[k]);
                    }
                }
            }
        }
    }
}

/// What searching the manifest files of a bucket in order gives: the name and
/// version of each match, or the first failure (which ends the search).
pub enum SearchOutcome {
    Found(Seq<(Seq<char>, Seq<char>)>),
    NoVersion(Seq<char>),
    BinError(ParseErrorView),
    Stuck,
}

/// The search of a bucket's manifest files, one file after the other.
pub open spec fn search_outcome(files: Seq<ManifestFile>, query: Seq<char>, deep_search: bool, arch: Arch) -> SearchOutcome
    decreases files.len(),
{
    if files.len() == 0 {
        SearchOutcome::Found(seq![])
    } else {
        let rest = search_outcome(files.drop_first(), query, deep_search, arch);
        match file_outcome(files[0], query, deep_search, arch) {
            FileOutcome::Skip => rest,
            FileOutcome::Found(v) => match rest {
                SearchOutcome::Found(r) => SearchOutcome::Found(
                    seq![(manifest_package_name(files[0].file_name@), v)] + r,
                ),
                other => other,
            },
            FileOutcome::NoVersion => SearchOutcome::NoVersion(files[0].file_name@),
            FileOutcome::BinError(e) => SearchOutcome::BinError(e),
            FileOutcome::Stuck => SearchOutcome::Stuck,
        }
    }
}

/// The package name a manifest file stands for: its file name without `.json`.
pub fn package_name_of(file_name: &str) -> (res: String)
    ensures
        res@ == manifest_package_name(file_name@),
{
    proof {
        reveal_strlit(".json");
    }
    match strip_suffix(file_name, ".json") {
        Some(s) => s,
        None => String::from_str(file_name),
    }
}

/// Whether the search has to read a manifest file: when its package name contains
/// the query, and for a deep search always.
pub fn needs_manifest(file_name: &str, query: &str, deep_search: bool) -> (res: bool)
    ensures
        res == (has_substring(manifest_package_name(file_name@), query@) || deep_search),
{
    let name = package_name_of(file_name);
    contains(name.as_str(), query) || deep_search
}

/// The outcome of one manifest file, with `None` for a search that cannot finish.
fn file_outcome_exec(f: &ManifestFile, query: &str, deep_search: bool, arch: Arch) -> (res: Option<
    Result<Option<String>, DepyError>,
>)
    ensures
        match file_outcome(*f, query@, deep_search, arch) {
            FileOutcome::Skip => res == Some(Ok::<Option<String>, DepyError>(None)),
            FileOutcome::Found(v) => res matches Some(Ok(Some(s))) && s@ == v,
            FileOutcome::NoVersion => res matches Some(Err(DepyError::Shell(
                ShellError::ManifestParseError(n, m),
            ))) && n@ == f.file_name@ && m@ == parse_error_text(
                ParseErrorView::MissingVersionError,
            ),
            FileOutcome::BinError(e) => res matches Some(Err(DepyError::Parse(pe))) && pe@ == e,
            FileOutcome::Stuck => res is None,
        },
{
    let name = package_name_of(f.file_name.as_str());
    let matched = contains(name.as_str(), query);
    let content = match &f.content {
        None => {
            return Some(Ok(None));
        },
        Some(j) => j,
    };
    if !matched {
        if !deep_search {
            return Some(Ok(None));
        }
        if query_bin_fails(content, query, arch) {
            return None;
        }
        match query_bin(content, query, arch) {
            Err(e) => {
                return Some(Err(DepyError::Parse(e)));
            },
            Ok(false) => {
                return Some(Ok(None));
            },
            Ok(true) => {},
        }
    }
    match crate::parsing::parse_json::get_version(content) {
        Ok(v) => Some(Ok(Some(v))),
        Err(err) => {
            let msg = err.message();
            Some(
                Err(
                    DepyError::Shell(
                        ShellError::ManifestParseError(f.file_name.clone(), msg),
                    ),
                ),
            )
        },
    }
}

/// The packages that a search finds, as (name, version) pairs.
pub open spec fn found_view(ps: Seq<Package>) -> Seq<(Seq<char>, Seq<char>)> {
    ps.map_values(|p: Package| (p.name@, p.version@))
}

/// The search of a bucket's manifest files, with `None` for a search that cannot finish.
fn search_exec(
    query: &str,
    bucket_url: &str,
    bucket_name: &str,
    deep_search: bool,
    files: &Vec<ManifestFile>,
    arch: Arch,
) -> (res: Option<Result<Vec<Package>, DepyError>>)
    ensures
        match search_outcome(files@, query@, deep_search, arch) {
            SearchOutcome::Found(found) => res matches Some(Ok(ps)) && found_view(ps@) == found
                && forall|i: int|
                0 <= i < ps@.len() ==> (#[trigger] ps@[i]).bucket_url@ == bucket_url@
                    && ps@[i].bucket_name@ == bucket_name@,
            SearchOutcome::NoVersion(n) => res matches Some(Err(DepyError::Shell(
                ShellError::ManifestParseError(f, m),
            ))) && f@ == n && m@ == parse_error_text(ParseErrorView::MissingVersionError),
            SearchOutcome::BinError(e) => res matches Some(Err(DepyError::Parse(pe))) && pe@ == e,
            SearchOutcome::Stuck => res is None,
        },
{
    let mut out: Vec<Package> = Vec::new();
    let mut i: usize = 0;
    assert(files@.skip(0) =~= files@);
    while i < files.len()
        invariant
            i <= files@.len(),
            forall|k: int|
                0 <= k < out@.len() ==> (#[trigger] out@[k]).bucket_url@ == bucket_url@
                    && out@[k].bucket_name@ == bucket_name@,
            match search_outcome(files@.skip(i as int), query@, deep_search, arch) {
                SearchOutcome::Found(rest) => search_outcome(files@, query@, deep_search, arch)
                    == SearchOutcome::Found(found_view(out@) + rest),
                other => search_outcome(files@, query@, deep_search, arch) == other,
            },
        decreases files.len() - i,
    {
        let ghost rest = files@.skip(i as int);
        assert(rest[0] == files@[i as int]);
        assert(rest.drop_first() =~= files@.skip(i + 1));
        match file_outcome_exec(&files[i], query, deep_search, arch) {
            None => {
                return None;
            },
            Some(Err(e)) => {
                return Some(Err(e));
            },
            Some(Ok(None)) => {},
            Some(Ok(Some(version))) => {
                let ghost before = out@;
                let name = package_name_of(files[i].file_name.as_str());
                out.push(
                    Package {
                        bucket_url: String::from_str(bucket_url),
                        bucket_name: String::from_str(bucket_name),
                        name,
                        version,
                    },
                );
                proof {
                    assert(found_view(out@) =~= found_view(before) + seq![
                        (manifest_package_name(files@[i as int].file_name@), version@),
                    ]);
                    match search_outcome(files@.skip(i + 1), query@, deep_search, arch) {
                        SearchOutcome::Found(r) => {
                            assert(found_view(before) + (seq![
                                (manifest_package_name(files@[i as int].file_name@), version@),
                            ] + r) =~= found_view(out@) + r);
                        },
                        _ => {},
                    }
                }
            },
        }
        i = i + 1;
    }
    proof {
        assert(files@.skip(i as int) =~= Seq::<ManifestFile>::empty());
        assert(found_view(out@) + seq![] =~= found_view(out@));
    }
    Some(Ok(out))
}

/// Whether searching a bucket's manifest files cannot finish, because a deep search
/// would read a non-string `bin` element of a manifest as a string.
pub fn query_single_bucket_fails(
    query: &str,
    deep_search: bool,
    files: &Vec<ManifestFile>,
    arch: Arch,
) -> (res: bool)
    ensures
        res == (search_outcome(files@, query@, deep_search, arch) is Stuck),
{
    match search_exec(query, "", "", deep_search, files, arch) {
        None => true,
        Some(_) => false,
    }
}

/// The packages of one bucket that match `query`, in the order of its manifest
/// files. A file matches when its name without `.json` contains the query, or,
/// for a deep search, when a program its manifest exposes has a name or alias
/// containing the query; a matching file that could not be read is skipped. Each
/// package found gets the bucket's url and name and the version its manifest names.
pub fn query_single_bucket(
    query: &str,
    bucket_url: &str,
    bucket_name: &str,
    deep_search: bool,
    files: &Vec<ManifestFile>,
    arch: Arch,
) -> (res: Result<Vec<Package>, DepyError>)
    requires
        !(search_outcome(files@, query@, deep_search, arch) is Stuck),
    ensures
        match search_outcome(files@, query@, deep_search, arch) {
            SearchOutcome::Found(found) => res matches Ok(ps) && found_view(ps@) == found
                && forall|i: int|
                0 <= i < ps@.len() ==> (#[trigger] ps@[i]).bucket_url@ == bucket_url@
                    && ps@[i].bucket_name@ == bucket_name@,
            SearchOutcome::NoVersion(n) => res matches Err(DepyError::Shell(
                ShellError::ManifestParseError(f, m),
            )) && f@ == n && m@ == parse_error_text(ParseErrorView::MissingVersionError),
            SearchOutcome::BinError(e) => res matches Err(DepyError::Parse(pe)) && pe@ == e,
            SearchOutcome::Stuck => false,
        },
{
    match search_exec(query, bucket_url, bucket_name, deep_search, files, arch) {
        Some(r) => r,
        None => {
            proof {
                assert(false);
            }
            Ok(Vec::new())
        },
    }
}

} // verus!
