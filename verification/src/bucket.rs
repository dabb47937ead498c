//! Scoop buckets: the git repositories that hold package manifests, and where
//! their manifests can be downloaded from.
use vstd::prelude::*;
use crate::text::{has_prefix, join2, replace_all, replaced, same_text};

verus! {

/// The repository url that a bucket name stands for: the three official bucket
/// names are shortcuts, anything else is taken as a url already.
pub open spec fn bucket_url_of(bucket_name: Seq<char>) -> Seq<char> {
    if bucket_name == "main"@ {
        "https://github.com/ScoopInstaller/Main"@
    } else if bucket_name == "extras"@ {
        "https://github.com/ScoopInstaller/Extras"@
    } else if bucket_name == "versions"@ {
        "https://github.com/ScoopInstaller/Versions"@
    } else {
        bucket_name
    }
}

/// The bucket is a GitHub repository (its url starts with `https://github.com`).
pub open spec fn is_github_bucket(bucket_name: Seq<char>) -> bool {
    has_prefix(bucket_url_of(bucket_name), "https://github.com"@)
}

/// Where the manifests of a GitHub bucket can be downloaded raw: `github.com`
/// becomes `raw.githubusercontent.com` and `/master/bucket` is appended.
pub open spec fn raw_bucket_url_of(bucket_name: Seq<char>) -> Seq<char> {
    replaced(bucket_url_of(bucket_name), "github.com"@, "raw.githubusercontent.com"@)
        + "/master/bucket"@
}

/// The repository url that a bucket name stands for (`main`, `extras` and
/// `versions` are the official scoop buckets).
pub fn resolve_bucket_name(bucket_name: &str) -> (res: &str)
    ensures
        res@ == bucket_url_of(bucket_name@),
{
    if same_text(bucket_name, "main") {
        "https://github.com/ScoopInstaller/Main"
    } else if same_text(bucket_name, "extras") {
        "https://github.com/ScoopInstaller/Extras"
    } else if same_text(bucket_name, "versions") {
        "https://github.com/ScoopInstaller/Versions"
    } else {
        bucket_name
    }
}

/// Whether the bucket is a GitHub repository, which `resolve_bucket_raw` needs.
pub fn is_github_bucket_name(bucket_name: &str) -> (res: bool)
    ensures
        res == is_github_bucket(bucket_name@),
{
    crate::text::starts_with(resolve_bucket_name(bucket_name), "https://github.com")
}

/// The url under which the manifests of a GitHub bucket can be downloaded raw.
pub fn resolve_bucket_raw(bucket_name: &str) -> (res: String)
    requires
        is_github_bucket(bucket_name@),
    ensures
        res@ == raw_bucket_url_of(bucket_name@),
{
    proof {
        reveal_strlit("github.com");
    }
    let url = resolve_bucket_name(bucket_name);
    let raw = replace_all(url, "github.com", "raw.githubusercontent.com");
    join2(raw.as_str(), "/master/bucket")
}

} // verus!
