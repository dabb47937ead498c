//! Installing packages into the depy scoop installation.
use vstd::prelude::*;
use super::{isolated, isolated_path_script, lemma_pinned_command};
use super::error::{ShellError, shell_error_text};
use crate::bucket::{is_github_bucket, raw_bucket_url_of};
use crate::package::{Package, same_package, same_package_is_equivalence};
use crate::parsing::Manifest;
use crate::text::{
    contains, has_substring, join2, join3, less_than, lines_of, lines_of_ended_text_and_more,
    same_text, split_lines, text_lt, text_order_is_strict_total,
};

verus! {

/// The scoop command installing `identifier` (a package name or a manifest url) at
/// `version`; the version `latest` installs the newest one.
pub open spec fn install_command(identifier: Seq<char>, version: Seq<char>) -> Seq<char> {
    if version == "latest"@ {
        "scoop install "@ + identifier + " & "@
    } else {
        "scoop install "@ + identifier + "@"@ + version + " & "@
    }
}

/// The script that installs `identifier` at `version` without touching the PATH.
pub open spec fn install_script(identifier: Seq<char>, version: Seq<char>) -> Seq<char> {
    isolated(install_command(identifier, version))
}

/// Installing a pinned version names that version: for a version other than
/// `latest`, the script holds `<identifier>@<version>`, and scripts for two
/// different versions differ.
pub proof fn install_keeps_the_version(identifier: Seq<char>, v1: Seq<char>, v2: Seq<char>)
    requires
        v1 != "latest"@,
        v2 != "latest"@,
    ensures
        has_substring(install_script(identifier, v1), identifier + "@"@ + v1),
        v1 != v2 ==> install_script(identifier, v1) != install_script(identifier, v2),
{
    lemma_pinned_command("scoop install "@, identifier, v1, v2);
}

/// The script that installs `identifier` (a package name or a manifest url) at
/// `version` without touching the PATH.
pub fn generate_install_script(identifier: &str, version: &str) -> (res: String)
    ensures
        res@ == install_script(identifier@, version@),
{
    let cmd = if same_text(version, "latest") {
        join3("scoop install ", identifier, " & ")
    } else {
        let a = join3("scoop install ", identifier, "@");
        join3(a.as_str(), version, " & ")
    };
    isolated_path_script(cmd.as_str())
}

/// The command that sets up the depy scoop installation: adds the official
/// buckets, updates scoop and switches it to its development branch.
pub fn init_depy_command() -> (res: &'static str)
    ensures
        res@
            == "scoop bucket add main & scoop bucket add versions & scoop bucket add extras & scoop update & scoop config scoop_branch develop"@,
{
    "scoop bucket add main & scoop bucket add versions & scoop bucket add extras & scoop update & scoop config scoop_branch develop"
}

/// Judges the run of `init_depy_command`: a failed run becomes `InitializeError`,
/// and scoop must report that it was updated.
pub fn init_depy(cmd_output: Result<String, ShellError>) -> (res: Result<(), ShellError>)
    ensures
        match cmd_output {
            Err(e) => res matches Err(ShellError::InitializeError(m)) && m@ == shell_error_text(e),
            Ok(out) => if has_substring(out@, "Scoop was updated successfully!"@) {
                res is Ok
            } else {
                res matches Err(ShellError::UpdateError(m)) && m@ == out@
            },
        },
{
    let out = match cmd_output {
        Ok(out) => out,
        Err(err) => {
            return Err(ShellError::InitializeError(err.message()));
        },
    };
    if !contains(out.as_str(), "Scoop was updated successfully!") {
        return Err(ShellError::UpdateError(out));
    }
    Ok(())
}

/// A line of scoop's output that reports the package `name` as installed.
pub open spec fn install_reported(line: Seq<char>, name: Seq<char>) -> bool {
    has_substring(line, name) && (has_substring(line, "was installed successfully!"@)
        || has_substring(line, "is already installed"@))
}

/// Scoop's output reports the package `name` as installed on one of its lines.
pub open spec fn install_succeeded(output: Seq<char>, name: Seq<char>) -> bool {
    exists|i: int| 0 <= i < lines_of(output).len() && install_reported(#[trigger] lines_of(output)[i], name)
}

/// An installation counts as successful as soon as any line of scoop's output
/// names the package together with `was installed successfully!` or `is already
/// installed`, wherever that line stands; and a success stays a success when
/// further lines follow (such as those of the commands run after `scoop install`).
pub proof fn any_reporting_line_counts(output: Seq<char>, name: Seq<char>, i: int, more: Seq<char>)
    requires
        0 <= i < lines_of(output).len(),
        has_substring(lines_of(output)[i], name),
        has_substring(lines_of(output)[i], "was installed successfully!"@) || has_substring(
            lines_of(output)[i],
            "is already installed"@,
        ),
    ensures
        install_succeeded(output, name),
        output.len() > 0 && output.last() == '\n' ==> install_succeeded(output + more, name),
{
    assert(install_reported(lines_of(output)[i], name));
    if output.len() > 0 && output.last() == '\n' {
        lines_of_ended_text_and_more(output, more, seq![]);
        assert(lines_of(output + more)[i] == lines_of(output)[i]);
        assert(install_reported(lines_of(output + more)[i], name));
    }
}

/// Whether scoop's output reports the package `name` as installed on one of its lines.
fn install_was_reported(output: &str, name: &str) -> (res: bool)
    ensures
        res == install_succeeded(output@, name@),
{
    let lines = split_lines(output);
    let ghost ls = lines@.map_values(|l: String| l@);
    let mut i: usize = 0;
    while i < lines.len()
        invariant
            ls == lines@.map_values(|l: String| l@),
            ls == lines_of(output@),
            ls.len() == lines@.len(),
            i <= lines@.len(),
            forall|k: int| 0 <= k < i ==> !install_reported(#[trigger] ls[k], name@),
        decreases lines.len() - i,
    {
        assert(ls[i as int] == lines@[i as int]@);
        let line = lines[i].as_str();
        if contains(line, name) && (contains(line, "was installed successfully!") || contains(
            line,
            "is already installed",
        )) {
            assert(install_reported(ls[i as int], name@));
            return true;
        }
        i = i + 1;
    }
    false
}

/// Judges one installation attempt of the package `name`: a failed run stays as it
/// is, and otherwise scoop must report the package as installed on some line.
fn attempt_install(name: &str, cmd_output: Result<String, ShellError>) -> (res: Result<
    String,
    ShellError,
>)
    ensures
        match cmd_output {
            Err(_) => res == cmd_output,
            Ok(out) => if install_succeeded(out@, name@) {
                res == cmd_output
            } else {
                res matches Err(ShellError::SingleInstallError(o, n)) && o@ == out@ && n@ == name@
            },
        },
{
    let out = match cmd_output {
        Ok(out) => out,
        Err(err) => {
            return Err(err);
        },
    };
    if !install_was_reported(out.as_str(), name) {
        return Err(ShellError::SingleInstallError(out, String::from_str(name)));
    }
    Ok(out)
}

/// Where an installation attempt takes the package from: the manifest url, or
/// the buckets of the depy scoop installation.
#[derive(Clone, Copy, Debug, PartialEq, Eq)]
pub enum InstallSource {
    Url,
    Bucket,
}

/// The next thing to do while installing a package: run an installation script
/// (taking the package from the given source), or stop with the outcome (scoop's
/// output, or the error of the last attempt).
pub enum InstallStep {
    Run(InstallSource, String),
    Done(Result<String, ShellError>),
}

/// Installing a manifest's package starts with its manifest url.
pub fn install_cleanly_start(manifest: &Manifest) -> (res: InstallStep)
    ensures
        res matches InstallStep::Run(InstallSource::Url, script) && script@ == install_script(
            manifest.url@,
            manifest.version@,
        ),
{
    InstallStep::Run(
        InstallSource::Url,
        generate_install_script(manifest.url.as_str(), manifest.version.as_str()),
    )
}

/// The next step of installing a manifest's package after an attempt from
/// `source` gave `cmd_output`: a successful attempt ends the installation; a
/// failed attempt from the url is retried with the package name (from the
/// buckets); a failed attempt from the buckets ends it with that attempt's error.
/// So an installation runs at most two scripts: the url one, then the bucket one.
pub fn install_cleanly(
    manifest: &Manifest,
    source: InstallSource,
    cmd_output: Result<String, ShellError>,
) -> (res: InstallStep)
    ensures
        match cmd_output {
            Ok(out) if install_succeeded(out@, manifest.name@) => res == InstallStep::Done(
                cmd_output,
            ),
            _ => match source {
                InstallSource::Url => res matches InstallStep::Run(InstallSource::Bucket, script)
                    && script@ == install_script(manifest.name@, manifest.version@),
                InstallSource::Bucket => match cmd_output {
                    Err(_) => res == InstallStep::Done(cmd_output),
                    Ok(out) => res matches InstallStep::Done(Err(ShellError::SingleInstallError(
                        o,
                        n,
                    ))) && o@ == out@ && n@ == manifest.name@,
                },
            },
        },
        source == InstallSource::Bucket ==> res is Done,
        res matches InstallStep::Run(next, _) ==> source == InstallSource::Url && next
            == InstallSource::Bucket,
{
    let outcome = attempt_install(manifest.name.as_str(), cmd_output);
    match outcome {
        Ok(out) => InstallStep::Done(Ok(out)),
        Err(err) => match source {
            InstallSource::Url => InstallStep::Run(
                InstallSource::Bucket,
                generate_install_script(manifest.name.as_str(), manifest.version.as_str()),
            ),
            InstallSource::Bucket => InstallStep::Done(Err(err)),
        },
    }
}

/// The url a package's manifest is downloaded from:
/// `<raw bucket url>/<name>.json`.
pub open spec fn manifest_url_of(package: Package) -> Seq<char> {
    raw_bucket_url_of(package.bucket_url@) + "/"@ + package.name@ + ".json"@
}

/// The url a package's manifest is downloaded from.
pub fn manifest_url(package: &Package) -> (res: String)
    requires
        is_github_bucket(package.bucket_url@),
    ensures
        res@ == manifest_url_of(*package),
{
    let bucket_url = super::bucket::parse_bucket(package.bucket_url.as_str());
    let a = join3(bucket_url.as_str(), "/", package.name.as_str());
    join2(a.as_str(), ".json")
}

/// `x` inserted into `s` before the first element whose name comes after its own.
pub open spec fn insert_by_name(s: Seq<Package>, x: Package) -> Seq<Package>
    decreases s.len(),
{
    if s.len() == 0 {
        seq![x]
    } else if text_lt(x.name@, s[0].name@) {
        seq![x] + s
    } else {
        seq![s[0]] + insert_by_name(s.drop_first(), x)
    }
}

/// `s` sorted by name, packages with the same name keeping their order (a stable
/// sort, as `slice::sort` is).
pub open spec fn sorted_by_name(s: Seq<Package>) -> Seq<Package>
    decreases s.len(),
{
    if s.len() == 0 {
        seq![]
    } else {
        insert_by_name(sorted_by_name(s.drop_last()), s.last())
    }
}

/// The packages `kept` so far, followed by those of `s` that are kept: going
/// through `s` in order, a package is dropped when it names the same program as
/// the last package kept, as `Vec::dedup_by` with `==` does.
pub open spec fn dedup_from(s: Seq<Package>, kept: Seq<Package>) -> Seq<Package>
    decreases s.len(),
{
    if s.len() == 0 {
        kept
    } else if kept.len() > 0 && same_package(s[0], kept.last()) {
        dedup_from(s.drop_first(), kept)
    } else {
        dedup_from(s.drop_first(), kept.push(s[0]))
    }
}

/// `s` with every package dropped that names the same program as the package
/// kept just before it.
pub open spec fn deduplicated(s: Seq<Package>) -> Seq<Package> {
    dedup_from(s, seq![])
}

proof fn lemma_insert_at(s: Seq<Package>, x: Package, j: int)
    requires
        0 <= j <= s.len(),
        forall|k: int| 0 <= k < j ==> !text_lt(x.name@, #[trigger] s[k].name@),
        j < s.len() ==> text_lt(x.name@, s[j].name@),
    ensures
        insert_by_name(s, x) == s.insert(j, x),
    decreases s.len(),
{
    if s.len() == 0 {
        assert(s.insert(j, x) =~= seq![x]);
    } else if j == 0 {
        assert(s.insert(0, x) =~= seq![x] + s);
    } else {
        assert forall|k: int| 0 <= k < j - 1 implies !text_lt(
            x.name@,
            #[trigger] s.drop_first()[k].name@,
        ) by {
            assert(s.drop_first()[k] == s[k + 1]);
        }
        lemma_insert_at(s.drop_first(), x, j - 1);
        assert(seq![s[0]] + s.drop_first().insert(j - 1, x) =~= s.insert(j, x));
    }
}

/// No package of `s` has a name that comes before the name of a package earlier in `s`.
pub open spec fn name_sorted(s: Seq<Package>) -> bool {
    forall|i: int, j: int| 0 <= i < j < s.len() ==> !text_lt(#[trigger] s[j].name@, #[trigger] s[i].name@)
}

/// No two neighbouring packages of `s` name the same program.
pub open spec fn no_adjacent_same(s: Seq<Package>) -> bool {
    forall|i: int| 0 <= i < s.len() - 1 ==> !same_package(#[trigger] s[i], s[i + 1])
}

/// Where `insert_by_name` puts `x` in `s`.
pub open spec fn insert_pos(s: Seq<Package>, x: Package) -> int
    decreases s.len(),
{
    if s.len() == 0 {
        0
    } else if text_lt(x.name@, s[0].name@) {
        0
    } else {
        1 + insert_pos(s.drop_first(), x)
    }
}

proof fn lemma_insert_by_name_shape(s: Seq<Package>, x: Package)
    ensures
        0 <= insert_pos(s, x) <= s.len(),
        insert_by_name(s, x) == s.insert(insert_pos(s, x), x),
        forall|k: int| 0 <= k < insert_pos(s, x) ==> !text_lt(x.name@, #[trigger] s[k].name@),
        insert_pos(s, x) < s.len() ==> text_lt(x.name@, s[insert_pos(s, x)].name@),
    decreases s.len(),
{
    if s.len() == 0 {
        assert(s.insert(0, x) =~= seq![x]);
    } else if text_lt(x.name@, s[0].name@) {
        assert(s.insert(0, x) =~= seq![x] + s);
    } else {
        lemma_insert_by_name_shape(s.drop_first(), x);
        let p = insert_pos(s.drop_first(), x);
        assert(seq![s[0]] + s.drop_first().insert(p, x) =~= s.insert(p + 1, x));
        assert forall|k: int| 0 <= k < p + 1 implies !text_lt(x.name@, #[trigger] s[k].name@) by {
            if k > 0 {
                assert(s[k] == s.drop_first()[k - 1]);
            }
        }
        if p < s.drop_first().len() {
            assert(s[p + 1] == s.drop_first()[p]);
        }
    }
}

proof fn lemma_insert_keeps_sorted(s: Seq<Package>, x: Package)
    requires
        name_sorted(s),
    ensures
        name_sorted(insert_by_name(s, x)),
{
    lemma_insert_by_name_shape(s, x);
    let p = insert_pos(s, x);
    let r = s.insert(p, x);
    assert forall|i: int, j: int| 0 <= i < j < r.len() implies !text_lt(
        #[trigger] r[j].name@,
        #[trigger] r[i].name@,
    ) by {
        let a = if i < p { s[i] } else if i == p { x } else { s[i - 1] };
        let b = if j < p { s[j] } else if j == p { x } else { s[j - 1] };
        assert(r[i] == a);
        assert(r[j] == b);
        if i != p && j != p {
            let ii = if i < p { i } else { i - 1 };
            let jj = if j < p { j } else { j - 1 };
            assert(ii < jj);
            assert(!text_lt(s[jj].name@, s[ii].name@));
        } else if i == p {
            // b comes from s at index j - 1 >= p
            if text_lt(b.name@, x.name@) {
                text_order_is_strict_total(b.name@, x.name@, s[p].name@);
                text_order_is_strict_total(x.name@, s[p].name@, s[p].name@);
                if j - 1 > p {
                    assert(!text_lt(s[j - 1].name@, s[p].name@));
                }
            }
        } else {
            // j == p, a comes from s at index i < p
            assert(!text_lt(x.name@, s[i].name@));
        }
    }
}

/// Sorting by name gives a list in which no name comes before an earlier one.
pub proof fn sorted_by_name_is_sorted(s: Seq<Package>)
    ensures
        name_sorted(sorted_by_name(s)),
    decreases s.len(),
{
    if s.len() > 0 {
        sorted_by_name_is_sorted(s.drop_last());
        lemma_insert_keeps_sorted(sorted_by_name(s.drop_last()), s.last());
    }
}

/// Sorting by name keeps every package, as often as it occurs.
pub proof fn sorted_by_name_is_permutation(s: Seq<Package>)
    ensures
        sorted_by_name(s).to_multiset() == s.to_multiset(),
    decreases s.len(),
{
    if s.len() == 0 {
        assert(sorted_by_name(s) =~= s);
    } else {
        sorted_by_name_is_permutation(s.drop_last());
        let t = sorted_by_name(s.drop_last());
        lemma_insert_by_name_shape(t, s.last());
        vstd::seq_lib::to_multiset_insert(t, insert_pos(t, s.last()), s.last());
        vstd::seq_lib::to_multiset_build(s.drop_last(), s.last());
        assert(s.drop_last().push(s.last()) =~= s);
    }
}

/// Sorting a list that is already sorted by name leaves it as it is.
pub proof fn sorted_list_stays(s: Seq<Package>)
    requires
        name_sorted(s),
    ensures
        sorted_by_name(s) == s,
    decreases s.len(),
{
    if s.len() > 0 {
        let u = s.drop_last();
        assert(name_sorted(u));
        sorted_list_stays(u);
        lemma_insert_by_name_shape(u, s.last());
        if insert_pos(u, s.last()) < u.len() {
            assert(!text_lt(s[s.len() - 1].name@, s[insert_pos(u, s.last())].name@));
        }
        assert(u.insert(u.len() as int, s.last()) =~= s);
    }
}

/// Whether a package has the name `n`.
pub open spec fn has_name(n: Seq<char>) -> spec_fn(Package) -> bool {
    |p: Package| p.name@ == n
}

/// The packages of `s` with the name `n`, in order.
pub open spec fn with_name(s: Seq<Package>, n: Seq<char>) -> Seq<Package> {
    s.filter(has_name(n))
}

proof fn lemma_filter_none(s: Seq<Package>, pred: spec_fn(Package) -> bool)
    requires
        forall|k: int| 0 <= k < s.len() ==> !pred(#[trigger] s[k]),
    ensures
        s.filter(pred) == Seq::<Package>::empty(),
    decreases s.len(),
{
    if s.len() > 0 {
        let u = s.drop_last();
        assert forall|k: int| 0 <= k < u.len() implies !pred(#[trigger] u[k]) by {
            assert(u[k] == s[k]);
        }
        lemma_filter_none(u, pred);
        u.lemma_filter_push(s.last(), pred);
        assert(u.push(s.last()) =~= s);
    } else {
        reveal(Seq::filter);
    }
}

proof fn lemma_insert_keeps_names_in_order(t: Seq<Package>, x: Package, n: Seq<char>)
    requires
        name_sorted(t),
    ensures
        with_name(insert_by_name(t, x), n) == if x.name@ == n {
            with_name(t, n).push(x)
        } else {
            with_name(t, n)
        },
{
    let pred = has_name(n);
    lemma_insert_by_name_shape(t, x);
    let p = insert_pos(t, x);
    let front = t.take(p);
    let back = t.skip(p);
    assert(t.insert(p, x) =~= front + seq![x] + back);
    assert(t =~= front + back);
    Seq::filter_distributes_over_add(front + seq![x], back, pred);
    Seq::filter_distributes_over_add(front, seq![x], pred);
    Seq::filter_distributes_over_add(front, back, pred);
    Seq::<Package>::empty().lemma_filter_push(x, pred);
    assert(Seq::<Package>::empty().push(x) =~= seq![x]);
    reveal(Seq::filter);
    assert(Seq::<Package>::empty().filter(pred) =~= Seq::<Package>::empty());
    if x.name@ == n {
        assert forall|k: int| 0 <= k < back.len() implies !pred(#[trigger] back[k]) by {
            assert(back[k] == t[p + k]);
            text_order_is_strict_total(x.name@, t[p].name@, t[p + k].name@);
            text_order_is_strict_total(t[p].name@, t[p + k].name@, t[p + k].name@);
            text_order_is_strict_total(t[p + k].name@, t[p].name@, t[p].name@);
            if k > 0 {
                assert(!text_lt(t[p + k].name@, t[p].name@));
            }
        }
        lemma_filter_none(back, pred);
        assert(front.filter(pred) + seq![x] + Seq::<Package>::empty() =~= front.filter(pred).push(x));
        assert(front.filter(pred) + Seq::<Package>::empty() =~= front.filter(pred));
    } else {
        assert(front.filter(pred) + Seq::<Package>::empty() =~= front.filter(pred));
    }
}

/// Sorting by name is stable: the packages of any one name keep the order in
/// which they came.
pub proof fn sorted_by_name_is_stable(s: Seq<Package>, n: Seq<char>)
    ensures
        with_name(sorted_by_name(s), n) == with_name(s, n),
    decreases s.len(),
{
    if s.len() > 0 {
        let u = s.drop_last();
        sorted_by_name_is_stable(u, n);
        sorted_by_name_is_sorted(u);
        lemma_insert_keeps_names_in_order(sorted_by_name(u), s.last(), n);
        u.lemma_filter_push(s.last(), has_name(n));
        assert(u.push(s.last()) =~= s);
    }
}

proof fn lemma_dedup_from_properties(s: Seq<Package>, kept: Seq<Package>)
    requires
        no_adjacent_same(kept),
    ensures
        no_adjacent_same(dedup_from(s, kept)),
        name_sorted(kept + s) ==> name_sorted(dedup_from(s, kept)),
        no_adjacent_same(kept + s) ==> dedup_from(s, kept) == kept + s,
        forall|i: int|
            0 <= i < dedup_from(s, kept).len() ==> kept.contains(#[trigger] dedup_from(s, kept)[i])
                || s.contains(dedup_from(s, kept)[i]),
    decreases s.len(),
{
    if s.len() == 0 {
        assert(kept + s =~= kept);
    } else {
        let rest = s.drop_first();
        if kept.len() > 0 && same_package(s[0], kept.last()) {
            lemma_dedup_from_properties(rest, kept);
            if name_sorted(kept + s) {
                assert forall|i: int, j: int| 0 <= i < j < (kept + rest).len() implies !text_lt(
                    #[trigger] (kept + rest)[j].name@,
                    #[trigger] (kept + rest)[i].name@,
                ) by {
                    let ii = if i < kept.len() { i } else { i + 1 };
                    let jj = if j < kept.len() { j } else { j + 1 };
                    assert((kept + rest)[i] == (kept + s)[ii]);
                    assert((kept + rest)[j] == (kept + s)[jj]);
                }
            }
            if no_adjacent_same(kept + s) {
                assert((kept + s)[kept.len() - 1] == kept.last());
                assert((kept + s)[kept.len() as int] == s[0]);
                same_package_is_equivalence(s[0], kept.last(), kept.last());
            }
            assert forall|i: int| 0 <= i < dedup_from(s, kept).len() implies kept.contains(
                #[trigger] dedup_from(s, kept)[i],
            ) || s.contains(dedup_from(s, kept)[i]) by {
                let e = dedup_from(s, kept)[i];
                if rest.contains(e) {
                    let k = choose|k: int| 0 <= k < rest.len() && rest[k] == e;
                    assert(s[k + 1] == e);
                }
            }
        } else {
            let k2 = kept.push(s[0]);
            assert(no_adjacent_same(k2)) by {
                assert forall|i: int| 0 <= i < k2.len() - 1 implies !same_package(
                    #[trigger] k2[i],
                    k2[i + 1],
                ) by {
                    if i + 1 == kept.len() {
                        assert(k2[i] == kept.last());
                        same_package_is_equivalence(kept.last(), s[0], s[0]);
                    } else {
                        assert(k2[i] == kept[i]);
                        assert(k2[i + 1] == kept[i + 1]);
                    }
                }
            }
            lemma_dedup_from_properties(rest, k2);
            assert(k2 + rest =~= kept + s);
            assert forall|i: int| 0 <= i < dedup_from(s, kept).len() implies kept.contains(
                #[trigger] dedup_from(s, kept)[i],
            ) || s.contains(dedup_from(s, kept)[i]) by {
                let e = dedup_from(s, kept)[i];
                if k2.contains(e) {
                    let k = choose|k: int| 0 <= k < k2.len() && k2[k] == e;
                    if k < kept.len() {
                        assert(kept[k] == e);
                    } else {
                        assert(s[0] == e);
                    }
                }
                if rest.contains(e) {
                    let k = choose|k: int| 0 <= k < rest.len() && rest[k] == e;
                    assert(s[k + 1] == e);
                }
            }
        }
    }
}

/// Dropping the packages that name the same program as the package kept before
/// them leaves no two neighbours that name the same program, keeps only packages
/// of the list, keeps a sorted list sorted, and leaves a list without such
/// neighbours as it is.
pub proof fn deduplicated_properties(s: Seq<Package>)
    ensures
        no_adjacent_same(deduplicated(s)),
        forall|i: int| 0 <= i < deduplicated(s).len() ==> s.contains(#[trigger] deduplicated(s)[i]),
        name_sorted(s) ==> name_sorted(deduplicated(s)),
        no_adjacent_same(s) ==> deduplicated(s) == s,
{
    let e = Seq::<Package>::empty();
    lemma_dedup_from_properties(s, e);
    assert(e + s =~= s);
}

proof fn lemma_dedup_keeps_prefix(s: Seq<Package>, kept: Seq<Package>)
    ensures
        dedup_from(s, kept).len() >= kept.len(),
        dedup_from(s, kept).take(kept.len() as int) == kept,
    decreases s.len(),
{
    if s.len() == 0 {
        assert(kept.take(kept.len() as int) =~= kept);
    } else if kept.len() > 0 && same_package(s[0], kept.last()) {
        lemma_dedup_keeps_prefix(s.drop_first(), kept);
    } else {
        let k2 = kept.push(s[0]);
        lemma_dedup_keeps_prefix(s.drop_first(), k2);
        let r = dedup_from(s, kept);
        assert(r.take(k2.len() as int).take(kept.len() as int) =~= r.take(kept.len() as int));
        assert(k2.take(kept.len() as int) =~= kept);
    }
}

proof fn lemma_dedup_covers(s: Seq<Package>, kept: Seq<Package>, i: int)
    requires
        0 <= i < s.len(),
    ensures
        exists|j: int|
            0 <= j < dedup_from(s, kept).len() && same_package(s[i], #[trigger] dedup_from(s, kept)[j]),
    decreases s.len(),
{
    let r = dedup_from(s, kept);
    let rest = s.drop_first();
    same_package_is_equivalence(s[i], s[i], s[i]);
    if i > 0 {
        assert(rest[i - 1] == s[i]);
        if kept.len() > 0 && same_package(s[0], kept.last()) {
            lemma_dedup_covers(rest, kept, i - 1);
        } else {
            lemma_dedup_covers(rest, kept.push(s[0]), i - 1);
        }
    } else if kept.len() > 0 && same_package(s[0], kept.last()) {
        lemma_dedup_keeps_prefix(rest, kept);
        assert(r.take(kept.len() as int)[kept.len() - 1] == kept.last());
        assert(same_package(s[0], r[kept.len() - 1]));
    } else {
        let k2 = kept.push(s[0]);
        lemma_dedup_keeps_prefix(rest, k2);
        assert(r.take(k2.len() as int)[kept.len() as int] == s[0]);
        assert(same_package(s[0], r[kept.len() as int]));
    }
}

/// Nothing asked for is left out: every package of the list has one that names
/// the same program among the packages to install.
pub proof fn install_order_covers_every_package(s: Seq<Package>, i: int)
    requires
        0 <= i < s.len(),
    ensures
        exists|j: int|
            0 <= j < deduplicated(sorted_by_name(s)).len() && same_package(
                s[i],
                #[trigger] deduplicated(sorted_by_name(s))[j],
            ),
{
    let t = sorted_by_name(s);
    sorted_by_name_is_permutation(s);
    vstd::seq_lib::to_multiset_contains(s, s[i]);
    vstd::seq_lib::to_multiset_contains(t, s[i]);
    assert(s.contains(s[i]));
    let k = choose|k: int| 0 <= k < t.len() && t[k] == s[i];
    lemma_dedup_covers(t, seq![], k);
    let r = deduplicated(t);
    let j = choose|j: int| 0 <= j < r.len() && same_package(t[k], #[trigger] r[j]);
    assert(same_package(s[i], r[j]));
}

/// Choosing the packages to install from the packages already chosen changes
/// nothing: the order of installation is idempotent.
pub proof fn install_order_is_idempotent(s: Seq<Package>)
    ensures
        deduplicated(sorted_by_name(deduplicated(sorted_by_name(s)))) == deduplicated(
            sorted_by_name(s),
        ),
{
    let r = deduplicated(sorted_by_name(s));
    sorted_by_name_is_sorted(s);
    deduplicated_properties(sorted_by_name(s));
    sorted_list_stays(r);
    deduplicated_properties(r);
}

/// The packages sorted by name; packages with the same name keep their order.
pub fn sort_by_name(packages: Vec<Package>) -> (res: Vec<Package>)
    ensures
        res@ == sorted_by_name(packages@),
{
    let ghost input = packages@;
    let mut rest = packages;
    let mut out: Vec<Package> = Vec::new();
    let mut i: usize = 0;
    let n = rest.len();
    assert(input.skip(0) =~= input);
    assert(input.take(0) =~= Seq::<Package>::empty());
    while rest.len() > 0
        invariant
            n == input.len(),
            i + rest@.len() == n,
            rest@ == input.skip(i as int),
            out@ == sorted_by_name(input.take(i as int)),
        decreases rest.len(),
    {
        let x = rest.remove(0);
        assert(x == input[i as int]);
        assert(rest@ =~= input.skip(i + 1));
        let mut j: usize = 0;
        while j < out.len() && !less_than(x.name.as_str(), out[j].name.as_str())
            invariant
                j <= out@.len(),
                forall|k: int| 0 <= k < j ==> !text_lt(x.name@, #[trigger] out@[k].name@),
            decreases out.len() - j,
        {
            j = j + 1;
        }
        proof {
            lemma_insert_at(out@, x, j as int);
            assert(input.take(i + 1).drop_last() =~= input.take(i as int));
            assert(input.take(i + 1).last() == x);
        }
        out.insert(j, x);
        i = i + 1;
    }
    assert(input.take(n as int) =~= input);
    out
}

proof fn lemma_dedup_step(s: Seq<Package>, kept: Seq<Package>, i: int)
    requires
        0 <= i < s.len(),
    ensures
        dedup_from(s.skip(i), kept) == if kept.len() > 0 && same_package(s[i], kept.last()) {
            dedup_from(s.skip(i + 1), kept)
        } else {
            dedup_from(s.skip(i + 1), kept.push(s[i]))
        },
{
    assert(s.skip(i)[0] == s[i]);
    assert(s.skip(i).drop_first() =~= s.skip(i + 1));
}

/// Drops every package that names the same program as the package kept just
/// before it.
pub fn dedup_packages(packages: Vec<Package>) -> (res: Vec<Package>)
    ensures
        res@ == deduplicated(packages@),
{
    let ghost input = packages@;
    let mut rest = packages;
    let mut out: Vec<Package> = Vec::new();
    let mut i: usize = 0;
    let n = rest.len();
    assert(input.skip(0) =~= input);
    while rest.len() > 0
        invariant
            n == input.len(),
            i + rest@.len() == n,
            rest@ == input.skip(i as int),
            dedup_from(input.skip(i as int), out@) == deduplicated(input),
        decreases rest.len(),
    {
        let x = rest.remove(0);
        assert(x == input[i as int]);
        assert(rest@ =~= input.skip(i + 1));
        proof {
            lemma_dedup_step(input, out@, i as int);
        }
        let n = out.len();
        if n > 0 && x.eq(&out[n - 1]) {
            assert(out@.last() == out@[n - 1]);
        } else {
            out.push(x);
        }
        i = i + 1;
    }
    assert(input.skip(i as int) =~= Seq::<Package>::empty());
    out
}

/// The packages to install out of a `depy.json` list: sorted by name (packages
/// with the same name keeping their order), and with every package dropped that
/// names the same program as the package kept just before it.
pub fn install_order(packages: Vec<Package>) -> (res: Vec<Package>)
    ensures
        res@ == deduplicated(sorted_by_name(packages@)),
{
    let sorted = sort_by_name(packages);
    dedup_packages(sorted)
}

} // verus!
