//! Reading the parts of a scoop manifest that depy uses: `env_add_path`,
//! `env_set`, `bin` and `version`, each at the top level and under
//! `architecture.<arch>`.
use vstd::prelude::*;
use super::{EnvVar, env_vars_of, env_vars_view, strings_view};
use super::error::{ParseError, ParseErrorView};
use crate::arch::{Arch, arch_key};
use crate::json::{
    parse_json_text, parsed_json,
    JsonData, JsonValue, absent_or_null, is_absent_or_null, member, member_in, member_of,
    string_of_json,
};
use crate::text::{contains, has_substring, join2};

verus! {

/// The strings of an `env_add_path` array, or the detail of the first element that
/// is not a string.
pub open spec fn path_strings(items: Seq<JsonValue>) -> Result<Seq<Seq<char>>, Seq<char>>
    decreases items.len(),
{
    if items.len() == 0 {
        Ok(seq![])
    } else {
        match string_of_json(items[0]) {
            None => Err(items[0].text@),
            Some(s) => match path_strings(items.drop_first()) {
                Ok(rest) => Ok(seq![s] + rest),
                Err(d) => Err(d),
            },
        }
    }
}

/// The paths an `env_add_path` value lists, or the error that reading it gives.
pub open spec fn path_list_of(v: JsonValue) -> Result<Seq<Seq<char>>, ParseErrorView> {
    match v.data {
        JsonData::Array(items) => match path_strings(items@) {
            Ok(paths) => Ok(paths),
            Err(d) => Err(
                ParseErrorView::EnvPathFormatError(
                    "Expected env_add_path value to be string, instead found: "@ + d,
                ),
            ),
        },
        _ => Err(
            ParseErrorView::EnvPathFormatError(
                "Expected env_add_path to be a list of paths. Instead got "@ + v.text@,
            ),
        ),
    }
}

/// `architecture.<arch>` of a manifest, when present.
pub open spec fn arch_section(json: JsonValue, arch: Arch) -> Option<JsonValue> {
    member_of(member(json, "architecture"@), arch_key(arch))
}

/// The PATH additions of a manifest for `arch`: the top-level `env_add_path`
/// followed by the one under `architecture.<arch>`; a part that is absent or null
/// adds nothing.
pub open spec fn env_paths_of(json: JsonValue, arch: Arch) -> Result<Seq<Seq<char>>, ParseErrorView> {
    let top = member(json, "env_add_path"@);
    let first = if absent_or_null(top) {
        Ok(Seq::<Seq<char>>::empty())
    } else {
        path_list_of(top.unwrap())
    };
    let second = member_of(arch_section(json, arch), "env_add_path"@);
    match first {
        Err(e) => Err(e),
        Ok(a) => if absent_or_null(second) {
            Ok(a)
        } else {
            match path_list_of(second.unwrap()) {
                Err(e) => Err(e),
                Ok(b) => Ok(a + b),
            }
        },
    }
}

/// The environment variables of a manifest for `arch`: the top-level `env_set`
/// followed by the one under `architecture.<arch>`; a part that is absent or null
/// adds nothing.
pub open spec fn env_variables_of(json: JsonValue, arch: Arch) -> Result<
    Seq<(Seq<char>, Seq<char>)>,
    ParseErrorView,
> {
    let top = member(json, "env_set"@);
    let first = if absent_or_null(top) {
        Ok(Seq::<(Seq<char>, Seq<char>)>::empty())
    } else {
        env_vars_of(top.unwrap())
    };
    let second = member_of(arch_section(json, arch), "env_set"@);
    match first {
        Err(e) => Err(e),
        Ok(a) => if absent_or_null(second) {
            Ok(a)
        } else {
            match env_vars_of(second.unwrap()) {
                Err(e) => Err(e),
                Ok(b) => Ok(a + b),
            }
        },
    }
}

/// Reads an `env_add_path` value: an array of strings.
pub(crate) fn env_path_to_vec(value: &JsonValue) -> (res: Result<Vec<String>, ParseError>)
    ensures
        match res {
            Ok(v) => path_list_of(*value) == Ok::<_, ParseErrorView>(strings_view(v@)),
            Err(e) => path_list_of(*value) == Err::<Seq<Seq<char>>, _>(e@),
        },
{
    let items = match &value.data {
        JsonData::Array(items) => items,
        _ => {
            let msg = join2(
                "Expected env_add_path to be a list of paths. Instead got ",
                value.text.as_str(),
            );
            return Err(ParseError::EnvPathFormatError(msg));
        },
    };
    let mut out: Vec<String> = Vec::new();
    let mut i: usize = 0;
    assert(items@.skip(0) =~= items@);
    while i < items.len()
        invariant
            value.data == JsonData::Array(*items),
            i <= items@.len(),
            match path_strings(items@.skip(i as int)) {
                Ok(rest) => path_strings(items@) == Ok::<_, Seq<char>>(strings_view(out@) + rest),
                Err(d) => path_strings(items@) == Err::<Seq<Seq<char>>, _>(d),
            },
        decreases items.len() - i,
    {
        let ghost rest = items@.skip(i as int);
        assert(rest[0] == items@[i as int]);
        assert(rest.drop_first() =~= items@.skip(i + 1));
        match &items[i].data {
            JsonData::Str(s) => {
                let ghost before = out@;
                out.push(s.clone());
                proof {
                    assert(strings_view(out@) =~= strings_view(before) + seq![s@]);
                    match path_strings(items@.skip(i + 1)) {
                        Ok(r) => {
                            assert(strings_view(before) + (seq![s@] + r) =~= strings_view(out@)
                                + r);
                        },
                        Err(_) => {},
                    }
                }
            },
            _ => {
                let msg = join2(
                    "Expected env_add_path value to be string, instead found: ",
                    items[i].text.as_str(),
                );
                return Err(ParseError::EnvPathFormatError(msg));
            },
        }
        i = i + 1;
    }
    proof {
        assert(items@.skip(i as int) =~= Seq::<JsonValue>::empty());
        assert(strings_view(out@) + seq![] =~= strings_view(out@));
    }
    Ok(out)
}

/// Moves the elements of `b` onto the end of `a`.
fn append_all<T>(a: &mut Vec<T>, b: Vec<T>)
    ensures
        final(a)@ == old(a)@ + b@,
{
    let mut b = b;
    a.append(&mut b);
}

/// The directories a manifest adds to the PATH for `arch`: its top-level
/// `env_add_path` followed by `architecture.<arch>.env_add_path`.
pub fn get_env_paths(json_body: &JsonValue, arch: Arch) -> (res: Result<Vec<String>, ParseError>)
    ensures
        match res {
            Ok(v) => env_paths_of(*json_body, arch) == Ok::<_, ParseErrorView>(strings_view(v@)),
            Err(e) => env_paths_of(*json_body, arch) == Err::<Seq<Seq<char>>, _>(e@),
        },
{
    let mut out_vec: Vec<String> = Vec::new();
    let top = json_body.get_member("env_add_path");
    if !is_absent_or_null(top) {
        let v = env_path_to_vec(top.unwrap())?;
        append_all(&mut out_vec, v);
    }
    let ghost first = out_vec@;
    assert(strings_view(first) =~= if absent_or_null(member(*json_body, "env_add_path"@)) {
        Seq::<Seq<char>>::empty()
    } else {
        match path_list_of(member(*json_body, "env_add_path"@).unwrap()) {
            Ok(p) => p,
            Err(_) => Seq::<Seq<char>>::empty(),
        }
    });
    let section = member_in(json_body.get_member("architecture"), arch.key());
    let second = member_in(section, "env_add_path");
    if !is_absent_or_null(second) {
        let v = env_path_to_vec(second.unwrap())?;
        append_all(&mut out_vec, v);
        assert(strings_view(out_vec@) =~= strings_view(first) + strings_view(v@));
    }
    Ok(out_vec)
}

/// The environment variables a manifest sets for `arch`: its top-level `env_set`
/// followed by `architecture.<arch>.env_set`.
pub fn get_env_variables(json_body: &JsonValue, arch: Arch) -> (res: Result<Vec<EnvVar>, ParseError>)
    ensures
        match res {
            Ok(v) => env_variables_of(*json_body, arch) == Ok::<_, ParseErrorView>(
                env_vars_view(v@),
            ),
            Err(e) => env_variables_of(*json_body, arch) == Err::<
                Seq<(Seq<char>, Seq<char>)>,
                _,
            >(e@),
        },
{
    let mut out_vec: Vec<EnvVar> = Vec::new();
    let top = json_body.get_member("env_set");
    if !is_absent_or_null(top) {
        let v = EnvVar::from_value(top.unwrap())?;
        append_all(&mut out_vec, v);
    }
    let ghost first = out_vec@;
    assert(env_vars_view(first) =~= if absent_or_null(member(*json_body, "env_set"@)) {
        Seq::<(Seq<char>, Seq<char>)>::empty()
    } else {
        match env_vars_of(member(*json_body, "env_set"@).unwrap()) {
            Ok(p) => p,
            Err(_) => Seq::<(Seq<char>, Seq<char>)>::empty(),
        }
    });
    let section = member_in(json_body.get_member("architecture"), arch.key());
    let second = member_in(section, "env_set");
    if !is_absent_or_null(second) {
        let v = EnvVar::from_value(second.unwrap())?;
        append_all(&mut out_vec, v);
        assert(env_vars_view(out_vec@) =~= env_vars_view(first) + env_vars_view(v@));
    }
    Ok(out_vec)
}

/// The version of a manifest: its string member `version`.
pub fn get_version(json_body: &JsonValue) -> (res: Result<String, ParseError>)
    ensures
        match res {
            Ok(v) => member(*json_body, "version"@) matches Some(x) && string_of_json(x) == Some(
                v@,
            ),
            Err(e) => e == ParseError::MissingVersionError && !(member(
                *json_body,
                "version"@,
            ) matches Some(x) && string_of_json(x) is Some),
        },
{
    match json_body.get_member("version") {
        Some(v) => match &v.data {
            JsonData::Str(s) => Ok(s.clone()),
            _ => Err(ParseError::MissingVersionError),
        },
        None => Err(ParseError::MissingVersionError),
    }
}

/// The bin entry is a string or an array of strings.
pub open spec fn bin_entry_well_formed(v: JsonValue) -> bool {
    match v.data {
        JsonData::Array(inner) => forall|k: int|
            0 <= k < inner@.len() ==> (#[trigger] inner@[k]).data is Str,
        JsonData::Str(_) => true,
        _ => false,
    }
}

/// At least one entry of a `bin` array is a string or an array of strings.
pub open spec fn some_entry_well_formed(items: Seq<JsonValue>) -> bool {
    exists|i: int| 0 <= i < items.len() && bin_entry_well_formed(#[trigger] items[i])
}

/// Looks for `query` in a list of names, one after the other: `Some(true)` at the
/// first name that contains it, `Some(false)` when none does, and `None` when an
/// element that is not a string is reached first (reading it as a string fails).
pub open spec fn names_match(items: Seq<JsonValue>, query: Seq<char>) -> Option<bool>
    decreases items.len(),
{
    if items.len() == 0 {
        Some(false)
    } else {
        match string_of_json(items[0]) {
            None => None,
            Some(s) => if has_substring(s, query) {
                Some(true)
            } else {
                names_match(items.drop_first(), query)
            },
        }
    }
}

/// Looks for `query` in the entries of a `bin` array, one after the other; an entry
/// is a name or an array of names. `None` when an element that is not a string is
/// reached before a match.
pub open spec fn entries_match(items: Seq<JsonValue>, query: Seq<char>) -> Option<bool>
    decreases items.len(),
{
    if items.len() == 0 {
        Some(false)
    } else {
        match items[0].data {
            JsonData::Array(inner) => match names_match(inner@, query) {
                None => None,
                Some(true) => Some(true),
                Some(false) => entries_match(items.drop_first(), query),
            },
            JsonData::Str(s) => if has_substring(s@, query) {
                Some(true)
            } else {
                entries_match(items.drop_first(), query)
            },
            _ => None,
        }
    }
}

/// What checking one `bin` value against `query` gives; `None` when the check
/// reads a non-string element as a string and so cannot finish.
pub open spec fn bin_outcome(bin: JsonValue, query: Seq<char>) -> Option<Result<bool, ParseErrorView>> {
    let err = ParseErrorView::BinFormatError(
        "Expected bin attribute to be either a string or array, instead found: "@ + bin.text@,
    );
    match bin.data {
        JsonData::Str(s) => Some(Ok(has_substring(s@, query))),
        JsonData::Array(items) => if !some_entry_well_formed(items@) {
            Some(Err(err))
        } else {
            match entries_match(items@, query) {
                None => None,
                Some(b) => Some(Ok(b)),
            }
        },
        _ => Some(Err(err)),
    }
}

/// What checking a manifest's `bin` and then its `architecture.<arch>.bin` against
/// `query` gives; a part that is absent or null matches nothing, and a match in the
/// first part ends the search.
pub open spec fn query_bin_outcome(json: JsonValue, query: Seq<char>, arch: Arch) -> Option<
    Result<bool, ParseErrorView>,
> {
    let top = member(json, "bin"@);
    let second = member_of(arch_section(json, arch), "bin"@);
    let rest = if absent_or_null(second) {
        Some(Ok(false))
    } else {
        bin_outcome(second.unwrap(), query)
    };
    if absent_or_null(top) {
        rest
    } else {
        match bin_outcome(top.unwrap(), query) {
            None => None,
            Some(Err(e)) => Some(Err(e)),
            Some(Ok(true)) => Some(Ok(true)),
            Some(Ok(false)) => rest,
        }
    }
}

/// `r` is the result that `o` describes.
pub open spec fn outcome_is(o: Option<Result<bool, ParseErrorView>>, r: Result<bool, ParseError>) -> bool {
    match r {
        Ok(b) => o == Some(Ok::<bool, ParseErrorView>(b)),
        Err(e) => o == Some(Err::<bool, ParseErrorView>(e@)),
    }
}

fn names_match_exec(items: &Vec<JsonValue>, query: &str) -> (res: Option<bool>)
    ensures
        res == names_match(items@, query@),
{
    let mut i: usize = 0;
    assert(items@.skip(0) =~= items@);
    while i < items.len()
        invariant
            i <= items@.len(),
            names_match(items@, query@) == names_match(items@.skip(i as int), query@),
        decreases items.len() - i,
    {
        assert(items@.skip(i as int)[0] == items@[i as int]);
        assert(items@.skip(i as int).drop_first() =~= items@.skip(i + 1));
        match &items[i].data {
            JsonData::Str(s) => {
                if contains(s.as_str(), query) {
                    return Some(true);
                }
            },
            _ => {
                return None;
            },
        }
        i = i + 1;
    }
    assert(items@.skip(i as int).len() == 0);
    Some(false)
}

fn entries_match_exec(items: &Vec<JsonValue>, query: &str) -> (res: Option<bool>)
    ensures
        res == entries_match(items@, query@),
{
    let mut i: usize = 0;
    assert(items@.skip(0) =~= items@);
    while i < items.len()
        invariant
            i <= items@.len(),
            entries_match(items@, query@) == entries_match(items@.skip(i as int), query@),
        decreases items.len() - i,
    {
        assert(items@.skip(i as int)[0] == items@[i as int]);
        assert(items@.skip(i as int).drop_first() =~= items@.skip(i + 1));
        match &items[i].data {
            JsonData::Array(inner) => {
                match names_match_exec(inner, query) {
                    None => {
                        return None;
                    },
                    Some(true) => {
                        return Some(true);
                    },
                    Some(false) => {},
                }
            },
            JsonData::Str(s) => {
                if contains(s.as_str(), query) {
                    return Some(true);
                }
            },
            _ => {
                return None;
            },
        }
        i = i + 1;
    }
    assert(items@.skip(i as int).len() == 0);
    Some(false)
}

fn entry_well_formed_exec(v: &JsonValue) -> (res: bool)
    ensures
        res == bin_entry_well_formed(*v),
{
    match &v.data {
        JsonData::Str(_) => true,
        JsonData::Array(inner) => {
            let mut k: usize = 0;
            while k < inner.len()
                invariant
                    v.data == JsonData::Array(*inner),
                    k <= inner@.len(),
                    forall|j: int| 0 <= j < k ==> (#[trigger] inner@[j]).data is Str,
                decreases inner.len() - k,
            {
                if !inner[k].is_string() {
                    assert(!(inner@[k as int].data is Str));
                    return false;
                }
                k = k + 1;
            }
            true
        },
        _ => false,
    }
}

fn some_entry_well_formed_exec(items: &Vec<JsonValue>) -> (res: bool)
    ensures
        res == some_entry_well_formed(items@),
{
    let mut i: usize = 0;
    while i < items.len()
        invariant
            i <= items@.len(),
            forall|j: int| 0 <= j < i ==> !bin_entry_well_formed(#[trigger] items@[j]),
        decreases items.len() - i,
    {
        if entry_well_formed_exec(&items[i]) {
            return true;
        }
        i = i + 1;
    }
    false
}

/// What checking one `bin` value gives, `None` where the check cannot finish.
fn bin_outcome_exec(bin_attr: &JsonValue, query: &str) -> (res: Option<Result<bool, ParseError>>)
    ensures
        match res {
            None => bin_outcome(*bin_attr, query@) is None,
            Some(r) => outcome_is(bin_outcome(*bin_attr, query@), r),
        },
{
    match &bin_attr.data {
        JsonData::Str(s) => Some(Ok(contains(s.as_str(), query))),
        JsonData::Array(items) => {
            if !some_entry_well_formed_exec(items) {
                let msg = join2(
                    "Expected bin attribute to be either a string or array, instead found: ",
                    bin_attr.text.as_str(),
                );
                return Some(Err(ParseError::BinFormatError(msg)));
            }
            match entries_match_exec(items, query) {
                None => None,
                Some(b) => Some(Ok(b)),
            }
        },
        _ => {
            let msg = join2(
                "Expected bin attribute to be either a string or array, instead found: ",
                bin_attr.text.as_str(),
            );
            Some(Err(ParseError::BinFormatError(msg)))
        },
    }
}

/// Whether one `bin` value matches `query`: a string contains it, or a name in
/// an array of names and arrays of names contains it.
pub(crate) fn check_bin(bin_attr: &JsonValue, query: &str) -> (res: Result<bool, ParseError>)
    requires
        bin_outcome(*bin_attr, query@) is Some,
    ensures
        outcome_is(bin_outcome(*bin_attr, query@), res),
{
    match bin_outcome_exec(bin_attr, query) {
        Some(r) => r,
        None => {
            proof {
                assert(false);
            }
            Ok(false)
        },
    }
}

fn query_bin_outcome_exec(json_body: &JsonValue, query: &str, arch: Arch) -> (res: Option<
    Result<bool, ParseError>,
>)
    ensures
        match res {
            None => query_bin_outcome(*json_body, query@, arch) is None,
            Some(r) => outcome_is(query_bin_outcome(*json_body, query@, arch), r),
        },
{
    let top = json_body.get_member("bin");
    if !is_absent_or_null(top) {
        match bin_outcome_exec(top.unwrap(), query) {
            None => {
                return None;
            },
            Some(Err(e)) => {
                return Some(Err(e));
            },
            Some(Ok(true)) => {
                return Some(Ok(true));
            },
            Some(Ok(false)) => {},
        }
    }
    let section = member_in(json_body.get_member("architecture"), arch.key());
    let second = member_in(section, "bin");
    if !is_absent_or_null(second) {
        bin_outcome_exec(second.unwrap(), query)
    } else {
        Some(Ok(false))
    }
}

/// Whether searching the `bin` entries of a manifest for `query` cannot finish
/// because it would read a non-string element as a string.
pub fn query_bin_fails(json_body: &JsonValue, query: &str, arch: Arch) -> (res: bool)
    ensures
        res == (query_bin_outcome(*json_body, query@, arch) is None),
{
    match query_bin_outcome_exec(json_body, query, arch) {
        None => true,
        Some(_) => false,
    }
}

/// Whether a program that the manifest puts on the PATH (its `bin` entries, then
/// those under `architecture.<arch>`) has a name or alias containing `query`.
pub fn query_bin(json_body: &JsonValue, query: &str, arch: Arch) -> (res: Result<bool, ParseError>)
    requires
        query_bin_outcome(*json_body, query@, arch) is Some,
    ensures
        outcome_is(query_bin_outcome(*json_body, query@, arch), res),
{
    let top = json_body.get_member("bin");
    if !is_absent_or_null(top) {
        let ok_bin = check_bin(top.unwrap(), query)?;
        if ok_bin {
            return Ok(true);
        }
    }
    let section = member_in(json_body.get_member("architecture"), arch.key());
    let second = member_in(section, "bin");
    if !is_absent_or_null(second) {
        let ok_bin = check_bin(second.unwrap(), query)?;
        if ok_bin {
            return Ok(true);
        }
    }
    Ok(false)
}

/// What reading a JSON file gives, from the outcome of parsing its contents: a
/// parse failure becomes `ManifestParseError` with the file's name and the
/// parser's message.
pub fn json_file_outcome(filename: &str, parsed: Result<JsonValue, String>) -> (res: Result<
    JsonValue,
    ParseError,
>)
    ensures
        match parsed {
            Ok(v) => res == Ok::<JsonValue, ParseError>(v),
            Err(m) => res matches Err(ParseError::ManifestParseError(f, e)) && f@ == filename@
                && e@ == m@,
        },
{
    match parsed {
        Ok(v) => Ok(v),
        Err(m) => Err(ParseError::ManifestParseError(String::from_str(filename), m)),
    }
}

/// Reads a JSON file (a manifest or `depy.json`) from what reading it gave: its
/// contents, or the reason it could not be read. A read failure becomes
/// `ManifestReadError` and text that is not JSON `ManifestParseError`, each with
/// the file's name and the reason.
pub fn read_manifest_json(filename: &str, contents: Result<String, String>) -> (res: Result<
    JsonValue,
    ParseError,
>)
    ensures
        match contents {
            Err(m) => res matches Err(ParseError::ManifestReadError(f, e)) && f@ == filename@
                && e@ == m@,
            Ok(text) => match parsed_json(text@) {
                Ok(v) => res == Ok::<JsonValue, ParseError>(v),
                Err(m) => res matches Err(ParseError::ManifestParseError(f, e)) && f@
                    == filename@ && e@ == m,
            },
        },
{
    match contents {
        Err(m) => Err(ParseError::ManifestReadError(String::from_str(filename), m)),
        Ok(text) => json_file_outcome(filename, parse_json_text(text.as_str())),
    }
}

} // verus!
