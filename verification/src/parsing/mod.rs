//! Scoop manifests, reduced to what depy needs of them: the directories a
//! program wants on the PATH and the environment variables it wants set.
use vstd::prelude::*;
use crate::arch::Arch;
use crate::json::{JsonData, JsonValue, parse_json_text, parsed_json, string_of_json};
use crate::text::{debug_string, debug_text, join2, join3};

pub mod error;
pub mod parse_json;

use error::{ParseError, ParseErrorView, parse_error_text};

verus! {

/// One entry of a manifest's `env_set`: a variable name and its value.
#[derive(Debug, PartialEq, Eq)]
pub struct EnvVar {
    pub name: String,
    pub value: String,
}

/// The name and value of an environment variable as character sequences.
pub open spec fn env_var_view(v: EnvVar) -> (Seq<char>, Seq<char>) {
    (v.name@, v.value@)
}

/// The names and values of a list of environment variables.
pub open spec fn env_vars_view(vs: Seq<EnvVar>) -> Seq<(Seq<char>, Seq<char>)> {
    vs.map_values(|v: EnvVar| env_var_view(v))
}

/// A member of an `env_set` object written as depy reports it when its value is not a
/// string: the debug rendering of the (key, value) pair.
pub open spec fn entry_debug(entry: (String, JsonValue)) -> Seq<char> {
    "("@ + debug_text(entry.0@) + ", "@ + entry.1.debug@ + ")"@
}

/// The variables of an `env_set` object's members, in order, or the rendering of
/// the first member whose value is not a string.
pub open spec fn env_entries(entries: Seq<(String, JsonValue)>) -> Result<
    Seq<(Seq<char>, Seq<char>)>,
    Seq<char>,
>
    decreases entries.len(),
{
    if entries.len() == 0 {
        Ok(seq![])
    } else {
        match string_of_json(entries[0].1) {
            None => Err(entry_debug(entries[0])),
            Some(value) => match env_entries(entries.drop_first()) {
                Ok(rest) => Ok(seq![(entries[0].0@, value)] + rest),
                Err(d) => Err(d),
            },
        }
    }
}

/// The variables an `env_set` value declares, or the error that reading it gives.
pub open spec fn env_vars_of(v: JsonValue) -> Result<Seq<(Seq<char>, Seq<char>)>, ParseErrorView> {
    match v.data {
        JsonData::Object(entries) => match env_entries(entries@) {
            Ok(vars) => Ok(vars),
            Err(d) => Err(
                ParseErrorView::EnvVariableFormatError(
                    "environemnt variables is supposed to be a string. Instead got "@ + d,
                ),
            ),
        },
        _ => Err(
            ParseErrorView::EnvVariableFormatError(
                "environemnt variables are supposed to be a dictionary/object. Instead got "@
                    + v.text@,
            ),
        ),
    }
}

/// A scoop manifest reduced to the directories it adds to the PATH and the
/// environment variables it sets, together with the package's name, the url the
/// manifest came from and the version to install.
#[derive(Debug, PartialEq, Eq)]
pub struct Manifest {
    pub version: String,
    pub name: String,
    pub url: String,
    pub added_paths: Vec<String>,
    pub env_vars: Vec<EnvVar>,
}

/// The texts of a list of strings.
pub open spec fn strings_view(v: Seq<String>) -> Seq<Seq<char>> {
    v.map_values(|s: String| s@)
}

impl EnvVar {
    pub fn new(name: String, value: String) -> (res: EnvVar)
        ensures
            res.name == name,
            res.value == value,
    {
        EnvVar { name, value }
    }

    /// Reads the variables of an `env_set` value: an object whose members all have
    /// string values, taken in member order.
    pub fn from_value(value: &JsonValue) -> (res: Result<Vec<EnvVar>, ParseError>)
        ensures
            match res {
                Ok(vs) => env_vars_of(*value) == Ok::<_, ParseErrorView>(env_vars_view(vs@)),
                Err(e) => env_vars_of(*value) == Err::<Seq<(Seq<char>, Seq<char>)>, _>(e@),
            },
    {
        let entries = match &value.data {
            JsonData::Object(entries) => entries,
            _ => {
                let msg = join2(
                    "environemnt variables are supposed to be a dictionary/object. Instead got ",
                    value.text.as_str(),
                );
                return Err(ParseError::EnvVariableFormatError(msg));
            },
        };
        let mut out: Vec<EnvVar> = Vec::new();
        let mut i: usize = 0;
        assert(entries@.skip(0) =~= entries@);
        while i < entries.len()
            invariant
                value.data == JsonData::Object(*entries),
                i <= entries@.len(),
                match env_entries(entries@.skip(i as int)) {
                    Ok(rest) => env_entries(entries@) == Ok::<_, Seq<char>>(
                        env_vars_view(out@) + rest,
                    ),
                    Err(d) => env_entries(entries@) == Err::<Seq<(Seq<char>, Seq<char>)>, _>(d),
                },
            decreases entries.len() - i,
        {
            let ghost rest = entries@.skip(i as int);
            assert(rest[0] == entries@[i as int]);
            assert(rest.drop_first() =~= entries@.skip(i + 1));
            match &entries[i].1.data {
                JsonData::Str(s) => {
                    let ghost before = out@;
                    out.push(EnvVar::new(entries[i].0.clone(), s.clone()));
                    proof {
                        assert(env_vars_view(out@) =~= env_vars_view(before) + seq![
                            (entries@[i as int].0@, s@),
                        ]);
                        match env_entries(entries@.skip(i + 1)) {
                            Ok(r) => {
                                assert(env_vars_view(before) + (seq![(entries@[i as int].0@, s@)]
                                    + r) =~= env_vars_view(out@) + r);
                            },
                            Err(_) => {},
                        }
                    }
                },
                _ => {
                    let key = debug_string(entries[i].0.as_str());
                    let d1 = join3("(", key.as_str(), ", ");
                    let d2 = join3(d1.as_str(), entries[i].1.debug.as_str(), ")");
                    let msg = join2(
                        "environemnt variables is supposed to be a string. Instead got ",
                        d2.as_str(),
                    );
                    return Err(ParseError::EnvVariableFormatError(msg));
                },
            }
            i = i + 1;
        }
        proof {
            assert(entries@.skip(i as int) =~= Seq::<(String, JsonValue)>::empty());
            assert(env_vars_view(out@) + seq![] =~= env_vars_view(out@));
        }
        Ok(out)
    }
}

/// What building a manifest gives: the PATH additions and variables of the
/// manifest value for `arch`, or a `ManifestCreateError` carrying the text of the
/// first error met.
pub open spec fn manifest_parts(manifest_value: JsonValue, arch: Arch) -> Result<
    (Seq<Seq<char>>, Seq<(Seq<char>, Seq<char>)>),
    ParseErrorView,
> {
    match parse_json::env_paths_of(manifest_value, arch) {
        Err(e) => Err(ParseErrorView::ManifestCreateError(parse_error_text(e))),
        Ok(paths) => match parse_json::env_variables_of(manifest_value, arch) {
            Err(e) => Err(ParseErrorView::ManifestCreateError(parse_error_text(e))),
            Ok(vars) => Ok((paths, vars)),
        },
    }
}

impl Manifest {
    /// Builds a manifest out of a parsed scoop manifest for the architecture `arch`.
    pub fn new(
        manifest_value: &JsonValue,
        name: String,
        url: String,
        version: String,
        arch: Arch,
    ) -> (res: Result<Manifest, ParseError>)
        ensures
            match res {
                Ok(m) => {
                    &&& manifest_parts(*manifest_value, arch) == Ok::<_, ParseErrorView>(
                        (strings_view(m.added_paths@), env_vars_view(m.env_vars@)),
                    )
                    &&& m.name == name
                    &&& m.url == url
                    &&& m.version == version
                },
                Err(e) => manifest_parts(*manifest_value, arch) == Err::<
                    (Seq<Seq<char>>, Seq<(Seq<char>, Seq<char>)>),
                    _,
                >(e@),
            },
    {
        let added_paths = match parse_json::get_env_paths(manifest_value, arch) {
            Ok(p) => p,
            Err(err) => {
                return Err(ParseError::ManifestCreateError(err.message()));
            },
        };
        let env_vars = match parse_json::get_env_variables(manifest_value, arch) {
            Ok(v) => v,
            Err(err) => {
                return Err(ParseError::ManifestCreateError(err.message()));
            },
        };
        Ok(Manifest { version, name, url, added_paths, env_vars })
    }

    /// Builds a manifest out of the outcome of parsing a manifest's text as JSON
    /// (the parsed document, or the parser's message): a parse failure becomes a
    /// `ManifestCreateError`.
    pub fn from_parsed(
        parsed: Result<JsonValue, String>,
        name: String,
        url: String,
        version: String,
        arch: Arch,
    ) -> (res: Result<Manifest, ParseError>)
        ensures
            match parsed {
                Err(msg) => res == Err::<Manifest, ParseError>(
                    ParseError::ManifestCreateError(msg),
                ),
                Ok(v) => match res {
                    Ok(m) => {
                        &&& manifest_parts(v, arch) == Ok::<_, ParseErrorView>(
                            (strings_view(m.added_paths@), env_vars_view(m.env_vars@)),
                        )
                        &&& m.name == name
                        &&& m.url == url
                        &&& m.version == version
                    },
                    Err(e) => manifest_parts(v, arch) == Err::<
                        (Seq<Seq<char>>, Seq<(Seq<char>, Seq<char>)>),
                        _,
                    >(e@),
                },
            },
    {
        match parsed {
            Err(msg) => Err(ParseError::ManifestCreateError(msg)),
            Ok(v) => Manifest::new(&v, name, url, version, arch),
        }
    }

    /// Builds a manifest out of the text of a scoop manifest for the architecture
    /// `arch`: text that is not JSON gives a `ManifestCreateError` with the
    /// parser's message.
    pub fn from_str(
        manifest: &str,
        name: String,
        url: String,
        version: String,
        arch: Arch,
    ) -> (res: Result<Manifest, ParseError>)
        ensures
            match parsed_json(manifest@) {
                Err(msg) => res matches Err(ParseError::ManifestCreateError(m)) && m@ == msg,
                Ok(v) => match res {
                    Ok(m) => {
                        &&& manifest_parts(v, arch) == Ok::<_, ParseErrorView>(
                            (strings_view(m.added_paths@), env_vars_view(m.env_vars@)),
                        )
                        &&& m.name == name
                        &&& m.url == url
                        &&& m.version == version
                    },
                    Err(e) => manifest_parts(v, arch) == Err::<
                        (Seq<Seq<char>>, Seq<(Seq<char>, Seq<char>)>),
                        _,
                    >(e@),
                },
            },
    {
        Manifest::from_parsed(parse_json_text(manifest), name, url, version, arch)
    }
}

} // verus!
