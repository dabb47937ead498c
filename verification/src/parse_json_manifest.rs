//! Reading scoop manifests with errors that only name the kind of problem.
//!
//! These functions read the same parts of a manifest as
//! `parsing::parse_json`, but take the architecture as an option (an unknown one
//! is reported as `ArchError`) and report errors without details.
use vstd::prelude::*;
use crate::arch::Arch;
use crate::json::{JsonValue, absent_or_null, is_absent_or_null, member};
use crate::parsing::{EnvVar, env_vars_of, env_vars_view, strings_view};
use crate::parsing::error::ParseErrorView;
use crate::parsing::parse_json::{
    bin_outcome, check_bin, env_path_to_vec, env_paths_of, env_variables_of, get_env_paths,
    get_version as get_version_detailed, path_list_of, query_bin_outcome,
};

verus! {

/// The kind of problem met while reading a manifest.
#[derive(Debug, PartialEq, Eq, Clone, Copy)]
pub enum ParseJsonError {
    /// The machine's architecture is not one that manifests describe.
    ArchError,
    /// `env_add_path` is malformed.
    EnvPathFormatError,
    /// `env_set` is malformed.
    EnvVarFormatError,
    /// `bin` is malformed.
    BinFormatError,
    /// The manifest has no string `version`.
    MissingVersionError,
}

impl ParseJsonError {
    /// The text shown to the user for this error.
    pub fn message(&self) -> (res: &'static str)
        ensures
            res@ == match self {
                ParseJsonError::ArchError => "Error: Invalid system arch!"@,
                ParseJsonError::EnvPathFormatError =>
                    "Error: Improperly formated env_add_path argument!"@,
                ParseJsonError::EnvVarFormatError =>
                    "Error: Improperly formated environment variable!"@,
                ParseJsonError::BinFormatError => "Error: Improperly formated bin attr!"@,
                ParseJsonError::MissingVersionError => "Error: Couldn't find version attributes!"@,
            },
    {
        match self {
            ParseJsonError::ArchError => "Error: Invalid system arch!",
            ParseJsonError::EnvPathFormatError => "Error: Improperly formated env_add_path argument!",
            ParseJsonError::EnvVarFormatError => "Error: Improperly formated environment variable!",
            ParseJsonError::BinFormatError => "Error: Improperly formated bin attr!",
            ParseJsonError::MissingVersionError => "Error: Couldn't find version attributes!",
        }
    }
}

/// The top-level `env_add_path` of a manifest can be read (it is absent, null or a
/// list of strings).
pub open spec fn top_paths_ok(json: JsonValue) -> bool {
    let top = member(json, "env_add_path"@);
    absent_or_null(top) || path_list_of(top.unwrap()) is Ok
}

/// The top-level `env_set` of a manifest can be read.
pub open spec fn top_vars_ok(json: JsonValue) -> bool {
    let top = member(json, "env_set"@);
    absent_or_null(top) || env_vars_of(top.unwrap()) is Ok
}

/// The directories a manifest adds to the PATH: the top-level `env_add_path`
/// followed by the one for `arch`; `ArchError` when the architecture is unknown
/// and the top-level list could be read.
pub fn find_all_added_paths(json_body: &JsonValue, arch: Option<Arch>) -> (res: Result<
    Vec<String>,
    ParseJsonError,
>)
    ensures
        match arch {
            None => res == Err::<Vec<String>, ParseJsonError>(
                if top_paths_ok(*json_body) {
                    ParseJsonError::ArchError
                } else {
                    ParseJsonError::EnvPathFormatError
                },
            ),
            Some(a) => match res {
                Ok(v) => env_paths_of(*json_body, a) == Ok::<_, ParseErrorView>(strings_view(v@)),
                Err(e) => env_paths_of(*json_body, a) is Err && e
                    == ParseJsonError::EnvPathFormatError,
            },
        },
{
    match arch {
        Some(a) => match get_env_paths(json_body, a) {
            Ok(v) => Ok(v),
            Err(_) => Err(ParseJsonError::EnvPathFormatError),
        },
        None => {
            let top = json_body.get_member("env_add_path");
            if !is_absent_or_null(top) {
                if env_path_to_vec(top.unwrap()).is_err() {
                    return Err(ParseJsonError::EnvPathFormatError);
                }
            }
            Err(ParseJsonError::ArchError)
        },
    }
}

/// The environment variables a manifest sets: the top-level `env_set` followed by
/// the one for `arch`; `ArchError` when the architecture is unknown and the
/// top-level variables could be read.
pub fn get_env_variables(json_body: &JsonValue, arch: Option<Arch>) -> (res: Result<
    Vec<EnvVar>,
    ParseJsonError,
>)
    ensures
        match arch {
            None => res == Err::<Vec<EnvVar>, ParseJsonError>(
                if top_vars_ok(*json_body) {
                    ParseJsonError::ArchError
                } else {
                    ParseJsonError::EnvVarFormatError
                },
            ),
            Some(a) => match res {
                Ok(v) => env_variables_of(*json_body, a) == Ok::<_, ParseErrorView>(
                    env_vars_view(v@),
                ),
                Err(e) => env_variables_of(*json_body, a) is Err && e
                    == ParseJsonError::EnvVarFormatError,
            },
        },
{
    match arch {
        Some(a) => match crate::parsing::parse_json::get_env_variables(json_body, a) {
            Ok(v) => Ok(v),
            Err(_) => Err(ParseJsonError::EnvVarFormatError),
        },
        None => {
            let top = json_body.get_member("env_set");
            if !is_absent_or_null(top) {
                if EnvVar::from_value(top.unwrap()).is_err() {
                    return Err(ParseJsonError::EnvVarFormatError);
                }
            }
            Err(ParseJsonError::ArchError)
        },
    }
}

/// What searching only the top-level `bin` of a manifest gives; `None` when the
/// search cannot finish.
pub open spec fn top_bin_outcome(json: JsonValue, query: Seq<char>) -> Option<
    Result<bool, ParseErrorView>,
> {
    let top = member(json, "bin"@);
    if absent_or_null(top) {
        Some(Ok(false))
    } else {
        bin_outcome(top.unwrap(), query)
    }
}

/// Whether a program that the manifest puts on the PATH has a name or alias
/// containing `query`; when the architecture is unknown the search stops with
/// `ArchError` after the top-level `bin` found nothing.
pub fn query_bin(json_body: &JsonValue, query: &str, arch: Option<Arch>) -> (res: Result<
    bool,
    ParseJsonError,
>)
    requires
        match arch {
            Some(a) => query_bin_outcome(*json_body, query@, a) is Some,
            None => top_bin_outcome(*json_body, query@) is Some,
        },
    ensures
        match arch {
            Some(a) => match query_bin_outcome(*json_body, query@, a) {
                Some(Ok(b)) => res == Ok::<bool, ParseJsonError>(b),
                _ => res == Err::<bool, ParseJsonError>(ParseJsonError::BinFormatError),
            },
            None => match top_bin_outcome(*json_body, query@) {
                Some(Ok(true)) => res == Ok::<bool, ParseJsonError>(true),
                Some(Ok(false)) => res == Err::<bool, ParseJsonError>(ParseJsonError::ArchError),
                _ => res == Err::<bool, ParseJsonError>(ParseJsonError::BinFormatError),
            },
        },
{
    match arch {
        Some(a) => match crate::parsing::parse_json::query_bin(json_body, query, a) {
            Ok(b) => Ok(b),
            Err(_) => Err(ParseJsonError::BinFormatError),
        },
        None => {
            let top = json_body.get_member("bin");
            if !is_absent_or_null(top) {
                match check_bin(top.unwrap(), query) {
                    Ok(true) => {
                        return Ok(true);
                    },
                    Ok(false) => {},
                    Err(_) => {
                        return Err(ParseJsonError::BinFormatError);
                    },
                }
            }
            Err(ParseJsonError::ArchError)
        },
    }
}

/// The version of a manifest: its string member `version`.
pub fn get_version(json_body: &JsonValue) -> (res: Result<String, ParseJsonError>)
    ensures
        match res {
            Ok(v) => member(*json_body, "version"@) matches Some(x)
                && crate::json::string_of_json(x) == Some(v@),
            Err(e) => e == ParseJsonError::MissingVersionError && !(member(
                *json_body,
                "version"@,
            ) matches Some(x) && crate::json::string_of_json(x) is Some),
        },
{
    match get_version_detailed(json_body) {
        Ok(v) => Ok(v),
        Err(_) => Err(ParseJsonError::MissingVersionError),
    }
}

} // verus!
