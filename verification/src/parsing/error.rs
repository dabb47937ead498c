//! Errors met while reading scoop manifests.
use vstd::prelude::*;
use crate::text::join2;

verus! {

/// Why a scoop manifest could not be read.
#[derive(Debug, PartialEq, Eq)]
pub enum ParseError {
    /// Building a manifest failed, with the reason.
    ManifestCreateError(String),
    /// `env_set` is malformed, with the details.
    EnvVariableFormatError(String),
    /// `env_add_path` is malformed, with the details.
    EnvPathFormatError(String),
    /// `bin` is malformed, with the details.
    BinFormatError(String),
    /// The manifest has no string `version`.
    MissingVersionError,
    /// A manifest file could not be read: the file and the reason.
    ManifestReadError(String, String),
    /// A manifest file is not JSON: the file and the reason.
    ManifestParseError(String, String),
}

/// A `ParseError` with its texts as character sequences.
pub enum ParseErrorView {
    ManifestCreateError(Seq<char>),
    EnvVariableFormatError(Seq<char>),
    EnvPathFormatError(Seq<char>),
    BinFormatError(Seq<char>),
    MissingVersionError,
    ManifestReadError(Seq<char>, Seq<char>),
    ManifestParseError(Seq<char>, Seq<char>),
}

impl View for ParseError {
    type V = ParseErrorView;

    open spec fn view(&self) -> ParseErrorView {
        match self {
            ParseError::ManifestCreateError(m) => ParseErrorView::ManifestCreateError(m@),
            ParseError::EnvVariableFormatError(m) => ParseErrorView::EnvVariableFormatError(m@),
            ParseError::EnvPathFormatError(m) => ParseErrorView::EnvPathFormatError(m@),
            ParseError::BinFormatError(m) => ParseErrorView::BinFormatError(m@),
            ParseError::MissingVersionError => ParseErrorView::MissingVersionError,
            ParseError::ManifestReadError(f, m) => ParseErrorView::ManifestReadError(f@, m@),
            ParseError::ManifestParseError(f, m) => ParseErrorView::ManifestParseError(f@, m@),
        }
    }
}

/// The text shown to the user for `e`.
pub open spec fn parse_error_text(e: ParseErrorView) -> Seq<char> {
    match e {
        ParseErrorView::ManifestCreateError(m) =>
            "Error: Couldn't create a manifest from a given json!\nGot error "@ + m,
        ParseErrorView::EnvVariableFormatError(m) =>
            "Error: Couldn't parse an environment variable from a given json!\nFormat error was "@
                + m,
        ParseErrorView::EnvPathFormatError(m) =>
            "Error: Couldn't parse an env_add_path from a given json!\nFormat error was "@ + m,
        ParseErrorView::BinFormatError(m) =>
            "Error: Improperly formated bin attribute!\nFormat error was "@ + m,
        ParseErrorView::MissingVersionError => "Error: Couldn't find a version attribute"@,
        ParseErrorView::ManifestReadError(f, m) =>
            "Error: Couldn't read manifest: "@ + f + "!\nGot error: "@ + m,
        ParseErrorView::ManifestParseError(f, m) =>
            "Error: Couldn't parse manifest: "@ + f + "!\nGot error: "@ + m,
    }
}

impl ParseError {
    /// The text shown to the user for this error.
    pub fn message(&self) -> (res: String)
        ensures
            res@ == parse_error_text(self@),
    {
        match self {
            ParseError::ManifestCreateError(m) => join2(
                "Error: Couldn't create a manifest from a given json!\nGot error ",
                m.as_str(),
            ),
            ParseError::EnvVariableFormatError(m) => join2(
                "Error: Couldn't parse an environment variable from a given json!\nFormat error was ",
                m.as_str(),
            ),
            ParseError::EnvPathFormatError(m) => join2(
                "Error: Couldn't parse an env_add_path from a given json!\nFormat error was ",
                m.as_str(),
            ),
            ParseError::BinFormatError(m) => join2(
                "Error: Improperly formated bin attribute!\nFormat error was ",
                m.as_str(),
            ),
            ParseError::MissingVersionError => String::from_str(
                "Error: Couldn't find a version attribute",
            ),
            ParseError::ManifestReadError(f, m) => {
                let a = join2("Error: Couldn't read manifest: ", f.as_str());
                let b = join2(a.as_str(), "!\nGot error: ");
                join2(b.as_str(), m.as_str())
            },
            ParseError::ManifestParseError(f, m) => {
                let a = join2("Error: Couldn't parse manifest: ", f.as_str());
                let b = join2(a.as_str(), "!\nGot error: ");
                join2(b.as_str(), m.as_str())
            },
        }
    }
}

} // verus!
