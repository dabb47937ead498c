//! Errors of installing the packages of a `depy.json` document.
use vstd::prelude::*;

verus! {

/// Why installing from a `depy.json` document failed.
#[derive(Debug, PartialEq, Eq, Clone, Copy)]
pub enum InstallerError {
    /// The document is not an array of packages.
    JsonFormatError,
    /// A manifest could not be downloaded.
    ResponseError,
}

/// The text shown to the user for `e`.
pub open spec fn installer_error_text(e: InstallerError) -> Seq<char> {
    match e {
        InstallerError::JsonFormatError => "Error: Invalid install json format!"@,
        InstallerError::ResponseError => "Error: Invalid response recieved!"@,
    }
}

impl InstallerError {
    /// The text shown to the user for this error.
    pub fn message(&self) -> (res: &'static str)
        ensures
            res@ == installer_error_text(*self),
    {
        match self {
            InstallerError::JsonFormatError => "Error: Invalid install json format!",
            InstallerError::ResponseError => "Error: Invalid response recieved!",
        }
    }
}

} // verus!
