//! Errors met while reading packages out of a `depy.json` document.
use vstd::prelude::*;
use crate::text::join2;

verus! {

/// Why a `depy.json` document or one of its packages could not be read or saved.
#[derive(Debug, PartialEq, Eq)]
pub enum PackageError {
    /// A package is not a JSON object.
    PackageStructureError,
    /// `bucket_url` is missing or not a string.
    BucketUrlFormatError,
    /// `bucket_name` is missing or not a string.
    BucketNameFormatError,
    /// `name` is missing or not a string.
    NameFormatError,
    /// `version` is missing or not a string.
    VersionFormatError,
    /// The document is not an array of packages.
    PacakgeFormatError,
    /// Writing `./depy.json` failed, with the reason.
    PacakgeSaveError(String),
}

/// The text shown to the user for `e`.
pub open spec fn package_error_text(e: PackageError) -> Seq<char> {
    match e {
        PackageError::PackageStructureError =>
            "Error: Invalid package structure!\nExpected each package to be an package_object"@,
        PackageError::BucketUrlFormatError => "Error: Invalid bucket_url format!"@,
        PackageError::BucketNameFormatError => "Error: Invalid bucket_name format!"@,
        PackageError::NameFormatError => "Error: Invalid name format!"@,
        PackageError::VersionFormatError => "Error: Invalid version format!"@,
        PackageError::PacakgeFormatError => "Error: Invalid depy.json format!"@,
        PackageError::PacakgeSaveError(m) =>
            "Error: Couldn't save packages to ./depy.json!\nGot error"@ + m@,
    }
}

impl PackageError {
    /// The text shown to the user for this error.
    pub fn message(&self) -> (res: String)
        ensures
            res@ == package_error_text(*self),
    {
        match self {
            PackageError::PackageStructureError => String::from_str(
                "Error: Invalid package structure!\nExpected each package to be an package_object",
            ),
            PackageError::BucketUrlFormatError => String::from_str(
                "Error: Invalid bucket_url format!",
            ),
            PackageError::BucketNameFormatError => String::from_str(
                "Error: Invalid bucket_name format!",
            ),
            PackageError::NameFormatError => String::from_str("Error: Invalid name format!"),
            PackageError::VersionFormatError => String::from_str(
                "Error: Invalid version format!",
            ),
            PackageError::PacakgeFormatError => String::from_str(
                "Error: Invalid depy.json format!",
            ),
            PackageError::PacakgeSaveError(e) => join2(
                "Error: Couldn't save packages to ./depy.json!\nGot error",
                e.as_str(),
            ),
        }
    }
}

} // verus!
