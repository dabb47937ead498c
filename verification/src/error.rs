//! The error of an operation that can fail in more than one part of depy.
use vstd::prelude::*;
use crate::installer::{InstallerError, installer_error_text};
use crate::package::error::{PackageError, package_error_text};
use crate::parsing::error::{ParseError, parse_error_text};
use crate::shell::error::{ShellError, shell_error_text};

verus! {

/// An error from any part of depy.
#[derive(Debug, PartialEq, Eq)]
pub enum DepyError {
    Shell(ShellError),
    Parse(ParseError),
    Package(PackageError),
    Installer(InstallerError),
}

impl DepyError {
    /// The text shown to the user for this error: that of the error it holds.
    pub fn message(&self) -> (res: String)
        ensures
            match self {
                DepyError::Shell(e) => res@ == shell_error_text(*e),
                DepyError::Parse(e) => res@ == parse_error_text(e@),
                DepyError::Package(e) => res@ == package_error_text(*e),
                DepyError::Installer(e) => res@ == installer_error_text(*e),
            },
    {
        match self {
            DepyError::Shell(e) => e.message(),
            DepyError::Parse(e) => e.message(),
            DepyError::Package(e) => e.message(),
            DepyError::Installer(e) => String::from_str(e.message()),
        }
    }
}

} // verus!
