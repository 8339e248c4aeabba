//! Deployment decisions: what a package argument denotes.
//!
//! URL parsing and filesystem metadata come from outside; the rule that
//! dispatches on them is decided here.

use crate::strutil::str_eq;
use vstd::prelude::*;

verus! {

/// What a package argument turned out to be.
#[derive(Clone, Copy, Debug, PartialEq, Eq, Structural)]
pub enum DeployKind {
    /// A `file` URL naming one WASM module.
    LocalModule,
    /// A `file` URL naming a package directory.
    LocalPackageDir,
    /// An `http` or `https` URL to fetch from.
    RemoteUrl,
    /// Not a URL: a package slug.
    Slug,
}

/// Deployment argument errors.
#[derive(Clone, Copy, Debug, PartialEq, Eq, Structural)]
pub enum DeployError {
    /// A `file` URL that names neither a file nor a directory.
    NoPackage,
    /// A URL scheme this command does not support.
    UnsupportedScheme,
}

/// Decides what the package argument denotes: given the scheme of the
/// argument when it parses as a base URL, and for `file` URLs whether the
/// path is a file or a directory.
pub fn deploy_kind(scheme: Option<&str>, is_file: bool, is_dir: bool) -> (r: Result<
    DeployKind,
    DeployError,
>)
    ensures
        match scheme {
            None => r == Ok::<DeployKind, DeployError>(DeployKind::Slug),
            Some(s) => {
                if s@ == "file"@ {
                    if is_file {
                        r == Ok::<DeployKind, DeployError>(DeployKind::LocalModule)
                    } else if is_dir {
                        r == Ok::<DeployKind, DeployError>(DeployKind::LocalPackageDir)
                    } else {
                        r == Err::<DeployKind, DeployError>(DeployError::NoPackage)
                    }
                } else if s@ == "http"@ || s@ == "https"@ {
                    r == Ok::<DeployKind, DeployError>(DeployKind::RemoteUrl)
                } else {
                    r == Err::<DeployKind, DeployError>(DeployError::UnsupportedScheme)
                }
            },
        },
{
    match scheme {
        None => Ok(DeployKind::Slug),
        Some(s) => {
            if str_eq(s, "file") {
                if is_file {
                    Ok(DeployKind::LocalModule)
                } else if is_dir {
                    Ok(DeployKind::LocalPackageDir)
                } else {
                    Err(DeployError::NoPackage)
                }
            } else if str_eq(s, "http") || str_eq(s, "https") {
                Ok(DeployKind::RemoteUrl)
            } else {
                Err(DeployError::UnsupportedScheme)
            }
        },
    }
}

} // verus!
