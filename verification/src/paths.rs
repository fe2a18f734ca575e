//! File system paths. A path is carried as the platform gives it; the library
//! reads nothing of it but what the calls below hand out.

use std::path::PathBuf;
use vstd::prelude::*;

verus! {

/// `std::path::PathBuf`, opaque to the verifier.
#[verifier::external_type_specification]
#[verifier::external_body]
pub struct ExPathBuf(std::path::PathBuf);

/// The last component of a path as text.
///
/// Calls `Path::file_name`; the name it returns is turned into a `String`,
/// with a replacement character for what is not Unicode. The call returns no
/// name where the path ends in `..`. Nothing is claimed of the result: which
/// part of a path is its last component depends on the platform.
#[verifier::external_body]
pub(crate) fn file_name_text(path: &PathBuf) -> (name: Option<String>) {
    path.file_name().map(|name| name.to_string_lossy().into_owned())
}

/// A path extended by one component.
///
/// Calls `Path::join`. Nothing is claimed of the result: the separator is the
/// platform's.
#[verifier::external_body]
pub(crate) fn join(base: &PathBuf, component: &str) -> (joined: PathBuf) {
    base.join(component)
}

/// The directory in which the platform keeps the configuration of the
/// user's programs.
///
/// Calls `dirs::config_dir`, which reads the environment of the process.
/// Nothing is claimed of the result: there may be no such directory, and two
/// calls may differ.
#[verifier::external_body]
pub(crate) fn platform_config_dir() -> (dir: Option<PathBuf>) {
    dirs::config_dir()
}

/// The name to show for a file: the last component of its path, or nothing
/// where the path has none.
pub(crate) fn display_name(path: &PathBuf) -> (name: String) {
    name_or_empty(file_name_text(path))
}

/// The name to show, given the last component that was found for a path:
/// the component itself, or the empty text where none was found.
pub(crate) fn name_or_empty(found: Option<String>) -> (name: String)
    ensures
        match found {
            Some(text) => name == text,
            None => name@ == Seq::<char>::empty(),
        },
{
    match found {
        Some(text) => text,
        None => String::new(),
    }
}

} // verus!
