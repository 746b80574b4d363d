use vstd::prelude::*;

verus! {

/// Report whether any filesystem entry currently exists at `path`.
///
/// Relies on `std::path::Path::exists`. The answer reflects the state of the
/// disk at the moment of the call, so nothing is promised of it.
#[verifier::external_body]
pub(crate) fn probe_exists(path: &str) -> bool {
    std::path::Path::new(path).exists()
}

/// Check that `path` currently names an existing regular file.
///
/// Relies on `path_abs::PathFile::new`, which returns `Ok` exactly when the
/// path exists and is a regular file. The verdict depends on the disk, so
/// nothing is promised of it; an error is passed through as its message.
#[verifier::external_body]
pub(crate) fn check_is_file(path: &str) -> Result<(), String> {
    match path_abs::PathFile::new(path) {
        Ok(_) => Ok(()),
        Err(error) => Err(error.to_string()),
    }
}

/// Check that `path` currently names an existing directory.
///
/// Relies on `path_abs::PathDir::new`, which returns `Ok` exactly when the
/// path exists and is a directory. The verdict depends on the disk, so
/// nothing is promised of it; an error is passed through as its message.
#[verifier::external_body]
pub(crate) fn check_is_dir(path: &str) -> Result<(), String> {
    match path_abs::PathDir::new(path) {
        Ok(_) => Ok(()),
        Err(error) => Err(error.to_string()),
    }
}

/// Create an empty regular file at `path` (left untouched if already present)
/// and check that a regular file stands there afterwards.
///
/// Relies on `path_abs::PathFile::create`. The outcome depends on the disk,
/// so nothing is promised of it; an error is passed through as its message.
#[verifier::external_body]
pub(crate) fn create_file_entry(path: &str) -> Result<(), String> {
    match path_abs::PathFile::create(path) {
        Ok(_) => Ok(()),
        Err(error) => Err(error.to_string()),
    }
}

/// Create a directory at `path`, together with any missing ancestors, and
/// check that a directory stands there afterwards.
///
/// Relies on `path_abs::PathDir::create_all`. The outcome depends on the
/// disk, so nothing is promised of it; an error is passed through as its
/// message.
#[verifier::external_body]
pub(crate) fn create_dir_recursive(path: &str) -> Result<(), String> {
    match path_abs::PathDir::create_all(path) {
        Ok(_) => Ok(()),
        Err(error) => Err(error.to_string()),
    }
}

} // verus!
