use vstd::prelude::*;

use crate::error::ProjectError;
use crate::fs_ops;
use crate::path_str::{join_path, join_view};
use crate::project_path::{AbsoluteDir, AbsoluteRegularFile, AsPath};

verus! {

/// A path that was checked, at the moment of construction, to name an
/// existing regular file.
#[derive(Debug, Clone, PartialEq, Eq)]
pub struct ExistingRegularFile {
    path: String,
}

impl ExistingRegularFile {
    /// Wrap a path whose existence as a regular file was just checked by the
    /// caller.
    pub(crate) fn new_unchecked(path: String) -> (handle: ExistingRegularFile)
        ensures
            handle.path_view() == path@,
    {
        ExistingRegularFile { path }
    }

    /// Check that `path` currently names an existing regular file and wrap
    /// it; otherwise pass the filesystem error through.
    pub fn checked(path: &str) -> (handle: Result<ExistingRegularFile, ProjectError>)
        ensures
            (handle matches Ok(file) ==> file.path_view() == path@),
            (handle matches Err(error) ==> error is Io),
    {
        match fs_ops::check_is_file(path) {
            Ok(()) => Ok(ExistingRegularFile { path: path.to_owned() }),
            Err(message) => Err(ProjectError::Io { message }),
        }
    }
}

impl AsPath for ExistingRegularFile {
    closed spec fn path_view(&self) -> Seq<char> {
        self.path@
    }

    fn as_path(&self) -> (path: &str) {
        self.path.as_str()
    }
}

/// A path that was checked, at the moment of construction, to name an
/// existing directory.
#[derive(Debug, Clone, PartialEq, Eq)]
pub struct ExistingDirectory {
    path: String,
}

impl ExistingDirectory {
    /// Wrap a path whose existence as a directory was just checked by the
    /// caller.
    pub(crate) fn new_unchecked(path: String) -> (handle: ExistingDirectory)
        ensures
            handle.path_view() == path@,
    {
        ExistingDirectory { path }
    }

    /// Check that `path` currently names an existing directory and wrap it;
    /// otherwise pass the filesystem error through.
    pub fn checked(path: &str) -> (handle: Result<ExistingDirectory, ProjectError>)
        ensures
            (handle matches Ok(dir) ==> dir.path_view() == path@),
            (handle matches Err(error) ==> error is Io),
    {
        match fs_ops::check_is_dir(path) {
            Ok(()) => Ok(ExistingDirectory { path: path.to_owned() }),
            Err(message) => Err(ProjectError::Io { message }),
        }
    }

    /// Resolve `relative` under this directory and check that it names an
    /// existing directory.
    pub fn dir(self, relative: &str) -> (resolved: Result<ExistingDirectory, ProjectError>)
        ensures
            (resolved matches Ok(dir) ==> dir.path_view() == join_view(
                self.path_view(),
                relative@,
            )),
            (resolved matches Err(error) ==> error is Io),
    {
        let joined = join_path(self.path.as_str(), relative);
        ExistingDirectory::checked(joined.as_str())
    }

    /// Resolve `relative` under this directory and check that it names an
    /// existing regular file.
    pub fn file(self, relative: &str) -> (resolved: Result<ExistingRegularFile, ProjectError>)
        ensures
            (resolved matches Ok(file) ==> file.path_view() == join_view(
                self.path_view(),
                relative@,
            )),
            (resolved matches Err(error) ==> error is Io),
    {
        let joined = join_path(self.path.as_str(), relative);
        ExistingRegularFile::checked(joined.as_str())
    }

    /// Resolve `relative` under this directory into a directory location,
    /// without checking the filesystem.
    pub fn dirname(self, relative: &str) -> (resolved: Result<AbsoluteDir, ProjectError>)
        ensures
            (resolved matches Ok(dir) ==> dir.path_view() == join_view(
                self.path_view(),
                relative@,
            )),
            resolved is Ok,
    {
        let joined = join_path(self.path.as_str(), relative);
        Ok(AbsoluteDir::new(joined))
    }

    /// Resolve `relative` under this directory into a regular-file location,
    /// without checking the filesystem.
    pub fn filename(self, relative: &str) -> (resolved: Result<AbsoluteRegularFile, ProjectError>)
        ensures
            (resolved matches Ok(file) ==> file.path_view() == join_view(
                self.path_view(),
                relative@,
            )),
            resolved is Ok,
    {
        let joined = join_path(self.path.as_str(), relative);
        Ok(AbsoluteRegularFile::new(joined))
    }
}

impl AsPath for ExistingDirectory {
    closed spec fn path_view(&self) -> Seq<char> {
        self.path@
    }

    fn as_path(&self) -> (path: &str) {
        self.path.as_str()
    }
}

} // verus!
