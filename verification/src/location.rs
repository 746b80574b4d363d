use vstd::prelude::*;

use crate::error::ProjectError;
use crate::path_str::{dirname, dirname_view};
use crate::project_path::{AbsoluteDir, AbsoluteRegularFile, AsPath};

verus! {

/// Where a project's manifest lives, as reported by an external lookup.
#[derive(Debug, Clone, PartialEq, Eq)]
pub struct ProjectLocation {
    manifest: String,
}

impl ProjectLocation {
    /// The absolute path of the manifest file.
    pub closed spec fn manifest_view(&self) -> Seq<char> {
        self.manifest@
    }

    pub fn new(manifest: String) -> (located: ProjectLocation)
        ensures
            located.manifest_view() == manifest@,
    {
        ProjectLocation { manifest }
    }

    /// Check that the manifest currently exists as a regular file.
    pub fn manifest(&self) -> (checked: Result<AbsoluteRegularFile, ProjectError>)
        ensures
            (checked matches Ok(file) ==> file.path_view() == self.manifest_view()),
            (checked matches Err(error) ==> error is Io),
    {
        AbsoluteRegularFile::verified(self.manifest.as_str())
    }

    /// The directory holding the manifest, checked to exist: the project's
    /// root.
    pub fn root(&self) -> (checked: Result<AbsoluteDir, ProjectError>)
        ensures
            (checked matches Ok(found) ==> found.path_view() == dirname_view(
                self.manifest_view(),
            )),
            (checked matches Err(error) ==> error is Io),
    {
        match self.manifest() {
            Ok(_) => {
                let parent = dirname(self.manifest.as_str());
                AbsoluteDir::verified(parent.as_str())
            },
            Err(error) => Err(error),
        }
    }
}

} // verus!
