use core::marker::PhantomData;
use vstd::prelude::*;

use crate::error::ProjectError;
use crate::file_type::FileType;
use crate::fs_ops;
use crate::handles::{ExistingDirectory, ExistingRegularFile};
use crate::path_str::{join_path, join_view};

verus! {

/// The existence policy attached to a declared path.
#[derive(Debug, Clone, Copy, PartialEq, Eq, Structural)]
pub enum FileExpectation {
    /// Expect this path to exist. If it doesn't exist, it's an error.
    MustAlreadyExist,
    /// Expect this path not to exist. If it exists, it's an error.
    MayNotAlreadyExist,
    /// This path may or may not exist. If it doesn't exist, make it.
    Touch,
}

impl Default for FileExpectation {
    fn default() -> (expectation: Self)
        ensures
            expectation == FileExpectation::Touch,
    {
        FileExpectation::Touch
    }
}

/// What a path's current state means under a given expectation.
#[derive(Debug, Clone, Copy, PartialEq, Eq, Structural)]
pub enum FileStatus {
    Exists,
    ShouldTouch,
    DoesNotExistError,
    DoesExistError,
}

/// The status table: given an expectation and whether the path currently
/// exists, decide what (if anything) must happen.
pub open spec fn spec_status(expectation: FileExpectation, exists: bool) -> FileStatus {
    match (expectation, exists) {
        (FileExpectation::MustAlreadyExist, true) => FileStatus::Exists,
        (FileExpectation::MustAlreadyExist, false) => FileStatus::DoesNotExistError,
        (FileExpectation::MayNotAlreadyExist, true) => FileStatus::DoesExistError,
        (FileExpectation::MayNotAlreadyExist, false) => FileStatus::ShouldTouch,
        (FileExpectation::Touch, true) => FileStatus::Exists,
        (FileExpectation::Touch, false) => FileStatus::ShouldTouch,
    }
}

/// Compute the status of a path from its expectation and its probed existence.
pub fn status_of(expectation: FileExpectation, exists: bool) -> (status: FileStatus)
    ensures
        status == spec_status(expectation, exists),
{
    match (expectation, exists) {
        (FileExpectation::MustAlreadyExist, true) => FileStatus::Exists,
        (FileExpectation::MustAlreadyExist, false) => FileStatus::DoesNotExistError,
        (FileExpectation::MayNotAlreadyExist, true) => FileStatus::DoesExistError,
        (FileExpectation::MayNotAlreadyExist, false) => FileStatus::ShouldTouch,
        (FileExpectation::Touch, true) => FileStatus::Exists,
        (FileExpectation::Touch, false) => FileStatus::ShouldTouch,
    }
}

/// For every `(expectation, exists)` pair the status table holds exactly:
/// each of the six cases maps to the single status listed here.
pub proof fn lemma_status_table()
    ensures
        spec_status(FileExpectation::MustAlreadyExist, true) == FileStatus::Exists,
        spec_status(FileExpectation::MustAlreadyExist, false) == FileStatus::DoesNotExistError,
        spec_status(FileExpectation::MayNotAlreadyExist, true) == FileStatus::DoesExistError,
        spec_status(FileExpectation::MayNotAlreadyExist, false) == FileStatus::ShouldTouch,
        spec_status(FileExpectation::Touch, true) == FileStatus::Exists,
        spec_status(FileExpectation::Touch, false) == FileStatus::ShouldTouch,
{
}

/// Read access to the absolute path a value stands for.
pub trait AsPath {
    /// The path as a sequence of characters.
    spec fn path_view(&self) -> Seq<char>;

    /// The path as a string slice.
    fn as_path(&self) -> (path: &str)
        ensures
            path@ == self.path_view();
}

/// How an error returned by `resolve` relates to the path, kind and
/// expectation it arose under: expectation violations carry exactly the
/// resolved path and the declared kind, and each arises only under the one
/// expectation that forbids the observed state; filesystem errors are passed
/// through.
pub open spec fn matches_resolve_error(
    error: ProjectError,
    path: Seq<char>,
    kind: FileType,
    expectation: FileExpectation,
) -> bool {
    match error {
        ProjectError::MissingFile { path: reported, kind: reported_kind } => {
            &&& expectation is MustAlreadyExist
            &&& reported@ == path
            &&& reported_kind == kind
        },
        ProjectError::UnexpectedPresentFile { path: reported, kind: reported_kind } => {
            &&& expectation is MayNotAlreadyExist
            &&& reported@ == path
            &&& reported_kind == kind
        },
        ProjectError::Io { .. } => true,
    }
}

/// A typed absolute location on disk: either a regular-file location or a
/// directory location, not yet known to exist.
pub trait ProjectPath: AsPath + Sized + Clone {
    /// The verified handle this location resolves to.
    type Output: AsPath;

    /// The filesystem kind this type of location stands for.
    spec fn kind_spec() -> FileType;

    fn kind() -> (kind: FileType)
        ensures
            kind == Self::kind_spec();

    /// Wrap an absolute path string as a location of this kind.
    fn from_path(path: String) -> (located: Self)
        ensures
            located.path_view() == path@;

    /// Check that the path currently exists with this location's kind and
    /// hand out the verified handle; otherwise pass the filesystem error
    /// through.
    fn to_existing(&self) -> (existing: Result<Self::Output, ProjectError>)
        ensures
            (existing matches Ok(handle) ==> handle.path_view() == self.path_view()),
            (existing matches Err(error) ==> error is Io);

    /// Probe the filesystem and classify this location per the status table.
    fn check(&self, expectation: FileExpectation) -> (status: FileStatus)
        ensures
            exists|present: bool| status == spec_status(expectation, present),
    {
        let present = fs_ops::probe_exists(self.as_path());
        let status = status_of(expectation, present);
        proof {
            assert(status == spec_status(expectation, present));
        }
        status
    }

    /// Apply a touch operation to this location's path.
    fn touch<M: Materializer<Self::Output>>(&self, touch_fn: &M) -> (made: Result<
        Self::Output,
        ProjectError,
    >)
        ensures
            (made matches Ok(handle) ==> handle.path_view() == self.path_view()),
            (made matches Err(error) ==> error is Io),
    {
        touch_fn.materialize(self.as_path())
    }

    /// Probe the path, classify it per the status table, and act: hand out a
    /// verified handle when the path exists, run the touch operation when it
    /// should be created, and fail without touching the filesystem when the
    /// expectation is violated.
    fn resolve<M: Materializer<Self::Output>>(&self, expectation: FileExpectation, touch_fn: &M) -> (resolved:
        Result<Self::Output, ProjectError>)
        ensures
            (resolved matches Ok(handle) ==> handle.path_view() == self.path_view()),
            (resolved matches Err(error) ==> matches_resolve_error(
                error,
                self.path_view(),
                Self::kind_spec(),
                expectation,
            )),
    {
        let status = self.check(expectation);
        proof {
            let present = choose|b: bool| status == spec_status(expectation, b);
            assert(status == spec_status(expectation, present));
        }
        match status {
            FileStatus::Exists => self.to_existing(),
            FileStatus::ShouldTouch => self.touch(touch_fn),
            FileStatus::DoesNotExistError => Err(
                ProjectError::MissingFile { path: self.as_path().to_owned(), kind: Self::kind() },
            ),
            FileStatus::DoesExistError => Err(
                ProjectError::UnexpectedPresentFile {
                    path: self.as_path().to_owned(),
                    kind: Self::kind(),
                },
            ),
        }
    }
}

/// A touch operation: materializes the filesystem entry at an absolute path
/// and returns the verified handle, which points at exactly the requested
/// path. A failure is surfaced as the underlying filesystem error.
pub trait Materializer<Out: AsPath> {
    fn materialize(&self, path: &str) -> (made: Result<Out, ProjectError>)
        ensures
            (made matches Ok(handle) ==> handle.path_view() == path@),
            (made matches Err(error) ==> error is Io);
}

/// The default touch operation for regular files: create an empty file.
#[derive(Debug, Clone, Copy, PartialEq, Eq)]
pub struct CreateEmptyFile;

impl Materializer<ExistingRegularFile> for CreateEmptyFile {
    fn materialize(&self, path: &str) -> (made: Result<ExistingRegularFile, ProjectError>) {
        match fs_ops::create_file_entry(path) {
            Ok(()) => Ok(ExistingRegularFile::new_unchecked(path.to_owned())),
            Err(message) => Err(ProjectError::Io { message }),
        }
    }
}

/// The default touch operation for directories: create the directory and any
/// missing ancestors.
#[derive(Debug, Clone, Copy, PartialEq, Eq)]
pub struct CreateDirAll;

impl Materializer<ExistingDirectory> for CreateDirAll {
    fn materialize(&self, path: &str) -> (made: Result<ExistingDirectory, ProjectError>) {
        match fs_ops::create_dir_recursive(path) {
            Ok(()) => Ok(ExistingDirectory::new_unchecked(path.to_owned())),
            Err(message) => Err(ProjectError::Io { message }),
        }
    }
}

/// An absolute path expected to denote a regular file.
#[derive(Debug, Clone, PartialEq, Eq)]
pub struct AbsoluteRegularFile {
    path: String,
}

impl AbsoluteRegularFile {
    pub fn new(path: String) -> (located: AbsoluteRegularFile)
        ensures
            located.path_view() == path@,
    {
        AbsoluteRegularFile { path }
    }

    /// Check that `path` currently names an existing regular file.
    pub fn verified(path: &str) -> (checked: Result<AbsoluteRegularFile, ProjectError>)
        ensures
            (checked matches Ok(file) ==> file.path_view() == path@),
            (checked matches Err(error) ==> error is Io),
    {
        match fs_ops::check_is_file(path) {
            Ok(()) => Ok(AbsoluteRegularFile { path: path.to_owned() }),
            Err(message) => Err(ProjectError::Io { message }),
        }
    }

    /// Re-check that this location currently names an existing regular file.
    pub fn verify(self) -> (checked: Result<AbsoluteRegularFile, ProjectError>)
        ensures
            (checked matches Ok(file) ==> file.path_view() == self.path_view()),
            (checked matches Err(error) ==> error is Io),
    {
        match fs_ops::check_is_file(self.path.as_str()) {
            Ok(()) => Ok(self),
            Err(message) => Err(ProjectError::Io { message }),
        }
    }
}

impl AsPath for AbsoluteRegularFile {
    closed spec fn path_view(&self) -> Seq<char> {
        self.path@
    }

    fn as_path(&self) -> (path: &str) {
        self.path.as_str()
    }
}

impl ProjectPath for AbsoluteRegularFile {
    type Output = ExistingRegularFile;

    open spec fn kind_spec() -> FileType {
        FileType::RegularFile
    }

    fn kind() -> (kind: FileType) {
        FileType::RegularFile
    }

    fn from_path(path: String) -> (located: Self) {
        AbsoluteRegularFile { path }
    }

    fn to_existing(&self) -> (existing: Result<ExistingRegularFile, ProjectError>) {
        match fs_ops::check_is_file(self.path.as_str()) {
            Ok(()) => Ok(ExistingRegularFile::new_unchecked(self.path.clone())),
            Err(message) => Err(ProjectError::Io { message }),
        }
    }
}

/// An absolute path expected to denote a directory.
#[derive(Debug, Clone, PartialEq, Eq)]
pub struct AbsoluteDir {
    path: String,
}

impl AbsoluteDir {
    pub fn new(path: String) -> (located: AbsoluteDir)
        ensures
            located.path_view() == path@,
    {
        AbsoluteDir { path }
    }

    /// Check that `path` currently names an existing directory.
    pub fn verified(path: &str) -> (checked: Result<AbsoluteDir, ProjectError>)
        ensures
            (checked matches Ok(dir) ==> dir.path_view() == path@),
            (checked matches Err(error) ==> error is Io),
    {
        match fs_ops::check_is_dir(path) {
            Ok(()) => Ok(AbsoluteDir { path: path.to_owned() }),
            Err(message) => Err(ProjectError::Io { message }),
        }
    }

    /// Re-check that this location currently names an existing directory.
    pub fn verify(self) -> (checked: Result<AbsoluteDir, ProjectError>)
        ensures
            (checked matches Ok(dir) ==> dir.path_view() == self.path_view()),
            (checked matches Err(error) ==> error is Io),
    {
        match fs_ops::check_is_dir(self.path.as_str()) {
            Ok(()) => Ok(self),
            Err(message) => Err(ProjectError::Io { message }),
        }
    }
}

impl AsPath for AbsoluteDir {
    closed spec fn path_view(&self) -> Seq<char> {
        self.path@
    }

    fn as_path(&self) -> (path: &str) {
        self.path.as_str()
    }
}

impl ProjectPath for AbsoluteDir {
    type Output = ExistingDirectory;

    open spec fn kind_spec() -> FileType {
        FileType::Directory
    }

    fn kind() -> (kind: FileType) {
        FileType::Directory
    }

    fn from_path(path: String) -> (located: Self) {
        AbsoluteDir { path }
    }

    fn to_existing(&self) -> (existing: Result<ExistingDirectory, ProjectError>) {
        match fs_ops::check_is_dir(self.path.as_str()) {
            Ok(()) => Ok(ExistingDirectory::new_unchecked(self.path.clone())),
            Err(message) => Err(ProjectError::Io { message }),
        }
    }
}

/// A declared path: a relative fragment to resolve against a project root,
/// together with its existence policy and its touch operation.
#[derive(Debug)]
pub struct RelativePath<P, M> where P: ProjectPath, M: Materializer<P::Output> {
    path: String,
    touch_fn: M,
    expectation: FileExpectation,
    kind: PhantomData<P>,
}

impl<P: ProjectPath, M: Materializer<P::Output>> RelativePath<P, M> {
    /// The declared relative fragment.
    pub closed spec fn rel_view(&self) -> Seq<char> {
        self.path@
    }

    /// The declared existence policy.
    pub closed spec fn spec_expectation(&self) -> FileExpectation {
        self.expectation
    }

    /// The declared touch operation.
    pub closed spec fn spec_touch_fn(&self) -> M {
        self.touch_fn
    }

    pub fn expectation(&self) -> (expectation: FileExpectation)
        ensures
            expectation == self.spec_expectation(),
    {
        self.expectation
    }

    pub fn relative(&self) -> (fragment: &str)
        ensures
            fragment@ == self.rel_view(),
    {
        self.path.as_str()
    }

    /// A copy of this declaration whose policy requires the path to already
    /// exist. The receiver is consumed; nothing else changes.
    pub fn must_exist(self) -> (declared: Self)
        ensures
            declared.spec_expectation() is MustAlreadyExist,
            declared.rel_view() == self.rel_view(),
            declared.spec_touch_fn() == self.spec_touch_fn(),
    {
        Self { expectation: FileExpectation::MustAlreadyExist, ..self }
    }

    /// A copy of this declaration whose policy requires the path to be
    /// absent, so that resolving it creates it. The receiver is consumed;
    /// nothing else changes.
    pub fn create(self) -> (declared: Self)
        ensures
            declared.spec_expectation() is MayNotAlreadyExist,
            declared.rel_view() == self.rel_view(),
            declared.spec_touch_fn() == self.spec_touch_fn(),
    {
        Self { expectation: FileExpectation::MayNotAlreadyExist, ..self }
    }

    /// A copy of this declaration with another touch operation. The receiver
    /// is consumed; nothing else changes.
    pub fn with_touch_fn<N: Materializer<P::Output>>(self, touch_fn: N) -> (declared: RelativePath<P, N>)
        ensures
            declared.spec_expectation() == self.spec_expectation(),
            declared.rel_view() == self.rel_view(),
            declared.spec_touch_fn() == touch_fn,
    {
        RelativePath { path: self.path, touch_fn, expectation: self.expectation, kind: PhantomData }
    }

    /// Resolve this declaration against a verified root directory: probe the
    /// concatenated absolute path, classify it per the status table, and act
    /// on the declared policy.
    pub fn resolve(&self, root: &ExistingDirectory) -> (resolved: Result<P::Output, ProjectError>)
        ensures
            (resolved matches Ok(handle) ==> handle.path_view() == join_view(
                root.path_view(),
                self.rel_view(),
            )),
            (resolved matches Err(error) ==> matches_resolve_error(
                error,
                join_view(root.path_view(), self.rel_view()),
                P::kind_spec(),
                self.spec_expectation(),
            )),
    {
        let joined = join_path(root.as_path(), self.path.as_str());
        let located = P::from_path(joined);
        located.resolve(self.expectation, &self.touch_fn)
    }
}

impl<P: ProjectPath, M: Materializer<P::Output> + Clone> Clone for RelativePath<P, M> {
    /// An independent copy: same fragment, same policy. (What cloning the
    /// touch operation yields is up to its own `Clone`.)
    fn clone(&self) -> (cloned: Self)
        ensures
            cloned.rel_view() == self.rel_view(),
            cloned.spec_expectation() == self.spec_expectation(),
    {
        RelativePath {
            path: self.path.clone(),
            touch_fn: self.touch_fn.clone(),
            expectation: self.expectation,
            kind: PhantomData,
        }
    }
}

/// Declare a regular file at `path`, relative to a project root, with the
/// default policy (touch on demand) and the default touch operation.
pub fn file(path: &str) -> (declared: RelativePath<AbsoluteRegularFile, CreateEmptyFile>)
    ensures
        declared.rel_view() == path@,
        declared.spec_expectation() is Touch,
        declared.spec_touch_fn() == CreateEmptyFile,
{
    RelativePath {
        path: path.to_owned(),
        touch_fn: CreateEmptyFile,
        expectation: FileExpectation::default(),
        kind: PhantomData,
    }
}

/// Declare a directory at `path`, relative to a project root, with the
/// default policy (touch on demand) and the default touch operation.
pub fn dir(path: &str) -> (declared: RelativePath<AbsoluteDir, CreateDirAll>)
    ensures
        declared.rel_view() == path@,
        declared.spec_expectation() is Touch,
        declared.spec_touch_fn() == CreateDirAll,
{
    RelativePath {
        path: path.to_owned(),
        touch_fn: CreateDirAll,
        expectation: FileExpectation::default(),
        kind: PhantomData,
    }
}

/// An absolute location with its existence policy and touch operation.
#[derive(Debug)]
pub struct AbsolutePath<P, M> where P: ProjectPath, M: Materializer<P::Output> {
    path: P,
    touch_fn: M,
    expectation: FileExpectation,
}

impl<P: ProjectPath, M: Materializer<P::Output>> AbsolutePath<P, M> {
    /// The declared existence policy.
    pub closed spec fn spec_expectation(&self) -> FileExpectation {
        self.expectation
    }

    /// The declared touch operation.
    pub closed spec fn spec_touch_fn(&self) -> M {
        self.touch_fn
    }

    pub fn expectation(&self) -> (expectation: FileExpectation)
        ensures
            expectation == self.spec_expectation(),
    {
        self.expectation
    }

    /// Configure an absolute location with the default policy (touch on
    /// demand) and the given touch operation.
    pub fn new(path: P, touch_fn: M) -> (configured: AbsolutePath<P, M>)
        ensures
            configured.path_view() == path.path_view(),
            configured.spec_expectation() is Touch,
            configured.spec_touch_fn() == touch_fn,
    {
        AbsolutePath { path, touch_fn, expectation: FileExpectation::default() }
    }

    /// A copy of this configuration whose policy requires the path to
    /// already exist. The receiver is consumed; nothing else changes.
    pub fn must_exist(self) -> (configured: Self)
        ensures
            configured.spec_expectation() is MustAlreadyExist,
            configured.path_view() == self.path_view(),
            configured.spec_touch_fn() == self.spec_touch_fn(),
    {
        Self { expectation: FileExpectation::MustAlreadyExist, ..self }
    }

    /// A copy of this configuration whose policy requires the path to be
    /// absent, so that resolving it creates it. The receiver is consumed;
    /// nothing else changes.
    pub fn create(self) -> (configured: Self)
        ensures
            configured.spec_expectation() is MayNotAlreadyExist,
            configured.path_view() == self.path_view(),
            configured.spec_touch_fn() == self.spec_touch_fn(),
    {
        Self { expectation: FileExpectation::MayNotAlreadyExist, ..self }
    }

    /// A copy of this configuration with another touch operation. The
    /// receiver is consumed; nothing else changes.
    pub fn with_touch_fn<N: Materializer<P::Output>>(self, touch_fn: N) -> (configured: AbsolutePath<P, N>)
        ensures
            configured.spec_expectation() == self.spec_expectation(),
            configured.path_view() == self.path_view(),
            configured.spec_touch_fn() == touch_fn,
    {
        AbsolutePath { path: self.path, touch_fn, expectation: self.expectation }
    }

    /// Probe this location, classify it per the status table, and act on the
    /// declared policy.
    pub fn resolve(&self) -> (resolved: Result<P::Output, ProjectError>)
        ensures
            (resolved matches Ok(handle) ==> handle.path_view() == self.path_view()),
            (resolved matches Err(error) ==> matches_resolve_error(
                error,
                self.path_view(),
                P::kind_spec(),
                self.spec_expectation(),
            )),
    {
        self.path.resolve(self.expectation, &self.touch_fn)
    }
}

impl<P: ProjectPath, M: Materializer<P::Output> + Clone> Clone for AbsolutePath<P, M> {
    /// An independent copy with the same policy. (What cloning the location
    /// and the touch operation yields is up to their own `Clone` impls.)
    fn clone(&self) -> (cloned: Self)
        ensures
            cloned.spec_expectation() == self.spec_expectation(),
    {
        AbsolutePath {
            path: self.path.clone(),
            touch_fn: self.touch_fn.clone(),
            expectation: self.expectation,
        }
    }
}

impl<P: ProjectPath, M: Materializer<P::Output>> AsPath for AbsolutePath<P, M> {
    closed spec fn path_view(&self) -> Seq<char> {
        self.path.path_view()
    }

    fn as_path(&self) -> (path: &str) {
        self.path.as_path()
    }
}

} // verus!
