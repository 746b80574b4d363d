//! A typed path-lifecycle layer: declared paths carry an existence policy
//! (must already exist, may not exist yet, or touch on demand), are resolved
//! against a verified project root, and come back as handles whose absolute
//! path is pinned down by contract.

pub mod color;
pub mod command;
pub mod digits;
pub mod error;
pub mod file_type;
mod fs_ops;
pub mod handles;
pub mod location;
pub mod path_str;
pub mod project_path;

pub use crate::error::ProjectError;
pub use crate::file_type::FileType;
pub use crate::handles::{ExistingDirectory, ExistingRegularFile};
pub use crate::project_path::{dir, file, AsPath};
pub use crate::project_path::{
    AbsoluteDir, AbsolutePath, AbsoluteRegularFile, CreateDirAll, CreateEmptyFile,
    FileExpectation, FileStatus, Materializer, ProjectPath, RelativePath,
};

use vstd::prelude::*;
use vstd::string::StringExecFns;

use crate::digits::{decimal, lemma_decimal_identity, spec_decimal};
use crate::path_str::{join_view, str_eq};
use crate::project_path::matches_resolve_error;

verus! {

/// A symbolic key for a declared path: a copyable identifier whose displayed
/// name also serves as its identity.
pub trait PathKey: Sized + Copy {
    /// The key's name.
    spec fn key_view(&self) -> Seq<char>;

    /// Whether two keys are the same.
    fn same_key(&self, other: &Self) -> (same: bool)
        ensures
            same == (self.key_view() == other.key_view());

    /// The key's name, for diagnostics.
    fn describe(&self) -> (name: String)
        ensures
            name@ == self.key_view();
}

impl PathKey for u64 {
    open spec fn key_view(&self) -> Seq<char> {
        spec_decimal(*self as nat)
    }

    fn same_key(&self, other: &Self) -> (same: bool) {
        proof {
            lemma_decimal_identity(*self as nat, *other as nat);
        }
        *self == *other
    }

    fn describe(&self) -> (name: String) {
        decimal(*self)
    }
}

impl PathKey for &'static str {
    open spec fn key_view(&self) -> Seq<char> {
        (*self)@
    }

    fn same_key(&self, other: &Self) -> (same: bool) {
        str_eq(*self, *other)
    }

    fn describe(&self) -> (name: String) {
        (*self).to_owned()
    }
}

/// A fatal fault from the project path map: either a key that was never
/// declared (a configuration bug, as opposed to a path merely missing on
/// disk) or a resolution failure re-raised with the key and partition it
/// arose under.
#[derive(Debug, Clone, PartialEq, Eq)]
pub enum Fault {
    /// The requested key was never declared in this partition.
    UnregisteredKey { key: String, kind: &'static str },
    /// Resolving the key's declared path failed.
    Resolution { key: String, kind: &'static str, error: ProjectError },
}

impl Fault {
    /// The human-readable diagnostic for this fault, naming the key and the
    /// partition it was requested from.
    pub open spec fn message_view(self) -> Seq<char> {
        match self {
            Fault::UnregisteredKey { key, kind } => "No "@ + kind@ + " found for "@ + key@,
            Fault::Resolution { key, kind, error } => "There was an error while getting "@ + key@
                + " ("@ + kind@ + "): "@ + error.message_view(),
        }
    }

    pub fn message(&self) -> (text: String)
        ensures
            text@ == self.message_view(),
    {
        match self {
            Fault::UnregisteredKey { key, kind } => {
                let mut text = "No ".to_owned();
                text.append(kind);
                text.append(" found for ");
                text.append(key.as_str());
                proof {
                    assert(text@ =~= self.message_view());
                }
                text
            },
            Fault::Resolution { key, kind, error } => {
                let mut text = "There was an error while getting ".to_owned();
                text.append(key.as_str());
                text.append(" (");
                text.append(kind);
                text.append("): ");
                let detail = error.message();
                text.append(detail.as_str());
                proof {
                    assert(text@ =~= self.message_view());
                }
                text
            },
        }
    }
}

/// An immutable registry binding symbolic keys to declared paths within one
/// partition (regular files or directories) of a project.
#[derive(Debug)]
pub struct PathMap<Key, P, M> where
    Key: PathKey,
    P: ProjectPath,
    M: Materializer<P::Output>,
 {
    kind: &'static str,
    entries: Vec<(Key, RelativePath<P, M>)>,
}

impl<Key, P, M> PathMap<Key, P, M> where
    Key: PathKey,
    P: ProjectPath,
    M: Materializer<P::Output>,
 {
    /// Keys are unique within the partition.
    #[verifier::type_invariant]
    pub closed spec fn wf(self) -> bool {
        forall|i: int, j: int|
            0 <= i < j < self.entries@.len() ==> self.entries@[i].0.key_view()
                != self.entries@[j].0.key_view()
    }

    /// The partition's name ("regular file" or "directory").
    pub closed spec fn kind_view(self) -> Seq<char> {
        self.kind@
    }

    /// The registered bindings, in declaration order.
    pub closed spec fn entries_view(self) -> Seq<(Key, RelativePath<P, M>)> {
        self.entries@
    }

    /// Whether a key with this name was declared.
    pub open spec fn spec_contains(self, key: Key) -> bool {
        exists|i: int|
            0 <= i < self.entries_view().len() && self.entries_view()[i].0.key_view()
                == key.key_view()
    }

    /// The declared path registered under `key`.
    pub open spec fn spec_entry(self, key: Key) -> RelativePath<P, M> {
        self.entries_view()[choose|i: int|
            0 <= i < self.entries_view().len() && self.entries_view()[i].0.key_view()
                == key.key_view()].1
    }

    /// The relative fragment registered under `key`.
    pub open spec fn spec_rel_of(self, key: Key) -> Seq<char> {
        self.spec_entry(key).rel_view()
    }

    /// Build a partition from its name and bindings; keys must be distinct.
    pub fn new(kind: &'static str, entries: Vec<(Key, RelativePath<P, M>)>) -> (map: PathMap<
        Key,
        P,
        M,
    >)
        requires
            forall|i: int, j: int|
                0 <= i < j < entries@.len() ==> entries@[i].0.key_view()
                    != entries@[j].0.key_view(),
        ensures
            map.kind_view() == kind@,
            map.entries_view() == entries@,
    {
        PathMap { kind, entries }
    }

    /// Look up the declared path registered under `key`.
    fn find(&self, key: Key) -> (found: Option<&RelativePath<P, M>>)
        ensures
            match found {
                Some(declared) => self.spec_contains(key) && *declared == self.spec_entry(key),
                None => !self.spec_contains(key),
            },
    {
        proof {
            use_type_invariant(self);
        }
        let count = self.entries.len();
        let mut at: usize = 0;
        while at < count
            invariant
                count == self.entries@.len(),
                at <= count,
                self.wf(),
                forall|j: int| 0 <= j < at ==> self.entries@[j].0.key_view() != key.key_view(),
            decreases count - at,
        {
            let pair = &self.entries[at];
            if pair.0.same_key(&key) {
                proof {
                    let witness = choose|i: int|
                        0 <= i < self.entries_view().len() && self.entries_view()[i].0.key_view()
                            == key.key_view();
                    assert(self.entries_view()[at as int].0.key_view() == key.key_view());
                    assert(witness == at as int);
                }
                return Some(&self.entries[at].1);
            }
            at = at + 1;
        }
        None
    }

    /// Resolve the declared path registered under `key` against `root`:
    /// an unregistered key is a fatal configuration fault; a failure while
    /// resolving is re-raised annotated with the key and the partition.
    pub fn get(&self, root: &ExistingDirectory, index: Key) -> (resolved: Result<P::Output, Fault>)
        ensures
            (!self.spec_contains(index) ==> (resolved matches Err(Fault::UnregisteredKey {
                key,
                kind,
            }) && key@ == index.key_view() && kind@ == self.kind_view())),
            (self.spec_contains(index) ==> match resolved {
                Ok(handle) => handle.path_view() == join_view(
                    root.path_view(),
                    self.spec_rel_of(index),
                ),
                Err(fault) => fault matches Fault::Resolution { key, kind, error } && key@
                    == index.key_view() && kind@ == self.kind_view() && matches_resolve_error(
                    error,
                    join_view(root.path_view(), self.spec_rel_of(index)),
                    P::kind_spec(),
                    self.spec_entry(index).spec_expectation(),
                ),
            }),
    {
        match self.find(index) {
            None => Err(Fault::UnregisteredKey { key: index.describe(), kind: self.kind }),
            Some(declared) => match declared.resolve(root) {
                Ok(handle) => Ok(handle),
                Err(error) => Err(
                    Fault::Resolution { key: index.describe(), kind: self.kind, error },
                ),
            },
        }
    }
}

/// The project's declared paths, partitioned by kind.
#[derive(Debug)]
pub struct ProjectPaths<Key, MF, MD> where
    Key: PathKey,
    MF: Materializer<ExistingRegularFile>,
    MD: Materializer<ExistingDirectory>,
 {
    pub regular_file_map: PathMap<Key, AbsoluteRegularFile, MF>,
    pub directory_map: PathMap<Key, AbsoluteDir, MD>,
}

impl<Key, MF, MD> ProjectPaths<Key, MF, MD> where
    Key: PathKey,
    MF: Materializer<ExistingRegularFile>,
    MD: Materializer<ExistingDirectory>,
 {
    fn file(&self, root: &ExistingDirectory, name: Key) -> (resolved: Result<
        ExistingRegularFile,
        Fault,
    >)
        ensures
            (!self.regular_file_map.spec_contains(name) ==> (resolved matches Err(
                Fault::UnregisteredKey { key, kind },
            ) && key@ == name.key_view() && kind@ == self.regular_file_map.kind_view())),
            (self.regular_file_map.spec_contains(name) ==> match resolved {
                Ok(handle) => handle.path_view() == join_view(
                    root.path_view(),
                    self.regular_file_map.spec_rel_of(name),
                ),
                Err(fault) => fault matches Fault::Resolution { key, kind, error } && key@
                    == name.key_view() && kind@ == self.regular_file_map.kind_view()
                    && matches_resolve_error(
                    error,
                    join_view(root.path_view(), self.regular_file_map.spec_rel_of(name)),
                    FileType::RegularFile,
                    self.regular_file_map.spec_entry(name).spec_expectation(),
                ),
            }),
    {
        self.regular_file_map.get(root, name)
    }

    fn dir(&self, root: &ExistingDirectory, name: Key) -> (resolved: Result<
        ExistingDirectory,
        Fault,
    >)
        ensures
            (!self.directory_map.spec_contains(name) ==> (resolved matches Err(
                Fault::UnregisteredKey { key, kind },
            ) && key@ == name.key_view() && kind@ == self.directory_map.kind_view())),
            (self.directory_map.spec_contains(name) ==> match resolved {
                Ok(handle) => handle.path_view() == join_view(
                    root.path_view(),
                    self.directory_map.spec_rel_of(name),
                ),
                Err(fault) => fault matches Fault::Resolution { key, kind, error } && key@
                    == name.key_view() && kind@ == self.directory_map.kind_view()
                    && matches_resolve_error(
                    error,
                    join_view(root.path_view(), self.directory_map.spec_rel_of(name)),
                    FileType::Directory,
                    self.directory_map.spec_entry(name).spec_expectation(),
                ),
            }),
    {
        self.directory_map.get(root, name)
    }
}

/// The top-level facade: owns the verified project root and the declared
/// paths for the lifetime of a task.
#[derive(Debug)]
pub struct Project<Key, MF, MD> where
    Key: PathKey,
    MF: Materializer<ExistingRegularFile>,
    MD: Materializer<ExistingDirectory>,
 {
    root: ExistingDirectory,
    paths: ProjectPaths<Key, MF, MD>,
}

impl<Key, MF, MD> Project<Key, MF, MD> where
    Key: PathKey,
    MF: Materializer<ExistingRegularFile>,
    MD: Materializer<ExistingDirectory>,
 {
    /// The verified root directory.
    pub closed spec fn root_view(&self) -> Seq<char> {
        self.root.path_view()
    }

    /// The declared paths.
    pub closed spec fn spec_paths(&self) -> ProjectPaths<Key, MF, MD> {
        self.paths
    }

    /// Load a project. The root must exist as a directory, or loading fails
    /// with the underlying filesystem error.
    pub fn load(root: &str, paths: ProjectPaths<Key, MF, MD>) -> (project: Result<
        Project<Key, MF, MD>,
        ProjectError,
    >)
        ensures
            (project matches Ok(loaded) ==> loaded.root_view() == root@ && loaded.spec_paths()
                == paths),
            (project matches Err(error) ==> error is Io),
    {
        match ExistingDirectory::checked(root) {
            Ok(verified_root) => Ok(Project { root: verified_root, paths }),
            Err(error) => Err(error),
        }
    }

    /// Resolve the regular file declared under `name`.
    pub fn file(&self, name: Key) -> (resolved: Result<ExistingRegularFile, Fault>)
        ensures
            (!self.spec_paths().regular_file_map.spec_contains(name) ==> (resolved matches Err(
                Fault::UnregisteredKey { key, kind },
            ) && key@ == name.key_view() && kind@
                == self.spec_paths().regular_file_map.kind_view())),
            (self.spec_paths().regular_file_map.spec_contains(name) ==> match resolved {
                Ok(handle) => handle.path_view() == join_view(
                    self.root_view(),
                    self.spec_paths().regular_file_map.spec_rel_of(name),
                ),
                Err(fault) => fault matches Fault::Resolution { key, kind, error } && key@
                    == name.key_view() && kind@ == self.spec_paths().regular_file_map.kind_view()
                    && matches_resolve_error(
                    error,
                    join_view(
                        self.root_view(),
                        self.spec_paths().regular_file_map.spec_rel_of(name),
                    ),
                    FileType::RegularFile,
                    self.spec_paths().regular_file_map.spec_entry(name).spec_expectation(),
                ),
            }),
    {
        self.paths.file(&self.root, name)
    }

    /// Resolve the directory declared under `name`.
    pub fn dir(&self, name: Key) -> (resolved: Result<ExistingDirectory, Fault>)
        ensures
            (!self.spec_paths().directory_map.spec_contains(name) ==> (resolved matches Err(
                Fault::UnregisteredKey { key, kind },
            ) && key@ == name.key_view() && kind@ == self.spec_paths().directory_map.kind_view())),
            (self.spec_paths().directory_map.spec_contains(name) ==> match resolved {
                Ok(handle) => handle.path_view() == join_view(
                    self.root_view(),
                    self.spec_paths().directory_map.spec_rel_of(name),
                ),
                Err(fault) => fault matches Fault::Resolution { key, kind, error } && key@
                    == name.key_view() && kind@ == self.spec_paths().directory_map.kind_view()
                    && matches_resolve_error(
                    error,
                    join_view(self.root_view(), self.spec_paths().directory_map.spec_rel_of(name)),
                    FileType::Directory,
                    self.spec_paths().directory_map.spec_entry(name).spec_expectation(),
                ),
            }),
    {
        self.paths.dir(&self.root, name)
    }
}

/// Resolving the same key twice against the same map and an unchanged root
/// yields two handles pointing at the same absolute path; their kind is fixed
/// by the partition's handle type.
pub proof fn lemma_resolution_deterministic<Key, P, M>(
    map: PathMap<Key, P, M>,
    root: ExistingDirectory,
    key: Key,
    first: P::Output,
    second: P::Output,
) where Key: PathKey, P: ProjectPath, M: Materializer<P::Output>
    requires
        map.spec_contains(key),
        first.path_view() == join_view(root.path_view(), map.spec_rel_of(key)),
        second.path_view() == join_view(root.path_view(), map.spec_rel_of(key)),
    ensures
        first.path_view() == second.path_view(),
{
}

} // verus!
