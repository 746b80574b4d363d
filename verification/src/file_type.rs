use vstd::prelude::*;

verus! {

/// The kind of filesystem entry a declared path is expected to denote.
#[derive(Debug, Clone, Copy, PartialEq, Eq)]
pub enum FileType {
    Directory,
    RegularFile,
    Other { description: &'static str },
}

impl FileType {
    /// The human-readable name of this kind, as it appears in diagnostics.
    pub open spec fn describe_spec(self) -> Seq<char> {
        match self {
            FileType::Directory => "directory"@,
            FileType::RegularFile => "regular file"@,
            FileType::Other { description } => description@,
        }
    }

    pub fn describe(&self) -> (name: &'static str)
        ensures
            name@ == self.describe_spec(),
    {
        match self {
            FileType::Directory => "directory",
            FileType::RegularFile => "regular file",
            FileType::Other { description } => description,
        }
    }
}

} // verus!
