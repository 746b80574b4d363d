use vstd::prelude::*;
use vstd::string::StringExecFns;

use crate::file_type::FileType;

verus! {

/// A failure while checking or materializing a single declared path.
#[derive(Debug, Clone, PartialEq, Eq)]
pub enum ProjectError {
    /// A path that was required to exist did not.
    MissingFile { path: String, kind: FileType },
    /// A path that was required to be absent existed.
    UnexpectedPresentFile { path: String, kind: FileType },
    /// An underlying filesystem error, passed through as reported.
    Io { message: String },
}

impl ProjectError {
    /// The human-readable diagnostic for this error, embedding the absolute
    /// path and the expected kind.
    pub open spec fn message_view(self) -> Seq<char> {
        match self {
            ProjectError::MissingFile { path, kind } => "Unexpected missing "@
                + kind.describe_spec() + ": "@ + path@,
            ProjectError::UnexpectedPresentFile { path, kind } => "Unexpectedly present "@
                + kind.describe_spec() + ": "@ + path@,
            ProjectError::Io { message } => message@,
        }
    }

    pub fn message(&self) -> (text: String)
        ensures
            text@ == self.message_view(),
    {
        match self {
            ProjectError::MissingFile { path, kind } => {
                let mut text = "Unexpected missing ".to_owned();
                text.append(kind.describe());
                text.append(": ");
                text.append(path.as_str());
                proof {
                    assert(text@ =~= self.message_view());
                }
                text
            },
            ProjectError::UnexpectedPresentFile { path, kind } => {
                let mut text = "Unexpectedly present ".to_owned();
                text.append(kind.describe());
                text.append(": ");
                text.append(path.as_str());
                proof {
                    assert(text@ =~= self.message_view());
                }
                text
            },
            ProjectError::Io { message } => message.clone(),
        }
    }
}

} // verus!
