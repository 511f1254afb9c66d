//! The values that pass between the driver and the classifier: what a probe
//! of the filesystem answered, what a path was found to be, and how an
//! invocation ends.
use vstd::prelude::*;

verus! {

/// What kind of object a path names, the path itself and not what a symbolic
/// link at its end points to.
#[derive(Clone, Copy, Debug, PartialEq, Eq, Structural)]
pub enum EntryKind {
    Directory,
    File,
    Symlink,
    /// A device, socket, pipe or anything else that is not supported.
    Other,
}

/// Why a probe of the filesystem failed.
#[derive(Clone, Copy, Debug, PartialEq, Eq, Structural)]
pub enum Failure {
    NotFound,
    PermissionDenied,
    Other,
}

/// The answer to a status probe that does not follow a final symbolic link.
#[derive(Clone, Copy, Debug, PartialEq, Eq, Structural)]
pub enum MetadataProbe {
    Failed(Failure),
    /// The kind of the object and its length in bytes.
    Present(EntryKind, u64),
}

/// The answer to a request for the canonical form of the path.
#[derive(Clone, Debug, PartialEq, Eq)]
pub enum CanonProbe {
    Failed(Failure),
    /// The path was resolved; `None` where the resolved path is not UTF-8.
    Resolved(Option<String>),
}

/// What was learnt of one immediate child of a directory.
#[derive(Clone, Copy, Debug, PartialEq, Eq, Structural)]
pub enum ChildProbe {
    /// The entry itself could not be read.
    Unreadable,
    /// The entry was read, its kind could not be.
    Untyped,
    Kind(EntryKind),
}

/// The answer to a request for the immediate children of a directory, in
/// the order in which they were read.
#[derive(Clone, Debug, PartialEq, Eq)]
pub enum ListingProbe {
    Failed,
    Entries(Vec<ChildProbe>),
}

/// The answer to a request for the immediate target of a symbolic link.
#[derive(Clone, Debug, PartialEq, Eq)]
pub enum LinkProbe {
    Failed,
    /// The target was read and is not UTF-8.
    Undecodable,
    Target(String),
}

/// The answer to a request for one line of input.
#[derive(Clone, Debug, PartialEq, Eq)]
pub enum LineProbe {
    Failed,
    /// The line as read, its line terminator included.
    Text(String),
}

/// The answer to a request to remove the path.
#[derive(Clone, Copy, Debug, PartialEq, Eq, Structural)]
pub enum RemovalProbe {
    Failed,
    Removed,
}

/// An error that ends the invocation without a classification.
#[derive(Clone, Copy, Debug, PartialEq, Eq, Structural)]
pub enum Fatal {
    /// The status probe failed for another reason than absence or permission.
    Probe,
    /// The path names something that is no directory, file or symbolic link.
    Unsupported,
    /// Canonicalization failed for another reason than absence.
    Canonicalize,
    /// The canonical path is not UTF-8.
    CanonicalEncoding,
    /// A directory that was just seen has no canonical form any more.
    DirectoryVanished,
    /// A file that was just seen has no canonical form any more.
    FileVanished,
    /// The directory could not be opened for reading.
    ReadDirectory,
    /// A directory entry could not be read.
    EntryAccess,
    /// The kind of a directory entry could not be read.
    EntryType,
    /// A directory entry is no directory, file or symbolic link.
    EntryUnsupported,
    /// The target of the symbolic link could not be read.
    ReadLink,
    /// The target of the symbolic link is not UTF-8.
    LinkEncoding,
    /// The line of confirmation could not be read.
    ReadLine,
    /// The removal failed.
    Remove,
    /// The driver answered a request with the answer to another one.
    Protocol,
}

/// How many immediate children of each kind a directory has.
#[derive(Clone, Copy, Debug, PartialEq, Eq, Structural)]
pub struct DirectoryCensus {
    pub directories: u32,
    pub files: u32,
    pub symlinks: u32,
}

impl DirectoryCensus {
    /// The number of children as a mathematical integer.
    pub open spec fn sum(self) -> nat {
        (self.directories + self.files + self.symlinks) as nat
    }

    /// The total can be held in the type of the counts.
    pub open spec fn wf(self) -> bool {
        self.sum() <= u32::MAX
    }

    /// The number of children of all kinds.
    pub fn total(&self) -> (total: u32)
        requires
            self.wf(),
        ensures
            total == self.sum(),
    {
        self.directories + self.files + self.symlinks
    }
}

/// What the path was found to be.
#[derive(Clone, Debug, PartialEq, Eq)]
pub enum Category {
    EmptyDirectory,
    NonEmptyDirectory(DirectoryCensus),
    EmptyFile,
    /// A file of that many bytes, more than none.
    NonEmptyFile(u64),
    /// A symbolic link, with its immediate target, that resolves to nothing.
    DanglingSymlink(String),
    /// A symbolic link, with its immediate target and the canonical path that
    /// it resolves to.
    LiveSymlink(String, String),
}

/// Something found empty, which may be removed on confirmation.
#[derive(Clone, Debug, PartialEq, Eq)]
pub enum Deletable {
    /// An empty directory, with its canonical path.
    Directory(String),
    /// An empty file, with its canonical path.
    File(String),
    /// A dangling symbolic link, with its immediate target.
    Symlink(String),
}

impl Deletable {
    /// A copy of the value.
    pub fn duplicate(&self) -> (copy: Deletable)
        ensures
            copy == *self,
    {
        match self {
            Deletable::Directory(path) => Deletable::Directory(path.clone()),
            Deletable::File(path) => Deletable::File(path.clone()),
            Deletable::Symlink(target) => Deletable::Symlink(target.clone()),
        }
    }

    /// The outcome when the removal of such an object is declined.
    pub open spec fn declined(self) -> Outcome {
        match self {
            Deletable::Directory(_) => Outcome::DirectoryDeclined,
            Deletable::File(_) => Outcome::FileDeclined,
            Deletable::Symlink(_) => Outcome::SymlinkDeclined,
        }
    }

    /// The outcome when the removal of such an object is declined.
    pub fn when_declined(&self) -> (outcome: Outcome)
        ensures
            outcome == self.declined(),
    {
        match self {
            Deletable::Directory(_) => Outcome::DirectoryDeclined,
            Deletable::File(_) => Outcome::FileDeclined,
            Deletable::Symlink(_) => Outcome::SymlinkDeclined,
        }
    }
}

/// How an invocation that classified its path ends.
#[derive(Clone, Copy, Debug, PartialEq, Eq, Structural)]
pub enum Outcome {
    /// The path is empty and was left alone, or was removed on confirmation.
    Success,
    NotFound,
    PermissionDenied,
    NonEmptyFile,
    FileDeclined,
    NonEmptyDirectory,
    DirectoryDeclined,
    LiveSymlink,
    SymlinkDeclined,
}

impl Outcome {
    /// The exit code that stands for the outcome.
    pub open spec fn code_of(self) -> int {
        match self {
            Outcome::Success => 0,
            Outcome::NotFound => 11,
            Outcome::PermissionDenied => 12,
            Outcome::NonEmptyFile => 21,
            Outcome::FileDeclined => 22,
            Outcome::NonEmptyDirectory => 31,
            Outcome::DirectoryDeclined => 32,
            Outcome::LiveSymlink => 41,
            Outcome::SymlinkDeclined => 42,
        }
    }

    /// The exit code that stands for the outcome.
    pub fn code(&self) -> (code: i32)
        ensures
            code == self.code_of(),
    {
        match self {
            Outcome::Success => 0,
            Outcome::NotFound => 11,
            Outcome::PermissionDenied => 12,
            Outcome::NonEmptyFile => 21,
            Outcome::FileDeclined => 22,
            Outcome::NonEmptyDirectory => 31,
            Outcome::DirectoryDeclined => 32,
            Outcome::LiveSymlink => 41,
            Outcome::SymlinkDeclined => 42,
        }
    }
}

/// The exit code of an invocation: that of its outcome, or 1 after a fatal
/// error.
pub open spec fn exit_code_of(end: Result<Outcome, Fatal>) -> int {
    match end {
        Ok(outcome) => outcome.code_of(),
        Err(_) => 1,
    }
}

/// The exit code of an invocation: that of its outcome, or 1 after a fatal
/// error.
pub fn exit_code(end: &Result<Outcome, Fatal>) -> (code: i32)
    ensures
        code == exit_code_of(*end),
{
    match end {
        Ok(outcome) => outcome.code(),
        Err(_) => 1,
    }
}

/// Every invocation exits with one of the ten documented codes, and with 1
/// exactly when it ends in a fatal error.
pub proof fn law_documented_exit_codes(end: Result<Outcome, Fatal>)
    ensures
        exit_code_of(end) == 0 || exit_code_of(end) == 1 || exit_code_of(end) == 11
            || exit_code_of(end) == 12 || exit_code_of(end) == 21 || exit_code_of(end) == 22
            || exit_code_of(end) == 31 || exit_code_of(end) == 32 || exit_code_of(end) == 41
            || exit_code_of(end) == 42,
        exit_code_of(end) == 1 <==> end is Err,
        exit_code_of(end) == 0 <==> end == Ok::<Outcome, Fatal>(Outcome::Success),
{
}

/// One message to the operator. The driver words it; the path as it was
/// given is the driver's to add.
#[derive(Clone, Debug, PartialEq, Eq)]
pub enum Notice {
    /// The path does not exist.
    Missing,
    /// Permission to the path was denied.
    Denied,
    /// The path was resolved to this canonical form.
    Canonicalized(String),
    /// The path, or what it resolves to, does not exist.
    NotCanonicalized,
    /// What the path was found to be, with the canonical path of a directory
    /// or a file; a symbolic link is shown by the path as it was given.
    Classified(Category, Option<String>),
    /// The question whether to remove the object, with the warning that its
    /// state is not looked at again.
    Prompt(Deletable),
    /// The object was removed.
    Deleted(Deletable),
    /// The removal was declined.
    Kept(Deletable),
    /// The invocation ends with the exit code of this outcome, which is not
    /// zero.
    Exiting(Outcome),
}

} // verus!
