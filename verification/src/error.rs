//! What can go wrong while a command runs.
use crate::path::{LocalPath, PathView};
use vstd::prelude::*;

verus! {

/// A git step whose failure ends a command.
#[derive(Debug, Clone, Copy, PartialEq, Eq, Structural)]
pub enum GitStep {
    /// `git add -A`
    Add,
    /// `git commit`
    Commit,
    /// `git push`
    Push,
    /// `git init`
    Init,
    /// `git remote add origin`
    AddOrigin,
    /// `git remote set-url origin`
    SetOrigin,
}

/// Why a command stopped. `reason` carries the text of the failure that the
/// program around the library reported for an effect.
#[derive(Debug)]
pub enum DotsyncError {
    /// The user's config directory is unknown.
    NoConfigDir,
    /// The user's home directory is unknown.
    NoHomeDir,
    /// A path could not be made canonical.
    Canonicalize { path: LocalPath, reason: String },
    /// A tracked source does not exist.
    SourceMissing { source: LocalPath, reason: String },
    /// An entry's name leads out of the repository directory.
    NameEscapesRepo { name: String },
    /// An entry's copy in the repository lies outside the repository directory.
    PathEscapesRepo { name: String },
    /// An old copy could not be removed.
    RemoveFailed { path: LocalPath, reason: String },
    /// Copying into the repository failed.
    CopyFailed { from: LocalPath, to: LocalPath, reason: String },
    /// Copying an entry back out of the repository failed.
    RestoreFailed { name: String, reason: String },
    /// A directory could not be created.
    MakeDirsFailed { path: LocalPath, reason: String },
    /// An operation failed without further context.
    Io { reason: String },
    /// The repository holds no manifest.
    ManifestMissing { path: LocalPath },
    /// The manifest could not be read or parsed.
    ManifestUnreadable { path: LocalPath, reason: String },
    /// The local config could not be read or parsed.
    ConfigUnreadable { path: LocalPath, reason: String },
    /// A config or manifest could not be serialised or written.
    WriteFailed { path: LocalPath, reason: String },
    /// An entry's copy is missing from the repository.
    NotInRepo { name: String, origin: LocalPath, reason: String },
    /// The path given for a new entry does not exist.
    SourceNotFound { source: LocalPath },
    /// An entry with this name is already tracked.
    EntryExists { name: String },
    /// A local config already exists.
    ConfigExists,
    /// The clone target exists and is not empty.
    RepoDirNotEmpty { path: LocalPath },
    /// `git clone` did not succeed.
    CloneFailed,
    /// `git pull` did not succeed.
    PullFailed,
    /// `git pull --rebase` did not succeed.
    RebaseFailed { repo_dir: LocalPath },
    /// `diff` ended with an exit code other than 0 or 1.
    DiffFailed { name: String },
    /// The remote given does not answer.
    RemoteMissing,
    /// A git command ran and reported failure.
    GitFailed { step: GitStep },
    /// The reply handed in does not answer the effect that was asked for,
    /// or the run had already ended.
    UnexpectedReply,
}

/// The abstract value of an error.
pub enum ErrorView {
    NoConfigDir,
    NoHomeDir,
    Canonicalize { path: PathView, reason: Seq<char> },
    SourceMissing { source: PathView, reason: Seq<char> },
    NameEscapesRepo { name: Seq<char> },
    PathEscapesRepo { name: Seq<char> },
    RemoveFailed { path: PathView, reason: Seq<char> },
    CopyFailed { from: PathView, to: PathView, reason: Seq<char> },
    RestoreFailed { name: Seq<char>, reason: Seq<char> },
    MakeDirsFailed { path: PathView, reason: Seq<char> },
    Io { reason: Seq<char> },
    ManifestMissing { path: PathView },
    ManifestUnreadable { path: PathView, reason: Seq<char> },
    ConfigUnreadable { path: PathView, reason: Seq<char> },
    WriteFailed { path: PathView, reason: Seq<char> },
    NotInRepo { name: Seq<char>, origin: PathView, reason: Seq<char> },
    SourceNotFound { source: PathView },
    EntryExists { name: Seq<char> },
    ConfigExists,
    RepoDirNotEmpty { path: PathView },
    CloneFailed,
    PullFailed,
    RebaseFailed { repo_dir: PathView },
    DiffFailed { name: Seq<char> },
    RemoteMissing,
    GitFailed { step: GitStep },
    UnexpectedReply,
}

impl View for DotsyncError {
    type V = ErrorView;

    open spec fn view(&self) -> ErrorView {
        match self {
            DotsyncError::NoConfigDir => ErrorView::NoConfigDir,
            DotsyncError::NoHomeDir => ErrorView::NoHomeDir,
            DotsyncError::Canonicalize { path, reason } => ErrorView::Canonicalize {
                path: path@,
                reason: reason@,
            },
            DotsyncError::SourceMissing { source, reason } => ErrorView::SourceMissing {
                source: source@,
                reason: reason@,
            },
            DotsyncError::NameEscapesRepo { name } => ErrorView::NameEscapesRepo { name: name@ },
            DotsyncError::PathEscapesRepo { name } => ErrorView::PathEscapesRepo { name: name@ },
            DotsyncError::RemoveFailed { path, reason } => ErrorView::RemoveFailed {
                path: path@,
                reason: reason@,
            },
            DotsyncError::CopyFailed { from, to, reason } => ErrorView::CopyFailed {
                from: from@,
                to: to@,
                reason: reason@,
            },
            DotsyncError::RestoreFailed { name, reason } => ErrorView::RestoreFailed {
                name: name@,
                reason: reason@,
            },
            DotsyncError::MakeDirsFailed { path, reason } => ErrorView::MakeDirsFailed {
                path: path@,
                reason: reason@,
            },
            DotsyncError::Io { reason } => ErrorView::Io { reason: reason@ },
            DotsyncError::ManifestMissing { path } => ErrorView::ManifestMissing { path: path@ },
            DotsyncError::ManifestUnreadable { path, reason } => ErrorView::ManifestUnreadable {
                path: path@,
                reason: reason@,
            },
            DotsyncError::ConfigUnreadable { path, reason } => ErrorView::ConfigUnreadable {
                path: path@,
                reason: reason@,
            },
            DotsyncError::WriteFailed { path, reason } => ErrorView::WriteFailed {
                path: path@,
                reason: reason@,
            },
            DotsyncError::NotInRepo { name, origin, reason } => ErrorView::NotInRepo {
                name: name@,
                origin: origin@,
                reason: reason@,
            },
            DotsyncError::SourceNotFound { source } => ErrorView::SourceNotFound {
                source: source@,
            },
            DotsyncError::EntryExists { name } => ErrorView::EntryExists { name: name@ },
            DotsyncError::ConfigExists => ErrorView::ConfigExists,
            DotsyncError::RepoDirNotEmpty { path } => ErrorView::RepoDirNotEmpty { path: path@ },
            DotsyncError::CloneFailed => ErrorView::CloneFailed,
            DotsyncError::PullFailed => ErrorView::PullFailed,
            DotsyncError::RebaseFailed { repo_dir } => ErrorView::RebaseFailed {
                repo_dir: repo_dir@,
            },
            DotsyncError::DiffFailed { name } => ErrorView::DiffFailed { name: name@ },
            DotsyncError::RemoteMissing => ErrorView::RemoteMissing,
            DotsyncError::GitFailed { step } => ErrorView::GitFailed { step: *step },
            DotsyncError::UnexpectedReply => ErrorView::UnexpectedReply,
        }
    }
}

} // verus!
