//! The errors of hosts-file and pid-file access, and the decisions that turn
//! the outcome of a file-system call into a result.

use vstd::prelude::*;
use std::path::PathBuf;
use crate::duration::{decimal_text, push_decimal};
use crate::text::{push_str, starts_with, string_from_chars};

verus! {

#[verifier::external_type_specification]
#[verifier::external_body]
pub struct ExIoError(std::io::Error);

/// The kinds of I/O failure that the error mapping tells apart.
#[derive(Debug, Clone, Copy, PartialEq, Eq, Structural)]
pub enum IoErrorKind {
    NotFound,
    PermissionDenied,
    Other,
}

/// A failed I/O call: the kind of failure, which the mapping reads, and the
/// error itself, which it carries along.
#[derive(Debug)]
pub struct IoFailure {
    pub kind: IoErrorKind,
    pub error: std::io::Error,
}

/// Why a file operation failed.
#[derive(Debug)]
pub enum FsError {
    NotFound { path: PathBuf },
    PermissionDenied { path: PathBuf },
    ReadError { path: PathBuf, source: std::io::Error },
    WriteError { path: PathBuf, source: std::io::Error },
    DeleteError { path: PathBuf, source: std::io::Error },
    SetPermissionsError { path: PathBuf, source: std::io::Error },
    AtomicWriteFailed { path: PathBuf, reason: String },
}

/// The error for a failure of `kind` on `path`: the two kinds that matter
/// to callers get their own variant, every other failure keeps its source.
pub open spec fn classified(kind: IoErrorKind, path: PathBuf, other: FsError) -> FsError {
    match kind {
        IoErrorKind::NotFound => FsError::NotFound { path },
        IoErrorKind::PermissionDenied => FsError::PermissionDenied { path },
        IoErrorKind::Other => other,
    }
}

impl FsError {
    /// The error of a failed read of `path`.
    pub fn from_io_read_error(error: IoFailure, path: PathBuf) -> (e: Self)
        ensures
            e == classified(error.kind, path, FsError::ReadError { path, source: error.error }),
    {
        match error.kind {
            IoErrorKind::NotFound => FsError::NotFound { path },
            IoErrorKind::PermissionDenied => FsError::PermissionDenied { path },
            IoErrorKind::Other => FsError::ReadError { path, source: error.error },
        }
    }

    /// The error of a failed write of `path`.
    pub fn from_io_write_error(error: IoFailure, path: PathBuf) -> (e: Self)
        ensures
            e == classified(error.kind, path, FsError::WriteError { path, source: error.error }),
    {
        match error.kind {
            IoErrorKind::NotFound => FsError::NotFound { path },
            IoErrorKind::PermissionDenied => FsError::PermissionDenied { path },
            IoErrorKind::Other => FsError::WriteError { path, source: error.error },
        }
    }

    /// The error of a failed existence check of `path`.
    pub fn from_io_exist_error(error: IoFailure, path: PathBuf) -> (e: Self)
        ensures
            e == classified(error.kind, path, FsError::ReadError { path, source: error.error }),
    {
        match error.kind {
            IoErrorKind::NotFound => FsError::NotFound { path },
            IoErrorKind::PermissionDenied => FsError::PermissionDenied { path },
            IoErrorKind::Other => FsError::ReadError { path, source: error.error },
        }
    }

    /// The error of a failed removal of `path`.
    pub fn from_io_delete_error(error: IoFailure, path: PathBuf) -> (e: Self)
        ensures
            e == classified(error.kind, path, FsError::DeleteError { path, source: error.error }),
    {
        match error.kind {
            IoErrorKind::NotFound => FsError::NotFound { path },
            IoErrorKind::PermissionDenied => FsError::PermissionDenied { path },
            IoErrorKind::Other => FsError::DeleteError { path, source: error.error },
        }
    }

    /// The error of a failed change of the permissions of `path`.
    pub fn from_io_permissions_error(error: IoFailure, path: PathBuf) -> (e: Self)
        ensures
            e == classified(
                error.kind,
                path,
                FsError::SetPermissionsError { path, source: error.error },
            ),
    {
        match error.kind {
            IoErrorKind::NotFound => FsError::NotFound { path },
            IoErrorKind::PermissionDenied => FsError::PermissionDenied { path },
            IoErrorKind::Other => FsError::SetPermissionsError { path, source: error.error },
        }
    }

    /// The error of an atomic write of a path that has no parent directory.
    pub fn no_parent_directory(path: PathBuf) -> (e: Self)
        ensures
            e matches FsError::AtomicWriteFailed { path: p, reason } && p == path && reason@
                == "No parent directory"@,
    {
        FsError::AtomicWriteFailed { path, reason: String::from_str("No parent directory") }
    }
}

/// How `Path::display` shows `p`: the path's text, with what is not valid
/// UTF-8 replaced, as the platform spells it.
pub uninterp spec fn shown_path(p: PathBuf) -> Seq<char>;

/// How `Path::display` writes `p`, through `format!`.
///
/// Claims only that the text is what `Path::display` shows for the path,
/// under the name `shown_path`.
#[verifier::external_body]
fn path_text(p: &PathBuf) -> (s: String)
    ensures
        s@ == shown_path(*p),
{
    format!("{}", p.display())
}

/// The `Display` text of an I/O error, through `format!`.
///
/// Nothing is claimed of the text: it comes from the operating system.
#[verifier::external_body]
fn io_error_text(e: &std::io::Error) -> String {
    format!("{}", e)
}

/// The words a file error's text begins with, before the path.
pub open spec fn fs_error_lead(e: FsError) -> Seq<char> {
    match e {
        FsError::NotFound { .. } => "File not found: "@,
        FsError::PermissionDenied { .. } => "Permission denied: "@,
        FsError::ReadError { .. } => "Failed to read "@,
        FsError::WriteError { .. } => "Failed to write "@,
        FsError::DeleteError { .. } => "Failed to delete "@,
        FsError::SetPermissionsError { .. } => "Failed to set permissions for "@,
        FsError::AtomicWriteFailed { .. } => "Atomic write failed for "@,
    }
}

/// The path a file error is about.
pub open spec fn fs_error_path(e: FsError) -> PathBuf {
    match e {
        FsError::NotFound { path } => path,
        FsError::PermissionDenied { path } => path,
        FsError::ReadError { path, .. } => path,
        FsError::WriteError { path, .. } => path,
        FsError::DeleteError { path, .. } => path,
        FsError::SetPermissionsError { path, .. } => path,
        FsError::AtomicWriteFailed { path, .. } => path,
    }
}

/// Whether a file error carries the I/O error that caused it.
pub open spec fn fs_error_has_source(e: FsError) -> bool {
    e is ReadError || e is WriteError || e is DeleteError || e is SetPermissionsError
}

/// The text of a file error as far as the error fixes it: the lead words
/// and the path as shown; then, for an error with an I/O source, a colon
/// (the source's own text follows it), and for a failed atomic write, a
/// colon and the reason.
pub open spec fn fs_error_text(e: FsError) -> Seq<char> {
    let head = fs_error_lead(e) + shown_path(fs_error_path(e));
    match e {
        FsError::AtomicWriteFailed { reason, .. } => head + ": "@ + reason@,
        _ => if fs_error_has_source(e) {
            head + ": "@
        } else {
            head
        },
    }
}

impl FsError {
    /// The text the error is reported with: the lead words, the path and,
    /// where there is one, the cause after a colon. It is exactly
    /// `fs_error_text` but for an error with an I/O source, whose text then
    /// goes on with the source's own text.
    pub fn message(&self) -> (m: String)
        ensures
            fs_error_has_source(*self) ==> starts_with(m@, fs_error_text(*self)),
            !fs_error_has_source(*self) ==> m@ == fs_error_text(*self),
    {
        let mut out: Vec<char> = Vec::new();
        let path = match self {
            FsError::NotFound { path } => {
                push_str(&mut out, "File not found: ");
                path
            },
            FsError::PermissionDenied { path } => {
                push_str(&mut out, "Permission denied: ");
                path
            },
            FsError::ReadError { path, .. } => {
                push_str(&mut out, "Failed to read ");
                path
            },
            FsError::WriteError { path, .. } => {
                push_str(&mut out, "Failed to write ");
                path
            },
            FsError::DeleteError { path, .. } => {
                push_str(&mut out, "Failed to delete ");
                path
            },
            FsError::SetPermissionsError { path, .. } => {
                push_str(&mut out, "Failed to set permissions for ");
                path
            },
            FsError::AtomicWriteFailed { path, .. } => {
                push_str(&mut out, "Atomic write failed for ");
                path
            },
        };
        let ghost lead = out@;
        assert(lead == fs_error_lead(*self));
        let shown = path_text(path);
        push_str(&mut out, shown.as_str());
        let ghost head = out@;
        assert(head == fs_error_lead(*self) + shown_path(fs_error_path(*self)));
        proof {
            reveal_strlit(": ");
        }
        match self {
            FsError::ReadError { source, .. }
            | FsError::WriteError { source, .. }
            | FsError::DeleteError { source, .. }
            | FsError::SetPermissionsError { source, .. } => {
                push_str(&mut out, ": ");
                let ghost known = out@;
                assert(known =~= fs_error_text(*self));
                let cause = io_error_text(source);
                push_str(&mut out, cause.as_str());
                assert(out@.take(known.len() as int) =~= known);
            },
            FsError::AtomicWriteFailed { reason, .. } => {
                push_str(&mut out, ": ");
                push_str(&mut out, reason.as_str());
                assert(out@ =~= fs_error_text(*self));
            },
            _ => {
                assert(out@ =~= fs_error_text(*self));
            },
        }
        string_from_chars(&out)
    }
}

/// Whether a path is an existing file, from the outcome of reading its
/// metadata (whether it is a file, or the failure): a missing path is no
/// file, any other failure is an error.
pub fn file_exists_outcome(metadata: Result<bool, IoFailure>, path: PathBuf) -> (r: Result<
    bool,
    FsError,
>)
    ensures
        match metadata {
            Ok(is_file) => r == Ok::<bool, FsError>(is_file),
            Err(f) => if f.kind == IoErrorKind::NotFound {
                r == Ok::<bool, FsError>(false)
            } else {
                r == Err::<bool, FsError>(
                    classified(f.kind, path, FsError::ReadError { path, source: f.error }),
                )
            },
        },
{
    match metadata {
        Ok(is_file) => Ok(is_file),
        Err(f) => {
            if f.kind == IoErrorKind::NotFound {
                Ok(false)
            } else {
                Err(FsError::from_io_exist_error(f, path))
            }
        },
    }
}

/// Whether a file was removed, from the outcome of removing it: a missing
/// file was not removed, any other failure is an error.
pub fn remove_file_outcome(removal: Result<(), IoFailure>, path: PathBuf) -> (r: Result<
    bool,
    FsError,
>)
    ensures
        match removal {
            Ok(()) => r == Ok::<bool, FsError>(true),
            Err(f) => if f.kind == IoErrorKind::NotFound {
                r == Ok::<bool, FsError>(false)
            } else {
                r == Err::<bool, FsError>(
                    classified(f.kind, path, FsError::DeleteError { path, source: f.error }),
                )
            },
        },
{
    match removal {
        Ok(()) => Ok(true),
        Err(f) => {
            if f.kind == IoErrorKind::NotFound {
                Ok(false)
            } else {
                Err(FsError::from_io_delete_error(f, path))
            }
        },
    }
}

/// The name of the temporary file that an atomic write of `file_name` goes
/// through: `.<file_name>.tmp.<pid>`, beside the target.
pub fn temp_file_name(file_name: &str, pid: u32) -> (name: String)
    ensures
        name@ == seq!['.'] + file_name@ + ".tmp."@ + decimal_text(pid as nat),
{
    let mut out: Vec<char> = Vec::new();
    out.push('.');
    push_str(&mut out, file_name);
    push_str(&mut out, ".tmp.");
    push_decimal(&mut out, pid as u64);
    string_from_chars(&out)
}

/// A temporary file written beside its target: its path, and whether it has
/// been renamed into place. Until then it is to be removed when it goes out
/// of use; the removal itself is the caller's, since removing a file is I/O.
pub struct TempFile {
    path: PathBuf,
    committed: bool,
}

impl TempFile {
    /// The path of the file.
    pub closed spec fn file_path(&self) -> PathBuf {
        self.path
    }

    /// Whether the file has been renamed into place.
    pub closed spec fn is_committed(&self) -> bool {
        self.committed
    }

    /// A temporary file at `path`, not yet committed.
    pub fn new(path: PathBuf) -> (t: Self)
        ensures
            t.file_path() == path,
            !t.is_committed(),
    {
        Self { path, committed: false }
    }

    /// The path of the file.
    pub fn path(&self) -> (p: &PathBuf)
        ensures
            *p == self.file_path(),
    {
        &self.path
    }

    /// Marks the file as renamed into place, so it is kept.
    pub fn commit(&mut self)
        ensures
            final(self).file_path() == old(self).file_path(),
            final(self).is_committed(),
    {
        self.committed = true;
    }

    /// Whether the file is to be removed when it goes out of use.
    pub fn removes_on_drop(&self) -> (b: bool)
        ensures
            b == !self.is_committed(),
    {
        !self.committed
    }
}

} // verus!
