use std::io;
use std::path::PathBuf;

use dark_pattern_blocker::fs_error::{
    file_exists_outcome, remove_file_outcome, temp_file_name, FsError, IoErrorKind, IoFailure, TempFile,
};

fn failure(kind: IoErrorKind) -> IoFailure {
    IoFailure { kind, error: io::Error::new(io::ErrorKind::Other, "disk on fire") }
}

#[test]
fn read_errors_are_classified() {
    let p = PathBuf::from("/etc/hosts");
    assert!(matches!(FsError::from_io_read_error(failure(IoErrorKind::NotFound), p.clone()), FsError::NotFound { .. }));
    assert!(matches!(
        FsError::from_io_read_error(failure(IoErrorKind::PermissionDenied), p.clone()),
        FsError::PermissionDenied { .. }
    ));
    assert!(matches!(FsError::from_io_read_error(failure(IoErrorKind::Other), p.clone()), FsError::ReadError { .. }));
    assert!(matches!(FsError::from_io_write_error(failure(IoErrorKind::Other), p.clone()), FsError::WriteError { .. }));
    assert!(matches!(FsError::from_io_delete_error(failure(IoErrorKind::Other), p.clone()), FsError::DeleteError { .. }));
    assert!(matches!(
        FsError::from_io_permissions_error(failure(IoErrorKind::Other), p.clone()),
        FsError::SetPermissionsError { .. }
    ));
    assert!(matches!(FsError::from_io_exist_error(failure(IoErrorKind::Other), p), FsError::ReadError { .. }));
}

#[test]
fn read_file_nonexistent_returns_error() {
    let e = FsError::from_io_read_error(failure(IoErrorKind::NotFound), PathBuf::from("/nonexistent/path/file.txt"));
    assert_eq!(e.message(), "File not found: /nonexistent/path/file.txt");
}

#[test]
fn file_exists_returns_false_for_nonexistent() {
    let p = PathBuf::from("/nonexistent/path/file.txt");
    assert!(matches!(file_exists_outcome(Err(failure(IoErrorKind::NotFound)), p.clone()), Ok(false)));
    assert!(matches!(file_exists_outcome(Ok(true), p.clone()), Ok(true)));
    assert!(matches!(file_exists_outcome(Ok(false), p.clone()), Ok(false)));
    assert!(matches!(
        file_exists_outcome(Err(failure(IoErrorKind::PermissionDenied)), p),
        Err(FsError::PermissionDenied { .. })
    ));
}

#[test]
fn remove_file_if_exists_nonexistent_returns_false() {
    let p = PathBuf::from("/tmp/x");
    assert!(matches!(remove_file_outcome(Err(failure(IoErrorKind::NotFound)), p.clone()), Ok(false)));
    assert!(matches!(remove_file_outcome(Ok(()), p.clone()), Ok(true)));
    assert!(matches!(remove_file_outcome(Err(failure(IoErrorKind::Other)), p), Err(FsError::DeleteError { .. })));
}

#[test]
fn error_texts() {
    let e = FsError::WriteError { path: PathBuf::from("/a/b"), source: io::Error::new(io::ErrorKind::Other, "full") };
    assert_eq!(e.message(), "Failed to write /a/b: full");
    let e = FsError::no_parent_directory(PathBuf::from("/"));
    assert_eq!(e.message(), "Atomic write failed for /: No parent directory");
}

#[test]
fn temp_file_is_hidden_beside_target() {
    assert_eq!(temp_file_name("hosts", 4242), ".hosts.tmp.4242");
}

#[test]
fn write_atomic_cleans_up_temp_file() {
    let mut t = TempFile::new(PathBuf::from("/tmp/.hosts.tmp.1"));
    assert!(t.removes_on_drop());
    assert_eq!(t.path(), &PathBuf::from("/tmp/.hosts.tmp.1"));
    t.commit();
    assert!(!t.removes_on_drop());
}

#[test]
fn error_texts_show_the_path() {
    let e = FsError::PermissionDenied { path: PathBuf::from("/etc/hosts") };
    assert_eq!(e.message(), "Permission denied: /etc/hosts");
    let e = FsError::SetPermissionsError {
        path: PathBuf::from("/run/x.pid"),
        source: io::Error::new(io::ErrorKind::Other, "nope"),
    };
    assert!(e.message().starts_with("Failed to set permissions for /run/x.pid: "));
}
