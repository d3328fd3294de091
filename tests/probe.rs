use fastidious::error::ApplyError;
use fastidious::probe::{
    can_create_dir, can_create_dir_maybe, can_create_parent_dir, can_execute, can_read_file,
    can_write_dir, can_write_dir_maybe, can_write_file, can_write_to_parent_dir, probe_paths,
    FsView, PathInfo,
};

fn dir(writable: bool, executable: bool) -> PathInfo {
    PathInfo { is_dir: true, readable: true, writable, executable }
}

fn file(readable: bool, writable: bool, executable: bool) -> PathInfo {
    PathInfo { is_dir: false, readable, writable, executable }
}

/// A user's view: the working directory is theirs, /root is closed to them.
fn user_view() -> FsView {
    let mut fs = FsView::new();
    fs.insert("/".to_string(), dir(false, true));
    fs.insert("/root".to_string(), dir(false, false));
    fs.insert(".".to_string(), dir(true, true));
    fs.insert("./Cargo.toml".to_string(), file(true, true, false));
    fs.insert("Cargo.toml".to_string(), file(true, true, false));
    fs.insert("/usr".to_string(), dir(false, true));
    fs.insert("/usr/bin".to_string(), dir(false, true));
    fs.insert("/usr/bin/true".to_string(), file(true, false, true));
    fs
}

#[test]
fn fs_test_can() -> Result<(), ApplyError> {
    let fs = user_view();
    assert!(can_create_parent_dir(&fs, "/root/test").is_err());
    can_create_parent_dir(&fs, "./Cargo.toml")?;
    assert!(can_write_file(&fs, "tmp.txt").is_ok());
    assert!(can_write_file(&fs, "./tmp.txt").is_ok());
    assert!(can_create_dir(&fs, ".").is_ok());
    assert!(can_read_file(&fs, "Cargo.toml").is_ok());
    assert!(can_execute(&fs, "/usr/bin/true").is_ok());
    assert!(can_create_dir_maybe(&fs, Some("/root")).is_err());
    assert!(can_create_dir_maybe(&fs, Some(".")).is_ok());
    Ok(())
}

#[test]
fn denial_names_the_path() {
    let fs = user_view();
    assert_eq!(
        can_create_parent_dir(&fs, "/root/test"),
        Err(ApplyError::InsufficientPrivileges("/root".to_string()))
    );
    assert_eq!(
        can_execute(&fs, "/usr/bin/missing"),
        Err(ApplyError::PathNotFound("/usr/bin/missing".to_string()))
    );
    assert_eq!(can_read_file(&fs, "/usr"), Err(ApplyError::NotAFile("/usr".to_string())));
    assert_eq!(
        can_execute(&fs, "Cargo.toml"),
        Err(ApplyError::InsufficientPrivileges("Cargo.toml".to_string()))
    );
    assert_eq!(
        can_write_file(&fs, "/usr/bin/true"),
        Err(ApplyError::InsufficientPrivileges("/usr/bin/true".to_string()))
    );
}

#[test]
fn missing_directories_are_walked_up() {
    let fs = user_view();
    assert!(can_create_dir(&fs, "./a/b/c").is_ok());
    assert_eq!(
        can_create_dir(&fs, "/root/a/b"),
        Err(ApplyError::InsufficientPrivileges("/root".to_string()))
    );
    assert!(can_write_dir(&fs, "./new").is_ok());
    assert!(can_write_to_parent_dir(&fs, "./new/file").is_ok());
    assert_eq!(
        can_write_dir(&fs, "/usr/bin"),
        Err(ApplyError::InsufficientPrivileges("/usr/bin".to_string()))
    );
}

#[test]
fn absent_directory_gives_path_not_found0() {
    let fs = user_view();
    assert_eq!(can_write_dir_maybe(&fs, None), Err(ApplyError::PathNotFound0));
    assert_eq!(can_create_dir_maybe(&fs, None), Err(ApplyError::PathNotFound0));
    let empty = FsView::new();
    assert_eq!(can_create_dir(&empty, "x"), Err(ApplyError::PathNotFound0));
}

#[test]
fn probe_paths_lists_ancestors() {
    assert_eq!(
        probe_paths("/usr/bin/true"),
        vec!["/usr/bin/true", "/usr/bin", "/usr", "/", "."]
    );
    assert_eq!(probe_paths("tmp.txt"), vec!["tmp.txt", "", "."]);
}
