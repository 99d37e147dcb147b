use kernel::fs::path::{FileManager, RenameCheck};
use kernel::fs::{ErrorKind, INodeType};

fn strings(v: &[&str]) -> Vec<String> {
    v.iter().map(|s| s.to_string()).collect()
}

#[test]
fn absolute_path_components() {
    assert_eq!(
        FileManager::canonical_path_components("/home", "/usr/./lib//x/../bin/"),
        strings(&["usr", "lib", "bin"])
    );
}

#[test]
fn relative_path_components() {
    assert_eq!(
        FileManager::canonical_path_components("/home/user", "docs/../pics"),
        strings(&["home", "user", "pics"])
    );
    assert_eq!(FileManager::canonical_path_components("/", "."), strings(&[]));
}

#[test]
fn dot_dot_stops_at_the_root() {
    assert_eq!(FileManager::canonical_path_components("/", "../../etc"), strings(&["etc"]));
    assert_eq!(FileManager::canonicalize("/a", ".."), "/");
}

#[test]
fn join_and_canonicalize() {
    assert_eq!(FileManager::join_path(&strings(&[])), "/");
    assert_eq!(FileManager::join_path(&strings(&["boot", "kernel.bin"])), "/boot/kernel.bin");
    assert_eq!(FileManager::canonicalize("/system", "./bin/../lib"), "/system/lib");
}

#[test]
fn canonicalize_is_idempotent() {
    let once = FileManager::canonicalize("/home/user", "a//b/../c/.");
    assert_eq!(once, "/home/user/a/c");
    assert_eq!(FileManager::canonicalize("/elsewhere", &once), once);
}

#[test]
fn unicode_components() {
    assert_eq!(
        FileManager::canonical_path_components("/", "日本/語"),
        strings(&["日本", "語"])
    );
}

#[test]
fn parent_paths() {
    assert_eq!(FileManager::parent_path("/a/b/c"), Some("/a/b".to_string()));
    assert_eq!(FileManager::parent_path("a"), Some("/".to_string()));
    assert_eq!(FileManager::parent_path("/"), None);
    assert_eq!(FileManager::parent_path("/a/.."), None);
}

#[test]
fn longest_mount_point_wins() {
    let mut fm = FileManager::new();
    fm.mount("/");
    fm.mount("/dev/");
    fm.mount("/dev/");
    assert_eq!(fm.mount_prefix("/dev/null/"), Some(1));
    assert_eq!(fm.mount_prefix("/device/"), Some(0));
    assert_eq!(fm.mount_prefix("/"), Some(0));
    let empty = FileManager::new();
    assert_eq!(empty.mount_prefix("/"), None);
}

#[test]
fn resolve_below_mount_points() {
    let mut fm = FileManager::new();
    assert_eq!(fm.resolve("/", "/x"), Err(ErrorKind::NotFound));
    fm.mount("/");
    fm.mount("/dev/");
    assert_eq!(fm.resolve("/", "/dev/null"), Ok((1, strings(&["null"]))));
    assert_eq!(fm.resolve("/dev", "../boot/a"), Ok((0, strings(&["boot", "a"]))));
    assert_eq!(fm.resolve("/", "/dev"), Ok((1, strings(&[]))));
    assert_eq!(
        fm.resolve_parent("/", "/dev/null"),
        Ok((1, strings(&[]), Some("null".to_string())))
    );
    assert_eq!(
        fm.resolve_parent("/", "/home/user/file"),
        Ok((0, strings(&["home", "user"]), Some("file".to_string())))
    );
    assert_eq!(fm.resolve_parent("/", "/"), Ok((0, strings(&[]), None)));
}

#[test]
fn rename_checks() {
    assert_eq!(FileManager::rename_check("/", "/a/b", "a/./b"), Ok(RenameCheck::Unchanged));
    assert_eq!(FileManager::rename_check("/", "/a", "/a/b"), Err(ErrorKind::InvalidInput));
    assert_eq!(FileManager::rename_check("/", "/a", "/ab"), Ok(RenameCheck::Proceed));
    assert_eq!(FileManager::rename_check("/", "/a/b", "/a"), Ok(RenameCheck::Proceed));
}

#[test]
fn rename_destinations() {
    let dir = INodeType::new(5).unwrap();
    let other = INodeType::new(9).unwrap();
    assert_eq!(
        FileManager::rename_destination(dir, None, "old", None),
        (dir, "old".to_string())
    );
    assert_eq!(
        FileManager::rename_destination(dir, Some("new".to_string()), "old", None),
        (dir, "new".to_string())
    );
    assert_eq!(
        FileManager::rename_destination(dir, Some("sub".to_string()), "old", Some((other, true))),
        (other, "old".to_string())
    );
    assert_eq!(
        FileManager::rename_destination(dir, Some("file".to_string()), "old", Some((other, false))),
        (dir, "file".to_string())
    );
}
