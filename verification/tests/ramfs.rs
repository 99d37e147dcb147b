use kernel::fs::ramfs::RamFs;
use kernel::fs::{ErrorKind, FileType, INodeType};

fn inode(n: u128) -> INodeType {
    INodeType::new(n).unwrap()
}

#[test]
fn new_file_system_is_an_empty_root() {
    let mut fs = RamFs::new();
    let root = fs.root_dir();
    assert_eq!(fs.device_name(), "ramfs");
    assert!(fs.description().is_none());
    let stat = fs.stat(root).unwrap();
    assert_eq!(stat.file_type(), FileType::Dir);
    assert_eq!(stat.len(), 0);
    assert!(fs.read_dir(root, 0).is_none());
}

#[test]
fn read_after_write() {
    let mut fs = RamFs::new();
    let root = fs.root_dir();
    let token = fs.creat(root, "hello.txt").unwrap();
    assert_eq!(fs.write_data(token, 0, b"hello, world"), Ok(12));
    let mut buf = [0u8; 5];
    assert_eq!(fs.read_data(token, 7, &mut buf), Ok(5));
    assert_eq!(&buf, b"world");
    let mut big = [0xAAu8; 20];
    assert_eq!(fs.read_data(token, 0, &mut big), Ok(12));
    assert_eq!(&big[..12], b"hello, world");
    assert_eq!(big[12], 0xAA);
    assert_eq!(fs.read_data(token, 12, &mut buf), Ok(0));
    assert_eq!(fs.token_stat(token).unwrap().len(), 12);
    fs.close(token);
    let found = fs.lookup(root, "hello.txt").unwrap();
    assert_eq!(found, token);
    assert_eq!(fs.stat(found).unwrap().file_type(), FileType::File);
}

#[test]
fn write_in_the_middle_drops_the_tail() {
    let mut fs = RamFs::new();
    let root = fs.root_dir();
    let token = fs.creat(root, "a").unwrap();
    assert_eq!(fs.write_data(token, 0, b"abcdef"), Ok(6));
    assert_eq!(fs.write_data(token, 2, b"XY"), Ok(2));
    let mut buf = [0u8; 8];
    assert_eq!(fs.read_data(token, 0, &mut buf), Ok(4));
    assert_eq!(&buf[..4], b"abXY");
}

#[test]
fn write_past_the_end_fills_with_zeros() {
    let mut fs = RamFs::new();
    let root = fs.root_dir();
    let token = fs.creat(root, "gap").unwrap();
    assert_eq!(fs.write_data(token, 3, b"z"), Ok(1));
    let mut buf = [9u8; 4];
    assert_eq!(fs.read_data(token, 0, &mut buf), Ok(4));
    assert_eq!(buf, [0, 0, 0, b'z']);
}

#[test]
fn truncate_grows_only() {
    let mut fs = RamFs::new();
    let root = fs.root_dir();
    let token = fs.creat(root, "t").unwrap();
    assert_eq!(fs.write_data(token, 0, b"ab"), Ok(2));
    assert_eq!(fs.truncate(token, 4), Ok(()));
    let mut buf = [9u8; 4];
    assert_eq!(fs.read_data(token, 0, &mut buf), Ok(4));
    assert_eq!(buf, [b'a', b'b', 0, 0]);
    assert_eq!(fs.truncate(token, 1), Err(ErrorKind::InvalidInput));
    assert_eq!(fs.truncate(token, -1), Err(ErrorKind::InvalidInput));
}

#[test]
fn quota_on_file_size() {
    let mut fs = RamFs::new();
    let root = fs.root_dir();
    let token = fs.creat(root, "big").unwrap();
    assert_eq!(
        fs.write_data(token, 0x7FFF_FFFF, b"x"),
        Err(ErrorKind::FilesystemQuotaExceeded)
    );
}

#[test]
fn names_are_unique_in_a_directory() {
    let mut fs = RamFs::new();
    let root = fs.root_dir();
    assert!(fs.creat(root, "x").is_ok());
    assert_eq!(fs.creat(root, "x"), Err(ErrorKind::AlreadyExists));
    assert_eq!(fs.mkdir(root, "x"), Err(ErrorKind::AlreadyExists));
    assert_eq!(fs.mkdir(root, "d"), Ok(()));
    assert_eq!(fs.mkdir(root, "d"), Err(ErrorKind::AlreadyExists));
}

#[test]
fn errors_of_lookup() {
    let mut fs = RamFs::new();
    let root = fs.root_dir();
    assert_eq!(fs.lookup(root, "missing"), Err(ErrorKind::NotFound));
    let file = fs.creat(root, "f").unwrap();
    assert_eq!(fs.lookup(file, "x"), Err(ErrorKind::NotADirectory));
    assert_eq!(fs.creat(file, "x"), Err(ErrorKind::NotADirectory));
    assert_eq!(fs.lookup(inode(999), "x"), Err(ErrorKind::NotFound));
    assert_eq!(fs.read_data(root, 0, &mut [0u8; 1]), Err(ErrorKind::IsADirectory));
    assert_eq!(fs.write_data(root, 0, b"x"), Err(ErrorKind::IsADirectory));
    assert_eq!(fs.write_data(inode(999), 0, b"x"), Err(ErrorKind::NotFound));
}

#[test]
fn directory_listing() {
    let mut fs = RamFs::new();
    let root = fs.root_dir();
    fs.mkdir(root, "bin").unwrap();
    let t = fs.creat(root, "readme").unwrap();
    fs.close(t);
    let e0 = fs.read_dir(root, 0).unwrap();
    assert_eq!(e0.name(), "bin");
    assert_eq!(e0.metadata().file_type(), FileType::Dir);
    let e1 = fs.read_dir(root, 1).unwrap();
    assert_eq!(e1.name(), "readme");
    assert_eq!(e1.inode(), t);
    assert!(fs.read_dir(root, 2).is_none());
    assert_eq!(fs.stat(root).unwrap().len(), 2);
}

#[test]
fn unlink_removes_the_name() {
    let mut fs = RamFs::new();
    let root = fs.root_dir();
    let t = fs.creat(root, "gone").unwrap();
    fs.close(t);
    assert_eq!(fs.unlink(root, "gone"), Ok(()));
    assert_eq!(fs.lookup(root, "gone"), Err(ErrorKind::NotFound));
    assert_eq!(fs.unlink(root, "gone"), Err(ErrorKind::NotFound));
    assert!(fs.stat(t).is_none());
}

#[test]
fn unlink_keeps_open_files_readable() {
    let mut fs = RamFs::new();
    let root = fs.root_dir();
    let t = fs.creat(root, "open").unwrap();
    fs.write_data(t, 0, b"data").unwrap();
    assert_eq!(fs.unlink(root, "open"), Ok(()));
    assert_eq!(fs.lookup(root, "open"), Err(ErrorKind::NotFound));
    let mut buf = [0u8; 4];
    assert_eq!(fs.read_data(t, 0, &mut buf), Ok(4));
    assert_eq!(&buf, b"data");
    fs.close(t);
}

#[test]
fn unlink_refuses_a_full_directory() {
    let mut fs = RamFs::new();
    let root = fs.root_dir();
    fs.mkdir(root, "dir").unwrap();
    let dir = fs.lookup(root, "dir").unwrap();
    let t = fs.creat(dir, "inner").unwrap();
    fs.close(t);
    assert_eq!(fs.unlink(root, "dir"), Err(ErrorKind::DirectoryNotEmpty));
    assert_eq!(fs.unlink(dir, "inner"), Ok(()));
    assert_eq!(fs.unlink(root, "dir"), Ok(()));
    assert_eq!(fs.lookup(root, "dir"), Err(ErrorKind::NotFound));
}

#[test]
fn rename_in_place_and_across() {
    let mut fs = RamFs::new();
    let root = fs.root_dir();
    let t = fs.creat(root, "old").unwrap();
    fs.close(t);
    assert_eq!(fs.rename(root, "old", root, "new", true), Ok(()));
    assert_eq!(fs.lookup(root, "old"), Err(ErrorKind::NotFound));
    assert_eq!(fs.lookup(root, "new"), Ok(t));
    fs.mkdir(root, "sub").unwrap();
    let sub = fs.lookup(root, "sub").unwrap();
    assert_eq!(fs.rename(root, "new", sub, "moved", true), Ok(()));
    assert_eq!(fs.lookup(root, "new"), Err(ErrorKind::NotFound));
    assert_eq!(fs.lookup(sub, "moved"), Ok(t));
    assert_eq!(fs.rename(root, "nothing", sub, "x", true), Err(ErrorKind::NotFound));
}

#[test]
fn rename_onto_an_existing_name() {
    let mut fs = RamFs::new();
    let root = fs.root_dir();
    let a = fs.creat(root, "a").unwrap();
    fs.close(a);
    let b = fs.creat(root, "b").unwrap();
    fs.close(b);
    assert_eq!(fs.rename(root, "a", root, "b", false), Err(ErrorKind::AlreadyExists));
    assert_eq!(fs.rename(root, "a", root, "b", true), Ok(()));
    assert_eq!(fs.lookup(root, "b"), Ok(a));
    assert_eq!(fs.lookup(root, "a"), Err(ErrorKind::NotFound));
    assert!(fs.stat(b).is_none());
}

#[test]
fn open_and_close_count_references() {
    let mut fs = RamFs::new();
    let root = fs.root_dir();
    let t = fs.creat(root, "f").unwrap();
    fs.close(t);
    let again = fs.open(t).unwrap();
    assert_eq!(again, t);
    fs.close(again);
    assert!(fs.stat(t).is_some());
    assert_eq!(fs.open(inode(12345)), Err(ErrorKind::NotFound));
}

#[test]
fn walk_follows_components() {
    let mut fs = RamFs::new();
    let root = fs.root_dir();
    fs.mkdir(root, "a").unwrap();
    let a = fs.lookup(root, "a").unwrap();
    fs.mkdir(a, "b").unwrap();
    let b = fs.lookup(a, "b").unwrap();
    let token = fs.creat(b, "f").unwrap();
    fs.close(token);
    let path = |names: &[&str]| names.iter().map(|s| s.to_string()).collect::<Vec<String>>();
    assert_eq!(fs.walk(root, &path(&[])), Ok(root));
    assert_eq!(fs.walk(root, &path(&["a", "b"])), Ok(b));
    assert_eq!(fs.walk(root, &path(&["a", "x", "b"])), Err(ErrorKind::NotFound));
    assert_eq!(fs.walk(root, &path(&["a", "b", "f", "g"])), Err(ErrorKind::NotADirectory));
    assert_eq!(fs.walk(inode(999), &path(&["a"])), Err(ErrorKind::NotFound));
}
