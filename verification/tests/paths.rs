use std::cmp::Ordering;
use std::collections::hash_map::DefaultHasher;
use std::hash::{Hash, Hasher};

use fuse3::errno::Errno;
use fuse3::path::absolute_path::{components, path_push, AbsolutePath};
use fuse3::path::inode_generator::InodeGenerator;
use fuse3::path::inode_path_bridge::{reply_attr, InodeNameManager, Name, ROOT_INODE};
use fuse3::path::reply::{DirectoryEntry, FileAttr, ReplyAttr, ReplyCreated, ReplyEntry};
use fuse3::{FileType, Timestamp, Ttl};

fn attr() -> FileAttr {
    FileAttr {
        size: 1,
        blocks: 1,
        atime: Timestamp { sec: 1, nsec: 0 },
        mtime: Timestamp { sec: 1, nsec: 0 },
        ctime: Timestamp { sec: 1, nsec: 0 },
        kind: FileType::RegularFile,
        perm: 0o644,
        nlink: 1,
        uid: 0,
        gid: 0,
        rdev: 0,
        blksize: 512,
    }
}

fn entry() -> ReplyEntry {
    ReplyEntry { ttl: Ttl { secs: 1, nanos: 0 }, attr: attr() }
}

#[test]
fn generator_starts_at_one_and_reuses_the_last_released() {
    let mut g = InodeGenerator::new();
    assert_eq!(g.allocate_inode(), 1);
    assert_eq!(g.allocate_inode(), 2);
    assert_eq!(g.allocate_inode(), 3);
    g.release_inode(2);
    g.release_inode(3);
    g.release_inode(3);
    g.release_inode(0);
    assert_eq!(g.allocate_inode(), 3);
    assert_eq!(g.allocate_inode(), 2);
    assert_eq!(g.allocate_inode(), 4);
}

#[test]
fn root_path_is_slash() {
    let m = InodeNameManager::new();
    assert_eq!(m.get_absolute_path(ROOT_INODE), Some(b"/".to_vec()));
    assert_eq!(m.get_absolute_path(2), None);
    assert_eq!(m.parent_path(2), Err(Errno(2)));
}

#[test]
fn lookup_gives_a_stable_inode_and_a_path() {
    let mut m = InodeNameManager::new();
    let r = m.reply_lookup(ROOT_INODE, b"dir", Ok(entry())).unwrap();
    assert_eq!(r.attr.ino, 2);
    assert_eq!(r.generation, 0);
    let again = m.reply_lookup(ROOT_INODE, b"dir", Ok(entry())).unwrap();
    assert_eq!(again.attr.ino, 2);
    let child = m.reply_lookup(2, b"file", Ok(entry())).unwrap();
    assert_eq!(child.attr.ino, 3);
    assert_eq!(m.get_absolute_path(3), Some(b"/dir/file".to_vec()));
    assert_eq!(m.get_name_inode(&Name::new(2, b"file")), Some(3));
    assert!(m.contains_name(&Name::new(ROOT_INODE, b"dir")));
}

#[test]
fn missing_lookup_drops_the_name() {
    let mut m = InodeNameManager::new();
    m.reply_lookup(ROOT_INODE, b"gone", Ok(entry())).unwrap();
    let r = m.reply_lookup(ROOT_INODE, b"gone", Err(Errno(2)));
    assert_eq!(r, Err(Errno(2)));
    assert!(!m.contains_name(&Name::new(ROOT_INODE, b"gone")));
    assert_eq!(m.get_absolute_path(2), None);
}

#[test]
fn other_lookup_errors_change_nothing() {
    let mut m = InodeNameManager::new();
    m.reply_lookup(ROOT_INODE, b"kept", Ok(entry())).unwrap();
    assert_eq!(m.reply_lookup(ROOT_INODE, b"kept", Err(Errno(13))), Err(Errno(13)));
    assert_eq!(m.get_absolute_path(2), Some(b"/kept".to_vec()));
}

#[test]
fn mkdir_existing_drops_the_name() {
    let mut m = InodeNameManager::new();
    m.reply_mkdir(ROOT_INODE, b"d", Ok(entry())).unwrap();
    assert_eq!(m.reply_mkdir(ROOT_INODE, b"d", Err(Errno(17))), Err(Errno(17)));
    assert!(!m.contains_name(&Name::new(ROOT_INODE, b"d")));
}

#[test]
fn unlink_removes_and_is_dir_keeps() {
    let mut m = InodeNameManager::new();
    m.reply_mknod(ROOT_INODE, b"f", Ok(entry())).unwrap();
    assert_eq!(m.reply_unlink(ROOT_INODE, b"f", Ok(())), Ok(()));
    assert!(!m.contains_name(&Name::new(ROOT_INODE, b"f")));
    assert_eq!(m.reply_unlink(ROOT_INODE, b"d", Err(Errno(21))), Err(Errno(21)));
    assert!(m.contains_name(&Name::new(ROOT_INODE, b"d")));
    assert_eq!(m.reply_rmdir(ROOT_INODE, b"x", Err(Errno(20))), Err(Errno(20)));
    assert!(m.contains_name(&Name::new(ROOT_INODE, b"x")));
    assert_eq!(m.reply_rmdir(ROOT_INODE, b"x", Ok(())), Ok(()));
    assert!(!m.contains_name(&Name::new(ROOT_INODE, b"x")));
}

#[test]
fn rename_moves_the_inode_to_the_new_name() {
    let mut m = InodeNameManager::new();
    let a = m.reply_lookup(ROOT_INODE, b"a", Ok(entry())).unwrap().attr.ino;
    let d = m.reply_mkdir(ROOT_INODE, b"d", Ok(entry())).unwrap().attr.ino;
    assert_eq!(m.reply_rename(ROOT_INODE, b"a", d, b"b", Ok(())), Ok(()));
    assert_eq!(m.get_name_inode(&Name::new(d, b"b")), Some(a));
    assert_eq!(m.get_name_inode(&Name::new(ROOT_INODE, b"a")), None);
    assert_eq!(m.get_absolute_path(a), Some(b"/d/b".to_vec()));
    assert_eq!(m.reply_rename(d, b"b", ROOT_INODE, b"c", Err(Errno(18))), Err(Errno(18)));
    assert_eq!(m.get_absolute_path(a), Some(b"/d/b".to_vec()));
}

#[test]
fn create_names_the_file() {
    let mut m = InodeNameManager::new();
    let created = ReplyCreated { ttl: Ttl { secs: 2, nanos: 3 }, attr: attr(), fh: 7, flags: 1 };
    let r = m.reply_create(ROOT_INODE, b"new", Ok(created)).unwrap();
    assert_eq!(r.attr.ino, 2);
    assert_eq!(r.fh, 7);
    assert_eq!(r.flags, 1);
    assert_eq!(r.generation, 0);
    assert_eq!(m.reply_create(ROOT_INODE, b"other", Err(Errno(17))), Err(Errno(17)));
    assert_eq!(m.get_name_inode(&Name::new(ROOT_INODE, b"other")), Some(3));
}

#[test]
fn readdir_entries_get_inodes() {
    let mut m = InodeNameManager::new();
    let d = m.reply_mkdir(ROOT_INODE, b"d", Ok(entry())).unwrap().attr.ino;
    let dot = DirectoryEntry { kind: FileType::Directory, name: b".".to_vec(), offset: 1 };
    let dotdot = DirectoryEntry { kind: FileType::Directory, name: b"..".to_vec(), offset: 2 };
    let file = DirectoryEntry { kind: FileType::RegularFile, name: b"f".to_vec(), offset: 3 };
    assert_eq!(m.readdir_entry(d, &dot).inode, d);
    assert_eq!(m.readdir_entry(d, &dotdot).inode, ROOT_INODE);
    let e = m.readdir_entry(d, &file);
    assert_eq!(e.inode, 3);
    assert_eq!(e.name, b"f".to_vec());
    assert_eq!(e.offset, 3);
    assert_eq!(m.get_absolute_path(3), Some(b"/d/f".to_vec()));
}

#[test]
fn forget_drops_the_inode_and_reuses_its_number() {
    let mut m = InodeNameManager::new();
    let a = m.reply_lookup(ROOT_INODE, b"a", Ok(entry())).unwrap().attr.ino;
    assert_eq!(m.forget(a), Some(b"/a".to_vec()));
    assert_eq!(m.get_absolute_path(a), None);
    assert_eq!(m.forget(a), None);
    let b = m.reply_lookup(ROOT_INODE, b"b", Ok(entry())).unwrap().attr.ino;
    assert_eq!(b, a);
}

#[test]
fn batch_forget_returns_paths_of_those_that_have_one() {
    let mut m = InodeNameManager::new();
    let a = m.reply_lookup(ROOT_INODE, b"a", Ok(entry())).unwrap().attr.ino;
    let b = m.reply_lookup(a, b"b", Ok(entry())).unwrap().attr.ino;
    let paths = m.batch_forget(&[a, 99, b]);
    assert_eq!(paths, vec![b"/a".to_vec(), b"/a/b".to_vec()]);
    assert_eq!(m.get_absolute_path(a), None);
    assert_eq!(m.get_absolute_path(b), None);
}

#[test]
fn attr_reply_gets_the_inode() {
    let r = reply_attr(5, Ok(ReplyAttr { ttl: Ttl { secs: 1, nanos: 1 }, attr: attr() })).unwrap();
    assert_eq!(r.attr.ino, 5);
    assert_eq!(r.attr.size, 1);
    assert_eq!(reply_attr(5, Err(Errno(2))), Err(Errno(2)));
}

#[test]
fn absolute_paths_spell_their_names() {
    let root = AbsolutePath::root();
    assert_eq!(root.absolute_path_buf(), b"/".to_vec());
    assert!(root.parent().is_none());
    let a = AbsolutePath::new(&root, b"a");
    let ab = AbsolutePath::new(&a, b"b");
    assert_eq!(ab.absolute_path_buf(), b"/a/b".to_vec());
    assert_eq!(ab.parent().unwrap().absolute_path_buf(), b"/a/b".to_vec());
    let abs = AbsolutePath::new(&a, b"/etc");
    assert_eq!(abs.absolute_path_buf(), b"/etc".to_vec());
}

#[test]
fn paths_compare_by_components() {
    let root = AbsolutePath::root();
    let a = AbsolutePath::new(&root, b"a");
    let a_slash = AbsolutePath::new(&root, b"a/");
    let a_dot = AbsolutePath::new(&a, b".");
    let b = AbsolutePath::new(&root, b"b");
    assert!(a == a_slash);
    assert_eq!(a.partial_cmp(&a_slash), Some(Ordering::Equal));
    assert!(a == a_dot);
    assert!(a != b);
    assert_eq!(a.partial_cmp(&b), Some(Ordering::Less));
    assert_eq!(b.partial_cmp(&a), Some(Ordering::Greater));
    assert_eq!(root.partial_cmp(&a), Some(Ordering::Less));
    let parent = AbsolutePath::new(&root, b"..");
    let dash = AbsolutePath::new(&root, b"-");
    assert_eq!(parent.partial_cmp(&dash), Some(Ordering::Less));
}

#[test]
fn push_follows_pathbuf() {
    let mut p = b"/tmp".to_vec();
    path_push(&mut p, b"file");
    assert_eq!(p, b"/tmp/file".to_vec());
    let mut p = b"/".to_vec();
    path_push(&mut p, b"x");
    assert_eq!(p, b"/x".to_vec());
    let mut p = b"/tmp".to_vec();
    path_push(&mut p, b"/etc");
    assert_eq!(p, b"/etc".to_vec());
    let mut p = Vec::new();
    path_push(&mut p, b"rel");
    assert_eq!(p, b"rel".to_vec());
    assert_eq!(components(b"//a/./b/"), vec![b"a".to_vec(), b"b".to_vec()]);
}

#[test]
fn equal_paths_hash_alike() {
    let root = AbsolutePath::root();
    let a = AbsolutePath::new(&root, b"a");
    let a_slash = AbsolutePath::new(&root, b"a/");
    let hash = |p: &AbsolutePath| {
        let mut h = DefaultHasher::new();
        p.hash(&mut h);
        h.finish()
    };
    assert!(a == a_slash);
    assert_eq!(hash(&a), hash(&a_slash));
}

#[test]
fn forgotten_inode_is_led_to_by_no_name() {
    let mut m = InodeNameManager::new();
    let a = m.reply_lookup(ROOT_INODE, b"a", Ok(entry())).unwrap().attr.ino;
    m.remove_inode(a);
    assert_eq!(m.get_name_inode(&Name::new(ROOT_INODE, b"a")), None);
    assert_eq!(m.get_absolute_path(a), None);
}
