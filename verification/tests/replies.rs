use fuse3::errno::Errno;
use fuse3::notify::PollNotifyKind;
use fuse3::raw::abi::{FuseInitIn, FUSE_DO_READDIRPLUS, FUSE_READDIRPLUS_AUTO};
use fuse3::raw::reply::{
    DirectoryEntry, ReplyAttr, ReplyCreated, ReplyEntry, ReplyOpen, ReplyWrite, ReplyXAttr,
};
use fuse3::raw::session::{
    encode_dir_entries, init_reply_flags, reply_attr, reply_created, reply_data, reply_entry,
    reply_error, reply_init, reply_open, reply_read, reply_status, reply_write, reply_xattr,
};
use fuse3::{FileAttr, FileType, MountOptions, Timestamp, Ttl};

fn header(len: u32, error: i32, unique: u64) -> Vec<u8> {
    let mut v = Vec::new();
    v.extend_from_slice(&len.to_le_bytes());
    v.extend_from_slice(&error.to_le_bytes());
    v.extend_from_slice(&unique.to_le_bytes());
    v
}

fn sample_attr(ino: u64) -> FileAttr {
    FileAttr {
        ino,
        generation: 0,
        size: 4096,
        blocks: 8,
        atime: Timestamp { sec: 10, nsec: 20 },
        mtime: Timestamp { sec: 30, nsec: 40 },
        ctime: Timestamp { sec: -5, nsec: 50 },
        kind: FileType::RegularFile,
        perm: 0o644,
        nlink: 1,
        uid: 1000,
        gid: 100,
        rdev: 0,
        blksize: 512,
    }
}

fn attr_bytes(a: &FileAttr) -> Vec<u8> {
    let mut v = Vec::new();
    v.extend_from_slice(&a.ino.to_le_bytes());
    v.extend_from_slice(&a.size.to_le_bytes());
    v.extend_from_slice(&a.blocks.to_le_bytes());
    v.extend_from_slice(&10u64.to_le_bytes());
    v.extend_from_slice(&30u64.to_le_bytes());
    v.extend_from_slice(&0u64.to_le_bytes());
    v.extend_from_slice(&20u32.to_le_bytes());
    v.extend_from_slice(&40u32.to_le_bytes());
    v.extend_from_slice(&0u32.to_le_bytes());
    v.extend_from_slice(&(0o100000u32 | 0o644).to_le_bytes());
    v.extend_from_slice(&a.nlink.to_le_bytes());
    v.extend_from_slice(&a.uid.to_le_bytes());
    v.extend_from_slice(&a.gid.to_le_bytes());
    v.extend_from_slice(&a.rdev.to_le_bytes());
    v.extend_from_slice(&a.blksize.to_le_bytes());
    v.extend_from_slice(&0u32.to_le_bytes());
    v
}

#[test]
fn error_reply_is_a_bare_header_with_negated_errno() {
    let r = reply_error(7, Errno(2));
    assert_eq!(r, header(16, -2, 7));
}

#[test]
fn status_reply_of_success_has_error_zero() {
    assert_eq!(reply_status(9, Ok(())), header(16, 0, 9));
    assert_eq!(reply_status(9, Err(Errno(13))), header(16, -13, 9));
}

#[test]
fn data_reply_carries_the_bytes_after_the_header() {
    let r = reply_data(1, b"abc");
    let mut expected = header(19, 0, 1);
    expected.extend_from_slice(b"abc");
    assert_eq!(r, expected);
}

#[test]
fn read_reply_is_cut_to_the_size_asked() {
    let r = reply_read(3, b"hello world", 5);
    let mut expected = header(21, 0, 3);
    expected.extend_from_slice(b"hello");
    assert_eq!(r, expected);
    let r = reply_read(3, b"hi", 5);
    let mut expected = header(18, 0, 3);
    expected.extend_from_slice(b"hi");
    assert_eq!(r, expected);
}

#[test]
fn entry_reply_layout() {
    let entry = ReplyEntry { ttl: Ttl { secs: 1, nanos: 500 }, attr: sample_attr(42), generation: 3 };
    let r = reply_entry(5, &entry);
    let mut expected = header(16 + 128, 0, 5);
    expected.extend_from_slice(&42u64.to_le_bytes());
    expected.extend_from_slice(&3u64.to_le_bytes());
    expected.extend_from_slice(&1u64.to_le_bytes());
    expected.extend_from_slice(&1u64.to_le_bytes());
    expected.extend_from_slice(&500u32.to_le_bytes());
    expected.extend_from_slice(&500u32.to_le_bytes());
    expected.extend_from_slice(&attr_bytes(&entry.attr));
    assert_eq!(r, expected);
}

#[test]
fn attr_reply_echoes_dummy() {
    let attr = ReplyAttr { ttl: Ttl { secs: 2, nanos: 7 }, attr: sample_attr(9) };
    let r = reply_attr(11, &attr, 77);
    let mut expected = header(16 + 104, 0, 11);
    expected.extend_from_slice(&2u64.to_le_bytes());
    expected.extend_from_slice(&7u32.to_le_bytes());
    expected.extend_from_slice(&77u32.to_le_bytes());
    expected.extend_from_slice(&attr_bytes(&attr.attr));
    assert_eq!(r, expected);
}

#[test]
fn created_reply_uses_its_generation_and_the_ttl_nanoseconds() {
    let mut attr = sample_attr(12);
    attr.generation = 4;
    let created =
        ReplyCreated { ttl: Ttl { secs: 1, nanos: 2_500_000 }, attr, generation: 99, fh: 6, flags: 2 };
    let r = reply_created(1, &created);
    let mut expected = header(16 + 128 + 16, 0, 1);
    expected.extend_from_slice(&12u64.to_le_bytes());
    expected.extend_from_slice(&99u64.to_le_bytes());
    expected.extend_from_slice(&1u64.to_le_bytes());
    expected.extend_from_slice(&1u64.to_le_bytes());
    expected.extend_from_slice(&2_500_000u32.to_le_bytes());
    expected.extend_from_slice(&2_500_000u32.to_le_bytes());
    expected.extend_from_slice(&attr_bytes(&attr));
    expected.extend_from_slice(&6u64.to_le_bytes());
    expected.extend_from_slice(&2u32.to_le_bytes());
    expected.extend_from_slice(&0u32.to_le_bytes());
    assert_eq!(r, expected);
}

#[test]
fn open_and_write_replies() {
    let r = reply_open(2, &ReplyOpen { fh: 8, flags: 1 });
    let mut expected = header(32, 0, 2);
    expected.extend_from_slice(&8u64.to_le_bytes());
    expected.extend_from_slice(&1u32.to_le_bytes());
    expected.extend_from_slice(&0u32.to_le_bytes());
    assert_eq!(r, expected);
    let r = reply_write(2, &ReplyWrite { written: 0x1_0000_0005 });
    let mut expected = header(24, 0, 2);
    expected.extend_from_slice(&5u32.to_le_bytes());
    expected.extend_from_slice(&0u32.to_le_bytes());
    assert_eq!(r, expected);
}

#[test]
fn xattr_size_replies_differ_between_get_and_list() {
    let r = reply_xattr(4, &ReplyXAttr::Size(10), false);
    let mut expected = header(24, 34, 4);
    expected.extend_from_slice(&10u32.to_le_bytes());
    expected.extend_from_slice(&0u32.to_le_bytes());
    assert_eq!(r, expected);
    let r = reply_xattr(4, &ReplyXAttr::Size(10), true);
    let mut expected = header(24, 0, 4);
    expected.extend_from_slice(&10u32.to_le_bytes());
    expected.extend_from_slice(&0u32.to_le_bytes());
    assert_eq!(r, expected);
    let r = reply_xattr(4, &ReplyXAttr::Data(b"v".to_vec()), false);
    let mut expected = header(17, 0, 4);
    expected.push(b'v');
    assert_eq!(r, expected);
}

#[test]
fn readdir_records_are_padded_to_eight_bytes() {
    let entries = vec![
        DirectoryEntry { inode: 2, kind: FileType::Directory, name: b"a".to_vec(), offset: 1 },
        DirectoryEntry { inode: 3, kind: FileType::RegularFile, name: b"file".to_vec(), offset: 2 },
    ];
    let r = encode_dir_entries(&entries, 4096);
    let mut expected = Vec::new();
    expected.extend_from_slice(&2u64.to_le_bytes());
    expected.extend_from_slice(&1u64.to_le_bytes());
    expected.extend_from_slice(&1u32.to_le_bytes());
    expected.extend_from_slice(&4u32.to_le_bytes());
    expected.push(b'a');
    expected.extend_from_slice(&[0; 7]);
    expected.extend_from_slice(&3u64.to_le_bytes());
    expected.extend_from_slice(&2u64.to_le_bytes());
    expected.extend_from_slice(&4u32.to_le_bytes());
    expected.extend_from_slice(&8u32.to_le_bytes());
    expected.extend_from_slice(b"file");
    expected.extend_from_slice(&[0; 4]);
    assert_eq!(r, expected);
    assert_eq!(r.len() % 8, 0);
}

#[test]
fn readdir_stops_at_the_first_entry_that_does_not_fit() {
    let entries = vec![
        DirectoryEntry { inode: 2, kind: FileType::Directory, name: b"a".to_vec(), offset: 1 },
        DirectoryEntry { inode: 3, kind: FileType::RegularFile, name: b"b".to_vec(), offset: 2 },
    ];
    let r = encode_dir_entries(&entries, 40);
    assert_eq!(r.len(), 32);
    let r = encode_dir_entries(&entries, 24);
    assert_eq!(r.len(), 0);
    let r = encode_dir_entries(&entries, 25);
    assert_eq!(r.len(), 32);
}

#[test]
fn init_flags_take_what_is_offered() {
    let opts = MountOptions::default();
    let offered = 1 | 8 | 64 | 8192 | 16384 | 65536;
    assert_eq!(init_reply_flags(offered, &opts), 1 | 8 | 8192 | 16384);
    let opts = MountOptions::default().dont_mask(true).write_back(true);
    assert_eq!(init_reply_flags(offered, &opts), 1 | 8 | 64 | 8192 | 16384 | 65536);
}

#[test]
fn forced_readdirplus_is_granted_without_the_automatic_mode() {
    let opts = MountOptions::default().force_readdir_plus(true);
    let flags = init_reply_flags(FUSE_READDIRPLUS_AUTO, &opts);
    assert_eq!(flags, FUSE_DO_READDIRPLUS);
    assert_eq!(init_reply_flags(0, &opts), FUSE_DO_READDIRPLUS);
}

#[test]
fn init_reply_states_the_library_limits() {
    let init_in = FuseInitIn { major: 7, minor: 31, max_readahead: 131072, flags: 0 };
    let r = reply_init(1, &init_in, 5);
    let mut expected = header(16 + 64, 0, 1);
    expected.extend_from_slice(&7u32.to_le_bytes());
    expected.extend_from_slice(&31u32.to_le_bytes());
    expected.extend_from_slice(&131072u32.to_le_bytes());
    expected.extend_from_slice(&5u32.to_le_bytes());
    expected.extend_from_slice(&12u16.to_le_bytes());
    expected.extend_from_slice(&10u16.to_le_bytes());
    expected.extend_from_slice(&16384u32.to_le_bytes());
    expected.extend_from_slice(&1u32.to_le_bytes());
    expected.extend_from_slice(&256u16.to_le_bytes());
    expected.extend_from_slice(&0u16.to_le_bytes());
    expected.extend_from_slice(&[0; 32]);
    assert_eq!(r, expected);
}

#[test]
fn poll_wakeup_notification() {
    let r = PollNotifyKind::Wakeup { kh: 0x55 }.encode();
    let mut expected = header(24, 1, 0);
    expected.extend_from_slice(&0x55u64.to_le_bytes());
    assert_eq!(r, expected);
}

#[test]
fn delete_notification_counts_the_name_outside_its_length() {
    let r = PollNotifyKind::Delete { parent: 1, child: 2, name: b"xy".to_vec() }.encode();
    let mut expected = header(16 + 24, 0, 0);
    expected.extend_from_slice(&1u64.to_le_bytes());
    expected.extend_from_slice(&2u64.to_le_bytes());
    expected.extend_from_slice(&2u32.to_le_bytes());
    expected.extend_from_slice(&0u32.to_le_bytes());
    expected.extend_from_slice(b"xy");
    assert_eq!(r, expected);
}

#[test]
fn invalidate_inode_notification() {
    let r = PollNotifyKind::InvalidInode { inode: 3, offset: -1, len: 9 }.encode();
    let mut expected = header(16 + 24, 2, 0);
    expected.extend_from_slice(&3u64.to_le_bytes());
    expected.extend_from_slice(&(-1i64).to_le_bytes());
    expected.extend_from_slice(&9i64.to_le_bytes());
    assert_eq!(r, expected);
}
