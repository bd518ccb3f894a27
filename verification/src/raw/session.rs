//! The decisions of a filesystem session: how a request read from the kernel is
//! decoded, and the bytes that answer it.
//!
//! Reading from and writing to the kernel device, and running the filesystem's
//! operations, are left to the caller, which hands the results back here.

use crate::errno::{EINVAL, ENODEV, ENOENT, ENOSYS, ERANGE};
use crate::helper::{
    after_cstr, cstr, get_first_null_position, get_padding_size, has_null,
    lemma_cstr_split, lemma_null_index, lemma_perm_mode_roundtrip, mode_from_kind_and_perm, spec_mode_from_kind_and_perm,
};
use crate::mount_options::MountOptions;
use crate::raw::abi::{
    DEFAULT_CONGESTION_THRESHOLD, DEFAULT_MAP_ALIGNMENT, DEFAULT_MAX_BACKGROUND, DEFAULT_MAX_PAGES, DEFAULT_TIME_GRAN, FUSE_ACCESS, FUSE_ACCESS_IN_SIZE, FUSE_ASYNC_DIO, FUSE_ASYNC_READ, FUSE_ATOMIC_O_TRUNC, FUSE_ATTR_OUT_SIZE, FUSE_AUTO_INVAL_DATA, FUSE_BATCH_FORGET, FUSE_BATCH_FORGET_IN_SIZE, FUSE_BIG_WRITES, FUSE_BMAP, FUSE_BMAP_IN_SIZE, FUSE_BMAP_OUT_SIZE, FUSE_CACHE_SYMLINKS, FUSE_COPY_FILE_RANGE, FUSE_COPY_FILE_RANGE_IN_SIZE, FUSE_CREATE, FUSE_CREATE_IN_SIZE, FUSE_DESTROY, FUSE_DIRENTPLUS_SIZE, FUSE_DIRENT_SIZE, FUSE_DONT_MASK, FUSE_DO_READDIRPLUS, FUSE_ENTRY_OUT_SIZE, FUSE_EXPORT_SUPPORT, FUSE_FALLOCATE, FUSE_FALLOCATE_IN_SIZE, FUSE_FILE_OPS, FUSE_FLUSH, FUSE_FLUSH_IN_SIZE, FUSE_FORGET, FUSE_FORGET_IN_SIZE, FUSE_FORGET_ONE_SIZE, FUSE_FSYNC, FUSE_FSYNCDIR, FUSE_FSYNC_IN_SIZE, FUSE_GETATTR, FUSE_GETATTR_FH, FATTR_FH, FUSE_RELEASE_FLUSH, FUSE_POLL_SCHEDULE_NOTIFY, FUSE_GETATTR_IN_SIZE, FUSE_GETLK, FUSE_GETXATTR, FUSE_GETXATTR_IN_SIZE, FUSE_GETXATTR_OUT_SIZE, FUSE_HANDLE_KILLPRIV, FUSE_INIT, FUSE_INIT_IN_SIZE, FUSE_INIT_OUT_SIZE, FUSE_INTERRUPT, FUSE_INTERRUPT_IN_SIZE, FUSE_IN_HEADER_SIZE, FUSE_IOCTL, FUSE_KERNEL_MINOR_VERSION, FUSE_KERNEL_VERSION, FUSE_LINK, FUSE_LINK_IN_SIZE, FUSE_LISTXATTR, FUSE_LK_IN_SIZE, FUSE_LK_OUT_SIZE, FUSE_LOOKUP, FUSE_LSEEK, FUSE_LSEEK_IN_SIZE, FUSE_LSEEK_OUT_SIZE, FUSE_MAX_PAGES, FUSE_MKDIR, FUSE_MKDIR_IN_SIZE, FUSE_MKNOD, FUSE_MKNOD_IN_SIZE, FUSE_NOTIFY_REPLY, FUSE_NOTIFY_RETRIEVE_IN_SIZE, FUSE_NO_OPENDIR_SUPPORT, FUSE_NO_OPEN_SUPPORT, FUSE_OPEN, FUSE_OPENDIR, FUSE_OPEN_IN_SIZE, FUSE_OPEN_OUT_SIZE, FUSE_OUT_HEADER_SIZE, FUSE_PARALLEL_DIROPS, FUSE_POLL, FUSE_POLL_IN_SIZE, FUSE_POLL_OUT_SIZE, FUSE_POSIX_ACL, FUSE_POSIX_LOCKS, FUSE_READ, FUSE_READDIR, FUSE_READDIRPLUS, FUSE_READDIRPLUS_AUTO, FUSE_READLINK, FUSE_READ_IN_SIZE, FUSE_RELEASE, FUSE_RELEASEDIR, FUSE_RELEASE_IN_SIZE, FUSE_REMOVEXATTR, FUSE_RENAME, FUSE_RENAME2, FUSE_RENAME2_IN_SIZE, FUSE_RENAME_IN_SIZE, FUSE_RMDIR, FUSE_SETATTR, FUSE_SETATTR_IN_SIZE, FUSE_SETLK, FUSE_SETLKW, FUSE_SETXATTR, FUSE_SETXATTR_IN_SIZE, FUSE_SPLICE_MOVE, FUSE_SPLICE_READ, FUSE_SPLICE_WRITE, FUSE_STATFS, FUSE_STATFS_OUT_SIZE, FUSE_SYMLINK, FUSE_UNLINK, FUSE_WRITE, FUSE_WRITEBACK_CACHE, FUSE_WRITE_IN_SIZE, FUSE_WRITE_OUT_SIZE, FuseAccessIn, FuseBatchForgetIn, FuseBmapIn, FuseBmapOut, FuseCopyFileRangeIn, FuseCreateIn, FuseDirent, FuseDirentplus, FuseEntryOut, FuseFallocateIn, FuseFlushIn, FuseForgetIn, FuseForgetOne, FuseFsyncIn, FuseGetattrIn, FuseGetxattrIn, FuseGetxattrOut, FuseInHeader, FuseInitIn, FuseInitOut, FuseInterruptIn, FuseLinkIn, FuseLkIn, FuseLseekIn, FuseLseekOut, FuseMkdirIn, FuseMknodIn, FuseNotifyRetrieveIn, FuseOpenIn, FuseOutHeader, FusePollIn, FusePollOut, FuseReadIn, FuseReleaseIn, FuseRename2In, FuseRenameIn, FuseSetattrIn, FuseSetxattrIn, FuseWriteIn, FuseWriteOut, MAX_WRITE_SIZE,
};
use crate::raw::reply::{
    DirectoryEntry, DirectoryEntryPlus, ReplyAttr, ReplyBmap, ReplyCopyFileRange, ReplyCreated,
    ReplyEntry, ReplyLSeek, ReplyLock, ReplyOpen, ReplyPoll, ReplyStatFs, ReplyWrite, ReplyXAttr,
};
use crate::request::Request;
use crate::wire::{le32, le64, lemma_le_roundtrip, lemma_u32_at_le, lemma_u64_at_le, u32_at, u64_at};
use crate::Errno;
use vstd::prelude::*;

verus! {

// ---------------------------------------------------------------------------
// Replies
// ---------------------------------------------------------------------------

/// The bytes of a reply: a header that gives the total length, the error and the
/// id of the request answered, then the body.
pub open spec fn spec_reply(unique: u64, error: i32, body: Seq<u8>) -> Seq<u8> {
    FuseOutHeader { len: (FUSE_OUT_HEADER_SIZE + body.len()) as u32, error, unique }.spec_encode()
        + body
}

/// A new buffer holding the header of a reply with a body of `body_len` bytes.
fn start_reply(unique: u64, error: i32, body_len: usize) -> (r: Vec<u8>)
    requires
        body_len <= usize::MAX - FUSE_OUT_HEADER_SIZE,
    ensures
        r@ == (FuseOutHeader {
            len: (FUSE_OUT_HEADER_SIZE + body_len) as u32,
            error,
            unique,
        }).spec_encode(),
{
    let mut data = Vec::new();
    let header = FuseOutHeader { len: (FUSE_OUT_HEADER_SIZE + body_len) as u32, error, unique };
    header.encode_into(&mut data);
    assert(data@ =~= header.spec_encode());
    data
}

/// The reply that reports `err` for request `unique`.
pub fn reply_error(unique: u64, err: Errno) -> (r: Vec<u8>)
    requires
        err.0 != i32::MIN,
    ensures
        r@ == spec_reply(unique, (-err.0) as i32, Seq::empty()),
{
    let r = start_reply(unique, err.to_reply_error(), 0);
    assert(r@ =~= spec_reply(unique, (-err.0) as i32, Seq::empty()));
    r
}

/// The error field for the outcome of an operation that returns nothing: zero
/// on success, the negated errno on failure.
pub open spec fn spec_status(result: crate::Result<()>) -> i32 {
    match result {
        Ok(()) => 0,
        Err(err) => (-err.0) as i32,
    }
}

/// The reply to an operation that returns nothing.
pub fn reply_status(unique: u64, result: crate::Result<()>) -> (r: Vec<u8>)
    requires
        result matches Err(err) ==> err.0 != i32::MIN,
    ensures
        r@ == spec_reply(unique, spec_status(result), Seq::empty()),
{
    let error = match result {
        Ok(()) => 0,
        Err(err) => err.to_reply_error(),
    };
    let r = start_reply(unique, error, 0);
    assert(r@ =~= spec_reply(unique, spec_status(result), Seq::empty()));
    r
}

/// The reply carrying `data` as its body.
pub fn reply_data(unique: u64, data: &[u8]) -> (r: Vec<u8>)
    requires
        data@.len() <= usize::MAX - FUSE_OUT_HEADER_SIZE,
    ensures
        r@ == spec_reply(unique, 0, data@),
{
    let mut r = start_reply(unique, 0, data.len());
    r.extend_from_slice(data);
    r
}

/// The bytes a read reply carries: the data, cut to the size that was asked for.
pub open spec fn spec_read_body(data: Seq<u8>, size: u32) -> Seq<u8> {
    if data.len() > size {
        data.subrange(0, size as int)
    } else {
        data
    }
}

/// The reply to a read of `size` bytes that produced `data`.
pub fn reply_read(unique: u64, data: &[u8], size: u32) -> (r: Vec<u8>)
    requires
        data@.len() <= usize::MAX - FUSE_OUT_HEADER_SIZE,
    ensures
        r@ == spec_reply(unique, 0, spec_read_body(data@, size)),
{
    let body = if data.len() > size as usize {
        vstd::slice::slice_subrange(data, 0, size as usize)
    } else {
        data
    };
    reply_data(unique, body)
}

/// The reply with a lookup, mknod, mkdir, symlink or link entry.
pub fn reply_entry(unique: u64, entry: &ReplyEntry) -> (r: Vec<u8>)
    ensures
        r@ == spec_reply(unique, 0, entry.spec_to_entry_out().spec_encode()),
{
    let entry_out = entry.to_entry_out();
    proof { entry_out.lemma_encode_len(); }
    let mut r = start_reply(unique, 0, FUSE_ENTRY_OUT_SIZE);
    entry_out.encode_into(&mut r);
    r
}

/// The reply with attributes; `dummy` is echoed back (a getattr echoes the
/// request's, a setattr sends zero).
pub fn reply_attr(unique: u64, attr: &ReplyAttr, dummy: u32) -> (r: Vec<u8>)
    ensures
        r@ == spec_reply(unique, 0, attr.spec_to_attr_out(dummy).spec_encode()),
{
    let attr_out = attr.to_attr_out(dummy);
    proof { attr_out.lemma_encode_len(); }
    let mut r = start_reply(unique, 0, FUSE_ATTR_OUT_SIZE);
    attr_out.encode_into(&mut r);
    r
}

/// The reply to an open or opendir.
pub fn reply_open(unique: u64, opened: &ReplyOpen) -> (r: Vec<u8>)
    ensures
        r@ == spec_reply(unique, 0, opened.spec_to_open_out().spec_encode()),
{
    let open_out = opened.to_open_out();
    proof { open_out.lemma_encode_len(); }
    let mut r = start_reply(unique, 0, FUSE_OPEN_OUT_SIZE);
    open_out.encode_into(&mut r);
    r
}

/// The reply to a write.
pub fn reply_write(unique: u64, written: &ReplyWrite) -> (r: Vec<u8>)
    ensures
        r@ == spec_reply(unique, 0, written.spec_to_write_out().spec_encode()),
{
    let write_out = written.to_write_out();
    proof { write_out.lemma_encode_len(); }
    let mut r = start_reply(unique, 0, FUSE_WRITE_OUT_SIZE);
    write_out.encode_into(&mut r);
    r
}

/// The reply to a statfs.
pub fn reply_statfs(unique: u64, stat_fs: &ReplyStatFs) -> (r: Vec<u8>)
    ensures
        r@ == spec_reply(unique, 0, stat_fs.spec_to_statfs_out().spec_encode()),
{
    let statfs_out = stat_fs.to_statfs_out();
    proof { statfs_out.lemma_encode_len(); }
    let mut r = start_reply(unique, 0, FUSE_STATFS_OUT_SIZE);
    statfs_out.encode_into(&mut r);
    r
}

/// The reply to a getxattr (`is_list` false) or a listxattr (`is_list` true):
/// a needed size goes out in a getxattr-out body, with `ERANGE` (not negated) in
/// the error field for a getxattr and zero for a listxattr; a value goes out as
/// the body.
pub open spec fn spec_reply_xattr(unique: u64, xattr: ReplyXAttr, is_list: bool) -> Seq<u8> {
    match xattr {
        ReplyXAttr::Size(size) => spec_reply(
            unique,
            if is_list { 0 } else { ERANGE },
            (FuseGetxattrOut { size, padding: 0 }).spec_encode(),
        ),
        ReplyXAttr::Data(data) => spec_reply(unique, 0, data@),
    }
}

/// The reply to a getxattr (`is_list` false) or a listxattr (`is_list` true).
pub fn reply_xattr(unique: u64, xattr: &ReplyXAttr, is_list: bool) -> (r: Vec<u8>)
    requires
        xattr matches ReplyXAttr::Data(data) ==> data@.len() <= usize::MAX - FUSE_OUT_HEADER_SIZE,
    ensures
        r@ == spec_reply_xattr(unique, *xattr, is_list),
{
    match xattr {
        ReplyXAttr::Size(size) => {
            let getxattr_out = FuseGetxattrOut { size: *size, padding: 0 };
            proof { getxattr_out.lemma_encode_len(); }
            let error = if is_list { 0 } else { ERANGE };
            let mut r = start_reply(unique, error, FUSE_GETXATTR_OUT_SIZE);
            getxattr_out.encode_into(&mut r);
            r
        },
        ReplyXAttr::Data(data) => reply_data(unique, data.as_slice()),
    }
}

/// The reply to a getlk.
pub fn reply_lock(unique: u64, lock: &ReplyLock) -> (r: Vec<u8>)
    ensures
        r@ == spec_reply(unique, 0, lock.spec_to_lk_out().spec_encode()),
{
    let lk_out = lock.to_lk_out();
    proof { lk_out.lemma_encode_len(); }
    let mut r = start_reply(unique, 0, FUSE_LK_OUT_SIZE);
    lk_out.encode_into(&mut r);
    r
}

/// The reply to a create: the entry, then the open result.
pub fn reply_created(unique: u64, created: &ReplyCreated) -> (r: Vec<u8>)
    ensures
        r@ == spec_reply(
            unique,
            0,
            created.spec_to_entry_out().spec_encode() + created.spec_to_open_out().spec_encode(),
        ),
{
    let (entry_out, open_out) = created.to_entry_and_open_out();
    proof {
        entry_out.lemma_encode_len();
        open_out.lemma_encode_len();
    }
    let mut r = start_reply(unique, 0, FUSE_ENTRY_OUT_SIZE + FUSE_OPEN_OUT_SIZE);
    entry_out.encode_into(&mut r);
    open_out.encode_into(&mut r);
    assert(r@ =~= spec_reply(
        unique,
        0,
        created.spec_to_entry_out().spec_encode() + created.spec_to_open_out().spec_encode(),
    ));
    r
}

/// The reply to a bmap.
pub fn reply_bmap(unique: u64, bmap: &ReplyBmap) -> (r: Vec<u8>)
    ensures
        r@ == spec_reply(unique, 0, (FuseBmapOut { block: bmap.block }).spec_encode()),
{
    let bmap_out = bmap.to_bmap_out();
    proof { bmap_out.lemma_encode_len(); }
    let mut r = start_reply(unique, 0, FUSE_BMAP_OUT_SIZE);
    bmap_out.encode_into(&mut r);
    r
}

/// The reply to a poll.
pub fn reply_poll(unique: u64, poll: &ReplyPoll) -> (r: Vec<u8>)
    ensures
        r@ == spec_reply(unique, 0, (FusePollOut { revents: poll.revents, padding: 0 }).spec_encode()),
{
    let poll_out = poll.to_poll_out();
    proof { poll_out.lemma_encode_len(); }
    let mut r = start_reply(unique, 0, FUSE_POLL_OUT_SIZE);
    poll_out.encode_into(&mut r);
    r
}

/// The reply to an lseek.
pub fn reply_lseek(unique: u64, seek: &ReplyLSeek) -> (r: Vec<u8>)
    ensures
        r@ == spec_reply(unique, 0, (FuseLseekOut { offset: seek.offset }).spec_encode()),
{
    let lseek_out = seek.to_lseek_out();
    proof { lseek_out.lemma_encode_len(); }
    let mut r = start_reply(unique, 0, FUSE_LSEEK_OUT_SIZE);
    lseek_out.encode_into(&mut r);
    r
}

/// The reply to a copy_file_range: the count, cut to 32 bits.
pub fn reply_copy_file_range(unique: u64, copied: &ReplyCopyFileRange) -> (r: Vec<u8>)
    ensures
        r@ == spec_reply(
            unique,
            0,
            (FuseWriteOut { size: copied.copied as u32, padding: 0 }).spec_encode(),
        ),
{
    let write_out = copied.to_write_out();
    proof { write_out.lemma_encode_len(); }
    let mut r = start_reply(unique, 0, FUSE_WRITE_OUT_SIZE);
    write_out.encode_into(&mut r);
    r
}

/// The body of the `INIT` reply: the protocol version, the read-ahead the
/// kernel offered, the granted flags and the library's limits.
pub open spec fn spec_init_out(init_in: FuseInitIn, flags: u32) -> FuseInitOut {
    FuseInitOut {
        major: FUSE_KERNEL_VERSION,
        minor: FUSE_KERNEL_MINOR_VERSION,
        max_readahead: init_in.max_readahead,
        flags,
        max_background: DEFAULT_MAX_BACKGROUND,
        congestion_threshold: DEFAULT_CONGESTION_THRESHOLD,
        max_write: MAX_WRITE_SIZE as u32,
        time_gran: DEFAULT_TIME_GRAN,
        max_pages: DEFAULT_MAX_PAGES,
        map_alignment: DEFAULT_MAP_ALIGNMENT,
    }
}

/// The reply to `INIT` granting `flags`.
pub fn reply_init(unique: u64, init_in: &FuseInitIn, flags: u32) -> (r: Vec<u8>)
    ensures
        r@ == spec_reply(unique, 0, spec_init_out(*init_in, flags).spec_encode()),
{
    let init_out = FuseInitOut {
        major: FUSE_KERNEL_VERSION,
        minor: FUSE_KERNEL_MINOR_VERSION,
        max_readahead: init_in.max_readahead,
        flags,
        max_background: DEFAULT_MAX_BACKGROUND,
        congestion_threshold: DEFAULT_CONGESTION_THRESHOLD,
        max_write: MAX_WRITE_SIZE as u32,
        time_gran: DEFAULT_TIME_GRAN,
        max_pages: DEFAULT_MAX_PAGES,
        map_alignment: DEFAULT_MAP_ALIGNMENT,
    };
    proof { init_out.lemma_encode_len(); }
    let mut r = start_reply(unique, 0, FUSE_INIT_OUT_SIZE);
    init_out.encode_into(&mut r);
    r
}


// ---------------------------------------------------------------------------
// Directory listings
// ---------------------------------------------------------------------------

/// The number of zero bytes that pad `n` bytes to a multiple of eight.
pub open spec fn pad_len(n: int) -> int {
    (8 - n % 8) % 8
}

/// `n` zero bytes.
pub open spec fn zeros(n: int) -> Seq<u8> {
    Seq::new(n as nat, |i: int| 0u8)
}

/// The file type field of a directory record: the type bits of the mode,
/// shifted down.
pub open spec fn dirent_type(kind: crate::FileType) -> u32 {
    spec_mode_from_kind_and_perm(kind, 0) >> 12
}

/// The record of one entry in a readdir reply: its fixed part, its name and
/// zeros up to a multiple of eight bytes.
pub open spec fn dir_record(e: DirectoryEntry) -> Seq<u8> {
    (FuseDirent {
        ino: e.inode,
        off: e.offset as u64,
        namelen: e.name@.len() as u32,
        dirent_type: dirent_type(e.kind),
    }).spec_encode() + e.name@ + zeros(pad_len(FUSE_DIRENT_SIZE + e.name@.len()))
}

/// The records of a readdir reply: after `acc`, the records of the entries in
/// order, up to the first whose fixed part and name do not fit in `max` bytes.
pub open spec fn dir_records(acc: Seq<u8>, entries: Seq<DirectoryEntry>, max: int) -> Seq<u8>
    decreases entries.len(),
{
    if entries.len() == 0 {
        acc
    } else if acc.len() + FUSE_DIRENT_SIZE + entries[0].name@.len() > max {
        acc
    } else {
        dir_records(acc + dir_record(entries[0]), entries.drop_first(), max)
    }
}

/// The record of one entry in a readdirplus reply: its entry, its fixed
/// directory part, its name and zeros up to a multiple of eight bytes.
pub open spec fn dir_plus_record(e: DirectoryEntryPlus) -> Seq<u8> {
    (FuseDirentplus {
        entry_out: FuseEntryOut {
            nodeid: e.attr.ino,
            generation: e.generation,
            entry_valid: e.entry_ttl.secs,
            attr_valid: e.attr_ttl.secs,
            entry_valid_nsec: e.entry_ttl.nanos,
            attr_valid_nsec: e.attr_ttl.nanos,
            attr: e.attr.spec_to_fuse_attr(),
        },
        dirent: FuseDirent {
            ino: e.inode,
            off: e.offset as u64,
            namelen: e.name@.len() as u32,
            dirent_type: dirent_type(e.kind),
        },
    }).spec_encode() + e.name@ + zeros(pad_len(FUSE_DIRENTPLUS_SIZE + e.name@.len()))
}

/// The records of a readdirplus reply, as `dir_records` for readdir.
pub open spec fn dir_plus_records(
    acc: Seq<u8>,
    entries: Seq<DirectoryEntryPlus>,
    max: int,
) -> Seq<u8>
    decreases entries.len(),
{
    if entries.len() == 0 {
        acc
    } else if acc.len() + FUSE_DIRENTPLUS_SIZE + entries[0].name@.len() > max {
        acc
    } else {
        dir_plus_records(acc + dir_plus_record(entries[0]), entries.drop_first(), max)
    }
}

/// Appends `n` zero bytes.
fn push_zeros(buf: &mut Vec<u8>, n: usize)
    ensures
        final(buf)@ == old(buf)@ + zeros(n as int),
{
    let mut i: usize = 0;
    while i < n
        invariant
            i <= n,
            buf@ == old(buf)@ + zeros(i as int),
        decreases n - i,
    {
        buf.push(0u8);
        i = i + 1;
        assert(buf@ =~= old(buf)@ + zeros(i as int));
    }
}

/// Whether a record of `fixed` bytes plus `name_len` name bytes still fits
/// behind `used` bytes in a reply of at most `max_size` bytes.
fn record_fits(used: usize, fixed: usize, name_len: usize, max_size: u32) -> (r: bool)
    ensures
        r == (used + fixed + name_len <= max_size),
{
    let max = max_size as usize;
    if used > max {
        false
    } else if max - used < fixed {
        false
    } else {
        name_len <= max - used - fixed
    }
}

/// Appends the readdir record of `entry` to `buf` if its fixed part and name
/// fit in a reply of at most `max_size` bytes; tells whether it did.
pub fn append_dir_entry(buf: &mut Vec<u8>, entry: &DirectoryEntry, max_size: u32) -> (added: bool)
    requires
        entry.name@.len() <= isize::MAX,
    ensures
        added == (old(buf)@.len() + FUSE_DIRENT_SIZE + entry.name@.len() <= max_size),
        added ==> final(buf)@ == old(buf)@ + dir_record(*entry),
        !added ==> final(buf)@ == old(buf)@,
{
    let name = &entry.name;
    if !record_fits(buf.len(), FUSE_DIRENT_SIZE, name.len(), max_size) {
        return false;
    }
    let dir_entry_size = FUSE_DIRENT_SIZE + name.len();
    let padding_size = get_padding_size(dir_entry_size);
    let dir_entry = FuseDirent {
        ino: entry.inode,
        off: entry.offset as u64,
        namelen: name.len() as u32,
        dirent_type: mode_from_kind_and_perm(entry.kind, 0) >> 12,
    };
    let ghost start = buf@;
    dir_entry.encode_into(buf);
    buf.extend_from_slice(name.as_slice());
    push_zeros(buf, padding_size);
    proof {
        assert(padding_size == pad_len(dir_entry_size as int));
    }
    assert(buf@ =~= start + dir_record(*entry));
    true
}

/// The records of a readdir reply of at most `max_size` bytes listing `entries`.
pub fn encode_dir_entries(entries: &[DirectoryEntry], max_size: u32) -> (r: Vec<u8>)
    requires
        forall|i: int| 0 <= i < entries@.len() ==> #[trigger] entries@[i].name@.len() <= isize::MAX,
    ensures
        r@ == dir_records(Seq::empty(), entries@, max_size as int),
{
    let mut entry_data: Vec<u8> = Vec::new();
    let mut i: usize = 0;
    assert(entries@.skip(0) =~= entries@);
    assert(entry_data@ =~= Seq::empty());
    while i < entries.len()
        invariant_except_break
            i <= entries@.len(),
            dir_records(entry_data@, entries@.skip(i as int), max_size as int) == dir_records(
                Seq::empty(),
                entries@,
                max_size as int,
            ),
            forall|k: int| 0 <= k < entries@.len() ==> #[trigger] entries@[k].name@.len() <= isize::MAX,
        ensures
            entry_data@ == dir_records(Seq::empty(), entries@, max_size as int),
        decreases entries@.len() - i,
    {
        let ghost rest = entries@.skip(i as int);
        assert(rest[0] == entries@[i as int]);
        if !append_dir_entry(&mut entry_data, &entries[i], max_size) {
            break;
        }
        assert(rest.drop_first() =~= entries@.skip(i + 1));
        i = i + 1;
    }
    proof {
        if i == entries.len() {
            assert(entries@.skip(i as int).len() == 0);
        }
    }
    entry_data
}

/// Appends the readdirplus record of `entry` to `buf` if its fixed part and
/// name fit in a reply of at most `max_size` bytes; tells whether it did.
pub fn append_dir_entry_plus(
    buf: &mut Vec<u8>,
    entry: &DirectoryEntryPlus,
    max_size: u32,
) -> (added: bool)
    requires
        entry.name@.len() <= isize::MAX,
    ensures
        added == (old(buf)@.len() + FUSE_DIRENTPLUS_SIZE + entry.name@.len() <= max_size),
        added ==> final(buf)@ == old(buf)@ + dir_plus_record(*entry),
        !added ==> final(buf)@ == old(buf)@,
{
    let name = &entry.name;
    if !record_fits(buf.len(), FUSE_DIRENTPLUS_SIZE, name.len(), max_size) {
        return false;
    }
    let dir_entry_size = FUSE_DIRENTPLUS_SIZE + name.len();
    let padding_size = get_padding_size(dir_entry_size);
    let attr = &entry.attr;
    let dir_entry = FuseDirentplus {
        entry_out: FuseEntryOut {
            nodeid: attr.ino,
            generation: entry.generation,
            entry_valid: entry.entry_ttl.as_secs(),
            attr_valid: entry.attr_ttl.as_secs(),
            entry_valid_nsec: entry.entry_ttl.subsec_nanos(),
            attr_valid_nsec: entry.attr_ttl.subsec_nanos(),
            attr: attr.to_fuse_attr(),
        },
        dirent: FuseDirent {
            ino: entry.inode,
            off: entry.offset as u64,
            namelen: name.len() as u32,
            dirent_type: mode_from_kind_and_perm(entry.kind, 0) >> 12,
        },
    };
    let ghost start = buf@;
    dir_entry.encode_into(buf);
    buf.extend_from_slice(name.as_slice());
    push_zeros(buf, padding_size);
    proof {
        assert(padding_size == pad_len(dir_entry_size as int));
    }
    assert(buf@ =~= start + dir_plus_record(*entry));
    true
}

/// The records of a readdirplus reply of at most `max_size` bytes listing `entries`.
pub fn encode_dir_entries_plus(entries: &[DirectoryEntryPlus], max_size: u32) -> (r: Vec<u8>)
    requires
        forall|i: int| 0 <= i < entries@.len() ==> #[trigger] entries@[i].name@.len() <= isize::MAX,
    ensures
        r@ == dir_plus_records(Seq::empty(), entries@, max_size as int),
{
    let mut entry_data: Vec<u8> = Vec::new();
    let mut i: usize = 0;
    assert(entries@.skip(0) =~= entries@);
    assert(entry_data@ =~= Seq::empty());
    while i < entries.len()
        invariant_except_break
            i <= entries@.len(),
            dir_plus_records(entry_data@, entries@.skip(i as int), max_size as int)
                == dir_plus_records(Seq::empty(), entries@, max_size as int),
            forall|k: int| 0 <= k < entries@.len() ==> #[trigger] entries@[k].name@.len() <= isize::MAX,
        ensures
            entry_data@ == dir_plus_records(Seq::empty(), entries@, max_size as int),
        decreases entries@.len() - i,
    {
        let ghost rest = entries@.skip(i as int);
        assert(rest[0] == entries@[i as int]);
        if !append_dir_entry_plus(&mut entry_data, &entries[i], max_size) {
            break;
        }
        assert(rest.drop_first() =~= entries@.skip(i + 1));
        i = i + 1;
    }
    proof {
        if i == entries.len() {
            assert(entries@.skip(i as int).len() == 0);
        }
    }
    entry_data
}

/// A readdir listing is whole records, each a multiple of eight bytes long,
/// and runs past the requested size by at most the padding of its last record.
pub proof fn lemma_dir_records_aligned(acc: Seq<u8>, entries: Seq<DirectoryEntry>, max: int)
    requires
        acc.len() % 8 == 0,
        acc.len() <= max + 7,
    ensures
        dir_records(acc, entries, max).len() % 8 == 0,
        dir_records(acc, entries, max).len() <= max + 7,
        acc.is_prefix_of(dir_records(acc, entries, max)),
    decreases entries.len(),
{
    if entries.len() > 0 && acc.len() + FUSE_DIRENT_SIZE + entries[0].name@.len() <= max {
        let e = entries[0];
        let d = FuseDirent {
            ino: e.inode,
            off: e.offset as u64,
            namelen: e.name@.len() as u32,
            dirent_type: dirent_type(e.kind),
        };
        d.lemma_encode_len();
        let n = FUSE_DIRENT_SIZE + e.name@.len();
        assert(dir_record(e).len() == n + pad_len(n));
        let next = acc + dir_record(e);
        lemma_dir_records_aligned(next, entries.drop_first(), max);
        assert(acc.is_prefix_of(next)) by {
            assert(next.subrange(0, acc.len() as int) =~= acc);
        }
        let all = dir_records(next, entries.drop_first(), max);
        assert(all.subrange(0, acc.len() as int) =~= next.subrange(0, acc.len() as int));
    } else {
        assert(acc.subrange(0, acc.len() as int) =~= acc);
    }
}

/// A readdirplus listing is whole records, each a multiple of eight bytes long,
/// and runs past the requested size by at most the padding of its last record.
pub proof fn lemma_dir_plus_records_aligned(acc: Seq<u8>, entries: Seq<DirectoryEntryPlus>, max: int)
    requires
        acc.len() % 8 == 0,
        acc.len() <= max + 7,
    ensures
        dir_plus_records(acc, entries, max).len() % 8 == 0,
        dir_plus_records(acc, entries, max).len() <= max + 7,
        acc.is_prefix_of(dir_plus_records(acc, entries, max)),
    decreases entries.len(),
{
    if entries.len() > 0 && acc.len() + FUSE_DIRENTPLUS_SIZE + entries[0].name@.len() <= max {
        let e = entries[0];
        let d = FuseDirentplus {
            entry_out: FuseEntryOut {
                nodeid: e.attr.ino,
                generation: e.generation,
                entry_valid: e.entry_ttl.secs,
                attr_valid: e.attr_ttl.secs,
                entry_valid_nsec: e.entry_ttl.nanos,
                attr_valid_nsec: e.attr_ttl.nanos,
                attr: e.attr.spec_to_fuse_attr(),
            },
            dirent: FuseDirent {
                ino: e.inode,
                off: e.offset as u64,
                namelen: e.name@.len() as u32,
                dirent_type: dirent_type(e.kind),
            },
        };
        d.lemma_encode_len();
        let n = FUSE_DIRENTPLUS_SIZE + e.name@.len();
        assert(dir_plus_record(e).len() == n + pad_len(n));
        let next = acc + dir_plus_record(e);
        lemma_dir_plus_records_aligned(next, entries.drop_first(), max);
        assert(acc.is_prefix_of(next)) by {
            assert(next.subrange(0, acc.len() as int) =~= acc);
        }
        let all = dir_plus_records(next, entries.drop_first(), max);
        assert(all.subrange(0, acc.len() as int) =~= next.subrange(0, acc.len() as int));
    } else {
        assert(acc.subrange(0, acc.len() as int) =~= acc);
    }
}

/// A `LOOKUP` request names the entry its body spells before the first zero byte.
pub proof fn lemma_lookup_request(name: Seq<u8>, rest: Seq<u8>, force_readdir_plus: bool, r: Result<Operation, ParseError>)
    requires
        forall|i: int| 0 <= i < name.len() ==> name[i] != 0,
        parse_outcome(FUSE_LOOKUP, name + seq![0u8] + rest, force_readdir_plus, r),
    ensures
        r matches Ok(Operation::Lookup { name: n0 }) && n0@ == name,
{
    lemma_le_roundtrip();
    let tail = name + seq![0u8] + rest;
    let b = name + seq![0u8] + rest;
    lemma_cstr_split(name, rest);
    assert(spec_body_error(FUSE_LOOKUP, b, force_readdir_plus) is None);
}

/// An `UNLINK` request names the entry its body spells before the first zero byte.
pub proof fn lemma_unlink_request(name: Seq<u8>, rest: Seq<u8>, force_readdir_plus: bool, r: Result<Operation, ParseError>)
    requires
        forall|i: int| 0 <= i < name.len() ==> name[i] != 0,
        parse_outcome(FUSE_UNLINK, name + seq![0u8] + rest, force_readdir_plus, r),
    ensures
        r matches Ok(Operation::Unlink { name: n0 }) && n0@ == name,
{
    lemma_le_roundtrip();
    let tail = name + seq![0u8] + rest;
    let b = name + seq![0u8] + rest;
    lemma_cstr_split(name, rest);
    assert(spec_body_error(FUSE_UNLINK, b, force_readdir_plus) is None);
}

/// An `RMDIR` request names the entry its body spells before the first zero byte.
pub proof fn lemma_rmdir_request(name: Seq<u8>, rest: Seq<u8>, force_readdir_plus: bool, r: Result<Operation, ParseError>)
    requires
        forall|i: int| 0 <= i < name.len() ==> name[i] != 0,
        parse_outcome(FUSE_RMDIR, name + seq![0u8] + rest, force_readdir_plus, r),
    ensures
        r matches Ok(Operation::Rmdir { name: n0 }) && n0@ == name,
{
    lemma_le_roundtrip();
    let tail = name + seq![0u8] + rest;
    let b = name + seq![0u8] + rest;
    lemma_cstr_split(name, rest);
    assert(spec_body_error(FUSE_RMDIR, b, force_readdir_plus) is None);
}

/// A `SYMLINK` request names the new entry by its first C string and the link target by
/// its second.
pub proof fn lemma_symlink_request(name: Seq<u8>, link: Seq<u8>, rest: Seq<u8>, force_readdir_plus: bool, r: Result<Operation, ParseError>)
    requires
        forall|i: int| 0 <= i < name.len() ==> name[i] != 0,
        forall|i: int| 0 <= i < link.len() ==> link[i] != 0,
        parse_outcome(FUSE_SYMLINK, name + seq![0u8] + link + seq![0u8] + rest, force_readdir_plus, r),
    ensures
        r matches Ok(Operation::Symlink { name: n0, link: n1 }) && n0@ == name && n1@ == link,
{
    lemma_le_roundtrip();
    let tail = name + seq![0u8] + link + seq![0u8] + rest;
    let b = name + seq![0u8] + link + seq![0u8] + rest;
    let after = link + seq![0u8] + rest;
    assert(tail =~= name + seq![0u8] + after);
    lemma_cstr_split(name, after);
    lemma_cstr_split(link, rest);
    assert(spec_body_error(FUSE_SYMLINK, b, force_readdir_plus) is None);
}

/// A `RENAME` request moves the entry named by the first C string behind its fixed part
/// to the directory `newdir` under the name of the second.
pub proof fn lemma_rename_request(newdir: u64, name: Seq<u8>, new_name: Seq<u8>, rest: Seq<u8>, force_readdir_plus: bool, r: Result<Operation, ParseError>)
    requires
        forall|i: int| 0 <= i < name.len() ==> name[i] != 0,
        forall|i: int| 0 <= i < new_name.len() ==> new_name[i] != 0,
        parse_outcome(FUSE_RENAME, le64(newdir) + (name + seq![0u8] + new_name + seq![0u8] + rest), force_readdir_plus, r),
    ensures
        r matches Ok(Operation::Rename { arg, name: n0, new_name: n1 }) && arg == (FuseRenameIn { newdir }) && n0@ == name && n1@ == new_name,
{
    lemma_le_roundtrip();
    let tail = name + seq![0u8] + new_name + seq![0u8] + rest;
    let b = le64(newdir) + (name + seq![0u8] + new_name + seq![0u8] + rest);
    FuseRenameIn::lemma_decode_fields(newdir, tail);
    assert(b.skip(8) =~= tail);
    let after = new_name + seq![0u8] + rest;
    assert(tail =~= name + seq![0u8] + after);
    lemma_cstr_split(name, after);
    lemma_cstr_split(new_name, rest);
    assert(spec_body_error(FUSE_RENAME, b, force_readdir_plus) is None);
}

/// A `RENAME2` request moves the entry named by the first C string behind its fixed
/// part to the directory `newdir` under the name of the second, with its flags.
pub proof fn lemma_rename2_request(newdir: u64, flags: u32, padding: u32, name: Seq<u8>, new_name: Seq<u8>, rest: Seq<u8>, force_readdir_plus: bool, r: Result<Operation, ParseError>)
    requires
        forall|i: int| 0 <= i < name.len() ==> name[i] != 0,
        forall|i: int| 0 <= i < new_name.len() ==> new_name[i] != 0,
        parse_outcome(FUSE_RENAME2, le64(newdir) + le32(flags) + le32(padding) + (name + seq![0u8] + new_name + seq![0u8] + rest), force_readdir_plus, r),
    ensures
        r matches Ok(Operation::Rename2 { arg, name: n0, new_name: n1 }) && arg == (FuseRename2In { newdir, flags, padding }) && n0@ == name && n1@ == new_name,
{
    lemma_le_roundtrip();
    let tail = name + seq![0u8] + new_name + seq![0u8] + rest;
    let b = le64(newdir) + le32(flags) + le32(padding) + (name + seq![0u8] + new_name + seq![0u8] + rest);
    FuseRename2In::lemma_decode_fields(newdir, flags, padding, tail);
    assert(b.skip(16) =~= tail);
    let after = new_name + seq![0u8] + rest;
    assert(tail =~= name + seq![0u8] + after);
    lemma_cstr_split(name, after);
    lemma_cstr_split(new_name, rest);
    assert(spec_body_error(FUSE_RENAME2, b, force_readdir_plus) is None);
}

/// A `LINK` request links the inode `oldnodeid` under the name behind its fixed part.
pub proof fn lemma_link_request(oldnodeid: u64, name: Seq<u8>, rest: Seq<u8>, force_readdir_plus: bool, r: Result<Operation, ParseError>)
    requires
        forall|i: int| 0 <= i < name.len() ==> name[i] != 0,
        parse_outcome(FUSE_LINK, le64(oldnodeid) + (name + seq![0u8] + rest), force_readdir_plus, r),
    ensures
        r matches Ok(Operation::Link { arg, name: n0 }) && arg == (FuseLinkIn { oldnodeid }) && n0@ == name,
{
    lemma_le_roundtrip();
    let tail = name + seq![0u8] + rest;
    let b = le64(oldnodeid) + (name + seq![0u8] + rest);
    FuseLinkIn::lemma_decode_fields(oldnodeid, tail);
    assert(b.skip(8) =~= tail);
    lemma_cstr_split(name, rest);
    assert(spec_body_error(FUSE_LINK, b, force_readdir_plus) is None);
}

/// A `MKDIR` request makes the directory named behind its fixed part, with the mode and
/// umask of that part.
pub proof fn lemma_mkdir_request(mode: u32, umask: u32, name: Seq<u8>, rest: Seq<u8>, force_readdir_plus: bool, r: Result<Operation, ParseError>)
    requires
        forall|i: int| 0 <= i < name.len() ==> name[i] != 0,
        parse_outcome(FUSE_MKDIR, le32(mode) + le32(umask) + (name + seq![0u8] + rest), force_readdir_plus, r),
    ensures
        r matches Ok(Operation::Mkdir { arg, name: n0 }) && arg == (FuseMkdirIn { mode, umask }) && n0@ == name,
{
    lemma_le_roundtrip();
    let tail = name + seq![0u8] + rest;
    let b = le32(mode) + le32(umask) + (name + seq![0u8] + rest);
    FuseMkdirIn::lemma_decode_fields(mode, umask, tail);
    assert(b.skip(8) =~= tail);
    lemma_cstr_split(name, rest);
    assert(spec_body_error(FUSE_MKDIR, b, force_readdir_plus) is None);
}

/// A `MKNOD` request makes the node named behind its fixed part, with the mode, device
/// and umask of that part.
pub proof fn lemma_mknod_request(mode: u32, rdev: u32, umask: u32, padding: u32, name: Seq<u8>, rest: Seq<u8>, force_readdir_plus: bool, r: Result<Operation, ParseError>)
    requires
        forall|i: int| 0 <= i < name.len() ==> name[i] != 0,
        parse_outcome(FUSE_MKNOD, le32(mode) + le32(rdev) + le32(umask) + le32(padding) + (name + seq![0u8] + rest), force_readdir_plus, r),
    ensures
        r matches Ok(Operation::Mknod { arg, name: n0 }) && arg == (FuseMknodIn { mode, rdev, umask, padding }) && n0@ == name,
{
    lemma_le_roundtrip();
    let tail = name + seq![0u8] + rest;
    let b = le32(mode) + le32(rdev) + le32(umask) + le32(padding) + (name + seq![0u8] + rest);
    FuseMknodIn::lemma_decode_fields(mode, rdev, umask, padding, tail);
    assert(b.skip(16) =~= tail);
    lemma_cstr_split(name, rest);
    assert(spec_body_error(FUSE_MKNOD, b, force_readdir_plus) is None);
}

/// A `CREATE` request creates the file named behind its fixed part, with the open
/// flags, mode and umask of that part.
pub proof fn lemma_create_request(flags: u32, mode: u32, umask: u32, padding: u32, name: Seq<u8>, rest: Seq<u8>, force_readdir_plus: bool, r: Result<Operation, ParseError>)
    requires
        forall|i: int| 0 <= i < name.len() ==> name[i] != 0,
        parse_outcome(FUSE_CREATE, le32(flags) + le32(mode) + le32(umask) + le32(padding) + (name + seq![0u8] + rest), force_readdir_plus, r),
    ensures
        r matches Ok(Operation::Create { arg, name: n0 }) && arg == (FuseCreateIn { flags, mode, umask, padding }) && n0@ == name,
{
    lemma_le_roundtrip();
    let tail = name + seq![0u8] + rest;
    let b = le32(flags) + le32(mode) + le32(umask) + le32(padding) + (name + seq![0u8] + rest);
    FuseCreateIn::lemma_decode_fields(flags, mode, umask, padding, tail);
    assert(b.skip(16) =~= tail);
    lemma_cstr_split(name, rest);
    assert(spec_body_error(FUSE_CREATE, b, force_readdir_plus) is None);
}

/// A `GETXATTR` request asks for the attribute named behind its fixed part, with the
/// size of that part.
pub proof fn lemma_getxattr_request(size: u32, padding: u32, name: Seq<u8>, rest: Seq<u8>, force_readdir_plus: bool, r: Result<Operation, ParseError>)
    requires
        forall|i: int| 0 <= i < name.len() ==> name[i] != 0,
        parse_outcome(FUSE_GETXATTR, le32(size) + le32(padding) + (name + seq![0u8] + rest), force_readdir_plus, r),
    ensures
        r matches Ok(Operation::Getxattr { arg, name: n0 }) && arg == (FuseGetxattrIn { size, padding }) && n0@ == name,
{
    lemma_le_roundtrip();
    let tail = name + seq![0u8] + rest;
    let b = le32(size) + le32(padding) + (name + seq![0u8] + rest);
    FuseGetxattrIn::lemma_decode_fields(size, padding, tail);
    assert(b.skip(8) =~= tail);
    lemma_cstr_split(name, rest);
    assert(spec_body_error(FUSE_GETXATTR, b, force_readdir_plus) is None);
}

/// A `READ` request hands the filesystem the file handle, offset and size the
/// kernel wrote in its `fuse_read_in` body: the handle in the first eight
/// bytes, the offset in the next eight, then the size, the read flags, the
/// lock owner and the open flags, little endian; bytes behind that are ignored.
pub proof fn lemma_read_request_fields(
    fh: u64,
    offset: u64,
    size: u32,
    read_flags: u32,
    lock_owner: u64,
    flags: u32,
    padding: u32,
    rest: Seq<u8>,
    force_readdir_plus: bool,
    r: Result<Operation, ParseError>,
)
    requires
        parse_outcome(
            FUSE_READ,
            le64(fh) + le64(offset) + le32(size) + le32(read_flags) + le64(lock_owner) + le32(flags)
                + le32(padding) + rest,
            force_readdir_plus,
            r,
        ),
    ensures
        r == Ok::<Operation, ParseError>(
            Operation::Read(FuseReadIn { fh, offset, size, read_flags, lock_owner, flags, padding }),
        ),
{
    lemma_le_roundtrip();
    let b = le64(fh) + le64(offset) + le32(size) + le32(read_flags) + le64(lock_owner) + le32(flags)
        + le32(padding) + rest;
    assert(b.len() >= FUSE_READ_IN_SIZE);
    assert(b.subrange(0, 8) =~= le64(fh));
    assert(b.subrange(8, 16) =~= le64(offset));
    assert(b.subrange(16, 20) =~= le32(size));
    assert(b.subrange(20, 24) =~= le32(read_flags));
    assert(b.subrange(24, 32) =~= le64(lock_owner));
    assert(b.subrange(32, 36) =~= le32(flags));
    assert(b.subrange(36, 40) =~= le32(padding));
    lemma_u64_at_le(b, 0, fh);
    lemma_u64_at_le(b, 8, offset);
    lemma_u32_at_le(b, 16, size);
    lemma_u32_at_le(b, 20, read_flags);
    lemma_u64_at_le(b, 24, lock_owner);
    lemma_u32_at_le(b, 32, flags);
    lemma_u32_at_le(b, 36, padding);
    assert(spec_body_error(FUSE_READ, b, force_readdir_plus) is None);
}

/// A readdirplus record carries, at the places the kernel reads them: the
/// entry's node id and generation at the front of its entry part, the
/// entry's inode, its offset (the cookie the next listing resumes from), its
/// name length and type in the directory part behind the 128 byte entry part,
/// then the name, padded to a multiple of eight bytes. The type is the
/// kind's file type bits, shifted down.
pub proof fn lemma_dir_plus_record_layout(e: DirectoryEntryPlus)
    requires
        e.name@.len() <= u32::MAX,
    ensures
        dir_plus_record(e).len() == FUSE_DIRENTPLUS_SIZE + e.name@.len() + pad_len(
            FUSE_DIRENTPLUS_SIZE + e.name@.len(),
        ),
        u64_at(dir_plus_record(e), 0) == e.attr.ino,
        u64_at(dir_plus_record(e), 8) == e.generation,
        u64_at(dir_plus_record(e), 128) == e.inode,
        u64_at(dir_plus_record(e), 136) == e.offset as u64,
        u32_at(dir_plus_record(e), 144) == e.name@.len(),
        u32_at(dir_plus_record(e), 148) == crate::file_type_mode(e.kind) >> 12,
        dir_plus_record(e).subrange(152, 152 + e.name@.len() as int) == e.name@,
{
    lemma_le_roundtrip();
    let eo = FuseEntryOut {
        nodeid: e.attr.ino,
        generation: e.generation,
        entry_valid: e.entry_ttl.secs,
        attr_valid: e.attr_ttl.secs,
        entry_valid_nsec: e.entry_ttl.nanos,
        attr_valid_nsec: e.attr_ttl.nanos,
        attr: e.attr.spec_to_fuse_attr(),
    };
    let de = FuseDirent {
        ino: e.inode,
        off: e.offset as u64,
        namelen: e.name@.len() as u32,
        dirent_type: dirent_type(e.kind),
    };
    eo.lemma_encode_len();
    de.lemma_encode_len();
    let rec = dir_plus_record(e);
    let n = e.name@.len() as int;
    assert(rec =~= eo.spec_encode() + de.spec_encode() + e.name@ + zeros(pad_len(FUSE_DIRENTPLUS_SIZE + n)));
    assert(rec.subrange(0, 8) =~= le64(e.attr.ino));
    assert(rec.subrange(8, 16) =~= le64(e.generation));
    assert(rec.subrange(128, 136) =~= le64(e.inode));
    assert(rec.subrange(136, 144) =~= le64(e.offset as u64));
    assert(rec.subrange(144, 148) =~= le32(e.name@.len() as u32));
    assert(rec.subrange(152, 152 + n) =~= e.name@);
    lemma_u64_at_le(rec, 0, e.attr.ino);
    lemma_u64_at_le(rec, 8, e.generation);
    lemma_u64_at_le(rec, 128, e.inode);
    lemma_u64_at_le(rec, 136, e.offset as u64);
    lemma_u32_at_le(rec, 144, e.name@.len() as u32);
    assert(rec.subrange(148, 152) =~= le32(dirent_type(e.kind)));
    lemma_u32_at_le(rec, 148, dirent_type(e.kind));
    lemma_perm_mode_roundtrip(e.kind, 0);
}

/// A readdir record carries the entry's inode, its offset (the cookie the
/// next listing resumes from), its name length and its type (the kind's file
/// type bits, shifted down) at the front, then the name, padded to a multiple
/// of eight bytes.
pub proof fn lemma_dir_record_layout(e: DirectoryEntry)
    requires
        e.name@.len() <= u32::MAX,
    ensures
        dir_record(e).len() == FUSE_DIRENT_SIZE + e.name@.len() + pad_len(
            FUSE_DIRENT_SIZE + e.name@.len(),
        ),
        u64_at(dir_record(e), 0) == e.inode,
        u64_at(dir_record(e), 8) == e.offset as u64,
        u32_at(dir_record(e), 16) == e.name@.len(),
        u32_at(dir_record(e), 20) == crate::file_type_mode(e.kind) >> 12,
        dir_record(e).subrange(24, 24 + e.name@.len() as int) == e.name@,
{
    lemma_le_roundtrip();
    let de = FuseDirent {
        ino: e.inode,
        off: e.offset as u64,
        namelen: e.name@.len() as u32,
        dirent_type: dirent_type(e.kind),
    };
    de.lemma_encode_len();
    let rec = dir_record(e);
    let n = e.name@.len() as int;
    assert(rec.subrange(0, 8) =~= le64(e.inode));
    assert(rec.subrange(8, 16) =~= le64(e.offset as u64));
    assert(rec.subrange(16, 20) =~= le32(e.name@.len() as u32));
    assert(rec.subrange(24, 24 + n) =~= e.name@);
    lemma_u64_at_le(rec, 0, e.inode);
    lemma_u64_at_le(rec, 8, e.offset as u64);
    lemma_u32_at_le(rec, 16, e.name@.len() as u32);
    assert(rec.subrange(20, 24) =~= le32(dirent_type(e.kind)));
    lemma_u32_at_le(rec, 20, dirent_type(e.kind));
    lemma_perm_mode_roundtrip(e.kind, 0);
}

/// A readdirplus listing whose first entry fits starts with that entry's
/// record: its inode at byte 128 and its offset at byte 136.
pub proof fn lemma_dir_plus_listing_starts_with_first(entries: Seq<DirectoryEntryPlus>, max: int)
    requires
        entries.len() > 0,
        entries[0].name@.len() <= u32::MAX,
        FUSE_DIRENTPLUS_SIZE + entries[0].name@.len() <= max,
    ensures
        dir_plus_records(Seq::empty(), entries, max).subrange(0, dir_plus_record(entries[0]).len() as int)
            == dir_plus_record(entries[0]),
        u64_at(dir_plus_records(Seq::empty(), entries, max), 128) == entries[0].inode,
        u64_at(dir_plus_records(Seq::empty(), entries, max), 136) == entries[0].offset as u64,
{
    let first = dir_plus_record(entries[0]);
    lemma_dir_plus_record_layout(entries[0]);
    let acc = Seq::<u8>::empty() + first;
    assert(acc =~= first);
    assert(acc.len() % 8 == 0) by {
        let n = FUSE_DIRENTPLUS_SIZE + entries[0].name@.len();
        assert((n + pad_len(n)) % 8 == 0);
    }
    lemma_dir_plus_records_aligned(acc, entries.drop_first(), max);
    let all = dir_plus_records(Seq::empty(), entries, max);
    assert(all == dir_plus_records(acc, entries.drop_first(), max));
    assert(all.subrange(0, first.len() as int) =~= first);
    assert(all.subrange(128, 136) =~= first.subrange(128, 136));
    assert(all.subrange(136, 144) =~= first.subrange(136, 144));
}

/// A readdir listing whose first entry fits starts with that entry's record:
/// its inode at byte 0 and its offset at byte 8.
pub proof fn lemma_dir_listing_starts_with_first(entries: Seq<DirectoryEntry>, max: int)
    requires
        entries.len() > 0,
        entries[0].name@.len() <= u32::MAX,
        FUSE_DIRENT_SIZE + entries[0].name@.len() <= max,
    ensures
        dir_records(Seq::empty(), entries, max).subrange(0, dir_record(entries[0]).len() as int)
            == dir_record(entries[0]),
        u64_at(dir_records(Seq::empty(), entries, max), 0) == entries[0].inode,
        u64_at(dir_records(Seq::empty(), entries, max), 8) == entries[0].offset as u64,
{
    let first = dir_record(entries[0]);
    lemma_dir_record_layout(entries[0]);
    let acc = Seq::<u8>::empty() + first;
    assert(acc =~= first);
    assert(acc.len() % 8 == 0) by {
        let n = FUSE_DIRENT_SIZE + entries[0].name@.len();
        assert((n + pad_len(n)) % 8 == 0);
    }
    lemma_dir_records_aligned(acc, entries.drop_first(), max);
    let all = dir_records(Seq::empty(), entries, max);
    assert(all == dir_records(acc, entries.drop_first(), max));
    assert(all.subrange(0, first.len() as int) =~= first);
    assert(all.subrange(0, 8) =~= first.subrange(0, 8));
    assert(all.subrange(8, 16) =~= first.subrange(8, 16));
}

// ---------------------------------------------------------------------------
// Session setup
// ---------------------------------------------------------------------------

/// The capabilities granted in the `INIT` reply, flag by flag in the order the
/// session considers them.
pub open spec fn init_flags_in_steps(f: u32, dont_mask: bool, write_back: bool, no_open_support: bool, handle_killpriv: bool, default_permissions: bool, no_open_dir_support: bool, force: bool) -> u32 {
    0u32
        | (if f & FUSE_ASYNC_READ > 0 { FUSE_ASYNC_READ } else { 0 })
        | (if f & FUSE_POSIX_LOCKS > 0 { FUSE_POSIX_LOCKS } else { 0 })
        | (if f & FUSE_FILE_OPS > 0 { FUSE_FILE_OPS } else { 0 })
        | (if f & FUSE_ATOMIC_O_TRUNC > 0 { FUSE_ATOMIC_O_TRUNC } else { 0 })
        | (if f & FUSE_EXPORT_SUPPORT > 0 { FUSE_EXPORT_SUPPORT } else { 0 })
        | (if f & FUSE_BIG_WRITES > 0 { FUSE_BIG_WRITES } else { 0 })
        | (if f & FUSE_DONT_MASK > 0 && dont_mask { FUSE_DONT_MASK } else { 0 })
        | (if f & FUSE_SPLICE_WRITE > 0 { FUSE_SPLICE_WRITE } else { 0 })
        | (if f & FUSE_SPLICE_MOVE > 0 { FUSE_SPLICE_MOVE } else { 0 })
        | (if f & FUSE_SPLICE_READ > 0 { FUSE_SPLICE_READ } else { 0 })
        | (if f & FUSE_AUTO_INVAL_DATA > 0 { FUSE_AUTO_INVAL_DATA } else { 0 })
        | (if f & FUSE_DO_READDIRPLUS > 0 || force { FUSE_DO_READDIRPLUS } else { 0 })
        | (if f & FUSE_READDIRPLUS_AUTO > 0 && !force { FUSE_READDIRPLUS_AUTO } else { 0 })
        | (if f & FUSE_ASYNC_DIO > 0 { FUSE_ASYNC_DIO } else { 0 })
        | (if f & FUSE_WRITEBACK_CACHE > 0 && write_back { FUSE_WRITEBACK_CACHE } else { 0 })
        | (if f & FUSE_NO_OPEN_SUPPORT > 0 && no_open_support { FUSE_NO_OPEN_SUPPORT } else { 0 })
        | (if f & FUSE_PARALLEL_DIROPS > 0 { FUSE_PARALLEL_DIROPS } else { 0 })
        | (if f & FUSE_HANDLE_KILLPRIV > 0 && handle_killpriv { FUSE_HANDLE_KILLPRIV } else { 0 })
        | (if f & FUSE_POSIX_ACL > 0 && default_permissions { FUSE_POSIX_ACL } else { 0 })
        | (if f & FUSE_MAX_PAGES > 0 { FUSE_MAX_PAGES } else { 0 })
        | (if f & FUSE_CACHE_SYMLINKS > 0 { FUSE_CACHE_SYMLINKS } else { 0 })
        | (if f & FUSE_NO_OPENDIR_SUPPORT > 0 && no_open_dir_support { FUSE_NO_OPENDIR_SUPPORT } else { 0 })
}

/// The capabilities granted in the `INIT` reply, as one formula over the offer.
pub open spec fn init_flags_formula(f: u32, dont_mask: bool, write_back: bool, no_open_support: bool, handle_killpriv: bool, default_permissions: bool, no_open_dir_support: bool, force: bool) -> u32 {
    (f & (FUSE_ASYNC_READ | FUSE_POSIX_LOCKS | FUSE_FILE_OPS | FUSE_ATOMIC_O_TRUNC
        | FUSE_EXPORT_SUPPORT | FUSE_BIG_WRITES | FUSE_SPLICE_WRITE | FUSE_SPLICE_MOVE
        | FUSE_SPLICE_READ | FUSE_AUTO_INVAL_DATA | FUSE_DO_READDIRPLUS | FUSE_ASYNC_DIO
        | FUSE_PARALLEL_DIROPS | FUSE_MAX_PAGES | FUSE_CACHE_SYMLINKS))
        | (if dont_mask { f & FUSE_DONT_MASK } else { 0 })
        | (if write_back { f & FUSE_WRITEBACK_CACHE } else { 0 })
        | (if no_open_support { f & FUSE_NO_OPEN_SUPPORT } else { 0 })
        | (if handle_killpriv { f & FUSE_HANDLE_KILLPRIV } else { 0 })
        | (if default_permissions { f & FUSE_POSIX_ACL } else { 0 })
        | (if no_open_dir_support { f & FUSE_NO_OPENDIR_SUPPORT } else { 0 })
        | (if force { FUSE_DO_READDIRPLUS } else { f & FUSE_READDIRPLUS_AUTO })
}

proof fn lemma_init_flags_steps(f: u32, dont_mask: bool, write_back: bool, no_open_support: bool, handle_killpriv: bool, default_permissions: bool, no_open_dir_support: bool, force: bool)
    ensures
        init_flags_in_steps(f, dont_mask, write_back, no_open_support, handle_killpriv, default_permissions, no_open_dir_support, force) == init_flags_formula(f, dont_mask, write_back, no_open_support, handle_killpriv, default_permissions, no_open_dir_support, force),
{
    assert(init_flags_in_steps(f, dont_mask, write_back, no_open_support, handle_killpriv, default_permissions, no_open_dir_support, force) == init_flags_formula(f, dont_mask, write_back, no_open_support, handle_killpriv, default_permissions, no_open_dir_support, force)) by (bit_vector);
}

/// The capabilities granted in the `INIT` reply when the kernel offers
/// `offered`: the ones always taken, the ones the mount options ask for, and
/// readdirplus forced on (with its automatic mode off) when the options force it.
pub open spec fn spec_init_reply_flags(offered: u32, opts: MountOptions) -> u32 {
    init_flags_formula(
        offered,
        opts.dont_mask,
        opts.write_back,
        opts.no_open_support,
        opts.handle_killpriv,
        opts.default_permissions,
        opts.no_open_dir_support,
        opts.force_readdir_plus,
    )
}

proof fn lemma_init_flags_formula_offered(f: u32, dont_mask: bool, write_back: bool, no_open_support: bool, handle_killpriv: bool, default_permissions: bool, no_open_dir_support: bool, force: bool)
    ensures
        init_flags_formula(f, dont_mask, write_back, no_open_support, handle_killpriv, default_permissions, no_open_dir_support, force) & !(f | FUSE_DO_READDIRPLUS) == 0,
        force ==> init_flags_formula(f, dont_mask, write_back, no_open_support, handle_killpriv, default_permissions, no_open_dir_support, force) & FUSE_DO_READDIRPLUS != 0,
        force ==> init_flags_formula(f, dont_mask, write_back, no_open_support, handle_killpriv, default_permissions, no_open_dir_support, force) & FUSE_READDIRPLUS_AUTO == 0,
{
    assert(init_flags_formula(f, dont_mask, write_back, no_open_support, handle_killpriv, default_permissions, no_open_dir_support, force) & !(f | FUSE_DO_READDIRPLUS) == 0) by (bit_vector);
    assert(force ==> init_flags_formula(f, dont_mask, write_back, no_open_support, handle_killpriv, default_permissions, no_open_dir_support, force) & FUSE_DO_READDIRPLUS != 0) by (bit_vector);
    assert(force ==> init_flags_formula(f, dont_mask, write_back, no_open_support, handle_killpriv, default_permissions, no_open_dir_support, force) & FUSE_READDIRPLUS_AUTO == 0) by (bit_vector);
}

/// The `INIT` reply grants only capabilities the kernel offered, save
/// readdirplus, which forcing it grants (with its automatic mode left off).
pub proof fn lemma_init_flags_offered(offered: u32, opts: MountOptions)
    ensures
        spec_init_reply_flags(offered, opts) & !(offered | FUSE_DO_READDIRPLUS) == 0,
        opts.force_readdir_plus ==> spec_init_reply_flags(offered, opts) & FUSE_DO_READDIRPLUS != 0,
        opts.force_readdir_plus ==> spec_init_reply_flags(offered, opts) & FUSE_READDIRPLUS_AUTO == 0,
{
    lemma_init_flags_formula_offered(
        offered,
        opts.dont_mask,
        opts.write_back,
        opts.no_open_support,
        opts.handle_killpriv,
        opts.default_permissions,
        opts.no_open_dir_support,
        opts.force_readdir_plus,
    );
}

/// The capabilities to grant in the `INIT` reply when the kernel offers `offered`.
#[verifier::spinoff_prover]
pub fn init_reply_flags(offered: u32, opts: &MountOptions) -> (r: u32)
    ensures
        r == spec_init_reply_flags(offered, *opts),
{
    let f = offered;
    let mut reply_flags: u32 = 0;
    reply_flags = reply_flags | (if f & FUSE_ASYNC_READ > 0 { FUSE_ASYNC_READ } else { 0 });
    reply_flags = reply_flags | (if f & FUSE_POSIX_LOCKS > 0 { FUSE_POSIX_LOCKS } else { 0 });
    reply_flags = reply_flags | (if f & FUSE_FILE_OPS > 0 { FUSE_FILE_OPS } else { 0 });
    reply_flags = reply_flags | (if f & FUSE_ATOMIC_O_TRUNC > 0 { FUSE_ATOMIC_O_TRUNC } else { 0 });
    reply_flags = reply_flags | (if f & FUSE_EXPORT_SUPPORT > 0 { FUSE_EXPORT_SUPPORT } else { 0 });
    reply_flags = reply_flags | (if f & FUSE_BIG_WRITES > 0 { FUSE_BIG_WRITES } else { 0 });
    reply_flags = reply_flags | (if f & FUSE_DONT_MASK > 0 && opts.dont_mask { FUSE_DONT_MASK } else { 0 });
    reply_flags = reply_flags | (if f & FUSE_SPLICE_WRITE > 0 { FUSE_SPLICE_WRITE } else { 0 });
    reply_flags = reply_flags | (if f & FUSE_SPLICE_MOVE > 0 { FUSE_SPLICE_MOVE } else { 0 });
    reply_flags = reply_flags | (if f & FUSE_SPLICE_READ > 0 { FUSE_SPLICE_READ } else { 0 });
    reply_flags = reply_flags | (if f & FUSE_AUTO_INVAL_DATA > 0 { FUSE_AUTO_INVAL_DATA } else { 0 });
    reply_flags = reply_flags | (if f & FUSE_DO_READDIRPLUS > 0 || opts.force_readdir_plus { FUSE_DO_READDIRPLUS } else { 0 });
    reply_flags = reply_flags | (if f & FUSE_READDIRPLUS_AUTO > 0 && !opts.force_readdir_plus { FUSE_READDIRPLUS_AUTO } else { 0 });
    reply_flags = reply_flags | (if f & FUSE_ASYNC_DIO > 0 { FUSE_ASYNC_DIO } else { 0 });
    reply_flags = reply_flags | (if f & FUSE_WRITEBACK_CACHE > 0 && opts.write_back { FUSE_WRITEBACK_CACHE } else { 0 });
    reply_flags = reply_flags | (if f & FUSE_NO_OPEN_SUPPORT > 0 && opts.no_open_support { FUSE_NO_OPEN_SUPPORT } else { 0 });
    reply_flags = reply_flags | (if f & FUSE_PARALLEL_DIROPS > 0 { FUSE_PARALLEL_DIROPS } else { 0 });
    reply_flags = reply_flags | (if f & FUSE_HANDLE_KILLPRIV > 0 && opts.handle_killpriv { FUSE_HANDLE_KILLPRIV } else { 0 });
    reply_flags = reply_flags | (if f & FUSE_POSIX_ACL > 0 && opts.default_permissions { FUSE_POSIX_ACL } else { 0 });
    reply_flags = reply_flags | (if f & FUSE_MAX_PAGES > 0 { FUSE_MAX_PAGES } else { 0 });
    reply_flags = reply_flags | (if f & FUSE_CACHE_SYMLINKS > 0 { FUSE_CACHE_SYMLINKS } else { 0 });
    reply_flags = reply_flags | (if f & FUSE_NO_OPENDIR_SUPPORT > 0 && opts.no_open_dir_support { FUSE_NO_OPENDIR_SUPPORT } else { 0 });
    assert(reply_flags == init_flags_in_steps(
        f,
        opts.dont_mask,
        opts.write_back,
        opts.no_open_support,
        opts.handle_killpriv,
        opts.default_permissions,
        opts.no_open_dir_support,
        opts.force_readdir_plus,
    ));
    proof {
        lemma_init_flags_steps(
            f,
            opts.dont_mask,
            opts.write_back,
            opts.no_open_support,
            opts.handle_killpriv,
            opts.default_permissions,
            opts.no_open_dir_support,
            opts.force_readdir_plus,
        );
    }
    reply_flags
}


// ---------------------------------------------------------------------------
// Requests
// ---------------------------------------------------------------------------

/// A request decoded from the bytes the kernel sent, with its arguments.
#[derive(Debug, Clone, PartialEq, Eq)]
#[allow(inconsistent_fields)]
pub enum Operation {
    Init(FuseInitIn),
    Destroy,
    Lookup { name: Vec<u8> },
    Forget(FuseForgetIn),
    Getattr(FuseGetattrIn),
    Setattr(FuseSetattrIn),
    Readlink,
    Symlink { name: Vec<u8>, link: Vec<u8> },
    Mknod { arg: FuseMknodIn, name: Vec<u8> },
    Mkdir { arg: FuseMkdirIn, name: Vec<u8> },
    Unlink { name: Vec<u8> },
    Rmdir { name: Vec<u8> },
    Rename { arg: FuseRenameIn, name: Vec<u8>, new_name: Vec<u8> },
    Link { arg: FuseLinkIn, name: Vec<u8> },
    Open(FuseOpenIn),
    Read(FuseReadIn),
    Write { arg: FuseWriteIn, data: Vec<u8> },
    Statfs,
    Release(FuseReleaseIn),
    Fsync(FuseFsyncIn),
    Setxattr { arg: FuseSetxattrIn, name: Vec<u8>, value: Vec<u8> },
    Getxattr { arg: FuseGetxattrIn, name: Vec<u8> },
    Listxattr(FuseGetxattrIn),
    Removexattr { name: Vec<u8> },
    Flush(FuseFlushIn),
    Opendir(FuseOpenIn),
    Readdir(FuseReadIn),
    Releasedir(FuseReleaseIn),
    Fsyncdir(FuseFsyncIn),
    Getlk(FuseLkIn),
    Setlk { arg: FuseLkIn, block: bool },
    Access(FuseAccessIn),
    Create { arg: FuseCreateIn, name: Vec<u8> },
    Interrupt(FuseInterruptIn),
    Bmap(FuseBmapIn),
    Poll(FusePollIn),
    NotifyReply { arg: FuseNotifyRetrieveIn, data: Vec<u8> },
    BatchForget { nodeids: Vec<u64> },
    Fallocate(FuseFallocateIn),
    Readdirplus(FuseReadIn),
    Rename2 { arg: FuseRename2In, name: Vec<u8>, new_name: Vec<u8> },
    Lseek(FuseLseekIn),
    CopyFileRange(FuseCopyFileRangeIn),
}

/// Why a request is not handed to the filesystem.
#[derive(Debug, Clone, Copy, PartialEq, Eq, Structural)]
pub enum ParseError {
    /// The opcode is not one the library handles: answered with `ENOSYS`.
    Unknown,
    /// The body is malformed: answered with `EINVAL`.
    Invalid,
    /// The body is malformed, for a request that gets no answer: dropped.
    Silent,
    /// The `INIT` body is malformed: answered with `EINVAL`, then the session ends.
    InitFailed,
    /// A plain readdir while readdirplus is forced: answered with `ENOSYS`.
    NotImplemented,
}

impl ParseError {
    /// The errno a refused request is answered with, if it is answered.
    pub open spec fn spec_reply_errno(self) -> Option<i32> {
        match self {
            ParseError::Unknown => Some(ENOSYS),
            ParseError::Invalid => Some(EINVAL),
            ParseError::Silent => None,
            ParseError::InitFailed => Some(EINVAL),
            ParseError::NotImplemented => Some(ENOSYS),
        }
    }

    /// The errno a refused request is answered with, if it is answered.
    pub fn reply_errno(&self) -> (r: Option<i32>)
        ensures
            r == self.spec_reply_errno(),
    {
        match self {
            ParseError::Unknown => Some(ENOSYS),
            ParseError::Invalid => Some(EINVAL),
            ParseError::Silent => None,
            ParseError::InitFailed => Some(EINVAL),
            ParseError::NotImplemented => Some(ENOSYS),
        }
    }
}

/// The opcodes the library handles.
pub open spec fn known_opcode(opcode: u32) -> bool {
    &&& 1 <= opcode <= 47
    &&& opcode != 7
    &&& opcode != 19
    &&& opcode != FUSE_IOCTL
}

/// Whether the library handles `opcode`.
pub fn is_known_opcode(opcode: u32) -> (r: bool)
    ensures
        r == known_opcode(opcode),
{
    1 <= opcode && opcode <= 47 && opcode != 7 && opcode != 19 && opcode != FUSE_IOCTL
}

/// `s` starts with two C strings.
pub open spec fn has_two_names(s: Seq<u8>) -> bool {
    has_null(s) && has_null(after_cstr(s))
}

/// The size of the fixed body of the requests that carry nothing else.
pub open spec fn fixed_body_size(opcode: u32) -> int {
    if opcode == FUSE_GETATTR {
        FUSE_GETATTR_IN_SIZE as int
    } else if opcode == FUSE_SETATTR {
        FUSE_SETATTR_IN_SIZE as int
    } else if opcode == FUSE_OPEN || opcode == FUSE_OPENDIR {
        FUSE_OPEN_IN_SIZE as int
    } else if opcode == FUSE_READ || opcode == FUSE_READDIR || opcode == FUSE_READDIRPLUS {
        FUSE_READ_IN_SIZE as int
    } else if opcode == FUSE_RELEASE || opcode == FUSE_RELEASEDIR {
        FUSE_RELEASE_IN_SIZE as int
    } else if opcode == FUSE_FSYNC || opcode == FUSE_FSYNCDIR {
        FUSE_FSYNC_IN_SIZE as int
    } else if opcode == FUSE_LISTXATTR {
        FUSE_GETXATTR_IN_SIZE as int
    } else if opcode == FUSE_FLUSH {
        FUSE_FLUSH_IN_SIZE as int
    } else if opcode == FUSE_GETLK || opcode == FUSE_SETLK || opcode == FUSE_SETLKW {
        FUSE_LK_IN_SIZE as int
    } else if opcode == FUSE_ACCESS {
        FUSE_ACCESS_IN_SIZE as int
    } else if opcode == FUSE_INTERRUPT {
        FUSE_INTERRUPT_IN_SIZE as int
    } else if opcode == FUSE_BMAP {
        FUSE_BMAP_IN_SIZE as int
    } else if opcode == FUSE_POLL {
        FUSE_POLL_IN_SIZE as int
    } else if opcode == FUSE_FALLOCATE {
        FUSE_FALLOCATE_IN_SIZE as int
    } else if opcode == FUSE_LSEEK {
        FUSE_LSEEK_IN_SIZE as int
    } else if opcode == FUSE_COPY_FILE_RANGE {
        FUSE_COPY_FILE_RANGE_IN_SIZE as int
    } else {
        0
    }
}

/// Whether the body `b` of a request that is answered when malformed is well formed.
pub open spec fn body_well_formed(opcode: u32, b: Seq<u8>) -> bool {
    if opcode == FUSE_LOOKUP || opcode == FUSE_UNLINK || opcode == FUSE_RMDIR || opcode
        == FUSE_REMOVEXATTR {
        has_null(b)
    } else if opcode == FUSE_SYMLINK {
        has_two_names(b)
    } else if opcode == FUSE_MKNOD {
        b.len() >= FUSE_MKNOD_IN_SIZE && has_null(b.skip(FUSE_MKNOD_IN_SIZE as int))
    } else if opcode == FUSE_MKDIR {
        b.len() >= FUSE_MKDIR_IN_SIZE && has_null(b.skip(FUSE_MKDIR_IN_SIZE as int))
    } else if opcode == FUSE_RENAME {
        b.len() >= FUSE_RENAME_IN_SIZE && has_two_names(b.skip(FUSE_RENAME_IN_SIZE as int))
    } else if opcode == FUSE_LINK {
        b.len() >= FUSE_LINK_IN_SIZE && has_null(b.skip(FUSE_LINK_IN_SIZE as int))
    } else if opcode == FUSE_WRITE {
        b.len() >= FUSE_WRITE_IN_SIZE && u32_at(b, 16) as int == b.len() - FUSE_WRITE_IN_SIZE
    } else if opcode == FUSE_SETXATTR {
        &&& b.len() >= FUSE_SETXATTR_IN_SIZE
        &&& has_null(b.skip(FUSE_SETXATTR_IN_SIZE as int))
        &&& u32_at(b, 0) as int == after_cstr(b.skip(FUSE_SETXATTR_IN_SIZE as int)).len()
    } else if opcode == FUSE_GETXATTR {
        b.len() >= FUSE_GETXATTR_IN_SIZE && has_null(b.skip(FUSE_GETXATTR_IN_SIZE as int))
    } else if opcode == FUSE_CREATE {
        b.len() >= FUSE_CREATE_IN_SIZE && has_null(b.skip(FUSE_CREATE_IN_SIZE as int))
    } else if opcode == FUSE_RENAME2 {
        b.len() >= FUSE_RENAME2_IN_SIZE && has_two_names(b.skip(FUSE_RENAME2_IN_SIZE as int))
    } else {
        b.len() >= fixed_body_size(opcode)
    }
}

/// Why the body `b` of a request with a handled opcode is refused, if it is:
/// `force_readdir_plus` tells whether plain readdir is turned off.
pub open spec fn spec_body_error(opcode: u32, b: Seq<u8>, force_readdir_plus: bool) -> Option<
    ParseError,
> {
    if opcode == FUSE_INIT {
        if b.len() >= FUSE_INIT_IN_SIZE {
            None
        } else {
            Some(ParseError::InitFailed)
        }
    } else if opcode == FUSE_DESTROY || opcode == FUSE_READLINK || opcode == FUSE_STATFS {
        None
    } else if opcode == FUSE_FORGET {
        if b.len() >= FUSE_FORGET_IN_SIZE {
            None
        } else {
            Some(ParseError::Silent)
        }
    } else if opcode == FUSE_NOTIFY_REPLY {
        if b.len() >= FUSE_NOTIFY_RETRIEVE_IN_SIZE && b.len() - FUSE_NOTIFY_RETRIEVE_IN_SIZE
            >= u32_at(b, 16) {
            None
        } else {
            Some(ParseError::Silent)
        }
    } else if opcode == FUSE_BATCH_FORGET {
        if b.len() >= FUSE_BATCH_FORGET_IN_SIZE && u32_at(b, 0) as int == (b.len()
            - FUSE_BATCH_FORGET_IN_SIZE) / (FUSE_FORGET_ONE_SIZE as int) {
            None
        } else {
            Some(ParseError::Silent)
        }
    } else if opcode == FUSE_READDIR && force_readdir_plus {
        Some(ParseError::NotImplemented)
    } else if body_well_formed(opcode, b) {
        None
    } else {
        Some(ParseError::Invalid)
    }
}

/// The node ids of the `count` records of a batch forget body `b`.
pub open spec fn batch_forget_nodeids(b: Seq<u8>, count: nat) -> Seq<u64> {
    Seq::new(
        count,
        |i: int| u64_at(b, FUSE_BATCH_FORGET_IN_SIZE + FUSE_FORGET_ONE_SIZE * i),
    )
}

/// `op` is what the well formed body `b` of a request with `opcode` says.
pub open spec fn parses_as(opcode: u32, b: Seq<u8>, op: Operation) -> bool {
    match op {
        Operation::Init(a) => opcode == FUSE_INIT && a == FuseInitIn::spec_decode(b),
        Operation::Destroy => opcode == FUSE_DESTROY,
        Operation::Lookup { name } => opcode == FUSE_LOOKUP && name@ == cstr(b),
        Operation::Forget(a) => opcode == FUSE_FORGET && a == FuseForgetIn::spec_decode(b),
        Operation::Getattr(a) => opcode == FUSE_GETATTR && a == FuseGetattrIn::spec_decode(b),
        Operation::Setattr(a) => opcode == FUSE_SETATTR && a == FuseSetattrIn::spec_decode(b),
        Operation::Readlink => opcode == FUSE_READLINK,
        Operation::Symlink { name, link } => opcode == FUSE_SYMLINK && name@ == cstr(b) && link@
            == cstr(after_cstr(b)),
        Operation::Mknod { arg, name } => opcode == FUSE_MKNOD && arg == FuseMknodIn::spec_decode(b)
            && name@ == cstr(b.skip(FUSE_MKNOD_IN_SIZE as int)),
        Operation::Mkdir { arg, name } => opcode == FUSE_MKDIR && arg == FuseMkdirIn::spec_decode(b)
            && name@ == cstr(b.skip(FUSE_MKDIR_IN_SIZE as int)),
        Operation::Unlink { name } => opcode == FUSE_UNLINK && name@ == cstr(b),
        Operation::Rmdir { name } => opcode == FUSE_RMDIR && name@ == cstr(b),
        Operation::Rename { arg, name, new_name } => opcode == FUSE_RENAME && arg
            == FuseRenameIn::spec_decode(b) && name@ == cstr(b.skip(FUSE_RENAME_IN_SIZE as int))
            && new_name@ == cstr(after_cstr(b.skip(FUSE_RENAME_IN_SIZE as int))),
        Operation::Link { arg, name } => opcode == FUSE_LINK && arg == FuseLinkIn::spec_decode(b)
            && name@ == cstr(b.skip(FUSE_LINK_IN_SIZE as int)),
        Operation::Open(a) => opcode == FUSE_OPEN && a == FuseOpenIn::spec_decode(b),
        Operation::Read(a) => opcode == FUSE_READ && a == FuseReadIn::spec_decode(b),
        Operation::Write { arg, data } => opcode == FUSE_WRITE && arg == FuseWriteIn::spec_decode(b)
            && data@ == b.skip(FUSE_WRITE_IN_SIZE as int),
        Operation::Statfs => opcode == FUSE_STATFS,
        Operation::Release(a) => opcode == FUSE_RELEASE && a == FuseReleaseIn::spec_decode(b),
        Operation::Fsync(a) => opcode == FUSE_FSYNC && a == FuseFsyncIn::spec_decode(b),
        Operation::Setxattr { arg, name, value } => opcode == FUSE_SETXATTR && arg
            == FuseSetxattrIn::spec_decode(b) && name@ == cstr(
            b.skip(FUSE_SETXATTR_IN_SIZE as int),
        ) && value@ == after_cstr(b.skip(FUSE_SETXATTR_IN_SIZE as int)),
        Operation::Getxattr { arg, name } => opcode == FUSE_GETXATTR && arg
            == FuseGetxattrIn::spec_decode(b) && name@ == cstr(
            b.skip(FUSE_GETXATTR_IN_SIZE as int),
        ),
        Operation::Listxattr(a) => opcode == FUSE_LISTXATTR && a == FuseGetxattrIn::spec_decode(b),
        Operation::Removexattr { name } => opcode == FUSE_REMOVEXATTR && name@ == cstr(b),
        Operation::Flush(a) => opcode == FUSE_FLUSH && a == FuseFlushIn::spec_decode(b),
        Operation::Opendir(a) => opcode == FUSE_OPENDIR && a == FuseOpenIn::spec_decode(b),
        Operation::Readdir(a) => opcode == FUSE_READDIR && a == FuseReadIn::spec_decode(b),
        Operation::Releasedir(a) => opcode == FUSE_RELEASEDIR && a == FuseReleaseIn::spec_decode(b),
        Operation::Fsyncdir(a) => opcode == FUSE_FSYNCDIR && a == FuseFsyncIn::spec_decode(b),
        Operation::Getlk(a) => opcode == FUSE_GETLK && a == FuseLkIn::spec_decode(b),
        Operation::Setlk { arg, block } => (opcode == FUSE_SETLK || opcode == FUSE_SETLKW) && block
            == (opcode == FUSE_SETLKW) && arg == FuseLkIn::spec_decode(b),
        Operation::Access(a) => opcode == FUSE_ACCESS && a == FuseAccessIn::spec_decode(b),
        Operation::Create { arg, name } => opcode == FUSE_CREATE && arg
            == FuseCreateIn::spec_decode(b) && name@ == cstr(b.skip(FUSE_CREATE_IN_SIZE as int)),
        Operation::Interrupt(a) => opcode == FUSE_INTERRUPT && a == FuseInterruptIn::spec_decode(b),
        Operation::Bmap(a) => opcode == FUSE_BMAP && a == FuseBmapIn::spec_decode(b),
        Operation::Poll(a) => opcode == FUSE_POLL && a == FusePollIn::spec_decode(b),
        Operation::NotifyReply { arg, data } => opcode == FUSE_NOTIFY_REPLY && arg
            == FuseNotifyRetrieveIn::spec_decode(b) && data@ == b.subrange(
            FUSE_NOTIFY_RETRIEVE_IN_SIZE as int,
            FUSE_NOTIFY_RETRIEVE_IN_SIZE + arg.size,
        ),
        Operation::BatchForget { nodeids } => opcode == FUSE_BATCH_FORGET && nodeids@
            == batch_forget_nodeids(b, u32_at(b, 0) as nat),
        Operation::Fallocate(a) => opcode == FUSE_FALLOCATE && a == FuseFallocateIn::spec_decode(b),
        Operation::Readdirplus(a) => opcode == FUSE_READDIRPLUS && a == FuseReadIn::spec_decode(b),
        Operation::Rename2 { arg, name, new_name } => opcode == FUSE_RENAME2 && arg
            == FuseRename2In::spec_decode(b) && name@ == cstr(b.skip(FUSE_RENAME2_IN_SIZE as int))
            && new_name@ == cstr(after_cstr(b.skip(FUSE_RENAME2_IN_SIZE as int))),
        Operation::Lseek(a) => opcode == FUSE_LSEEK && a == FuseLseekIn::spec_decode(b),
        Operation::CopyFileRange(a) => opcode == FUSE_COPY_FILE_RANGE && a
            == FuseCopyFileRangeIn::spec_decode(b),
    }
}

/// The C string at the front of `data`.
fn take_name(data: &[u8]) -> (r: Option<Vec<u8>>)
    ensures
        r is Some <==> has_null(data@),
        r matches Some(name) ==> name@ == cstr(data@),
{
    match get_first_null_position(data) {
        None => None,
        Some(index) => Some(vstd::slice::slice_to_vec(vstd::slice::slice_subrange(data, 0, index))),
    }
}

/// The two C strings at the front of `data`.
fn take_two_names(data: &[u8]) -> (r: Option<(Vec<u8>, Vec<u8>)>)
    ensures
        r is Some <==> has_two_names(data@),
        r matches Some((first, second)) ==> first@ == cstr(data@) && second@ == cstr(
            after_cstr(data@),
        ),
{
    match get_first_null_position(data) {
        None => None,
        Some(index) => {
            let len = data.len();
            let first = vstd::slice::slice_to_vec(vstd::slice::slice_subrange(data, 0, index));
            let rest = vstd::slice::slice_subrange(data, index + 1, len);
            assert(rest@ == after_cstr(data@));
            match take_name(rest) {
                None => None,
                Some(second) => Some((first, second)),
            }
        },
    }
}

/// What follows the first `n` bytes of `data`.
fn skip(data: &[u8], n: usize) -> (r: &[u8])
    requires
        n <= data@.len(),
    ensures
        r@ == data@.skip(n as int),
{
    let r = vstd::slice::slice_subrange(data, n, data.len());
    assert(r@ =~= data@.skip(n as int));
    r
}

/// `r` is the outcome the body `b` of a request with `opcode` calls for.
pub open spec fn parse_outcome(
    opcode: u32,
    b: Seq<u8>,
    force_readdir_plus: bool,
    r: Result<Operation, ParseError>,
) -> bool {
    match r {
        Ok(op) => spec_body_error(opcode, b, force_readdir_plus) is None && parses_as(opcode, b, op),
        Err(e) => spec_body_error(opcode, b, force_readdir_plus) == Some(e),
    }
}

/// Decodes the body of a request that carries one fixed message.
fn parse_fixed(opcode: u32, b: &[u8]) -> (r: Result<Operation, ParseError>)
    requires
        opcode == FUSE_GETATTR || opcode == FUSE_SETATTR || opcode == FUSE_OPEN || opcode == FUSE_READ || opcode == FUSE_RELEASE || opcode == FUSE_FSYNC || opcode == FUSE_LISTXATTR || opcode == FUSE_FLUSH || opcode == FUSE_OPENDIR || opcode == FUSE_RELEASEDIR || opcode == FUSE_FSYNCDIR || opcode == FUSE_GETLK || opcode == FUSE_ACCESS || opcode == FUSE_INTERRUPT || opcode == FUSE_BMAP || opcode == FUSE_POLL || opcode == FUSE_FALLOCATE || opcode == FUSE_READDIRPLUS || opcode == FUSE_LSEEK || opcode == FUSE_COPY_FILE_RANGE,
    ensures
        forall|force: bool| parse_outcome(opcode, b@, force, r),
{
    if opcode == FUSE_GETATTR {
        match FuseGetattrIn::decode(b) {
            Some(arg) => Ok(Operation::Getattr(arg)),
            None => Err(ParseError::Invalid),
        }
    } else if opcode == FUSE_SETATTR {
        match FuseSetattrIn::decode(b) {
            Some(arg) => Ok(Operation::Setattr(arg)),
            None => Err(ParseError::Invalid),
        }
    } else if opcode == FUSE_OPEN {
        match FuseOpenIn::decode(b) {
            Some(arg) => Ok(Operation::Open(arg)),
            None => Err(ParseError::Invalid),
        }
    } else if opcode == FUSE_READ {
        match FuseReadIn::decode(b) {
            Some(arg) => Ok(Operation::Read(arg)),
            None => Err(ParseError::Invalid),
        }
    } else if opcode == FUSE_RELEASE {
        match FuseReleaseIn::decode(b) {
            Some(arg) => Ok(Operation::Release(arg)),
            None => Err(ParseError::Invalid),
        }
    } else if opcode == FUSE_FSYNC {
        match FuseFsyncIn::decode(b) {
            Some(arg) => Ok(Operation::Fsync(arg)),
            None => Err(ParseError::Invalid),
        }
    } else if opcode == FUSE_LISTXATTR {
        match FuseGetxattrIn::decode(b) {
            Some(arg) => Ok(Operation::Listxattr(arg)),
            None => Err(ParseError::Invalid),
        }
    } else if opcode == FUSE_FLUSH {
        match FuseFlushIn::decode(b) {
            Some(arg) => Ok(Operation::Flush(arg)),
            None => Err(ParseError::Invalid),
        }
    } else if opcode == FUSE_OPENDIR {
        match FuseOpenIn::decode(b) {
            Some(arg) => Ok(Operation::Opendir(arg)),
            None => Err(ParseError::Invalid),
        }
    } else if opcode == FUSE_RELEASEDIR {
        match FuseReleaseIn::decode(b) {
            Some(arg) => Ok(Operation::Releasedir(arg)),
            None => Err(ParseError::Invalid),
        }
    } else if opcode == FUSE_FSYNCDIR {
        match FuseFsyncIn::decode(b) {
            Some(arg) => Ok(Operation::Fsyncdir(arg)),
            None => Err(ParseError::Invalid),
        }
    } else if opcode == FUSE_GETLK {
        match FuseLkIn::decode(b) {
            Some(arg) => Ok(Operation::Getlk(arg)),
            None => Err(ParseError::Invalid),
        }
    } else if opcode == FUSE_ACCESS {
        match FuseAccessIn::decode(b) {
            Some(arg) => Ok(Operation::Access(arg)),
            None => Err(ParseError::Invalid),
        }
    } else if opcode == FUSE_INTERRUPT {
        match FuseInterruptIn::decode(b) {
            Some(arg) => Ok(Operation::Interrupt(arg)),
            None => Err(ParseError::Invalid),
        }
    } else if opcode == FUSE_BMAP {
        match FuseBmapIn::decode(b) {
            Some(arg) => Ok(Operation::Bmap(arg)),
            None => Err(ParseError::Invalid),
        }
    } else if opcode == FUSE_POLL {
        match FusePollIn::decode(b) {
            Some(arg) => Ok(Operation::Poll(arg)),
            None => Err(ParseError::Invalid),
        }
    } else if opcode == FUSE_FALLOCATE {
        match FuseFallocateIn::decode(b) {
            Some(arg) => Ok(Operation::Fallocate(arg)),
            None => Err(ParseError::Invalid),
        }
    } else if opcode == FUSE_READDIRPLUS {
        match FuseReadIn::decode(b) {
            Some(arg) => Ok(Operation::Readdirplus(arg)),
            None => Err(ParseError::Invalid),
        }
    } else if opcode == FUSE_LSEEK {
        match FuseLseekIn::decode(b) {
            Some(arg) => Ok(Operation::Lseek(arg)),
            None => Err(ParseError::Invalid),
        }
    } else {
        match FuseCopyFileRangeIn::decode(b) {
            Some(arg) => Ok(Operation::CopyFileRange(arg)),
            None => Err(ParseError::Invalid),
        }
    }
}

/// Decodes the body of a request that carries names.
fn parse_named(opcode: u32, b: &[u8]) -> (r: Result<Operation, ParseError>)
    requires
        opcode == FUSE_LOOKUP || opcode == FUSE_UNLINK || opcode == FUSE_RMDIR || opcode
            == FUSE_REMOVEXATTR || opcode == FUSE_SYMLINK || opcode == FUSE_MKNOD || opcode
            == FUSE_MKDIR || opcode == FUSE_RENAME || opcode == FUSE_LINK || opcode
            == FUSE_GETXATTR || opcode == FUSE_CREATE || opcode == FUSE_RENAME2,
    ensures
        forall|force: bool| parse_outcome(opcode, b@, force, r),
{
    if opcode == FUSE_LOOKUP || opcode == FUSE_UNLINK || opcode == FUSE_RMDIR || opcode
        == FUSE_REMOVEXATTR {
        match take_name(b) {
            None => Err(ParseError::Invalid),
            Some(name) => Ok(
                if opcode == FUSE_LOOKUP {
                    Operation::Lookup { name }
                } else if opcode == FUSE_UNLINK {
                    Operation::Unlink { name }
                } else if opcode == FUSE_RMDIR {
                    Operation::Rmdir { name }
                } else {
                    Operation::Removexattr { name }
                },
            ),
        }
    } else if opcode == FUSE_SYMLINK {
        match take_two_names(b) {
            None => Err(ParseError::Invalid),
            Some((name, link)) => Ok(Operation::Symlink { name, link }),
        }
    } else if opcode == FUSE_MKNOD {
        match FuseMknodIn::decode(b) {
            None => Err(ParseError::Invalid),
            Some(arg) => match take_name(skip(b, FUSE_MKNOD_IN_SIZE)) {
                None => Err(ParseError::Invalid),
                Some(name) => Ok(Operation::Mknod { arg, name }),
            },
        }
    } else if opcode == FUSE_MKDIR {
        match FuseMkdirIn::decode(b) {
            None => Err(ParseError::Invalid),
            Some(arg) => match take_name(skip(b, FUSE_MKDIR_IN_SIZE)) {
                None => Err(ParseError::Invalid),
                Some(name) => Ok(Operation::Mkdir { arg, name }),
            },
        }
    } else if opcode == FUSE_RENAME {
        match FuseRenameIn::decode(b) {
            None => Err(ParseError::Invalid),
            Some(arg) => match take_two_names(skip(b, FUSE_RENAME_IN_SIZE)) {
                None => Err(ParseError::Invalid),
                Some((name, new_name)) => Ok(Operation::Rename { arg, name, new_name }),
            },
        }
    } else if opcode == FUSE_LINK {
        match FuseLinkIn::decode(b) {
            None => Err(ParseError::Invalid),
            Some(arg) => match take_name(skip(b, FUSE_LINK_IN_SIZE)) {
                None => Err(ParseError::Invalid),
                Some(name) => Ok(Operation::Link { arg, name }),
            },
        }
    } else if opcode == FUSE_GETXATTR {
        match FuseGetxattrIn::decode(b) {
            None => Err(ParseError::Invalid),
            Some(arg) => match take_name(skip(b, FUSE_GETXATTR_IN_SIZE)) {
                None => Err(ParseError::Invalid),
                Some(name) => Ok(Operation::Getxattr { arg, name }),
            },
        }
    } else if opcode == FUSE_CREATE {
        match FuseCreateIn::decode(b) {
            None => Err(ParseError::Invalid),
            Some(arg) => match take_name(skip(b, FUSE_CREATE_IN_SIZE)) {
                None => Err(ParseError::Invalid),
                Some(name) => Ok(Operation::Create { arg, name }),
            },
        }
    } else {
        match FuseRename2In::decode(b) {
            None => Err(ParseError::Invalid),
            Some(arg) => match take_two_names(skip(b, FUSE_RENAME2_IN_SIZE)) {
                None => Err(ParseError::Invalid),
                Some((name, new_name)) => Ok(Operation::Rename2 { arg, name, new_name }),
            },
        }
    }
}

/// Decodes the body of a setxattr request: the name, then a value whose length
/// the fixed part gives.
fn parse_setxattr(b: &[u8]) -> (r: Result<Operation, ParseError>)
    ensures
        forall|force: bool| parse_outcome(FUSE_SETXATTR, b@, force, r),
{
    let arg = match FuseSetxattrIn::decode(b) {
        None => return Err(ParseError::Invalid),
        Some(arg) => arg,
    };
    let data = skip(b, FUSE_SETXATTR_IN_SIZE);
    let index = match get_first_null_position(data) {
        None => return Err(ParseError::Invalid),
        Some(index) => index,
    };
    let len = data.len();
    let name = vstd::slice::slice_to_vec(vstd::slice::slice_subrange(data, 0, index));
    let value = vstd::slice::slice_subrange(data, index + 1, len);
    assert(value@ == after_cstr(data@));
    proof { lemma_le_roundtrip(); }
    assert(arg.size == u32_at(b@, 0));
    // setxattr "size" field specifies size of only "Value" part of data
    if arg.size as usize != value.len() {
        return Err(ParseError::Invalid);
    }
    Ok(Operation::Setxattr { arg, name, value: vstd::slice::slice_to_vec(value) })
}

/// Decodes the body of a write request: the fixed part, then exactly as many
/// bytes as it says.
fn parse_write(b: &[u8]) -> (r: Result<Operation, ParseError>)
    ensures
        forall|force: bool| parse_outcome(FUSE_WRITE, b@, force, r),
{
    let arg = match FuseWriteIn::decode(b) {
        None => return Err(ParseError::Invalid),
        Some(arg) => arg,
    };
    let data = skip(b, FUSE_WRITE_IN_SIZE);
    if arg.size as usize != data.len() {
        return Err(ParseError::Invalid);
    }
    Ok(Operation::Write { arg, data: vstd::slice::slice_to_vec(data) })
}

/// Decodes the body of a notify reply: the fixed part, then at least as many
/// bytes as it says, of which that many are kept.
fn parse_notify_reply(b: &[u8]) -> (r: Result<Operation, ParseError>)
    ensures
        forall|force: bool| parse_outcome(FUSE_NOTIFY_REPLY, b@, force, r),
{
    let arg = match FuseNotifyRetrieveIn::decode(b) {
        None => return Err(ParseError::Silent),
        Some(arg) => arg,
    };
    let data = skip(b, FUSE_NOTIFY_RETRIEVE_IN_SIZE);
    if data.len() < arg.size as usize {
        return Err(ParseError::Silent);
    }
    let kept = vstd::slice::slice_subrange(data, 0, arg.size as usize);
    assert(kept@ =~= b@.subrange(
        FUSE_NOTIFY_RETRIEVE_IN_SIZE as int,
        FUSE_NOTIFY_RETRIEVE_IN_SIZE + arg.size,
    ));
    Ok(Operation::NotifyReply { arg, data: vstd::slice::slice_to_vec(kept) })
}

/// Decodes the body of a batch forget: the fixed part, then as many forget
/// records as fit, which must be as many as it says.
fn parse_batch_forget(b: &[u8]) -> (r: Result<Operation, ParseError>)
    ensures
        forall|force: bool| parse_outcome(FUSE_BATCH_FORGET, b@, force, r),
{
    let batch_forget_in = match FuseBatchForgetIn::decode(b) {
        None => return Err(ParseError::Silent),
        Some(arg) => arg,
    };
    let mut nodeids: Vec<u64> = Vec::new();
    let mut offset: usize = FUSE_BATCH_FORGET_IN_SIZE;
    let len = b.len();
    while len - offset >= FUSE_FORGET_ONE_SIZE
        invariant
            len == b@.len(),
            FUSE_BATCH_FORGET_IN_SIZE <= offset <= len,
            offset == FUSE_BATCH_FORGET_IN_SIZE + FUSE_FORGET_ONE_SIZE * nodeids@.len(),
            nodeids@ == batch_forget_nodeids(b@, nodeids@.len()),
        decreases len - offset,
    {
        let forget_one = match FuseForgetOne::decode(skip(b, offset)) {
            Some(one) => one,
            None => return Err(ParseError::Silent),
        };
        proof {
            assert(b@.skip(offset as int).subrange(0, 8) =~= b@.subrange(offset as int, offset + 8));
        }
        nodeids.push(forget_one.nodeid);
        offset = offset + FUSE_FORGET_ONE_SIZE;
        assert(nodeids@ =~= batch_forget_nodeids(b@, nodeids@.len()));
    }
    assert(nodeids@.len() == (len - FUSE_BATCH_FORGET_IN_SIZE) / (FUSE_FORGET_ONE_SIZE as int));
    if nodeids.len() != batch_forget_in.count as usize {
        return Err(ParseError::Silent);
    }
    Ok(Operation::BatchForget { nodeids })
}

/// Decodes the body `b` of a request with a handled `opcode`; `force_readdir_plus`
/// tells whether plain readdir is turned off.
pub fn parse_operation(opcode: u32, b: &[u8], force_readdir_plus: bool) -> (r: Result<
    Operation,
    ParseError,
>)
    requires
        known_opcode(opcode),
    ensures
        parse_outcome(opcode, b@, force_readdir_plus, r),
{
    if opcode == FUSE_INIT {
        match FuseInitIn::decode(b) {
            Some(arg) => Ok(Operation::Init(arg)),
            None => Err(ParseError::InitFailed),
        }
    } else if opcode == FUSE_DESTROY {
        Ok(Operation::Destroy)
    } else if opcode == FUSE_READLINK {
        Ok(Operation::Readlink)
    } else if opcode == FUSE_STATFS {
        Ok(Operation::Statfs)
    } else if opcode == FUSE_FORGET {
        match FuseForgetIn::decode(b) {
            Some(arg) => Ok(Operation::Forget(arg)),
            None => Err(ParseError::Silent),
        }
    } else if opcode == FUSE_NOTIFY_REPLY {
        parse_notify_reply(b)
    } else if opcode == FUSE_BATCH_FORGET {
        parse_batch_forget(b)
    } else if opcode == FUSE_WRITE {
        parse_write(b)
    } else if opcode == FUSE_SETXATTR {
        parse_setxattr(b)
    } else if opcode == FUSE_READDIR {
        if force_readdir_plus {
            Err(ParseError::NotImplemented)
        } else {
            match FuseReadIn::decode(b) {
                Some(arg) => Ok(Operation::Readdir(arg)),
                None => Err(ParseError::Invalid),
            }
        }
    } else if opcode == FUSE_SETLK || opcode == FUSE_SETLKW {
        match FuseLkIn::decode(b) {
            Some(arg) => Ok(Operation::Setlk { arg, block: opcode == FUSE_SETLKW }),
            None => Err(ParseError::Invalid),
        }
    } else if opcode == FUSE_LOOKUP || opcode == FUSE_UNLINK || opcode == FUSE_RMDIR || opcode
        == FUSE_REMOVEXATTR || opcode == FUSE_SYMLINK || opcode == FUSE_MKNOD || opcode
        == FUSE_MKDIR || opcode == FUSE_RENAME || opcode == FUSE_LINK || opcode == FUSE_GETXATTR
        || opcode == FUSE_CREATE || opcode == FUSE_RENAME2 {
        parse_named(opcode, b)
    } else {
        parse_fixed(opcode, b)
    }
}


/// A request read from the kernel, decoded.
#[derive(Debug, Clone, PartialEq, Eq)]
pub enum Decoded {
    /// Too short to hold a header: skipped without an answer.
    Ignore,
    /// Refused: answered as `error` says, or dropped.
    Refused { request: Request, header: FuseInHeader, error: ParseError },
    /// Handed to the filesystem.
    Run { request: Request, header: FuseInHeader, op: Operation },
}

/// The body of the request in `data`: the bytes after the header, up to the
/// length the header gives.
pub open spec fn request_body(data: Seq<u8>) -> Seq<u8> {
    data.subrange(FUSE_IN_HEADER_SIZE as int, FuseInHeader::spec_decode(data).len as int)
}

/// The length a request header gives lies between the header's end and the
/// end of what was read, wherever the body is looked at (a header with an
/// unhandled opcode is answered without looking).
pub open spec fn request_len_fits(data: Seq<u8>) -> bool {
    let header = FuseInHeader::spec_decode(data);
    data.len() >= FUSE_IN_HEADER_SIZE && known_opcode(header.opcode) ==> FUSE_IN_HEADER_SIZE
        <= header.len <= data.len()
}

/// What the session does with a request read from the kernel; `force_readdir_plus`
/// tells whether plain readdir is turned off.
pub open spec fn spec_decoded(data: Seq<u8>, force_readdir_plus: bool, r: Decoded) -> bool {
    let header = FuseInHeader::spec_decode(data);
    match r {
        Decoded::Ignore => data.len() < FUSE_IN_HEADER_SIZE,
        Decoded::Refused { request, header: h, error } => {
            &&& data.len() >= FUSE_IN_HEADER_SIZE
            &&& h == header
            &&& request == Request::spec_from_header(header)
            &&& if known_opcode(header.opcode) {
                parse_outcome(header.opcode, request_body(data), force_readdir_plus, Err(error))
            } else {
                error == ParseError::Unknown
            }
        },
        Decoded::Run { request, header: h, op } => {
            &&& data.len() >= FUSE_IN_HEADER_SIZE
            &&& h == header
            &&& request == Request::spec_from_header(header)
            &&& known_opcode(header.opcode)
            &&& parse_outcome(header.opcode, request_body(data), force_readdir_plus, Ok(op))
        },
    }
}

/// Decodes a request read from the kernel into `data`.
pub fn decode_request(data: &[u8], force_readdir_plus: bool) -> (r: Decoded)
    requires
        request_len_fits(data@),
    ensures
        spec_decoded(data@, force_readdir_plus, r),
{
    let in_header = match FuseInHeader::decode(data) {
        None => return Decoded::Ignore,
        Some(in_header) => in_header,
    };
    let request = Request::from_header(&in_header);
    if !is_known_opcode(in_header.opcode) {
        return Decoded::Refused { request, header: in_header, error: ParseError::Unknown };
    }
    let body = vstd::slice::slice_subrange(data, FUSE_IN_HEADER_SIZE, in_header.len as usize);
    match parse_operation(in_header.opcode, body, force_readdir_plus) {
        Ok(op) => Decoded::Run { request, header: in_header, op },
        Err(error) => Decoded::Refused { request, header: in_header, error },
    }
}

/// The error field of the answer to a refused request, or nothing for a request
/// that gets no answer: the negated errno, except for a malformed `INIT`, whose
/// answer carries `EINVAL` as it is (not negated).
pub open spec fn spec_refusal_error(error: ParseError) -> Option<i32> {
    match error {
        ParseError::InitFailed => Some(EINVAL),
        _ => match error.spec_reply_errno() {
            Some(e) => Some((-e) as i32),
            None => None,
        },
    }
}

/// The answer to a refused request: a bare header carrying the error field
/// [`spec_refusal_error`] calls for, or nothing for a request that gets no answer.
pub fn refusal_reply(unique: u64, error: ParseError) -> (r: Option<Vec<u8>>)
    ensures
        match spec_refusal_error(error) {
            Some(e) => r matches Some(bytes) && bytes@ == spec_reply(unique, e, Seq::empty()),
            None => r is None,
        },
{
    let field = match error {
        ParseError::InitFailed => Some(EINVAL),
        _ => match error.reply_errno() {
            Some(e) => Some(-e),
            None => None,
        },
    };
    match field {
        Some(e) => {
            let r = start_reply(unique, e, 0);
            assert(r@ =~= spec_reply(unique, e, Seq::empty()));
            Some(r)
        },
        None => None,
    }
}

/// Whether a failed read of the kernel device ends the session cleanly (the
/// filesystem is told to clean up): it does when the device is gone
/// (`ENODEV`, the filesystem was unmounted); any other failure is an error.
pub fn read_error_unmounted(errno: Option<i32>) -> (r: bool)
    ensures
        r == (errno == Some(ENODEV)),
{
    match errno {
        Some(e) => e == ENODEV,
        None => false,
    }
}

/// Whether a failed write of a reply is passed over: it is when the request
/// it answers no longer exists (`ENOENT`, the request was interrupted); any
/// other failure ends the session.
pub fn write_error_ignored(errno: Option<i32>) -> (r: bool)
    ensures
        r == (errno == Some(ENOENT)),
{
    match errno {
        Some(e) => e == ENOENT,
        None => false,
    }
}

/// Whether the session ends once `op` has been handed to the filesystem: only
/// after `DESTROY`; every other request, a forget of the root included, is
/// handed on and the session goes on reading.
pub fn ends_session(op: &Operation) -> (r: bool)
    ensures
        r == (op is Destroy),
{
    match op {
        Operation::Destroy => true,
        _ => false,
    }
}

/// The file handle a getattr names: present only when the kernel flags it.
pub fn getattr_fh(arg: &FuseGetattrIn) -> (r: Option<u64>)
    ensures
        r == (if arg.getattr_flags & FUSE_GETATTR_FH > 0 { Some(arg.fh) } else { None }),
{
    if arg.getattr_flags & FUSE_GETATTR_FH > 0 { Some(arg.fh) } else { None }
}

/// The file handle a setattr names: present only when its valid mask holds `FATTR_FH`.
pub fn setattr_fh(arg: &FuseSetattrIn) -> (r: Option<u64>)
    ensures
        r == (if arg.valid & FATTR_FH > 0 { Some(arg.fh) } else { None }),
{
    if arg.valid & FATTR_FH > 0 { Some(arg.fh) } else { None }
}

/// Whether a release asks for a flush as well.
pub fn release_flush(arg: &FuseReleaseIn) -> (r: bool)
    ensures
        r == (arg.release_flags & FUSE_RELEASE_FLUSH > 0),
{
    arg.release_flags & FUSE_RELEASE_FLUSH > 0
}

/// Whether an fsync asks for the data only (the lowest bit of its flags).
pub fn fsync_data_sync(arg: &FuseFsyncIn) -> (r: bool)
    ensures
        r == (arg.fsync_flags & 1 > 0),
{
    arg.fsync_flags & 1 > 0
}

/// The poll handle to wake later: present only when the kernel asks to be notified.
pub fn poll_kh(arg: &FusePollIn) -> (r: Option<u64>)
    ensures
        r == (if arg.flags & FUSE_POLL_SCHEDULE_NOTIFY > 0 { Some(arg.kh) } else { None }),
{
    if arg.flags & FUSE_POLL_SCHEDULE_NOTIFY > 0 { Some(arg.kh) } else { None }
}

/// A request whose opcode the library does not handle is refused, and the
/// refusal is answered with `ENOSYS` under the request's own id.
pub proof fn lemma_unknown_opcode_refused(data: Seq<u8>, force_readdir_plus: bool, d: Decoded)
    requires
        spec_decoded(data, force_readdir_plus, d),
        data.len() >= FUSE_IN_HEADER_SIZE,
        !known_opcode(FuseInHeader::spec_decode(data).opcode),
    ensures
        d matches Decoded::Refused { request, error, .. } && error.spec_reply_errno() == Some(ENOSYS)
            && request.unique == FuseInHeader::spec_decode(data).unique,
{
}

/// Every reply starts with a header whose length field is the reply's length
/// (as 32 bits) and whose request id is the one answered.
pub proof fn lemma_reply_header(unique: u64, error: i32, body: Seq<u8>)
    ensures
        spec_reply(unique, error, body).len() == FUSE_OUT_HEADER_SIZE + body.len(),
        u32_at(spec_reply(unique, error, body), 0) == (spec_reply(unique, error, body).len()) as u32,
        u32_at(spec_reply(unique, error, body), 4) == error as u32,
        u64_at(spec_reply(unique, error, body), 8) == unique,
        spec_reply(unique, error, body).subrange(FUSE_OUT_HEADER_SIZE as int, spec_reply(unique, error, body).len() as int) == body,
{
    lemma_le_roundtrip();
    let h = FuseOutHeader { len: (FUSE_OUT_HEADER_SIZE + body.len()) as u32, error, unique };
    h.lemma_encode_len();
    let r = spec_reply(unique, error, body);
    let l = crate::wire::le32(h.len);
    let e = crate::wire::le_i32(error);
    let u = crate::wire::le64(unique);
    assert(h.spec_encode() == l + e + u);
    assert(u32_at(l, 0) == h.len);
    assert(u64_at(u, 0) == unique);
    assert(l.subrange(0, 4) =~= l);
    assert(u.subrange(0, 8) =~= u);
    assert(r.subrange(0, 4) =~= l);
    assert(r.subrange(8, 16) =~= u);
    assert(r.subrange(16, r.len() as int) =~= body);
    assert(r.subrange(4, 8) =~= le32(error as u32));
    lemma_u32_at_le(r, 4, error as u32);
}

/// The error field of a reply to an operation that returns nothing is zero
/// on success and the negated errno on failure.
pub proof fn lemma_status_error(result: crate::Result<()>)
    requires
        result matches Err(err) ==> err.0 != i32::MIN,
    ensures
        result is Ok ==> spec_status(result) == 0,
        result matches Err(err) ==> spec_status(result) == -err.0,
{
}

} // verus!
