//! The messages of the kernel protocol (protocol version 7.31) and their byte
//! layout: each request part is decoded from the bytes the kernel sends, each
//! reply part is encoded into the bytes the kernel reads.

use crate::wire::{le16, le32, le64, le_i32, le_i64, put_i32, put_i64, put_u16, put_u32, put_u64, read_u32_at, read_u64_at, u32_at, u64_at, lemma_le_roundtrip, lemma_u32_at_le, lemma_u64_at_le};
use vstd::prelude::*;

verus! {

/// Major version of the kernel protocol this library speaks.
pub const FUSE_KERNEL_VERSION: u32 = 7;
/// Minor version of the kernel protocol this library speaks.
pub const FUSE_KERNEL_MINOR_VERSION: u32 = 31;
/// The inode of the filesystem root.
pub const FUSE_ROOT_ID: u64 = 1;

/// `max_background` announced in the `INIT` reply.
pub const DEFAULT_MAX_BACKGROUND: u16 = 12;
/// `congestion_threshold` announced in the `INIT` reply.
pub const DEFAULT_CONGESTION_THRESHOLD: u16 = 10;
/// Largest write the kernel may send in one request.
pub const MAX_WRITE_SIZE: usize = 16384;
/// `time_gran` announced in the `INIT` reply.
pub const DEFAULT_TIME_GRAN: u32 = 1;
/// `max_pages` announced in the `INIT` reply.
pub const DEFAULT_MAX_PAGES: u16 = 256;
/// `map_alignment` announced in the `INIT` reply.
pub const DEFAULT_MAP_ALIGNMENT: u16 = 0;
/// Size of the buffer one request is read into.
pub const BUFFER_SIZE: usize = 20480;

// `INIT` capability flags.
pub const FUSE_ASYNC_READ: u32 = 1;
pub const FUSE_POSIX_LOCKS: u32 = 2;
pub const FUSE_FILE_OPS: u32 = 4;
pub const FUSE_ATOMIC_O_TRUNC: u32 = 8;
pub const FUSE_EXPORT_SUPPORT: u32 = 16;
pub const FUSE_BIG_WRITES: u32 = 32;
pub const FUSE_DONT_MASK: u32 = 64;
pub const FUSE_SPLICE_WRITE: u32 = 128;
pub const FUSE_SPLICE_MOVE: u32 = 256;
pub const FUSE_SPLICE_READ: u32 = 512;
pub const FUSE_FLOCK_LOCKS: u32 = 1024;
pub const FUSE_HAS_IOCTL_DIR: u32 = 2048;
pub const FUSE_AUTO_INVAL_DATA: u32 = 4096;
pub const FUSE_DO_READDIRPLUS: u32 = 8192;
pub const FUSE_READDIRPLUS_AUTO: u32 = 16384;
pub const FUSE_ASYNC_DIO: u32 = 32768;
pub const FUSE_WRITEBACK_CACHE: u32 = 65536;
pub const FUSE_NO_OPEN_SUPPORT: u32 = 131072;
pub const FUSE_PARALLEL_DIROPS: u32 = 262144;
pub const FUSE_HANDLE_KILLPRIV: u32 = 524288;
pub const FUSE_POSIX_ACL: u32 = 1048576;
pub const FUSE_ABORT_ERROR: u32 = 2097152;
pub const FUSE_MAX_PAGES: u32 = 4194304;
pub const FUSE_CACHE_SYMLINKS: u32 = 8388608;
pub const FUSE_NO_OPENDIR_SUPPORT: u32 = 16777216;

// `SETATTR` valid bits.
pub const FATTR_MODE: u32 = 1;
pub const FATTR_UID: u32 = 2;
pub const FATTR_GID: u32 = 4;
pub const FATTR_SIZE: u32 = 8;
pub const FATTR_ATIME: u32 = 16;
pub const FATTR_MTIME: u32 = 32;
pub const FATTR_FH: u32 = 64;
pub const FATTR_ATIME_NOW: u32 = 128;
pub const FATTR_MTIME_NOW: u32 = 256;
pub const FATTR_LOCKOWNER: u32 = 512;
pub const FATTR_CTIME: u32 = 1024;

/// `GETATTR` flag: the file handle field is valid.
pub const FUSE_GETATTR_FH: u32 = 1;
/// `RELEASE` flag: flush before releasing.
pub const FUSE_RELEASE_FLUSH: u32 = 1;
/// `POLL` flag: the kernel wants a wakeup notification.
pub const FUSE_POLL_SCHEDULE_NOTIFY: u32 = 1;

// Request opcodes.
pub const FUSE_LOOKUP: u32 = 1;
pub const FUSE_FORGET: u32 = 2;
pub const FUSE_GETATTR: u32 = 3;
pub const FUSE_SETATTR: u32 = 4;
pub const FUSE_READLINK: u32 = 5;
pub const FUSE_SYMLINK: u32 = 6;
pub const FUSE_MKNOD: u32 = 8;
pub const FUSE_MKDIR: u32 = 9;
pub const FUSE_UNLINK: u32 = 10;
pub const FUSE_RMDIR: u32 = 11;
pub const FUSE_RENAME: u32 = 12;
pub const FUSE_LINK: u32 = 13;
pub const FUSE_OPEN: u32 = 14;
pub const FUSE_READ: u32 = 15;
pub const FUSE_WRITE: u32 = 16;
pub const FUSE_STATFS: u32 = 17;
pub const FUSE_RELEASE: u32 = 18;
pub const FUSE_FSYNC: u32 = 20;
pub const FUSE_SETXATTR: u32 = 21;
pub const FUSE_GETXATTR: u32 = 22;
pub const FUSE_LISTXATTR: u32 = 23;
pub const FUSE_REMOVEXATTR: u32 = 24;
pub const FUSE_FLUSH: u32 = 25;
pub const FUSE_INIT: u32 = 26;
pub const FUSE_OPENDIR: u32 = 27;
pub const FUSE_READDIR: u32 = 28;
pub const FUSE_RELEASEDIR: u32 = 29;
pub const FUSE_FSYNCDIR: u32 = 30;
pub const FUSE_GETLK: u32 = 31;
pub const FUSE_SETLK: u32 = 32;
pub const FUSE_SETLKW: u32 = 33;
pub const FUSE_ACCESS: u32 = 34;
pub const FUSE_CREATE: u32 = 35;
pub const FUSE_INTERRUPT: u32 = 36;
pub const FUSE_BMAP: u32 = 37;
pub const FUSE_DESTROY: u32 = 38;
pub const FUSE_IOCTL: u32 = 39;
pub const FUSE_POLL: u32 = 40;
pub const FUSE_NOTIFY_REPLY: u32 = 41;
pub const FUSE_BATCH_FORGET: u32 = 42;
pub const FUSE_FALLOCATE: u32 = 43;
pub const FUSE_READDIRPLUS: u32 = 44;
pub const FUSE_RENAME2: u32 = 45;
pub const FUSE_LSEEK: u32 = 46;
pub const FUSE_COPY_FILE_RANGE: u32 = 47;

// Notification codes (sent in the `error` field of a notification header).
pub const FUSE_NOTIFY_POLL: i32 = 1;
pub const FUSE_NOTIFY_INVAL_INODE: i32 = 2;
pub const FUSE_NOTIFY_INVAL_ENTRY: i32 = 3;
pub const FUSE_NOTIFY_STORE: i32 = 4;
pub const FUSE_NOTIFY_RETRIEVE: i32 = 5;
pub const FUSE_NOTIFY_DELETE: i32 = 6;

/// Size in bytes of `fuse_in_header`.
pub const FUSE_IN_HEADER_SIZE: usize = 40;

/// The header that starts every request the kernel sends.
#[derive(Clone, Copy, Debug, PartialEq, Eq, Structural)]
pub struct FuseInHeader {
    pub len: u32,
    pub opcode: u32,
    pub unique: u64,
    pub nodeid: u64,
    pub uid: u32,
    pub gid: u32,
    pub pid: u32,
    pub padding: u32,
}

impl FuseInHeader {
    /// The value whose encoding starts `s`.
    pub open spec fn spec_decode(s: Seq<u8>) -> Self {
        FuseInHeader {
            len: u32_at(s, 0),
            opcode: u32_at(s, 4),
            unique: u64_at(s, 8),
            nodeid: u64_at(s, 16),
            uid: u32_at(s, 24),
            gid: u32_at(s, 28),
            pid: u32_at(s, 32),
            padding: u32_at(s, 36),
        }
    }

    /// Decodes the front of `data`; fails when `data` is shorter than the message.
    pub fn decode(data: &[u8]) -> (r: Option<Self>)
        ensures
            r is Some <==> data@.len() >= FUSE_IN_HEADER_SIZE,
            r matches Some(v) ==> v == Self::spec_decode(data@),
    {
        if data.len() < FUSE_IN_HEADER_SIZE {
            return None;
        }
        Some(FuseInHeader {
            len: read_u32_at(data, 0),
            opcode: read_u32_at(data, 4),
            unique: read_u64_at(data, 8),
            nodeid: read_u64_at(data, 16),
            uid: read_u32_at(data, 24),
            gid: read_u32_at(data, 28),
            pid: read_u32_at(data, 32),
            padding: read_u32_at(data, 36),
        })
    }
}

/// Size in bytes of `fuse_init_in`.
pub const FUSE_INIT_IN_SIZE: usize = 16;

/// The body of an `INIT` request.
#[derive(Clone, Copy, Debug, PartialEq, Eq, Structural)]
pub struct FuseInitIn {
    pub major: u32,
    pub minor: u32,
    pub max_readahead: u32,
    pub flags: u32,
}

impl FuseInitIn {
    /// The value whose encoding starts `s`.
    pub open spec fn spec_decode(s: Seq<u8>) -> Self {
        FuseInitIn {
            major: u32_at(s, 0),
            minor: u32_at(s, 4),
            max_readahead: u32_at(s, 8),
            flags: u32_at(s, 12),
        }
    }

    /// Decodes the front of `data`; fails when `data` is shorter than the message.
    pub fn decode(data: &[u8]) -> (r: Option<Self>)
        ensures
            r is Some <==> data@.len() >= FUSE_INIT_IN_SIZE,
            r matches Some(v) ==> v == Self::spec_decode(data@),
    {
        if data.len() < FUSE_INIT_IN_SIZE {
            return None;
        }
        Some(FuseInitIn {
            major: read_u32_at(data, 0),
            minor: read_u32_at(data, 4),
            max_readahead: read_u32_at(data, 8),
            flags: read_u32_at(data, 12),
        })
    }
}

/// Size in bytes of `fuse_forget_in`.
pub const FUSE_FORGET_IN_SIZE: usize = 8;

/// The body of a `FORGET` request.
#[derive(Clone, Copy, Debug, PartialEq, Eq, Structural)]
pub struct FuseForgetIn {
    pub nlookup: u64,
}

impl FuseForgetIn {
    /// The value whose encoding starts `s`.
    pub open spec fn spec_decode(s: Seq<u8>) -> Self {
        FuseForgetIn {
            nlookup: u64_at(s, 0),
        }
    }

    /// Decodes the front of `data`; fails when `data` is shorter than the message.
    pub fn decode(data: &[u8]) -> (r: Option<Self>)
        ensures
            r is Some <==> data@.len() >= FUSE_FORGET_IN_SIZE,
            r matches Some(v) ==> v == Self::spec_decode(data@),
    {
        if data.len() < FUSE_FORGET_IN_SIZE {
            return None;
        }
        Some(FuseForgetIn {
            nlookup: read_u64_at(data, 0),
        })
    }
}

/// Size in bytes of `fuse_getattr_in`.
pub const FUSE_GETATTR_IN_SIZE: usize = 16;

/// The body of a `GETATTR` request.
#[derive(Clone, Copy, Debug, PartialEq, Eq, Structural)]
pub struct FuseGetattrIn {
    pub getattr_flags: u32,
    pub dummy: u32,
    pub fh: u64,
}

impl FuseGetattrIn {
    /// The value whose encoding starts `s`.
    pub open spec fn spec_decode(s: Seq<u8>) -> Self {
        FuseGetattrIn {
            getattr_flags: u32_at(s, 0),
            dummy: u32_at(s, 4),
            fh: u64_at(s, 8),
        }
    }

    /// Decodes the front of `data`; fails when `data` is shorter than the message.
    pub fn decode(data: &[u8]) -> (r: Option<Self>)
        ensures
            r is Some <==> data@.len() >= FUSE_GETATTR_IN_SIZE,
            r matches Some(v) ==> v == Self::spec_decode(data@),
    {
        if data.len() < FUSE_GETATTR_IN_SIZE {
            return None;
        }
        Some(FuseGetattrIn {
            getattr_flags: read_u32_at(data, 0),
            dummy: read_u32_at(data, 4),
            fh: read_u64_at(data, 8),
        })
    }
}

/// Size in bytes of `fuse_setattr_in`.
pub const FUSE_SETATTR_IN_SIZE: usize = 88;

/// The body of a `SETATTR` request.
#[derive(Clone, Copy, Debug, PartialEq, Eq, Structural)]
pub struct FuseSetattrIn {
    pub valid: u32,
    pub padding: u32,
    pub fh: u64,
    pub size: u64,
    pub lock_owner: u64,
    pub atime: u64,
    pub mtime: u64,
    pub ctime: u64,
    pub atimensec: u32,
    pub mtimensec: u32,
    pub ctimensec: u32,
    pub mode: u32,
    pub unused4: u32,
    pub uid: u32,
    pub gid: u32,
    pub unused5: u32,
}

impl FuseSetattrIn {
    /// The value whose encoding starts `s`.
    pub open spec fn spec_decode(s: Seq<u8>) -> Self {
        FuseSetattrIn {
            valid: u32_at(s, 0),
            padding: u32_at(s, 4),
            fh: u64_at(s, 8),
            size: u64_at(s, 16),
            lock_owner: u64_at(s, 24),
            atime: u64_at(s, 32),
            mtime: u64_at(s, 40),
            ctime: u64_at(s, 48),
            atimensec: u32_at(s, 56),
            mtimensec: u32_at(s, 60),
            ctimensec: u32_at(s, 64),
            mode: u32_at(s, 68),
            unused4: u32_at(s, 72),
            uid: u32_at(s, 76),
            gid: u32_at(s, 80),
            unused5: u32_at(s, 84),
        }
    }

    /// Decodes the front of `data`; fails when `data` is shorter than the message.
    pub fn decode(data: &[u8]) -> (r: Option<Self>)
        ensures
            r is Some <==> data@.len() >= FUSE_SETATTR_IN_SIZE,
            r matches Some(v) ==> v == Self::spec_decode(data@),
    {
        if data.len() < FUSE_SETATTR_IN_SIZE {
            return None;
        }
        Some(FuseSetattrIn {
            valid: read_u32_at(data, 0),
            padding: read_u32_at(data, 4),
            fh: read_u64_at(data, 8),
            size: read_u64_at(data, 16),
            lock_owner: read_u64_at(data, 24),
            atime: read_u64_at(data, 32),
            mtime: read_u64_at(data, 40),
            ctime: read_u64_at(data, 48),
            atimensec: read_u32_at(data, 56),
            mtimensec: read_u32_at(data, 60),
            ctimensec: read_u32_at(data, 64),
            mode: read_u32_at(data, 68),
            unused4: read_u32_at(data, 72),
            uid: read_u32_at(data, 76),
            gid: read_u32_at(data, 80),
            unused5: read_u32_at(data, 84),
        })
    }
}

/// Size in bytes of `fuse_mknod_in`.
pub const FUSE_MKNOD_IN_SIZE: usize = 16;

/// The fixed part of a `MKNOD` request.
#[derive(Clone, Copy, Debug, PartialEq, Eq, Structural)]
pub struct FuseMknodIn {
    pub mode: u32,
    pub rdev: u32,
    pub umask: u32,
    pub padding: u32,
}

impl FuseMknodIn {
    /// The value whose encoding starts `s`.
    pub open spec fn spec_decode(s: Seq<u8>) -> Self {
        FuseMknodIn {
            mode: u32_at(s, 0),
            rdev: u32_at(s, 4),
            umask: u32_at(s, 8),
            padding: u32_at(s, 12),
        }
    }

    /// Decodes the front of `data`; fails when `data` is shorter than the message.
    pub fn decode(data: &[u8]) -> (r: Option<Self>)
        ensures
            r is Some <==> data@.len() >= FUSE_MKNOD_IN_SIZE,
            r matches Some(v) ==> v == Self::spec_decode(data@),
    {
        if data.len() < FUSE_MKNOD_IN_SIZE {
            return None;
        }
        Some(FuseMknodIn {
            mode: read_u32_at(data, 0),
            rdev: read_u32_at(data, 4),
            umask: read_u32_at(data, 8),
            padding: read_u32_at(data, 12),
        })
    }
}

/// Size in bytes of `fuse_mkdir_in`.
pub const FUSE_MKDIR_IN_SIZE: usize = 8;

/// The fixed part of a `MKDIR` request.
#[derive(Clone, Copy, Debug, PartialEq, Eq, Structural)]
pub struct FuseMkdirIn {
    pub mode: u32,
    pub umask: u32,
}

impl FuseMkdirIn {
    /// The value whose encoding starts `s`.
    pub open spec fn spec_decode(s: Seq<u8>) -> Self {
        FuseMkdirIn {
            mode: u32_at(s, 0),
            umask: u32_at(s, 4),
        }
    }

    /// Decodes the front of `data`; fails when `data` is shorter than the message.
    pub fn decode(data: &[u8]) -> (r: Option<Self>)
        ensures
            r is Some <==> data@.len() >= FUSE_MKDIR_IN_SIZE,
            r matches Some(v) ==> v == Self::spec_decode(data@),
    {
        if data.len() < FUSE_MKDIR_IN_SIZE {
            return None;
        }
        Some(FuseMkdirIn {
            mode: read_u32_at(data, 0),
            umask: read_u32_at(data, 4),
        })
    }
}

/// Size in bytes of `fuse_rename_in`.
pub const FUSE_RENAME_IN_SIZE: usize = 8;

/// The fixed part of a `RENAME` request.
#[derive(Clone, Copy, Debug, PartialEq, Eq, Structural)]
pub struct FuseRenameIn {
    pub newdir: u64,
}

impl FuseRenameIn {
    /// The value whose encoding starts `s`.
    pub open spec fn spec_decode(s: Seq<u8>) -> Self {
        FuseRenameIn {
            newdir: u64_at(s, 0),
        }
    }

    /// Decodes the front of `data`; fails when `data` is shorter than the message.
    pub fn decode(data: &[u8]) -> (r: Option<Self>)
        ensures
            r is Some <==> data@.len() >= FUSE_RENAME_IN_SIZE,
            r matches Some(v) ==> v == Self::spec_decode(data@),
    {
        if data.len() < FUSE_RENAME_IN_SIZE {
            return None;
        }
        Some(FuseRenameIn {
            newdir: read_u64_at(data, 0),
        })
    }
}

/// Size in bytes of `fuse_rename2_in`.
pub const FUSE_RENAME2_IN_SIZE: usize = 16;

/// The fixed part of a `RENAME2` request.
#[derive(Clone, Copy, Debug, PartialEq, Eq, Structural)]
pub struct FuseRename2In {
    pub newdir: u64,
    pub flags: u32,
    pub padding: u32,
}

impl FuseRename2In {
    /// The value whose encoding starts `s`.
    pub open spec fn spec_decode(s: Seq<u8>) -> Self {
        FuseRename2In {
            newdir: u64_at(s, 0),
            flags: u32_at(s, 8),
            padding: u32_at(s, 12),
        }
    }

    /// Decodes the front of `data`; fails when `data` is shorter than the message.
    pub fn decode(data: &[u8]) -> (r: Option<Self>)
        ensures
            r is Some <==> data@.len() >= FUSE_RENAME2_IN_SIZE,
            r matches Some(v) ==> v == Self::spec_decode(data@),
    {
        if data.len() < FUSE_RENAME2_IN_SIZE {
            return None;
        }
        Some(FuseRename2In {
            newdir: read_u64_at(data, 0),
            flags: read_u32_at(data, 8),
            padding: read_u32_at(data, 12),
        })
    }
}

/// Size in bytes of `fuse_link_in`.
pub const FUSE_LINK_IN_SIZE: usize = 8;

/// The fixed part of a `LINK` request.
#[derive(Clone, Copy, Debug, PartialEq, Eq, Structural)]
pub struct FuseLinkIn {
    pub oldnodeid: u64,
}

impl FuseLinkIn {
    /// The value whose encoding starts `s`.
    pub open spec fn spec_decode(s: Seq<u8>) -> Self {
        FuseLinkIn {
            oldnodeid: u64_at(s, 0),
        }
    }

    /// Decodes the front of `data`; fails when `data` is shorter than the message.
    pub fn decode(data: &[u8]) -> (r: Option<Self>)
        ensures
            r is Some <==> data@.len() >= FUSE_LINK_IN_SIZE,
            r matches Some(v) ==> v == Self::spec_decode(data@),
    {
        if data.len() < FUSE_LINK_IN_SIZE {
            return None;
        }
        Some(FuseLinkIn {
            oldnodeid: read_u64_at(data, 0),
        })
    }
}

/// Size in bytes of `fuse_open_in`.
pub const FUSE_OPEN_IN_SIZE: usize = 8;

/// The body of an `OPEN` or `OPENDIR` request.
#[derive(Clone, Copy, Debug, PartialEq, Eq, Structural)]
pub struct FuseOpenIn {
    pub flags: u32,
    pub unused: u32,
}

impl FuseOpenIn {
    /// The value whose encoding starts `s`.
    pub open spec fn spec_decode(s: Seq<u8>) -> Self {
        FuseOpenIn {
            flags: u32_at(s, 0),
            unused: u32_at(s, 4),
        }
    }

    /// Decodes the front of `data`; fails when `data` is shorter than the message.
    pub fn decode(data: &[u8]) -> (r: Option<Self>)
        ensures
            r is Some <==> data@.len() >= FUSE_OPEN_IN_SIZE,
            r matches Some(v) ==> v == Self::spec_decode(data@),
    {
        if data.len() < FUSE_OPEN_IN_SIZE {
            return None;
        }
        Some(FuseOpenIn {
            flags: read_u32_at(data, 0),
            unused: read_u32_at(data, 4),
        })
    }
}

/// Size in bytes of `fuse_read_in`.
pub const FUSE_READ_IN_SIZE: usize = 40;

/// The body of a `READ`, `READDIR` or `READDIRPLUS` request.
#[derive(Clone, Copy, Debug, PartialEq, Eq, Structural)]
pub struct FuseReadIn {
    pub fh: u64,
    pub offset: u64,
    pub size: u32,
    pub read_flags: u32,
    pub lock_owner: u64,
    pub flags: u32,
    pub padding: u32,
}

impl FuseReadIn {
    /// The value whose encoding starts `s`.
    pub open spec fn spec_decode(s: Seq<u8>) -> Self {
        FuseReadIn {
            fh: u64_at(s, 0),
            offset: u64_at(s, 8),
            size: u32_at(s, 16),
            read_flags: u32_at(s, 20),
            lock_owner: u64_at(s, 24),
            flags: u32_at(s, 32),
            padding: u32_at(s, 36),
        }
    }

    /// Decodes the front of `data`; fails when `data` is shorter than the message.
    pub fn decode(data: &[u8]) -> (r: Option<Self>)
        ensures
            r is Some <==> data@.len() >= FUSE_READ_IN_SIZE,
            r matches Some(v) ==> v == Self::spec_decode(data@),
    {
        if data.len() < FUSE_READ_IN_SIZE {
            return None;
        }
        Some(FuseReadIn {
            fh: read_u64_at(data, 0),
            offset: read_u64_at(data, 8),
            size: read_u32_at(data, 16),
            read_flags: read_u32_at(data, 20),
            lock_owner: read_u64_at(data, 24),
            flags: read_u32_at(data, 32),
            padding: read_u32_at(data, 36),
        })
    }
}

/// Size in bytes of `fuse_write_in`.
pub const FUSE_WRITE_IN_SIZE: usize = 40;

/// The fixed part of a `WRITE` request.
#[derive(Clone, Copy, Debug, PartialEq, Eq, Structural)]
pub struct FuseWriteIn {
    pub fh: u64,
    pub offset: u64,
    pub size: u32,
    pub write_flags: u32,
    pub lock_owner: u64,
    pub flags: u32,
    pub padding: u32,
}

impl FuseWriteIn {
    /// The value whose encoding starts `s`.
    pub open spec fn spec_decode(s: Seq<u8>) -> Self {
        FuseWriteIn {
            fh: u64_at(s, 0),
            offset: u64_at(s, 8),
            size: u32_at(s, 16),
            write_flags: u32_at(s, 20),
            lock_owner: u64_at(s, 24),
            flags: u32_at(s, 32),
            padding: u32_at(s, 36),
        }
    }

    /// Decodes the front of `data`; fails when `data` is shorter than the message.
    pub fn decode(data: &[u8]) -> (r: Option<Self>)
        ensures
            r is Some <==> data@.len() >= FUSE_WRITE_IN_SIZE,
            r matches Some(v) ==> v == Self::spec_decode(data@),
    {
        if data.len() < FUSE_WRITE_IN_SIZE {
            return None;
        }
        Some(FuseWriteIn {
            fh: read_u64_at(data, 0),
            offset: read_u64_at(data, 8),
            size: read_u32_at(data, 16),
            write_flags: read_u32_at(data, 20),
            lock_owner: read_u64_at(data, 24),
            flags: read_u32_at(data, 32),
            padding: read_u32_at(data, 36),
        })
    }
}

/// Size in bytes of `fuse_release_in`.
pub const FUSE_RELEASE_IN_SIZE: usize = 24;

/// The body of a `RELEASE` or `RELEASEDIR` request.
#[derive(Clone, Copy, Debug, PartialEq, Eq, Structural)]
pub struct FuseReleaseIn {
    pub fh: u64,
    pub flags: u32,
    pub release_flags: u32,
    pub lock_owner: u64,
}

impl FuseReleaseIn {
    /// The value whose encoding starts `s`.
    pub open spec fn spec_decode(s: Seq<u8>) -> Self {
        FuseReleaseIn {
            fh: u64_at(s, 0),
            flags: u32_at(s, 8),
            release_flags: u32_at(s, 12),
            lock_owner: u64_at(s, 16),
        }
    }

    /// Decodes the front of `data`; fails when `data` is shorter than the message.
    pub fn decode(data: &[u8]) -> (r: Option<Self>)
        ensures
            r is Some <==> data@.len() >= FUSE_RELEASE_IN_SIZE,
            r matches Some(v) ==> v == Self::spec_decode(data@),
    {
        if data.len() < FUSE_RELEASE_IN_SIZE {
            return None;
        }
        Some(FuseReleaseIn {
            fh: read_u64_at(data, 0),
            flags: read_u32_at(data, 8),
            release_flags: read_u32_at(data, 12),
            lock_owner: read_u64_at(data, 16),
        })
    }
}

/// Size in bytes of `fuse_flush_in`.
pub const FUSE_FLUSH_IN_SIZE: usize = 24;

/// The body of a `FLUSH` request.
#[derive(Clone, Copy, Debug, PartialEq, Eq, Structural)]
pub struct FuseFlushIn {
    pub fh: u64,
    pub unused: u32,
    pub padding: u32,
    pub lock_owner: u64,
}

impl FuseFlushIn {
    /// The value whose encoding starts `s`.
    pub open spec fn spec_decode(s: Seq<u8>) -> Self {
        FuseFlushIn {
            fh: u64_at(s, 0),
            unused: u32_at(s, 8),
            padding: u32_at(s, 12),
            lock_owner: u64_at(s, 16),
        }
    }

    /// Decodes the front of `data`; fails when `data` is shorter than the message.
    pub fn decode(data: &[u8]) -> (r: Option<Self>)
        ensures
            r is Some <==> data@.len() >= FUSE_FLUSH_IN_SIZE,
            r matches Some(v) ==> v == Self::spec_decode(data@),
    {
        if data.len() < FUSE_FLUSH_IN_SIZE {
            return None;
        }
        Some(FuseFlushIn {
            fh: read_u64_at(data, 0),
            unused: read_u32_at(data, 8),
            padding: read_u32_at(data, 12),
            lock_owner: read_u64_at(data, 16),
        })
    }
}

/// Size in bytes of `fuse_fsync_in`.
pub const FUSE_FSYNC_IN_SIZE: usize = 16;

/// The body of an `FSYNC` or `FSYNCDIR` request.
#[derive(Clone, Copy, Debug, PartialEq, Eq, Structural)]
pub struct FuseFsyncIn {
    pub fh: u64,
    pub fsync_flags: u32,
    pub padding: u32,
}

impl FuseFsyncIn {
    /// The value whose encoding starts `s`.
    pub open spec fn spec_decode(s: Seq<u8>) -> Self {
        FuseFsyncIn {
            fh: u64_at(s, 0),
            fsync_flags: u32_at(s, 8),
            padding: u32_at(s, 12),
        }
    }

    /// Decodes the front of `data`; fails when `data` is shorter than the message.
    pub fn decode(data: &[u8]) -> (r: Option<Self>)
        ensures
            r is Some <==> data@.len() >= FUSE_FSYNC_IN_SIZE,
            r matches Some(v) ==> v == Self::spec_decode(data@),
    {
        if data.len() < FUSE_FSYNC_IN_SIZE {
            return None;
        }
        Some(FuseFsyncIn {
            fh: read_u64_at(data, 0),
            fsync_flags: read_u32_at(data, 8),
            padding: read_u32_at(data, 12),
        })
    }
}

/// Size in bytes of `fuse_setxattr_in`.
pub const FUSE_SETXATTR_IN_SIZE: usize = 8;

/// The fixed part of a `SETXATTR` request.
#[derive(Clone, Copy, Debug, PartialEq, Eq, Structural)]
pub struct FuseSetxattrIn {
    pub size: u32,
    pub flags: u32,
}

impl FuseSetxattrIn {
    /// The value whose encoding starts `s`.
    pub open spec fn spec_decode(s: Seq<u8>) -> Self {
        FuseSetxattrIn {
            size: u32_at(s, 0),
            flags: u32_at(s, 4),
        }
    }

    /// Decodes the front of `data`; fails when `data` is shorter than the message.
    pub fn decode(data: &[u8]) -> (r: Option<Self>)
        ensures
            r is Some <==> data@.len() >= FUSE_SETXATTR_IN_SIZE,
            r matches Some(v) ==> v == Self::spec_decode(data@),
    {
        if data.len() < FUSE_SETXATTR_IN_SIZE {
            return None;
        }
        Some(FuseSetxattrIn {
            size: read_u32_at(data, 0),
            flags: read_u32_at(data, 4),
        })
    }
}

/// Size in bytes of `fuse_getxattr_in`.
pub const FUSE_GETXATTR_IN_SIZE: usize = 8;

/// The fixed part of a `GETXATTR` or `LISTXATTR` request.
#[derive(Clone, Copy, Debug, PartialEq, Eq, Structural)]
pub struct FuseGetxattrIn {
    pub size: u32,
    pub padding: u32,
}

impl FuseGetxattrIn {
    /// The value whose encoding starts `s`.
    pub open spec fn spec_decode(s: Seq<u8>) -> Self {
        FuseGetxattrIn {
            size: u32_at(s, 0),
            padding: u32_at(s, 4),
        }
    }

    /// Decodes the front of `data`; fails when `data` is shorter than the message.
    pub fn decode(data: &[u8]) -> (r: Option<Self>)
        ensures
            r is Some <==> data@.len() >= FUSE_GETXATTR_IN_SIZE,
            r matches Some(v) ==> v == Self::spec_decode(data@),
    {
        if data.len() < FUSE_GETXATTR_IN_SIZE {
            return None;
        }
        Some(FuseGetxattrIn {
            size: read_u32_at(data, 0),
            padding: read_u32_at(data, 4),
        })
    }
}

/// Size in bytes of `fuse_lk_in`.
pub const FUSE_LK_IN_SIZE: usize = 48;

/// The body of a `GETLK`, `SETLK` or `SETLKW` request.
#[derive(Clone, Copy, Debug, PartialEq, Eq, Structural)]
pub struct FuseLkIn {
    pub fh: u64,
    pub owner: u64,
    pub lk_start: u64,
    pub lk_end: u64,
    pub lk_type: u32,
    pub lk_pid: u32,
    pub lk_flags: u32,
    pub padding: u32,
}

impl FuseLkIn {
    /// The value whose encoding starts `s`.
    pub open spec fn spec_decode(s: Seq<u8>) -> Self {
        FuseLkIn {
            fh: u64_at(s, 0),
            owner: u64_at(s, 8),
            lk_start: u64_at(s, 16),
            lk_end: u64_at(s, 24),
            lk_type: u32_at(s, 32),
            lk_pid: u32_at(s, 36),
            lk_flags: u32_at(s, 40),
            padding: u32_at(s, 44),
        }
    }

    /// Decodes the front of `data`; fails when `data` is shorter than the message.
    pub fn decode(data: &[u8]) -> (r: Option<Self>)
        ensures
            r is Some <==> data@.len() >= FUSE_LK_IN_SIZE,
            r matches Some(v) ==> v == Self::spec_decode(data@),
    {
        if data.len() < FUSE_LK_IN_SIZE {
            return None;
        }
        Some(FuseLkIn {
            fh: read_u64_at(data, 0),
            owner: read_u64_at(data, 8),
            lk_start: read_u64_at(data, 16),
            lk_end: read_u64_at(data, 24),
            lk_type: read_u32_at(data, 32),
            lk_pid: read_u32_at(data, 36),
            lk_flags: read_u32_at(data, 40),
            padding: read_u32_at(data, 44),
        })
    }
}

/// Size in bytes of `fuse_access_in`.
pub const FUSE_ACCESS_IN_SIZE: usize = 8;

/// The body of an `ACCESS` request.
#[derive(Clone, Copy, Debug, PartialEq, Eq, Structural)]
pub struct FuseAccessIn {
    pub mask: u32,
    pub padding: u32,
}

impl FuseAccessIn {
    /// The value whose encoding starts `s`.
    pub open spec fn spec_decode(s: Seq<u8>) -> Self {
        FuseAccessIn {
            mask: u32_at(s, 0),
            padding: u32_at(s, 4),
        }
    }

    /// Decodes the front of `data`; fails when `data` is shorter than the message.
    pub fn decode(data: &[u8]) -> (r: Option<Self>)
        ensures
            r is Some <==> data@.len() >= FUSE_ACCESS_IN_SIZE,
            r matches Some(v) ==> v == Self::spec_decode(data@),
    {
        if data.len() < FUSE_ACCESS_IN_SIZE {
            return None;
        }
        Some(FuseAccessIn {
            mask: read_u32_at(data, 0),
            padding: read_u32_at(data, 4),
        })
    }
}

/// Size in bytes of `fuse_create_in`.
pub const FUSE_CREATE_IN_SIZE: usize = 16;

/// The fixed part of a `CREATE` request.
#[derive(Clone, Copy, Debug, PartialEq, Eq, Structural)]
pub struct FuseCreateIn {
    pub flags: u32,
    pub mode: u32,
    pub umask: u32,
    pub padding: u32,
}

impl FuseCreateIn {
    /// The value whose encoding starts `s`.
    pub open spec fn spec_decode(s: Seq<u8>) -> Self {
        FuseCreateIn {
            flags: u32_at(s, 0),
            mode: u32_at(s, 4),
            umask: u32_at(s, 8),
            padding: u32_at(s, 12),
        }
    }

    /// Decodes the front of `data`; fails when `data` is shorter than the message.
    pub fn decode(data: &[u8]) -> (r: Option<Self>)
        ensures
            r is Some <==> data@.len() >= FUSE_CREATE_IN_SIZE,
            r matches Some(v) ==> v == Self::spec_decode(data@),
    {
        if data.len() < FUSE_CREATE_IN_SIZE {
            return None;
        }
        Some(FuseCreateIn {
            flags: read_u32_at(data, 0),
            mode: read_u32_at(data, 4),
            umask: read_u32_at(data, 8),
            padding: read_u32_at(data, 12),
        })
    }
}

/// Size in bytes of `fuse_interrupt_in`.
pub const FUSE_INTERRUPT_IN_SIZE: usize = 8;

/// The body of an `INTERRUPT` request.
#[derive(Clone, Copy, Debug, PartialEq, Eq, Structural)]
pub struct FuseInterruptIn {
    pub unique: u64,
}

impl FuseInterruptIn {
    /// The value whose encoding starts `s`.
    pub open spec fn spec_decode(s: Seq<u8>) -> Self {
        FuseInterruptIn {
            unique: u64_at(s, 0),
        }
    }

    /// Decodes the front of `data`; fails when `data` is shorter than the message.
    pub fn decode(data: &[u8]) -> (r: Option<Self>)
        ensures
            r is Some <==> data@.len() >= FUSE_INTERRUPT_IN_SIZE,
            r matches Some(v) ==> v == Self::spec_decode(data@),
    {
        if data.len() < FUSE_INTERRUPT_IN_SIZE {
            return None;
        }
        Some(FuseInterruptIn {
            unique: read_u64_at(data, 0),
        })
    }
}

/// Size in bytes of `fuse_bmap_in`.
pub const FUSE_BMAP_IN_SIZE: usize = 16;

/// The body of a `BMAP` request.
#[derive(Clone, Copy, Debug, PartialEq, Eq, Structural)]
pub struct FuseBmapIn {
    pub block: u64,
    pub blocksize: u32,
    pub padding: u32,
}

impl FuseBmapIn {
    /// The value whose encoding starts `s`.
    pub open spec fn spec_decode(s: Seq<u8>) -> Self {
        FuseBmapIn {
            block: u64_at(s, 0),
            blocksize: u32_at(s, 8),
            padding: u32_at(s, 12),
        }
    }

    /// Decodes the front of `data`; fails when `data` is shorter than the message.
    pub fn decode(data: &[u8]) -> (r: Option<Self>)
        ensures
            r is Some <==> data@.len() >= FUSE_BMAP_IN_SIZE,
            r matches Some(v) ==> v == Self::spec_decode(data@),
    {
        if data.len() < FUSE_BMAP_IN_SIZE {
            return None;
        }
        Some(FuseBmapIn {
            block: read_u64_at(data, 0),
            blocksize: read_u32_at(data, 8),
            padding: read_u32_at(data, 12),
        })
    }
}

/// Size in bytes of `fuse_poll_in`.
pub const FUSE_POLL_IN_SIZE: usize = 24;

/// The body of a `POLL` request.
#[derive(Clone, Copy, Debug, PartialEq, Eq, Structural)]
pub struct FusePollIn {
    pub fh: u64,
    pub kh: u64,
    pub flags: u32,
    pub events: u32,
}

impl FusePollIn {
    /// The value whose encoding starts `s`.
    pub open spec fn spec_decode(s: Seq<u8>) -> Self {
        FusePollIn {
            fh: u64_at(s, 0),
            kh: u64_at(s, 8),
            flags: u32_at(s, 16),
            events: u32_at(s, 20),
        }
    }

    /// Decodes the front of `data`; fails when `data` is shorter than the message.
    pub fn decode(data: &[u8]) -> (r: Option<Self>)
        ensures
            r is Some <==> data@.len() >= FUSE_POLL_IN_SIZE,
            r matches Some(v) ==> v == Self::spec_decode(data@),
    {
        if data.len() < FUSE_POLL_IN_SIZE {
            return None;
        }
        Some(FusePollIn {
            fh: read_u64_at(data, 0),
            kh: read_u64_at(data, 8),
            flags: read_u32_at(data, 16),
            events: read_u32_at(data, 20),
        })
    }
}

/// Size in bytes of `fuse_notify_retrieve_in`.
pub const FUSE_NOTIFY_RETRIEVE_IN_SIZE: usize = 40;

/// The fixed part of a `NOTIFY_REPLY` request.
#[derive(Clone, Copy, Debug, PartialEq, Eq, Structural)]
pub struct FuseNotifyRetrieveIn {
    pub dummy1: u64,
    pub offset: u64,
    pub size: u32,
    pub dummy2: u32,
    pub dummy3: u64,
    pub dummy4: u64,
}

impl FuseNotifyRetrieveIn {
    /// The value whose encoding starts `s`.
    pub open spec fn spec_decode(s: Seq<u8>) -> Self {
        FuseNotifyRetrieveIn {
            dummy1: u64_at(s, 0),
            offset: u64_at(s, 8),
            size: u32_at(s, 16),
            dummy2: u32_at(s, 20),
            dummy3: u64_at(s, 24),
            dummy4: u64_at(s, 32),
        }
    }

    /// Decodes the front of `data`; fails when `data` is shorter than the message.
    pub fn decode(data: &[u8]) -> (r: Option<Self>)
        ensures
            r is Some <==> data@.len() >= FUSE_NOTIFY_RETRIEVE_IN_SIZE,
            r matches Some(v) ==> v == Self::spec_decode(data@),
    {
        if data.len() < FUSE_NOTIFY_RETRIEVE_IN_SIZE {
            return None;
        }
        Some(FuseNotifyRetrieveIn {
            dummy1: read_u64_at(data, 0),
            offset: read_u64_at(data, 8),
            size: read_u32_at(data, 16),
            dummy2: read_u32_at(data, 20),
            dummy3: read_u64_at(data, 24),
            dummy4: read_u64_at(data, 32),
        })
    }
}

/// Size in bytes of `fuse_batch_forget_in`.
pub const FUSE_BATCH_FORGET_IN_SIZE: usize = 8;

/// The fixed part of a `BATCH_FORGET` request.
#[derive(Clone, Copy, Debug, PartialEq, Eq, Structural)]
pub struct FuseBatchForgetIn {
    pub count: u32,
    pub dummy: u32,
}

impl FuseBatchForgetIn {
    /// The value whose encoding starts `s`.
    pub open spec fn spec_decode(s: Seq<u8>) -> Self {
        FuseBatchForgetIn {
            count: u32_at(s, 0),
            dummy: u32_at(s, 4),
        }
    }

    /// Decodes the front of `data`; fails when `data` is shorter than the message.
    pub fn decode(data: &[u8]) -> (r: Option<Self>)
        ensures
            r is Some <==> data@.len() >= FUSE_BATCH_FORGET_IN_SIZE,
            r matches Some(v) ==> v == Self::spec_decode(data@),
    {
        if data.len() < FUSE_BATCH_FORGET_IN_SIZE {
            return None;
        }
        Some(FuseBatchForgetIn {
            count: read_u32_at(data, 0),
            dummy: read_u32_at(data, 4),
        })
    }
}

/// Size in bytes of `fuse_forget_one`.
pub const FUSE_FORGET_ONE_SIZE: usize = 16;

/// One record of a `BATCH_FORGET` request.
#[derive(Clone, Copy, Debug, PartialEq, Eq, Structural)]
pub struct FuseForgetOne {
    pub nodeid: u64,
    pub nlookup: u64,
}

impl FuseForgetOne {
    /// The value whose encoding starts `s`.
    pub open spec fn spec_decode(s: Seq<u8>) -> Self {
        FuseForgetOne {
            nodeid: u64_at(s, 0),
            nlookup: u64_at(s, 8),
        }
    }

    /// Decodes the front of `data`; fails when `data` is shorter than the message.
    pub fn decode(data: &[u8]) -> (r: Option<Self>)
        ensures
            r is Some <==> data@.len() >= FUSE_FORGET_ONE_SIZE,
            r matches Some(v) ==> v == Self::spec_decode(data@),
    {
        if data.len() < FUSE_FORGET_ONE_SIZE {
            return None;
        }
        Some(FuseForgetOne {
            nodeid: read_u64_at(data, 0),
            nlookup: read_u64_at(data, 8),
        })
    }
}

/// Size in bytes of `fuse_fallocate_in`.
pub const FUSE_FALLOCATE_IN_SIZE: usize = 32;

/// The body of a `FALLOCATE` request.
#[derive(Clone, Copy, Debug, PartialEq, Eq, Structural)]
pub struct FuseFallocateIn {
    pub fh: u64,
    pub offset: u64,
    pub length: u64,
    pub mode: u32,
    pub padding: u32,
}

impl FuseFallocateIn {
    /// The value whose encoding starts `s`.
    pub open spec fn spec_decode(s: Seq<u8>) -> Self {
        FuseFallocateIn {
            fh: u64_at(s, 0),
            offset: u64_at(s, 8),
            length: u64_at(s, 16),
            mode: u32_at(s, 24),
            padding: u32_at(s, 28),
        }
    }

    /// Decodes the front of `data`; fails when `data` is shorter than the message.
    pub fn decode(data: &[u8]) -> (r: Option<Self>)
        ensures
            r is Some <==> data@.len() >= FUSE_FALLOCATE_IN_SIZE,
            r matches Some(v) ==> v == Self::spec_decode(data@),
    {
        if data.len() < FUSE_FALLOCATE_IN_SIZE {
            return None;
        }
        Some(FuseFallocateIn {
            fh: read_u64_at(data, 0),
            offset: read_u64_at(data, 8),
            length: read_u64_at(data, 16),
            mode: read_u32_at(data, 24),
            padding: read_u32_at(data, 28),
        })
    }
}

/// Size in bytes of `fuse_lseek_in`.
pub const FUSE_LSEEK_IN_SIZE: usize = 24;

/// The body of an `LSEEK` request.
#[derive(Clone, Copy, Debug, PartialEq, Eq, Structural)]
pub struct FuseLseekIn {
    pub fh: u64,
    pub offset: u64,
    pub whence: u32,
    pub padding: u32,
}

impl FuseLseekIn {
    /// The value whose encoding starts `s`.
    pub open spec fn spec_decode(s: Seq<u8>) -> Self {
        FuseLseekIn {
            fh: u64_at(s, 0),
            offset: u64_at(s, 8),
            whence: u32_at(s, 16),
            padding: u32_at(s, 20),
        }
    }

    /// Decodes the front of `data`; fails when `data` is shorter than the message.
    pub fn decode(data: &[u8]) -> (r: Option<Self>)
        ensures
            r is Some <==> data@.len() >= FUSE_LSEEK_IN_SIZE,
            r matches Some(v) ==> v == Self::spec_decode(data@),
    {
        if data.len() < FUSE_LSEEK_IN_SIZE {
            return None;
        }
        Some(FuseLseekIn {
            fh: read_u64_at(data, 0),
            offset: read_u64_at(data, 8),
            whence: read_u32_at(data, 16),
            padding: read_u32_at(data, 20),
        })
    }
}

/// Size in bytes of `fuse_copy_file_range_in`.
pub const FUSE_COPY_FILE_RANGE_IN_SIZE: usize = 56;

/// The body of a `COPY_FILE_RANGE` request.
#[derive(Clone, Copy, Debug, PartialEq, Eq, Structural)]
pub struct FuseCopyFileRangeIn {
    pub fh_in: u64,
    pub off_in: u64,
    pub nodeid_out: u64,
    pub fh_out: u64,
    pub off_out: u64,
    pub len: u64,
    pub flags: u64,
}

impl FuseCopyFileRangeIn {
    /// The value whose encoding starts `s`.
    pub open spec fn spec_decode(s: Seq<u8>) -> Self {
        FuseCopyFileRangeIn {
            fh_in: u64_at(s, 0),
            off_in: u64_at(s, 8),
            nodeid_out: u64_at(s, 16),
            fh_out: u64_at(s, 24),
            off_out: u64_at(s, 32),
            len: u64_at(s, 40),
            flags: u64_at(s, 48),
        }
    }

    /// Decodes the front of `data`; fails when `data` is shorter than the message.
    pub fn decode(data: &[u8]) -> (r: Option<Self>)
        ensures
            r is Some <==> data@.len() >= FUSE_COPY_FILE_RANGE_IN_SIZE,
            r matches Some(v) ==> v == Self::spec_decode(data@),
    {
        if data.len() < FUSE_COPY_FILE_RANGE_IN_SIZE {
            return None;
        }
        Some(FuseCopyFileRangeIn {
            fh_in: read_u64_at(data, 0),
            off_in: read_u64_at(data, 8),
            nodeid_out: read_u64_at(data, 16),
            fh_out: read_u64_at(data, 24),
            off_out: read_u64_at(data, 32),
            len: read_u64_at(data, 40),
            flags: read_u64_at(data, 48),
        })
    }
}

/// Size in bytes of `fuse_out_header`.
pub const FUSE_OUT_HEADER_SIZE: usize = 16;

/// The header that starts every reply and notification.
#[derive(Clone, Copy, Debug, PartialEq, Eq, Structural)]
pub struct FuseOutHeader {
    pub len: u32,
    pub error: i32,
    pub unique: u64,
}

impl FuseOutHeader {
    /// The bytes of this message.
    pub open spec fn spec_encode(self) -> Seq<u8> {
        le32(self.len)
            + le_i32(self.error)
            + le64(self.unique)
    }

    /// Appends the bytes of this message to `buf`.
    pub fn encode_into(&self, buf: &mut Vec<u8>)
        ensures
            final(buf)@ == old(buf)@ + self.spec_encode(),
    {
        let ghost start = buf@;
        put_u32(buf, self.len);
        put_i32(buf, self.error);
        put_u64(buf, self.unique);
        assert(buf@ =~= start + self.spec_encode());
    }

    /// The encoding is `FUSE_OUT_HEADER_SIZE` bytes long.
    pub proof fn lemma_encode_len(self)
        ensures
            self.spec_encode().len() == FUSE_OUT_HEADER_SIZE,
    {
        lemma_le_roundtrip();
    }
}

/// Size in bytes of `fuse_attr`.
pub const FUSE_ATTR_SIZE: usize = 88;

/// File attributes as the kernel reads them.
#[derive(Clone, Copy, Debug, PartialEq, Eq, Structural)]
pub struct FuseAttr {
    pub ino: u64,
    pub size: u64,
    pub blocks: u64,
    pub atime: u64,
    pub mtime: u64,
    pub ctime: u64,
    pub atimensec: u32,
    pub mtimensec: u32,
    pub ctimensec: u32,
    pub mode: u32,
    pub nlink: u32,
    pub uid: u32,
    pub gid: u32,
    pub rdev: u32,
    pub blksize: u32,
    pub padding: u32,
}

impl FuseAttr {
    /// The bytes of this message.
    pub open spec fn spec_encode(self) -> Seq<u8> {
        le64(self.ino)
            + le64(self.size)
            + le64(self.blocks)
            + le64(self.atime)
            + le64(self.mtime)
            + le64(self.ctime)
            + le32(self.atimensec)
            + le32(self.mtimensec)
            + le32(self.ctimensec)
            + le32(self.mode)
            + le32(self.nlink)
            + le32(self.uid)
            + le32(self.gid)
            + le32(self.rdev)
            + le32(self.blksize)
            + le32(self.padding)
    }

    /// Appends the bytes of this message to `buf`.
    pub fn encode_into(&self, buf: &mut Vec<u8>)
        ensures
            final(buf)@ == old(buf)@ + self.spec_encode(),
    {
        let ghost start = buf@;
        put_u64(buf, self.ino);
        put_u64(buf, self.size);
        put_u64(buf, self.blocks);
        put_u64(buf, self.atime);
        put_u64(buf, self.mtime);
        put_u64(buf, self.ctime);
        put_u32(buf, self.atimensec);
        put_u32(buf, self.mtimensec);
        put_u32(buf, self.ctimensec);
        put_u32(buf, self.mode);
        put_u32(buf, self.nlink);
        put_u32(buf, self.uid);
        put_u32(buf, self.gid);
        put_u32(buf, self.rdev);
        put_u32(buf, self.blksize);
        put_u32(buf, self.padding);
        assert(buf@ =~= start + self.spec_encode());
    }

    /// The encoding is `FUSE_ATTR_SIZE` bytes long.
    pub proof fn lemma_encode_len(self)
        ensures
            self.spec_encode().len() == FUSE_ATTR_SIZE,
    {
        lemma_le_roundtrip();
    }
}

/// Size in bytes of `fuse_entry_out`.
pub const FUSE_ENTRY_OUT_SIZE: usize = 128;

/// The body of an entry reply.
#[derive(Clone, Copy, Debug, PartialEq, Eq, Structural)]
pub struct FuseEntryOut {
    pub nodeid: u64,
    pub generation: u64,
    pub entry_valid: u64,
    pub attr_valid: u64,
    pub entry_valid_nsec: u32,
    pub attr_valid_nsec: u32,
    pub attr: FuseAttr,
}

impl FuseEntryOut {
    /// The bytes of this message.
    pub open spec fn spec_encode(self) -> Seq<u8> {
        le64(self.nodeid)
            + le64(self.generation)
            + le64(self.entry_valid)
            + le64(self.attr_valid)
            + le32(self.entry_valid_nsec)
            + le32(self.attr_valid_nsec)
            + self.attr.spec_encode()
    }

    /// Appends the bytes of this message to `buf`.
    pub fn encode_into(&self, buf: &mut Vec<u8>)
        ensures
            final(buf)@ == old(buf)@ + self.spec_encode(),
    {
        let ghost start = buf@;
        put_u64(buf, self.nodeid);
        put_u64(buf, self.generation);
        put_u64(buf, self.entry_valid);
        put_u64(buf, self.attr_valid);
        put_u32(buf, self.entry_valid_nsec);
        put_u32(buf, self.attr_valid_nsec);
        self.attr.encode_into(buf);
        assert(buf@ =~= start + self.spec_encode());
    }

    /// The encoding is `FUSE_ENTRY_OUT_SIZE` bytes long.
    pub proof fn lemma_encode_len(self)
        ensures
            self.spec_encode().len() == FUSE_ENTRY_OUT_SIZE,
    {
        lemma_le_roundtrip();
        self.attr.lemma_encode_len();
    }
}

/// Size in bytes of `fuse_attr_out`.
pub const FUSE_ATTR_OUT_SIZE: usize = 104;

/// The body of an attribute reply.
#[derive(Clone, Copy, Debug, PartialEq, Eq, Structural)]
pub struct FuseAttrOut {
    pub attr_valid: u64,
    pub attr_valid_nsec: u32,
    pub dummy: u32,
    pub attr: FuseAttr,
}

impl FuseAttrOut {
    /// The bytes of this message.
    pub open spec fn spec_encode(self) -> Seq<u8> {
        le64(self.attr_valid)
            + le32(self.attr_valid_nsec)
            + le32(self.dummy)
            + self.attr.spec_encode()
    }

    /// Appends the bytes of this message to `buf`.
    pub fn encode_into(&self, buf: &mut Vec<u8>)
        ensures
            final(buf)@ == old(buf)@ + self.spec_encode(),
    {
        let ghost start = buf@;
        put_u64(buf, self.attr_valid);
        put_u32(buf, self.attr_valid_nsec);
        put_u32(buf, self.dummy);
        self.attr.encode_into(buf);
        assert(buf@ =~= start + self.spec_encode());
    }

    /// The encoding is `FUSE_ATTR_OUT_SIZE` bytes long.
    pub proof fn lemma_encode_len(self)
        ensures
            self.spec_encode().len() == FUSE_ATTR_OUT_SIZE,
    {
        lemma_le_roundtrip();
        self.attr.lemma_encode_len();
    }
}

/// Size in bytes of `fuse_open_out`.
pub const FUSE_OPEN_OUT_SIZE: usize = 16;

/// The body of an open reply.
#[derive(Clone, Copy, Debug, PartialEq, Eq, Structural)]
pub struct FuseOpenOut {
    pub fh: u64,
    pub open_flags: u32,
    pub padding: u32,
}

impl FuseOpenOut {
    /// The bytes of this message.
    pub open spec fn spec_encode(self) -> Seq<u8> {
        le64(self.fh)
            + le32(self.open_flags)
            + le32(self.padding)
    }

    /// Appends the bytes of this message to `buf`.
    pub fn encode_into(&self, buf: &mut Vec<u8>)
        ensures
            final(buf)@ == old(buf)@ + self.spec_encode(),
    {
        let ghost start = buf@;
        put_u64(buf, self.fh);
        put_u32(buf, self.open_flags);
        put_u32(buf, self.padding);
        assert(buf@ =~= start + self.spec_encode());
    }

    /// The encoding is `FUSE_OPEN_OUT_SIZE` bytes long.
    pub proof fn lemma_encode_len(self)
        ensures
            self.spec_encode().len() == FUSE_OPEN_OUT_SIZE,
    {
        lemma_le_roundtrip();
    }
}

/// Size in bytes of `fuse_write_out`.
pub const FUSE_WRITE_OUT_SIZE: usize = 8;

/// The body of a write or copy reply.
#[derive(Clone, Copy, Debug, PartialEq, Eq, Structural)]
pub struct FuseWriteOut {
    pub size: u32,
    pub padding: u32,
}

impl FuseWriteOut {
    /// The bytes of this message.
    pub open spec fn spec_encode(self) -> Seq<u8> {
        le32(self.size)
            + le32(self.padding)
    }

    /// Appends the bytes of this message to `buf`.
    pub fn encode_into(&self, buf: &mut Vec<u8>)
        ensures
            final(buf)@ == old(buf)@ + self.spec_encode(),
    {
        let ghost start = buf@;
        put_u32(buf, self.size);
        put_u32(buf, self.padding);
        assert(buf@ =~= start + self.spec_encode());
    }

    /// The encoding is `FUSE_WRITE_OUT_SIZE` bytes long.
    pub proof fn lemma_encode_len(self)
        ensures
            self.spec_encode().len() == FUSE_WRITE_OUT_SIZE,
    {
        lemma_le_roundtrip();
    }
}

/// Size in bytes of `fuse_statfs_out`.
pub const FUSE_STATFS_OUT_SIZE: usize = 80;

/// The body of a statfs reply (`fuse_kstatfs`); its six spare words are written as zero.
#[derive(Clone, Copy, Debug, PartialEq, Eq, Structural)]
pub struct FuseStatfsOut {
    pub blocks: u64,
    pub bfree: u64,
    pub bavail: u64,
    pub files: u64,
    pub ffree: u64,
    pub bsize: u32,
    pub namelen: u32,
    pub frsize: u32,
    pub padding: u32,
}

impl FuseStatfsOut {
    /// The bytes of this message.
    pub open spec fn spec_encode(self) -> Seq<u8> {
        le64(self.blocks)
            + le64(self.bfree)
            + le64(self.bavail)
            + le64(self.files)
            + le64(self.ffree)
            + le32(self.bsize)
            + le32(self.namelen)
            + le32(self.frsize)
            + le32(self.padding)
            + le32(0) + le32(0) + le32(0) + le32(0) + le32(0) + le32(0)
    }

    /// Appends the bytes of this message to `buf`.
    pub fn encode_into(&self, buf: &mut Vec<u8>)
        ensures
            final(buf)@ == old(buf)@ + self.spec_encode(),
    {
        let ghost start = buf@;
        put_u64(buf, self.blocks);
        put_u64(buf, self.bfree);
        put_u64(buf, self.bavail);
        put_u64(buf, self.files);
        put_u64(buf, self.ffree);
        put_u32(buf, self.bsize);
        put_u32(buf, self.namelen);
        put_u32(buf, self.frsize);
        put_u32(buf, self.padding);
        put_u32(buf, 0);
        put_u32(buf, 0);
        put_u32(buf, 0);
        put_u32(buf, 0);
        put_u32(buf, 0);
        put_u32(buf, 0);
        assert(buf@ =~= start + self.spec_encode());
    }

    /// The encoding is `FUSE_STATFS_OUT_SIZE` bytes long.
    pub proof fn lemma_encode_len(self)
        ensures
            self.spec_encode().len() == FUSE_STATFS_OUT_SIZE,
    {
        lemma_le_roundtrip();
    }
}

/// Size in bytes of `fuse_getxattr_out`.
pub const FUSE_GETXATTR_OUT_SIZE: usize = 8;

/// The body of an xattr size reply.
#[derive(Clone, Copy, Debug, PartialEq, Eq, Structural)]
pub struct FuseGetxattrOut {
    pub size: u32,
    pub padding: u32,
}

impl FuseGetxattrOut {
    /// The bytes of this message.
    pub open spec fn spec_encode(self) -> Seq<u8> {
        le32(self.size)
            + le32(self.padding)
    }

    /// Appends the bytes of this message to `buf`.
    pub fn encode_into(&self, buf: &mut Vec<u8>)
        ensures
            final(buf)@ == old(buf)@ + self.spec_encode(),
    {
        let ghost start = buf@;
        put_u32(buf, self.size);
        put_u32(buf, self.padding);
        assert(buf@ =~= start + self.spec_encode());
    }

    /// The encoding is `FUSE_GETXATTR_OUT_SIZE` bytes long.
    pub proof fn lemma_encode_len(self)
        ensures
            self.spec_encode().len() == FUSE_GETXATTR_OUT_SIZE,
    {
        lemma_le_roundtrip();
    }
}

/// Size in bytes of `fuse_lk_out`.
pub const FUSE_LK_OUT_SIZE: usize = 24;

/// The body of a lock reply (`fuse_file_lock`).
#[derive(Clone, Copy, Debug, PartialEq, Eq, Structural)]
pub struct FuseLkOut {
    pub start: u64,
    pub end: u64,
    pub lk_type: u32,
    pub pid: u32,
}

impl FuseLkOut {
    /// The bytes of this message.
    pub open spec fn spec_encode(self) -> Seq<u8> {
        le64(self.start)
            + le64(self.end)
            + le32(self.lk_type)
            + le32(self.pid)
    }

    /// Appends the bytes of this message to `buf`.
    pub fn encode_into(&self, buf: &mut Vec<u8>)
        ensures
            final(buf)@ == old(buf)@ + self.spec_encode(),
    {
        let ghost start = buf@;
        put_u64(buf, self.start);
        put_u64(buf, self.end);
        put_u32(buf, self.lk_type);
        put_u32(buf, self.pid);
        assert(buf@ =~= start + self.spec_encode());
    }

    /// The encoding is `FUSE_LK_OUT_SIZE` bytes long.
    pub proof fn lemma_encode_len(self)
        ensures
            self.spec_encode().len() == FUSE_LK_OUT_SIZE,
    {
        lemma_le_roundtrip();
    }
}

/// Size in bytes of `fuse_bmap_out`.
pub const FUSE_BMAP_OUT_SIZE: usize = 8;

/// The body of a bmap reply.
#[derive(Clone, Copy, Debug, PartialEq, Eq, Structural)]
pub struct FuseBmapOut {
    pub block: u64,
}

impl FuseBmapOut {
    /// The bytes of this message.
    pub open spec fn spec_encode(self) -> Seq<u8> {
        le64(self.block)
    }

    /// Appends the bytes of this message to `buf`.
    pub fn encode_into(&self, buf: &mut Vec<u8>)
        ensures
            final(buf)@ == old(buf)@ + self.spec_encode(),
    {
        let ghost start = buf@;
        put_u64(buf, self.block);
        assert(buf@ =~= start + self.spec_encode());
    }

    /// The encoding is `FUSE_BMAP_OUT_SIZE` bytes long.
    pub proof fn lemma_encode_len(self)
        ensures
            self.spec_encode().len() == FUSE_BMAP_OUT_SIZE,
    {
        lemma_le_roundtrip();
    }
}

/// Size in bytes of `fuse_poll_out`.
pub const FUSE_POLL_OUT_SIZE: usize = 8;

/// The body of a poll reply.
#[derive(Clone, Copy, Debug, PartialEq, Eq, Structural)]
pub struct FusePollOut {
    pub revents: u32,
    pub padding: u32,
}

impl FusePollOut {
    /// The bytes of this message.
    pub open spec fn spec_encode(self) -> Seq<u8> {
        le32(self.revents)
            + le32(self.padding)
    }

    /// Appends the bytes of this message to `buf`.
    pub fn encode_into(&self, buf: &mut Vec<u8>)
        ensures
            final(buf)@ == old(buf)@ + self.spec_encode(),
    {
        let ghost start = buf@;
        put_u32(buf, self.revents);
        put_u32(buf, self.padding);
        assert(buf@ =~= start + self.spec_encode());
    }

    /// The encoding is `FUSE_POLL_OUT_SIZE` bytes long.
    pub proof fn lemma_encode_len(self)
        ensures
            self.spec_encode().len() == FUSE_POLL_OUT_SIZE,
    {
        lemma_le_roundtrip();
    }
}

/// Size in bytes of `fuse_lseek_out`.
pub const FUSE_LSEEK_OUT_SIZE: usize = 8;

/// The body of an lseek reply.
#[derive(Clone, Copy, Debug, PartialEq, Eq, Structural)]
pub struct FuseLseekOut {
    pub offset: u64,
}

impl FuseLseekOut {
    /// The bytes of this message.
    pub open spec fn spec_encode(self) -> Seq<u8> {
        le64(self.offset)
    }

    /// Appends the bytes of this message to `buf`.
    pub fn encode_into(&self, buf: &mut Vec<u8>)
        ensures
            final(buf)@ == old(buf)@ + self.spec_encode(),
    {
        let ghost start = buf@;
        put_u64(buf, self.offset);
        assert(buf@ =~= start + self.spec_encode());
    }

    /// The encoding is `FUSE_LSEEK_OUT_SIZE` bytes long.
    pub proof fn lemma_encode_len(self)
        ensures
            self.spec_encode().len() == FUSE_LSEEK_OUT_SIZE,
    {
        lemma_le_roundtrip();
    }
}

/// Size in bytes of `fuse_init_out`.
pub const FUSE_INIT_OUT_SIZE: usize = 64;

/// The body of the `INIT` reply; its eight unused words are written as zero.
#[derive(Clone, Copy, Debug, PartialEq, Eq, Structural)]
pub struct FuseInitOut {
    pub major: u32,
    pub minor: u32,
    pub max_readahead: u32,
    pub flags: u32,
    pub max_background: u16,
    pub congestion_threshold: u16,
    pub max_write: u32,
    pub time_gran: u32,
    pub max_pages: u16,
    pub map_alignment: u16,
}

impl FuseInitOut {
    /// The bytes of this message.
    pub open spec fn spec_encode(self) -> Seq<u8> {
        le32(self.major)
            + le32(self.minor)
            + le32(self.max_readahead)
            + le32(self.flags)
            + le16(self.max_background)
            + le16(self.congestion_threshold)
            + le32(self.max_write)
            + le32(self.time_gran)
            + le16(self.max_pages)
            + le16(self.map_alignment)
            + le32(0) + le32(0) + le32(0) + le32(0) + le32(0) + le32(0) + le32(0) + le32(0)
    }

    /// Appends the bytes of this message to `buf`.
    pub fn encode_into(&self, buf: &mut Vec<u8>)
        ensures
            final(buf)@ == old(buf)@ + self.spec_encode(),
    {
        let ghost start = buf@;
        put_u32(buf, self.major);
        put_u32(buf, self.minor);
        put_u32(buf, self.max_readahead);
        put_u32(buf, self.flags);
        put_u16(buf, self.max_background);
        put_u16(buf, self.congestion_threshold);
        put_u32(buf, self.max_write);
        put_u32(buf, self.time_gran);
        put_u16(buf, self.max_pages);
        put_u16(buf, self.map_alignment);
        put_u32(buf, 0);
        put_u32(buf, 0);
        put_u32(buf, 0);
        put_u32(buf, 0);
        put_u32(buf, 0);
        put_u32(buf, 0);
        put_u32(buf, 0);
        put_u32(buf, 0);
        assert(buf@ =~= start + self.spec_encode());
    }

    /// The encoding is `FUSE_INIT_OUT_SIZE` bytes long.
    pub proof fn lemma_encode_len(self)
        ensures
            self.spec_encode().len() == FUSE_INIT_OUT_SIZE,
    {
        lemma_le_roundtrip();
    }
}

/// Size in bytes of `fuse_dirent`.
pub const FUSE_DIRENT_SIZE: usize = 24;

/// The fixed part of a directory record.
#[derive(Clone, Copy, Debug, PartialEq, Eq, Structural)]
pub struct FuseDirent {
    pub ino: u64,
    pub off: u64,
    pub namelen: u32,
    pub dirent_type: u32,
}

impl FuseDirent {
    /// The bytes of this message.
    pub open spec fn spec_encode(self) -> Seq<u8> {
        le64(self.ino)
            + le64(self.off)
            + le32(self.namelen)
            + le32(self.dirent_type)
    }

    /// Appends the bytes of this message to `buf`.
    pub fn encode_into(&self, buf: &mut Vec<u8>)
        ensures
            final(buf)@ == old(buf)@ + self.spec_encode(),
    {
        let ghost start = buf@;
        put_u64(buf, self.ino);
        put_u64(buf, self.off);
        put_u32(buf, self.namelen);
        put_u32(buf, self.dirent_type);
        assert(buf@ =~= start + self.spec_encode());
    }

    /// The encoding is `FUSE_DIRENT_SIZE` bytes long.
    pub proof fn lemma_encode_len(self)
        ensures
            self.spec_encode().len() == FUSE_DIRENT_SIZE,
    {
        lemma_le_roundtrip();
    }
}

/// Size in bytes of `fuse_direntplus`.
pub const FUSE_DIRENTPLUS_SIZE: usize = 152;

/// The fixed part of a directory record with attributes.
#[derive(Clone, Copy, Debug, PartialEq, Eq, Structural)]
pub struct FuseDirentplus {
    pub entry_out: FuseEntryOut,
    pub dirent: FuseDirent,
}

impl FuseDirentplus {
    /// The bytes of this message.
    pub open spec fn spec_encode(self) -> Seq<u8> {
        self.entry_out.spec_encode()
            + self.dirent.spec_encode()
    }

    /// Appends the bytes of this message to `buf`.
    pub fn encode_into(&self, buf: &mut Vec<u8>)
        ensures
            final(buf)@ == old(buf)@ + self.spec_encode(),
    {
        let ghost start = buf@;
        self.entry_out.encode_into(buf);
        self.dirent.encode_into(buf);
        assert(buf@ =~= start + self.spec_encode());
    }

    /// The encoding is `FUSE_DIRENTPLUS_SIZE` bytes long.
    pub proof fn lemma_encode_len(self)
        ensures
            self.spec_encode().len() == FUSE_DIRENTPLUS_SIZE,
    {
        lemma_le_roundtrip();
        self.entry_out.lemma_encode_len();
        self.dirent.lemma_encode_len();
    }
}

/// Size in bytes of `fuse_notify_poll_wakeup_out`.
pub const FUSE_NOTIFY_POLL_WAKEUP_OUT_SIZE: usize = 8;

/// The body of a poll wakeup notification.
#[derive(Clone, Copy, Debug, PartialEq, Eq, Structural)]
pub struct FuseNotifyPollWakeupOut {
    pub kh: u64,
}

impl FuseNotifyPollWakeupOut {
    /// The bytes of this message.
    pub open spec fn spec_encode(self) -> Seq<u8> {
        le64(self.kh)
    }

    /// Appends the bytes of this message to `buf`.
    pub fn encode_into(&self, buf: &mut Vec<u8>)
        ensures
            final(buf)@ == old(buf)@ + self.spec_encode(),
    {
        let ghost start = buf@;
        put_u64(buf, self.kh);
        assert(buf@ =~= start + self.spec_encode());
    }

    /// The encoding is `FUSE_NOTIFY_POLL_WAKEUP_OUT_SIZE` bytes long.
    pub proof fn lemma_encode_len(self)
        ensures
            self.spec_encode().len() == FUSE_NOTIFY_POLL_WAKEUP_OUT_SIZE,
    {
        lemma_le_roundtrip();
    }
}

/// Size in bytes of `fuse_notify_inval_inode_out`.
pub const FUSE_NOTIFY_INVAL_INODE_OUT_SIZE: usize = 24;

/// The body of an inode invalidation notification.
#[derive(Clone, Copy, Debug, PartialEq, Eq, Structural)]
pub struct FuseNotifyInvalInodeOut {
    pub ino: u64,
    pub off: i64,
    pub len: i64,
}

impl FuseNotifyInvalInodeOut {
    /// The bytes of this message.
    pub open spec fn spec_encode(self) -> Seq<u8> {
        le64(self.ino)
            + le_i64(self.off)
            + le_i64(self.len)
    }

    /// Appends the bytes of this message to `buf`.
    pub fn encode_into(&self, buf: &mut Vec<u8>)
        ensures
            final(buf)@ == old(buf)@ + self.spec_encode(),
    {
        let ghost start = buf@;
        put_u64(buf, self.ino);
        put_i64(buf, self.off);
        put_i64(buf, self.len);
        assert(buf@ =~= start + self.spec_encode());
    }

    /// The encoding is `FUSE_NOTIFY_INVAL_INODE_OUT_SIZE` bytes long.
    pub proof fn lemma_encode_len(self)
        ensures
            self.spec_encode().len() == FUSE_NOTIFY_INVAL_INODE_OUT_SIZE,
    {
        lemma_le_roundtrip();
    }
}

/// Size in bytes of `fuse_notify_inval_entry_out`.
pub const FUSE_NOTIFY_INVAL_ENTRY_OUT_SIZE: usize = 16;

/// The fixed part of an entry invalidation notification.
#[derive(Clone, Copy, Debug, PartialEq, Eq, Structural)]
pub struct FuseNotifyInvalEntryOut {
    pub parent: u64,
    pub namelen: u32,
    pub padding: u32,
}

impl FuseNotifyInvalEntryOut {
    /// The bytes of this message.
    pub open spec fn spec_encode(self) -> Seq<u8> {
        le64(self.parent)
            + le32(self.namelen)
            + le32(self.padding)
    }

    /// Appends the bytes of this message to `buf`.
    pub fn encode_into(&self, buf: &mut Vec<u8>)
        ensures
            final(buf)@ == old(buf)@ + self.spec_encode(),
    {
        let ghost start = buf@;
        put_u64(buf, self.parent);
        put_u32(buf, self.namelen);
        put_u32(buf, self.padding);
        assert(buf@ =~= start + self.spec_encode());
    }

    /// The encoding is `FUSE_NOTIFY_INVAL_ENTRY_OUT_SIZE` bytes long.
    pub proof fn lemma_encode_len(self)
        ensures
            self.spec_encode().len() == FUSE_NOTIFY_INVAL_ENTRY_OUT_SIZE,
    {
        lemma_le_roundtrip();
    }
}

/// Size in bytes of `fuse_notify_delete_out`.
pub const FUSE_NOTIFY_DELETE_OUT_SIZE: usize = 24;

/// The fixed part of a delete notification.
#[derive(Clone, Copy, Debug, PartialEq, Eq, Structural)]
pub struct FuseNotifyDeleteOut {
    pub parent: u64,
    pub child: u64,
    pub namelen: u32,
    pub padding: u32,
}

impl FuseNotifyDeleteOut {
    /// The bytes of this message.
    pub open spec fn spec_encode(self) -> Seq<u8> {
        le64(self.parent)
            + le64(self.child)
            + le32(self.namelen)
            + le32(self.padding)
    }

    /// Appends the bytes of this message to `buf`.
    pub fn encode_into(&self, buf: &mut Vec<u8>)
        ensures
            final(buf)@ == old(buf)@ + self.spec_encode(),
    {
        let ghost start = buf@;
        put_u64(buf, self.parent);
        put_u64(buf, self.child);
        put_u32(buf, self.namelen);
        put_u32(buf, self.padding);
        assert(buf@ =~= start + self.spec_encode());
    }

    /// The encoding is `FUSE_NOTIFY_DELETE_OUT_SIZE` bytes long.
    pub proof fn lemma_encode_len(self)
        ensures
            self.spec_encode().len() == FUSE_NOTIFY_DELETE_OUT_SIZE,
    {
        lemma_le_roundtrip();
    }
}

/// Size in bytes of `fuse_notify_store_out`.
pub const FUSE_NOTIFY_STORE_OUT_SIZE: usize = 24;

/// The fixed part of a store notification.
#[derive(Clone, Copy, Debug, PartialEq, Eq, Structural)]
pub struct FuseNotifyStoreOut {
    pub nodeid: u64,
    pub offset: u64,
    pub size: u32,
    pub padding: u32,
}

impl FuseNotifyStoreOut {
    /// The bytes of this message.
    pub open spec fn spec_encode(self) -> Seq<u8> {
        le64(self.nodeid)
            + le64(self.offset)
            + le32(self.size)
            + le32(self.padding)
    }

    /// Appends the bytes of this message to `buf`.
    pub fn encode_into(&self, buf: &mut Vec<u8>)
        ensures
            final(buf)@ == old(buf)@ + self.spec_encode(),
    {
        let ghost start = buf@;
        put_u64(buf, self.nodeid);
        put_u64(buf, self.offset);
        put_u32(buf, self.size);
        put_u32(buf, self.padding);
        assert(buf@ =~= start + self.spec_encode());
    }

    /// The encoding is `FUSE_NOTIFY_STORE_OUT_SIZE` bytes long.
    pub proof fn lemma_encode_len(self)
        ensures
            self.spec_encode().len() == FUSE_NOTIFY_STORE_OUT_SIZE,
    {
        lemma_le_roundtrip();
    }
}

/// Size in bytes of `fuse_notify_retrieve_out`.
pub const FUSE_NOTIFY_RETRIEVE_OUT_SIZE: usize = 32;

/// The body of a retrieve notification.
#[derive(Clone, Copy, Debug, PartialEq, Eq, Structural)]
pub struct FuseNotifyRetrieveOut {
    pub notify_unique: u64,
    pub nodeid: u64,
    pub offset: u64,
    pub size: u32,
    pub padding: u32,
}

impl FuseNotifyRetrieveOut {
    /// The bytes of this message.
    pub open spec fn spec_encode(self) -> Seq<u8> {
        le64(self.notify_unique)
            + le64(self.nodeid)
            + le64(self.offset)
            + le32(self.size)
            + le32(self.padding)
    }

    /// Appends the bytes of this message to `buf`.
    pub fn encode_into(&self, buf: &mut Vec<u8>)
        ensures
            final(buf)@ == old(buf)@ + self.spec_encode(),
    {
        let ghost start = buf@;
        put_u64(buf, self.notify_unique);
        put_u64(buf, self.nodeid);
        put_u64(buf, self.offset);
        put_u32(buf, self.size);
        put_u32(buf, self.padding);
        assert(buf@ =~= start + self.spec_encode());
    }

    /// The encoding is `FUSE_NOTIFY_RETRIEVE_OUT_SIZE` bytes long.
    pub proof fn lemma_encode_len(self)
        ensures
            self.spec_encode().len() == FUSE_NOTIFY_RETRIEVE_OUT_SIZE,
    {
        lemma_le_roundtrip();
    }
}

impl FuseInHeader {
    /// Decoding the kernel's layout of these fields (each little endian, in
    /// the order declared, with nothing between them) gives the fields back,
    /// whatever follows them.
    pub proof fn lemma_decode_fields(len: u32, opcode: u32, unique: u64, nodeid: u64, uid: u32, gid: u32, pid: u32, padding: u32, rest: Seq<u8>)
        ensures
            Self::spec_decode(le32(len) + le32(opcode) + le64(unique) + le64(nodeid) + le32(uid) + le32(gid) + le32(pid) + le32(padding) + rest) == (FuseInHeader { len, opcode, unique, nodeid, uid, gid, pid, padding }),
    {
        lemma_le_roundtrip();
        let b = le32(len) + le32(opcode) + le64(unique) + le64(nodeid) + le32(uid) + le32(gid) + le32(pid) + le32(padding) + rest;
        assert(b.subrange(0, 4) =~= le32(len));
        lemma_u32_at_le(b, 0, len);
        assert(b.subrange(4, 8) =~= le32(opcode));
        lemma_u32_at_le(b, 4, opcode);
        assert(b.subrange(8, 16) =~= le64(unique));
        lemma_u64_at_le(b, 8, unique);
        assert(b.subrange(16, 24) =~= le64(nodeid));
        lemma_u64_at_le(b, 16, nodeid);
        assert(b.subrange(24, 28) =~= le32(uid));
        lemma_u32_at_le(b, 24, uid);
        assert(b.subrange(28, 32) =~= le32(gid));
        lemma_u32_at_le(b, 28, gid);
        assert(b.subrange(32, 36) =~= le32(pid));
        lemma_u32_at_le(b, 32, pid);
        assert(b.subrange(36, 40) =~= le32(padding));
        lemma_u32_at_le(b, 36, padding);
    }
}

impl FuseInitIn {
    /// Decoding the kernel's layout of these fields (each little endian, in
    /// the order declared, with nothing between them) gives the fields back,
    /// whatever follows them.
    pub proof fn lemma_decode_fields(major: u32, minor: u32, max_readahead: u32, flags: u32, rest: Seq<u8>)
        ensures
            Self::spec_decode(le32(major) + le32(minor) + le32(max_readahead) + le32(flags) + rest) == (FuseInitIn { major, minor, max_readahead, flags }),
    {
        lemma_le_roundtrip();
        let b = le32(major) + le32(minor) + le32(max_readahead) + le32(flags) + rest;
        assert(b.subrange(0, 4) =~= le32(major));
        lemma_u32_at_le(b, 0, major);
        assert(b.subrange(4, 8) =~= le32(minor));
        lemma_u32_at_le(b, 4, minor);
        assert(b.subrange(8, 12) =~= le32(max_readahead));
        lemma_u32_at_le(b, 8, max_readahead);
        assert(b.subrange(12, 16) =~= le32(flags));
        lemma_u32_at_le(b, 12, flags);
    }
}

impl FuseForgetIn {
    /// Decoding the kernel's layout of these fields (each little endian, in
    /// the order declared, with nothing between them) gives the fields back,
    /// whatever follows them.
    pub proof fn lemma_decode_fields(nlookup: u64, rest: Seq<u8>)
        ensures
            Self::spec_decode(le64(nlookup) + rest) == (FuseForgetIn { nlookup }),
    {
        lemma_le_roundtrip();
        let b = le64(nlookup) + rest;
        assert(b.subrange(0, 8) =~= le64(nlookup));
        lemma_u64_at_le(b, 0, nlookup);
    }
}

impl FuseGetattrIn {
    /// Decoding the kernel's layout of these fields (each little endian, in
    /// the order declared, with nothing between them) gives the fields back,
    /// whatever follows them.
    pub proof fn lemma_decode_fields(getattr_flags: u32, dummy: u32, fh: u64, rest: Seq<u8>)
        ensures
            Self::spec_decode(le32(getattr_flags) + le32(dummy) + le64(fh) + rest) == (FuseGetattrIn { getattr_flags, dummy, fh }),
    {
        lemma_le_roundtrip();
        let b = le32(getattr_flags) + le32(dummy) + le64(fh) + rest;
        assert(b.subrange(0, 4) =~= le32(getattr_flags));
        lemma_u32_at_le(b, 0, getattr_flags);
        assert(b.subrange(4, 8) =~= le32(dummy));
        lemma_u32_at_le(b, 4, dummy);
        assert(b.subrange(8, 16) =~= le64(fh));
        lemma_u64_at_le(b, 8, fh);
    }
}

impl FuseSetattrIn {
    /// Decoding the kernel's layout of these fields (each little endian, in
    /// the order declared, with nothing between them) gives the fields back,
    /// whatever follows them.
    pub proof fn lemma_decode_fields(valid: u32, padding: u32, fh: u64, size: u64, lock_owner: u64, atime: u64, mtime: u64, ctime: u64, atimensec: u32, mtimensec: u32, ctimensec: u32, mode: u32, unused4: u32, uid: u32, gid: u32, unused5: u32, rest: Seq<u8>)
        ensures
            Self::spec_decode(le32(valid) + le32(padding) + le64(fh) + le64(size) + le64(lock_owner) + le64(atime) + le64(mtime) + le64(ctime) + le32(atimensec) + le32(mtimensec) + le32(ctimensec) + le32(mode) + le32(unused4) + le32(uid) + le32(gid) + le32(unused5) + rest) == (FuseSetattrIn { valid, padding, fh, size, lock_owner, atime, mtime, ctime, atimensec, mtimensec, ctimensec, mode, unused4, uid, gid, unused5 }),
    {
        lemma_le_roundtrip();
        let b = le32(valid) + le32(padding) + le64(fh) + le64(size) + le64(lock_owner) + le64(atime) + le64(mtime) + le64(ctime) + le32(atimensec) + le32(mtimensec) + le32(ctimensec) + le32(mode) + le32(unused4) + le32(uid) + le32(gid) + le32(unused5) + rest;
        assert(b.subrange(0, 4) =~= le32(valid));
        lemma_u32_at_le(b, 0, valid);
        assert(b.subrange(4, 8) =~= le32(padding));
        lemma_u32_at_le(b, 4, padding);
        assert(b.subrange(8, 16) =~= le64(fh));
        lemma_u64_at_le(b, 8, fh);
        assert(b.subrange(16, 24) =~= le64(size));
        lemma_u64_at_le(b, 16, size);
        assert(b.subrange(24, 32) =~= le64(lock_owner));
        lemma_u64_at_le(b, 24, lock_owner);
        assert(b.subrange(32, 40) =~= le64(atime));
        lemma_u64_at_le(b, 32, atime);
        assert(b.subrange(40, 48) =~= le64(mtime));
        lemma_u64_at_le(b, 40, mtime);
        assert(b.subrange(48, 56) =~= le64(ctime));
        lemma_u64_at_le(b, 48, ctime);
        assert(b.subrange(56, 60) =~= le32(atimensec));
        lemma_u32_at_le(b, 56, atimensec);
        assert(b.subrange(60, 64) =~= le32(mtimensec));
        lemma_u32_at_le(b, 60, mtimensec);
        assert(b.subrange(64, 68) =~= le32(ctimensec));
        lemma_u32_at_le(b, 64, ctimensec);
        assert(b.subrange(68, 72) =~= le32(mode));
        lemma_u32_at_le(b, 68, mode);
        assert(b.subrange(72, 76) =~= le32(unused4));
        lemma_u32_at_le(b, 72, unused4);
        assert(b.subrange(76, 80) =~= le32(uid));
        lemma_u32_at_le(b, 76, uid);
        assert(b.subrange(80, 84) =~= le32(gid));
        lemma_u32_at_le(b, 80, gid);
        assert(b.subrange(84, 88) =~= le32(unused5));
        lemma_u32_at_le(b, 84, unused5);
    }
}

impl FuseMknodIn {
    /// Decoding the kernel's layout of these fields (each little endian, in
    /// the order declared, with nothing between them) gives the fields back,
    /// whatever follows them.
    pub proof fn lemma_decode_fields(mode: u32, rdev: u32, umask: u32, padding: u32, rest: Seq<u8>)
        ensures
            Self::spec_decode(le32(mode) + le32(rdev) + le32(umask) + le32(padding) + rest) == (FuseMknodIn { mode, rdev, umask, padding }),
    {
        lemma_le_roundtrip();
        let b = le32(mode) + le32(rdev) + le32(umask) + le32(padding) + rest;
        assert(b.subrange(0, 4) =~= le32(mode));
        lemma_u32_at_le(b, 0, mode);
        assert(b.subrange(4, 8) =~= le32(rdev));
        lemma_u32_at_le(b, 4, rdev);
        assert(b.subrange(8, 12) =~= le32(umask));
        lemma_u32_at_le(b, 8, umask);
        assert(b.subrange(12, 16) =~= le32(padding));
        lemma_u32_at_le(b, 12, padding);
    }
}

impl FuseMkdirIn {
    /// Decoding the kernel's layout of these fields (each little endian, in
    /// the order declared, with nothing between them) gives the fields back,
    /// whatever follows them.
    pub proof fn lemma_decode_fields(mode: u32, umask: u32, rest: Seq<u8>)
        ensures
            Self::spec_decode(le32(mode) + le32(umask) + rest) == (FuseMkdirIn { mode, umask }),
    {
        lemma_le_roundtrip();
        let b = le32(mode) + le32(umask) + rest;
        assert(b.subrange(0, 4) =~= le32(mode));
        lemma_u32_at_le(b, 0, mode);
        assert(b.subrange(4, 8) =~= le32(umask));
        lemma_u32_at_le(b, 4, umask);
    }
}

impl FuseRenameIn {
    /// Decoding the kernel's layout of these fields (each little endian, in
    /// the order declared, with nothing between them) gives the fields back,
    /// whatever follows them.
    pub proof fn lemma_decode_fields(newdir: u64, rest: Seq<u8>)
        ensures
            Self::spec_decode(le64(newdir) + rest) == (FuseRenameIn { newdir }),
    {
        lemma_le_roundtrip();
        let b = le64(newdir) + rest;
        assert(b.subrange(0, 8) =~= le64(newdir));
        lemma_u64_at_le(b, 0, newdir);
    }
}

impl FuseRename2In {
    /// Decoding the kernel's layout of these fields (each little endian, in
    /// the order declared, with nothing between them) gives the fields back,
    /// whatever follows them.
    pub proof fn lemma_decode_fields(newdir: u64, flags: u32, padding: u32, rest: Seq<u8>)
        ensures
            Self::spec_decode(le64(newdir) + le32(flags) + le32(padding) + rest) == (FuseRename2In { newdir, flags, padding }),
    {
        lemma_le_roundtrip();
        let b = le64(newdir) + le32(flags) + le32(padding) + rest;
        assert(b.subrange(0, 8) =~= le64(newdir));
        lemma_u64_at_le(b, 0, newdir);
        assert(b.subrange(8, 12) =~= le32(flags));
        lemma_u32_at_le(b, 8, flags);
        assert(b.subrange(12, 16) =~= le32(padding));
        lemma_u32_at_le(b, 12, padding);
    }
}

impl FuseLinkIn {
    /// Decoding the kernel's layout of these fields (each little endian, in
    /// the order declared, with nothing between them) gives the fields back,
    /// whatever follows them.
    pub proof fn lemma_decode_fields(oldnodeid: u64, rest: Seq<u8>)
        ensures
            Self::spec_decode(le64(oldnodeid) + rest) == (FuseLinkIn { oldnodeid }),
    {
        lemma_le_roundtrip();
        let b = le64(oldnodeid) + rest;
        assert(b.subrange(0, 8) =~= le64(oldnodeid));
        lemma_u64_at_le(b, 0, oldnodeid);
    }
}

impl FuseOpenIn {
    /// Decoding the kernel's layout of these fields (each little endian, in
    /// the order declared, with nothing between them) gives the fields back,
    /// whatever follows them.
    pub proof fn lemma_decode_fields(flags: u32, unused: u32, rest: Seq<u8>)
        ensures
            Self::spec_decode(le32(flags) + le32(unused) + rest) == (FuseOpenIn { flags, unused }),
    {
        lemma_le_roundtrip();
        let b = le32(flags) + le32(unused) + rest;
        assert(b.subrange(0, 4) =~= le32(flags));
        lemma_u32_at_le(b, 0, flags);
        assert(b.subrange(4, 8) =~= le32(unused));
        lemma_u32_at_le(b, 4, unused);
    }
}

impl FuseReadIn {
    /// Decoding the kernel's layout of these fields (each little endian, in
    /// the order declared, with nothing between them) gives the fields back,
    /// whatever follows them.
    pub proof fn lemma_decode_fields(fh: u64, offset: u64, size: u32, read_flags: u32, lock_owner: u64, flags: u32, padding: u32, rest: Seq<u8>)
        ensures
            Self::spec_decode(le64(fh) + le64(offset) + le32(size) + le32(read_flags) + le64(lock_owner) + le32(flags) + le32(padding) + rest) == (FuseReadIn { fh, offset, size, read_flags, lock_owner, flags, padding }),
    {
        lemma_le_roundtrip();
        let b = le64(fh) + le64(offset) + le32(size) + le32(read_flags) + le64(lock_owner) + le32(flags) + le32(padding) + rest;
        assert(b.subrange(0, 8) =~= le64(fh));
        lemma_u64_at_le(b, 0, fh);
        assert(b.subrange(8, 16) =~= le64(offset));
        lemma_u64_at_le(b, 8, offset);
        assert(b.subrange(16, 20) =~= le32(size));
        lemma_u32_at_le(b, 16, size);
        assert(b.subrange(20, 24) =~= le32(read_flags));
        lemma_u32_at_le(b, 20, read_flags);
        assert(b.subrange(24, 32) =~= le64(lock_owner));
        lemma_u64_at_le(b, 24, lock_owner);
        assert(b.subrange(32, 36) =~= le32(flags));
        lemma_u32_at_le(b, 32, flags);
        assert(b.subrange(36, 40) =~= le32(padding));
        lemma_u32_at_le(b, 36, padding);
    }
}

impl FuseWriteIn {
    /// Decoding the kernel's layout of these fields (each little endian, in
    /// the order declared, with nothing between them) gives the fields back,
    /// whatever follows them.
    pub proof fn lemma_decode_fields(fh: u64, offset: u64, size: u32, write_flags: u32, lock_owner: u64, flags: u32, padding: u32, rest: Seq<u8>)
        ensures
            Self::spec_decode(le64(fh) + le64(offset) + le32(size) + le32(write_flags) + le64(lock_owner) + le32(flags) + le32(padding) + rest) == (FuseWriteIn { fh, offset, size, write_flags, lock_owner, flags, padding }),
    {
        lemma_le_roundtrip();
        let b = le64(fh) + le64(offset) + le32(size) + le32(write_flags) + le64(lock_owner) + le32(flags) + le32(padding) + rest;
        assert(b.subrange(0, 8) =~= le64(fh));
        lemma_u64_at_le(b, 0, fh);
        assert(b.subrange(8, 16) =~= le64(offset));
        lemma_u64_at_le(b, 8, offset);
        assert(b.subrange(16, 20) =~= le32(size));
        lemma_u32_at_le(b, 16, size);
        assert(b.subrange(20, 24) =~= le32(write_flags));
        lemma_u32_at_le(b, 20, write_flags);
        assert(b.subrange(24, 32) =~= le64(lock_owner));
        lemma_u64_at_le(b, 24, lock_owner);
        assert(b.subrange(32, 36) =~= le32(flags));
        lemma_u32_at_le(b, 32, flags);
        assert(b.subrange(36, 40) =~= le32(padding));
        lemma_u32_at_le(b, 36, padding);
    }
}

impl FuseReleaseIn {
    /// Decoding the kernel's layout of these fields (each little endian, in
    /// the order declared, with nothing between them) gives the fields back,
    /// whatever follows them.
    pub proof fn lemma_decode_fields(fh: u64, flags: u32, release_flags: u32, lock_owner: u64, rest: Seq<u8>)
        ensures
            Self::spec_decode(le64(fh) + le32(flags) + le32(release_flags) + le64(lock_owner) + rest) == (FuseReleaseIn { fh, flags, release_flags, lock_owner }),
    {
        lemma_le_roundtrip();
        let b = le64(fh) + le32(flags) + le32(release_flags) + le64(lock_owner) + rest;
        assert(b.subrange(0, 8) =~= le64(fh));
        lemma_u64_at_le(b, 0, fh);
        assert(b.subrange(8, 12) =~= le32(flags));
        lemma_u32_at_le(b, 8, flags);
        assert(b.subrange(12, 16) =~= le32(release_flags));
        lemma_u32_at_le(b, 12, release_flags);
        assert(b.subrange(16, 24) =~= le64(lock_owner));
        lemma_u64_at_le(b, 16, lock_owner);
    }
}

impl FuseFlushIn {
    /// Decoding the kernel's layout of these fields (each little endian, in
    /// the order declared, with nothing between them) gives the fields back,
    /// whatever follows them.
    pub proof fn lemma_decode_fields(fh: u64, unused: u32, padding: u32, lock_owner: u64, rest: Seq<u8>)
        ensures
            Self::spec_decode(le64(fh) + le32(unused) + le32(padding) + le64(lock_owner) + rest) == (FuseFlushIn { fh, unused, padding, lock_owner }),
    {
        lemma_le_roundtrip();
        let b = le64(fh) + le32(unused) + le32(padding) + le64(lock_owner) + rest;
        assert(b.subrange(0, 8) =~= le64(fh));
        lemma_u64_at_le(b, 0, fh);
        assert(b.subrange(8, 12) =~= le32(unused));
        lemma_u32_at_le(b, 8, unused);
        assert(b.subrange(12, 16) =~= le32(padding));
        lemma_u32_at_le(b, 12, padding);
        assert(b.subrange(16, 24) =~= le64(lock_owner));
        lemma_u64_at_le(b, 16, lock_owner);
    }
}

impl FuseFsyncIn {
    /// Decoding the kernel's layout of these fields (each little endian, in
    /// the order declared, with nothing between them) gives the fields back,
    /// whatever follows them.
    pub proof fn lemma_decode_fields(fh: u64, fsync_flags: u32, padding: u32, rest: Seq<u8>)
        ensures
            Self::spec_decode(le64(fh) + le32(fsync_flags) + le32(padding) + rest) == (FuseFsyncIn { fh, fsync_flags, padding }),
    {
        lemma_le_roundtrip();
        let b = le64(fh) + le32(fsync_flags) + le32(padding) + rest;
        assert(b.subrange(0, 8) =~= le64(fh));
        lemma_u64_at_le(b, 0, fh);
        assert(b.subrange(8, 12) =~= le32(fsync_flags));
        lemma_u32_at_le(b, 8, fsync_flags);
        assert(b.subrange(12, 16) =~= le32(padding));
        lemma_u32_at_le(b, 12, padding);
    }
}

impl FuseSetxattrIn {
    /// Decoding the kernel's layout of these fields (each little endian, in
    /// the order declared, with nothing between them) gives the fields back,
    /// whatever follows them.
    pub proof fn lemma_decode_fields(size: u32, flags: u32, rest: Seq<u8>)
        ensures
            Self::spec_decode(le32(size) + le32(flags) + rest) == (FuseSetxattrIn { size, flags }),
    {
        lemma_le_roundtrip();
        let b = le32(size) + le32(flags) + rest;
        assert(b.subrange(0, 4) =~= le32(size));
        lemma_u32_at_le(b, 0, size);
        assert(b.subrange(4, 8) =~= le32(flags));
        lemma_u32_at_le(b, 4, flags);
    }
}

impl FuseGetxattrIn {
    /// Decoding the kernel's layout of these fields (each little endian, in
    /// the order declared, with nothing between them) gives the fields back,
    /// whatever follows them.
    pub proof fn lemma_decode_fields(size: u32, padding: u32, rest: Seq<u8>)
        ensures
            Self::spec_decode(le32(size) + le32(padding) + rest) == (FuseGetxattrIn { size, padding }),
    {
        lemma_le_roundtrip();
        let b = le32(size) + le32(padding) + rest;
        assert(b.subrange(0, 4) =~= le32(size));
        lemma_u32_at_le(b, 0, size);
        assert(b.subrange(4, 8) =~= le32(padding));
        lemma_u32_at_le(b, 4, padding);
    }
}

impl FuseLkIn {
    /// Decoding the kernel's layout of these fields (each little endian, in
    /// the order declared, with nothing between them) gives the fields back,
    /// whatever follows them.
    pub proof fn lemma_decode_fields(fh: u64, owner: u64, lk_start: u64, lk_end: u64, lk_type: u32, lk_pid: u32, lk_flags: u32, padding: u32, rest: Seq<u8>)
        ensures
            Self::spec_decode(le64(fh) + le64(owner) + le64(lk_start) + le64(lk_end) + le32(lk_type) + le32(lk_pid) + le32(lk_flags) + le32(padding) + rest) == (FuseLkIn { fh, owner, lk_start, lk_end, lk_type, lk_pid, lk_flags, padding }),
    {
        lemma_le_roundtrip();
        let b = le64(fh) + le64(owner) + le64(lk_start) + le64(lk_end) + le32(lk_type) + le32(lk_pid) + le32(lk_flags) + le32(padding) + rest;
        assert(b.subrange(0, 8) =~= le64(fh));
        lemma_u64_at_le(b, 0, fh);
        assert(b.subrange(8, 16) =~= le64(owner));
        lemma_u64_at_le(b, 8, owner);
        assert(b.subrange(16, 24) =~= le64(lk_start));
        lemma_u64_at_le(b, 16, lk_start);
        assert(b.subrange(24, 32) =~= le64(lk_end));
        lemma_u64_at_le(b, 24, lk_end);
        assert(b.subrange(32, 36) =~= le32(lk_type));
        lemma_u32_at_le(b, 32, lk_type);
        assert(b.subrange(36, 40) =~= le32(lk_pid));
        lemma_u32_at_le(b, 36, lk_pid);
        assert(b.subrange(40, 44) =~= le32(lk_flags));
        lemma_u32_at_le(b, 40, lk_flags);
        assert(b.subrange(44, 48) =~= le32(padding));
        lemma_u32_at_le(b, 44, padding);
    }
}

impl FuseAccessIn {
    /// Decoding the kernel's layout of these fields (each little endian, in
    /// the order declared, with nothing between them) gives the fields back,
    /// whatever follows them.
    pub proof fn lemma_decode_fields(mask: u32, padding: u32, rest: Seq<u8>)
        ensures
            Self::spec_decode(le32(mask) + le32(padding) + rest) == (FuseAccessIn { mask, padding }),
    {
        lemma_le_roundtrip();
        let b = le32(mask) + le32(padding) + rest;
        assert(b.subrange(0, 4) =~= le32(mask));
        lemma_u32_at_le(b, 0, mask);
        assert(b.subrange(4, 8) =~= le32(padding));
        lemma_u32_at_le(b, 4, padding);
    }
}

impl FuseCreateIn {
    /// Decoding the kernel's layout of these fields (each little endian, in
    /// the order declared, with nothing between them) gives the fields back,
    /// whatever follows them.
    pub proof fn lemma_decode_fields(flags: u32, mode: u32, umask: u32, padding: u32, rest: Seq<u8>)
        ensures
            Self::spec_decode(le32(flags) + le32(mode) + le32(umask) + le32(padding) + rest) == (FuseCreateIn { flags, mode, umask, padding }),
    {
        lemma_le_roundtrip();
        let b = le32(flags) + le32(mode) + le32(umask) + le32(padding) + rest;
        assert(b.subrange(0, 4) =~= le32(flags));
        lemma_u32_at_le(b, 0, flags);
        assert(b.subrange(4, 8) =~= le32(mode));
        lemma_u32_at_le(b, 4, mode);
        assert(b.subrange(8, 12) =~= le32(umask));
        lemma_u32_at_le(b, 8, umask);
        assert(b.subrange(12, 16) =~= le32(padding));
        lemma_u32_at_le(b, 12, padding);
    }
}

impl FuseInterruptIn {
    /// Decoding the kernel's layout of these fields (each little endian, in
    /// the order declared, with nothing between them) gives the fields back,
    /// whatever follows them.
    pub proof fn lemma_decode_fields(unique: u64, rest: Seq<u8>)
        ensures
            Self::spec_decode(le64(unique) + rest) == (FuseInterruptIn { unique }),
    {
        lemma_le_roundtrip();
        let b = le64(unique) + rest;
        assert(b.subrange(0, 8) =~= le64(unique));
        lemma_u64_at_le(b, 0, unique);
    }
}

impl FuseBmapIn {
    /// Decoding the kernel's layout of these fields (each little endian, in
    /// the order declared, with nothing between them) gives the fields back,
    /// whatever follows them.
    pub proof fn lemma_decode_fields(block: u64, blocksize: u32, padding: u32, rest: Seq<u8>)
        ensures
            Self::spec_decode(le64(block) + le32(blocksize) + le32(padding) + rest) == (FuseBmapIn { block, blocksize, padding }),
    {
        lemma_le_roundtrip();
        let b = le64(block) + le32(blocksize) + le32(padding) + rest;
        assert(b.subrange(0, 8) =~= le64(block));
        lemma_u64_at_le(b, 0, block);
        assert(b.subrange(8, 12) =~= le32(blocksize));
        lemma_u32_at_le(b, 8, blocksize);
        assert(b.subrange(12, 16) =~= le32(padding));
        lemma_u32_at_le(b, 12, padding);
    }
}

impl FusePollIn {
    /// Decoding the kernel's layout of these fields (each little endian, in
    /// the order declared, with nothing between them) gives the fields back,
    /// whatever follows them.
    pub proof fn lemma_decode_fields(fh: u64, kh: u64, flags: u32, events: u32, rest: Seq<u8>)
        ensures
            Self::spec_decode(le64(fh) + le64(kh) + le32(flags) + le32(events) + rest) == (FusePollIn { fh, kh, flags, events }),
    {
        lemma_le_roundtrip();
        let b = le64(fh) + le64(kh) + le32(flags) + le32(events) + rest;
        assert(b.subrange(0, 8) =~= le64(fh));
        lemma_u64_at_le(b, 0, fh);
        assert(b.subrange(8, 16) =~= le64(kh));
        lemma_u64_at_le(b, 8, kh);
        assert(b.subrange(16, 20) =~= le32(flags));
        lemma_u32_at_le(b, 16, flags);
        assert(b.subrange(20, 24) =~= le32(events));
        lemma_u32_at_le(b, 20, events);
    }
}

impl FuseNotifyRetrieveIn {
    /// Decoding the kernel's layout of these fields (each little endian, in
    /// the order declared, with nothing between them) gives the fields back,
    /// whatever follows them.
    pub proof fn lemma_decode_fields(dummy1: u64, offset: u64, size: u32, dummy2: u32, dummy3: u64, dummy4: u64, rest: Seq<u8>)
        ensures
            Self::spec_decode(le64(dummy1) + le64(offset) + le32(size) + le32(dummy2) + le64(dummy3) + le64(dummy4) + rest) == (FuseNotifyRetrieveIn { dummy1, offset, size, dummy2, dummy3, dummy4 }),
    {
        lemma_le_roundtrip();
        let b = le64(dummy1) + le64(offset) + le32(size) + le32(dummy2) + le64(dummy3) + le64(dummy4) + rest;
        assert(b.subrange(0, 8) =~= le64(dummy1));
        lemma_u64_at_le(b, 0, dummy1);
        assert(b.subrange(8, 16) =~= le64(offset));
        lemma_u64_at_le(b, 8, offset);
        assert(b.subrange(16, 20) =~= le32(size));
        lemma_u32_at_le(b, 16, size);
        assert(b.subrange(20, 24) =~= le32(dummy2));
        lemma_u32_at_le(b, 20, dummy2);
        assert(b.subrange(24, 32) =~= le64(dummy3));
        lemma_u64_at_le(b, 24, dummy3);
        assert(b.subrange(32, 40) =~= le64(dummy4));
        lemma_u64_at_le(b, 32, dummy4);
    }
}

impl FuseBatchForgetIn {
    /// Decoding the kernel's layout of these fields (each little endian, in
    /// the order declared, with nothing between them) gives the fields back,
    /// whatever follows them.
    pub proof fn lemma_decode_fields(count: u32, dummy: u32, rest: Seq<u8>)
        ensures
            Self::spec_decode(le32(count) + le32(dummy) + rest) == (FuseBatchForgetIn { count, dummy }),
    {
        lemma_le_roundtrip();
        let b = le32(count) + le32(dummy) + rest;
        assert(b.subrange(0, 4) =~= le32(count));
        lemma_u32_at_le(b, 0, count);
        assert(b.subrange(4, 8) =~= le32(dummy));
        lemma_u32_at_le(b, 4, dummy);
    }
}

impl FuseForgetOne {
    /// Decoding the kernel's layout of these fields (each little endian, in
    /// the order declared, with nothing between them) gives the fields back,
    /// whatever follows them.
    pub proof fn lemma_decode_fields(nodeid: u64, nlookup: u64, rest: Seq<u8>)
        ensures
            Self::spec_decode(le64(nodeid) + le64(nlookup) + rest) == (FuseForgetOne { nodeid, nlookup }),
    {
        lemma_le_roundtrip();
        let b = le64(nodeid) + le64(nlookup) + rest;
        assert(b.subrange(0, 8) =~= le64(nodeid));
        lemma_u64_at_le(b, 0, nodeid);
        assert(b.subrange(8, 16) =~= le64(nlookup));
        lemma_u64_at_le(b, 8, nlookup);
    }
}

impl FuseFallocateIn {
    /// Decoding the kernel's layout of these fields (each little endian, in
    /// the order declared, with nothing between them) gives the fields back,
    /// whatever follows them.
    pub proof fn lemma_decode_fields(fh: u64, offset: u64, length: u64, mode: u32, padding: u32, rest: Seq<u8>)
        ensures
            Self::spec_decode(le64(fh) + le64(offset) + le64(length) + le32(mode) + le32(padding) + rest) == (FuseFallocateIn { fh, offset, length, mode, padding }),
    {
        lemma_le_roundtrip();
        let b = le64(fh) + le64(offset) + le64(length) + le32(mode) + le32(padding) + rest;
        assert(b.subrange(0, 8) =~= le64(fh));
        lemma_u64_at_le(b, 0, fh);
        assert(b.subrange(8, 16) =~= le64(offset));
        lemma_u64_at_le(b, 8, offset);
        assert(b.subrange(16, 24) =~= le64(length));
        lemma_u64_at_le(b, 16, length);
        assert(b.subrange(24, 28) =~= le32(mode));
        lemma_u32_at_le(b, 24, mode);
        assert(b.subrange(28, 32) =~= le32(padding));
        lemma_u32_at_le(b, 28, padding);
    }
}

impl FuseLseekIn {
    /// Decoding the kernel's layout of these fields (each little endian, in
    /// the order declared, with nothing between them) gives the fields back,
    /// whatever follows them.
    pub proof fn lemma_decode_fields(fh: u64, offset: u64, whence: u32, padding: u32, rest: Seq<u8>)
        ensures
            Self::spec_decode(le64(fh) + le64(offset) + le32(whence) + le32(padding) + rest) == (FuseLseekIn { fh, offset, whence, padding }),
    {
        lemma_le_roundtrip();
        let b = le64(fh) + le64(offset) + le32(whence) + le32(padding) + rest;
        assert(b.subrange(0, 8) =~= le64(fh));
        lemma_u64_at_le(b, 0, fh);
        assert(b.subrange(8, 16) =~= le64(offset));
        lemma_u64_at_le(b, 8, offset);
        assert(b.subrange(16, 20) =~= le32(whence));
        lemma_u32_at_le(b, 16, whence);
        assert(b.subrange(20, 24) =~= le32(padding));
        lemma_u32_at_le(b, 20, padding);
    }
}

impl FuseCopyFileRangeIn {
    /// Decoding the kernel's layout of these fields (each little endian, in
    /// the order declared, with nothing between them) gives the fields back,
    /// whatever follows them.
    pub proof fn lemma_decode_fields(fh_in: u64, off_in: u64, nodeid_out: u64, fh_out: u64, off_out: u64, len: u64, flags: u64, rest: Seq<u8>)
        ensures
            Self::spec_decode(le64(fh_in) + le64(off_in) + le64(nodeid_out) + le64(fh_out) + le64(off_out) + le64(len) + le64(flags) + rest) == (FuseCopyFileRangeIn { fh_in, off_in, nodeid_out, fh_out, off_out, len, flags }),
    {
        lemma_le_roundtrip();
        let b = le64(fh_in) + le64(off_in) + le64(nodeid_out) + le64(fh_out) + le64(off_out) + le64(len) + le64(flags) + rest;
        assert(b.subrange(0, 8) =~= le64(fh_in));
        lemma_u64_at_le(b, 0, fh_in);
        assert(b.subrange(8, 16) =~= le64(off_in));
        lemma_u64_at_le(b, 8, off_in);
        assert(b.subrange(16, 24) =~= le64(nodeid_out));
        lemma_u64_at_le(b, 16, nodeid_out);
        assert(b.subrange(24, 32) =~= le64(fh_out));
        lemma_u64_at_le(b, 24, fh_out);
        assert(b.subrange(32, 40) =~= le64(off_out));
        lemma_u64_at_le(b, 32, off_out);
        assert(b.subrange(40, 48) =~= le64(len));
        lemma_u64_at_le(b, 40, len);
        assert(b.subrange(48, 56) =~= le64(flags));
        lemma_u64_at_le(b, 48, flags);
    }
}

impl FuseOutHeader {
    /// Each field stands, little endian, at its place in the encoding: the
    /// fields in the order declared, with nothing between them.
    pub proof fn lemma_encode_fields(self)
        ensures
            self.spec_encode().len() >= 16,
            u32_at(self.spec_encode(), 0) == self.len,
            u32_at(self.spec_encode(), 4) == self.error as u32,
            u64_at(self.spec_encode(), 8) == self.unique,
    {
        lemma_le_roundtrip();
        self.lemma_encode_len();
        let e = self.spec_encode();
        assert(e.subrange(0, 4) =~= le32(self.len));
        lemma_u32_at_le(e, 0, self.len);
        assert(e.subrange(4, 8) =~= le32(self.error as u32));
        lemma_u32_at_le(e, 4, self.error as u32);
        assert(e.subrange(8, 16) =~= le64(self.unique));
        lemma_u64_at_le(e, 8, self.unique);
    }
}

impl FuseAttr {
    /// Each field stands, little endian, at its place in the encoding: the
    /// fields in the order declared, with nothing between them.
    pub proof fn lemma_encode_fields(self)
        ensures
            self.spec_encode().len() >= 88,
            u64_at(self.spec_encode(), 0) == self.ino,
            u64_at(self.spec_encode(), 8) == self.size,
            u64_at(self.spec_encode(), 16) == self.blocks,
            u64_at(self.spec_encode(), 24) == self.atime,
            u64_at(self.spec_encode(), 32) == self.mtime,
            u64_at(self.spec_encode(), 40) == self.ctime,
            u32_at(self.spec_encode(), 48) == self.atimensec,
            u32_at(self.spec_encode(), 52) == self.mtimensec,
            u32_at(self.spec_encode(), 56) == self.ctimensec,
            u32_at(self.spec_encode(), 60) == self.mode,
            u32_at(self.spec_encode(), 64) == self.nlink,
            u32_at(self.spec_encode(), 68) == self.uid,
            u32_at(self.spec_encode(), 72) == self.gid,
            u32_at(self.spec_encode(), 76) == self.rdev,
            u32_at(self.spec_encode(), 80) == self.blksize,
            u32_at(self.spec_encode(), 84) == self.padding,
    {
        lemma_le_roundtrip();
        self.lemma_encode_len();
        let e = self.spec_encode();
        assert(e.subrange(0, 8) =~= le64(self.ino));
        lemma_u64_at_le(e, 0, self.ino);
        assert(e.subrange(8, 16) =~= le64(self.size));
        lemma_u64_at_le(e, 8, self.size);
        assert(e.subrange(16, 24) =~= le64(self.blocks));
        lemma_u64_at_le(e, 16, self.blocks);
        assert(e.subrange(24, 32) =~= le64(self.atime));
        lemma_u64_at_le(e, 24, self.atime);
        assert(e.subrange(32, 40) =~= le64(self.mtime));
        lemma_u64_at_le(e, 32, self.mtime);
        assert(e.subrange(40, 48) =~= le64(self.ctime));
        lemma_u64_at_le(e, 40, self.ctime);
        assert(e.subrange(48, 52) =~= le32(self.atimensec));
        lemma_u32_at_le(e, 48, self.atimensec);
        assert(e.subrange(52, 56) =~= le32(self.mtimensec));
        lemma_u32_at_le(e, 52, self.mtimensec);
        assert(e.subrange(56, 60) =~= le32(self.ctimensec));
        lemma_u32_at_le(e, 56, self.ctimensec);
        assert(e.subrange(60, 64) =~= le32(self.mode));
        lemma_u32_at_le(e, 60, self.mode);
        assert(e.subrange(64, 68) =~= le32(self.nlink));
        lemma_u32_at_le(e, 64, self.nlink);
        assert(e.subrange(68, 72) =~= le32(self.uid));
        lemma_u32_at_le(e, 68, self.uid);
        assert(e.subrange(72, 76) =~= le32(self.gid));
        lemma_u32_at_le(e, 72, self.gid);
        assert(e.subrange(76, 80) =~= le32(self.rdev));
        lemma_u32_at_le(e, 76, self.rdev);
        assert(e.subrange(80, 84) =~= le32(self.blksize));
        lemma_u32_at_le(e, 80, self.blksize);
        assert(e.subrange(84, 88) =~= le32(self.padding));
        lemma_u32_at_le(e, 84, self.padding);
    }
}

impl FuseEntryOut {
    /// Each field stands, little endian, at its place in the encoding: the
    /// fields in the order declared, with nothing between them.
    pub proof fn lemma_encode_fields(self)
        ensures
            self.spec_encode().len() >= 128,
            u64_at(self.spec_encode(), 0) == self.nodeid,
            u64_at(self.spec_encode(), 8) == self.generation,
            u64_at(self.spec_encode(), 16) == self.entry_valid,
            u64_at(self.spec_encode(), 24) == self.attr_valid,
            u32_at(self.spec_encode(), 32) == self.entry_valid_nsec,
            u32_at(self.spec_encode(), 36) == self.attr_valid_nsec,
            self.spec_encode().subrange(40, 128) == self.attr.spec_encode(),
    {
        lemma_le_roundtrip();
        self.lemma_encode_len();
        let e = self.spec_encode();
        self.attr.lemma_encode_len();
        assert(e.subrange(0, 8) =~= le64(self.nodeid));
        lemma_u64_at_le(e, 0, self.nodeid);
        assert(e.subrange(8, 16) =~= le64(self.generation));
        lemma_u64_at_le(e, 8, self.generation);
        assert(e.subrange(16, 24) =~= le64(self.entry_valid));
        lemma_u64_at_le(e, 16, self.entry_valid);
        assert(e.subrange(24, 32) =~= le64(self.attr_valid));
        lemma_u64_at_le(e, 24, self.attr_valid);
        assert(e.subrange(32, 36) =~= le32(self.entry_valid_nsec));
        lemma_u32_at_le(e, 32, self.entry_valid_nsec);
        assert(e.subrange(36, 40) =~= le32(self.attr_valid_nsec));
        lemma_u32_at_le(e, 36, self.attr_valid_nsec);
        assert(e.subrange(40, 128) =~= self.attr.spec_encode());
    }
}

impl FuseAttrOut {
    /// Each field stands, little endian, at its place in the encoding: the
    /// fields in the order declared, with nothing between them.
    pub proof fn lemma_encode_fields(self)
        ensures
            self.spec_encode().len() >= 104,
            u64_at(self.spec_encode(), 0) == self.attr_valid,
            u32_at(self.spec_encode(), 8) == self.attr_valid_nsec,
            u32_at(self.spec_encode(), 12) == self.dummy,
            self.spec_encode().subrange(16, 104) == self.attr.spec_encode(),
    {
        lemma_le_roundtrip();
        self.lemma_encode_len();
        let e = self.spec_encode();
        self.attr.lemma_encode_len();
        assert(e.subrange(0, 8) =~= le64(self.attr_valid));
        lemma_u64_at_le(e, 0, self.attr_valid);
        assert(e.subrange(8, 12) =~= le32(self.attr_valid_nsec));
        lemma_u32_at_le(e, 8, self.attr_valid_nsec);
        assert(e.subrange(12, 16) =~= le32(self.dummy));
        lemma_u32_at_le(e, 12, self.dummy);
        assert(e.subrange(16, 104) =~= self.attr.spec_encode());
    }
}

impl FuseOpenOut {
    /// Each field stands, little endian, at its place in the encoding: the
    /// fields in the order declared, with nothing between them.
    pub proof fn lemma_encode_fields(self)
        ensures
            self.spec_encode().len() >= 16,
            u64_at(self.spec_encode(), 0) == self.fh,
            u32_at(self.spec_encode(), 8) == self.open_flags,
            u32_at(self.spec_encode(), 12) == self.padding,
    {
        lemma_le_roundtrip();
        self.lemma_encode_len();
        let e = self.spec_encode();
        assert(e.subrange(0, 8) =~= le64(self.fh));
        lemma_u64_at_le(e, 0, self.fh);
        assert(e.subrange(8, 12) =~= le32(self.open_flags));
        lemma_u32_at_le(e, 8, self.open_flags);
        assert(e.subrange(12, 16) =~= le32(self.padding));
        lemma_u32_at_le(e, 12, self.padding);
    }
}

impl FuseWriteOut {
    /// Each field stands, little endian, at its place in the encoding: the
    /// fields in the order declared, with nothing between them.
    pub proof fn lemma_encode_fields(self)
        ensures
            self.spec_encode().len() >= 8,
            u32_at(self.spec_encode(), 0) == self.size,
            u32_at(self.spec_encode(), 4) == self.padding,
    {
        lemma_le_roundtrip();
        self.lemma_encode_len();
        let e = self.spec_encode();
        assert(e.subrange(0, 4) =~= le32(self.size));
        lemma_u32_at_le(e, 0, self.size);
        assert(e.subrange(4, 8) =~= le32(self.padding));
        lemma_u32_at_le(e, 4, self.padding);
    }
}

impl FuseStatfsOut {
    /// Each field stands, little endian, at its place in the encoding: the
    /// fields in the order declared, with nothing between them.
    pub proof fn lemma_encode_fields(self)
        ensures
            self.spec_encode().len() >= 56,
            u64_at(self.spec_encode(), 0) == self.blocks,
            u64_at(self.spec_encode(), 8) == self.bfree,
            u64_at(self.spec_encode(), 16) == self.bavail,
            u64_at(self.spec_encode(), 24) == self.files,
            u64_at(self.spec_encode(), 32) == self.ffree,
            u32_at(self.spec_encode(), 40) == self.bsize,
            u32_at(self.spec_encode(), 44) == self.namelen,
            u32_at(self.spec_encode(), 48) == self.frsize,
            u32_at(self.spec_encode(), 52) == self.padding,
    {
        lemma_le_roundtrip();
        self.lemma_encode_len();
        let e = self.spec_encode();
        assert(e.subrange(0, 8) =~= le64(self.blocks));
        lemma_u64_at_le(e, 0, self.blocks);
        assert(e.subrange(8, 16) =~= le64(self.bfree));
        lemma_u64_at_le(e, 8, self.bfree);
        assert(e.subrange(16, 24) =~= le64(self.bavail));
        lemma_u64_at_le(e, 16, self.bavail);
        assert(e.subrange(24, 32) =~= le64(self.files));
        lemma_u64_at_le(e, 24, self.files);
        assert(e.subrange(32, 40) =~= le64(self.ffree));
        lemma_u64_at_le(e, 32, self.ffree);
        assert(e.subrange(40, 44) =~= le32(self.bsize));
        lemma_u32_at_le(e, 40, self.bsize);
        assert(e.subrange(44, 48) =~= le32(self.namelen));
        lemma_u32_at_le(e, 44, self.namelen);
        assert(e.subrange(48, 52) =~= le32(self.frsize));
        lemma_u32_at_le(e, 48, self.frsize);
        assert(e.subrange(52, 56) =~= le32(self.padding));
        lemma_u32_at_le(e, 52, self.padding);
    }
}

impl FuseGetxattrOut {
    /// Each field stands, little endian, at its place in the encoding: the
    /// fields in the order declared, with nothing between them.
    pub proof fn lemma_encode_fields(self)
        ensures
            self.spec_encode().len() >= 8,
            u32_at(self.spec_encode(), 0) == self.size,
            u32_at(self.spec_encode(), 4) == self.padding,
    {
        lemma_le_roundtrip();
        self.lemma_encode_len();
        let e = self.spec_encode();
        assert(e.subrange(0, 4) =~= le32(self.size));
        lemma_u32_at_le(e, 0, self.size);
        assert(e.subrange(4, 8) =~= le32(self.padding));
        lemma_u32_at_le(e, 4, self.padding);
    }
}

impl FuseLkOut {
    /// Each field stands, little endian, at its place in the encoding: the
    /// fields in the order declared, with nothing between them.
    pub proof fn lemma_encode_fields(self)
        ensures
            self.spec_encode().len() >= 24,
            u64_at(self.spec_encode(), 0) == self.start,
            u64_at(self.spec_encode(), 8) == self.end,
            u32_at(self.spec_encode(), 16) == self.lk_type,
            u32_at(self.spec_encode(), 20) == self.pid,
    {
        lemma_le_roundtrip();
        self.lemma_encode_len();
        let e = self.spec_encode();
        assert(e.subrange(0, 8) =~= le64(self.start));
        lemma_u64_at_le(e, 0, self.start);
        assert(e.subrange(8, 16) =~= le64(self.end));
        lemma_u64_at_le(e, 8, self.end);
        assert(e.subrange(16, 20) =~= le32(self.lk_type));
        lemma_u32_at_le(e, 16, self.lk_type);
        assert(e.subrange(20, 24) =~= le32(self.pid));
        lemma_u32_at_le(e, 20, self.pid);
    }
}

impl FuseBmapOut {
    /// Each field stands, little endian, at its place in the encoding: the
    /// fields in the order declared, with nothing between them.
    pub proof fn lemma_encode_fields(self)
        ensures
            self.spec_encode().len() >= 8,
            u64_at(self.spec_encode(), 0) == self.block,
    {
        lemma_le_roundtrip();
        self.lemma_encode_len();
        let e = self.spec_encode();
        assert(e.subrange(0, 8) =~= le64(self.block));
        lemma_u64_at_le(e, 0, self.block);
    }
}

impl FusePollOut {
    /// Each field stands, little endian, at its place in the encoding: the
    /// fields in the order declared, with nothing between them.
    pub proof fn lemma_encode_fields(self)
        ensures
            self.spec_encode().len() >= 8,
            u32_at(self.spec_encode(), 0) == self.revents,
            u32_at(self.spec_encode(), 4) == self.padding,
    {
        lemma_le_roundtrip();
        self.lemma_encode_len();
        let e = self.spec_encode();
        assert(e.subrange(0, 4) =~= le32(self.revents));
        lemma_u32_at_le(e, 0, self.revents);
        assert(e.subrange(4, 8) =~= le32(self.padding));
        lemma_u32_at_le(e, 4, self.padding);
    }
}

impl FuseLseekOut {
    /// Each field stands, little endian, at its place in the encoding: the
    /// fields in the order declared, with nothing between them.
    pub proof fn lemma_encode_fields(self)
        ensures
            self.spec_encode().len() >= 8,
            u64_at(self.spec_encode(), 0) == self.offset,
    {
        lemma_le_roundtrip();
        self.lemma_encode_len();
        let e = self.spec_encode();
        assert(e.subrange(0, 8) =~= le64(self.offset));
        lemma_u64_at_le(e, 0, self.offset);
    }
}

impl FuseInitOut {
    /// Each field stands, little endian, at its place in the encoding: the
    /// fields in the order declared, with nothing between them.
    pub proof fn lemma_encode_fields(self)
        ensures
            self.spec_encode().len() >= 32,
            u32_at(self.spec_encode(), 0) == self.major,
            u32_at(self.spec_encode(), 4) == self.minor,
            u32_at(self.spec_encode(), 8) == self.max_readahead,
            u32_at(self.spec_encode(), 12) == self.flags,
            self.spec_encode().subrange(16, 18) == le16(self.max_background),
            self.spec_encode().subrange(18, 20) == le16(self.congestion_threshold),
            u32_at(self.spec_encode(), 20) == self.max_write,
            u32_at(self.spec_encode(), 24) == self.time_gran,
            self.spec_encode().subrange(28, 30) == le16(self.max_pages),
            self.spec_encode().subrange(30, 32) == le16(self.map_alignment),
    {
        lemma_le_roundtrip();
        self.lemma_encode_len();
        let e = self.spec_encode();
        assert(e.subrange(0, 4) =~= le32(self.major));
        lemma_u32_at_le(e, 0, self.major);
        assert(e.subrange(4, 8) =~= le32(self.minor));
        lemma_u32_at_le(e, 4, self.minor);
        assert(e.subrange(8, 12) =~= le32(self.max_readahead));
        lemma_u32_at_le(e, 8, self.max_readahead);
        assert(e.subrange(12, 16) =~= le32(self.flags));
        lemma_u32_at_le(e, 12, self.flags);
        assert(e.subrange(16, 18) =~= le16(self.max_background));
        assert(e.subrange(18, 20) =~= le16(self.congestion_threshold));
        assert(e.subrange(20, 24) =~= le32(self.max_write));
        lemma_u32_at_le(e, 20, self.max_write);
        assert(e.subrange(24, 28) =~= le32(self.time_gran));
        lemma_u32_at_le(e, 24, self.time_gran);
        assert(e.subrange(28, 30) =~= le16(self.max_pages));
        assert(e.subrange(30, 32) =~= le16(self.map_alignment));
    }
}

impl FuseDirent {
    /// Each field stands, little endian, at its place in the encoding: the
    /// fields in the order declared, with nothing between them.
    pub proof fn lemma_encode_fields(self)
        ensures
            self.spec_encode().len() >= 24,
            u64_at(self.spec_encode(), 0) == self.ino,
            u64_at(self.spec_encode(), 8) == self.off,
            u32_at(self.spec_encode(), 16) == self.namelen,
            u32_at(self.spec_encode(), 20) == self.dirent_type,
    {
        lemma_le_roundtrip();
        self.lemma_encode_len();
        let e = self.spec_encode();
        assert(e.subrange(0, 8) =~= le64(self.ino));
        lemma_u64_at_le(e, 0, self.ino);
        assert(e.subrange(8, 16) =~= le64(self.off));
        lemma_u64_at_le(e, 8, self.off);
        assert(e.subrange(16, 20) =~= le32(self.namelen));
        lemma_u32_at_le(e, 16, self.namelen);
        assert(e.subrange(20, 24) =~= le32(self.dirent_type));
        lemma_u32_at_le(e, 20, self.dirent_type);
    }
}

impl FuseDirentplus {
    /// Each field stands, little endian, at its place in the encoding: the
    /// fields in the order declared, with nothing between them.
    pub proof fn lemma_encode_fields(self)
        ensures
            self.spec_encode().len() >= 152,
            self.spec_encode().subrange(0, 128) == self.entry_out.spec_encode(),
            self.spec_encode().subrange(128, 152) == self.dirent.spec_encode(),
    {
        lemma_le_roundtrip();
        self.lemma_encode_len();
        let e = self.spec_encode();
        self.dirent.lemma_encode_len();
        self.entry_out.lemma_encode_len();
        assert(e.subrange(0, 128) =~= self.entry_out.spec_encode());
        assert(e.subrange(128, 152) =~= self.dirent.spec_encode());
    }
}

impl FuseNotifyPollWakeupOut {
    /// Each field stands, little endian, at its place in the encoding: the
    /// fields in the order declared, with nothing between them.
    pub proof fn lemma_encode_fields(self)
        ensures
            self.spec_encode().len() >= 8,
            u64_at(self.spec_encode(), 0) == self.kh,
    {
        lemma_le_roundtrip();
        self.lemma_encode_len();
        let e = self.spec_encode();
        assert(e.subrange(0, 8) =~= le64(self.kh));
        lemma_u64_at_le(e, 0, self.kh);
    }
}

impl FuseNotifyInvalInodeOut {
    /// Each field stands, little endian, at its place in the encoding: the
    /// fields in the order declared, with nothing between them.
    pub proof fn lemma_encode_fields(self)
        ensures
            self.spec_encode().len() >= 24,
            u64_at(self.spec_encode(), 0) == self.ino,
            u64_at(self.spec_encode(), 8) == self.off as u64,
            u64_at(self.spec_encode(), 16) == self.len as u64,
    {
        lemma_le_roundtrip();
        self.lemma_encode_len();
        let e = self.spec_encode();
        assert(e.subrange(0, 8) =~= le64(self.ino));
        lemma_u64_at_le(e, 0, self.ino);
        assert(e.subrange(8, 16) =~= le64(self.off as u64));
        lemma_u64_at_le(e, 8, self.off as u64);
        assert(e.subrange(16, 24) =~= le64(self.len as u64));
        lemma_u64_at_le(e, 16, self.len as u64);
    }
}

impl FuseNotifyInvalEntryOut {
    /// Each field stands, little endian, at its place in the encoding: the
    /// fields in the order declared, with nothing between them.
    pub proof fn lemma_encode_fields(self)
        ensures
            self.spec_encode().len() >= 16,
            u64_at(self.spec_encode(), 0) == self.parent,
            u32_at(self.spec_encode(), 8) == self.namelen,
            u32_at(self.spec_encode(), 12) == self.padding,
    {
        lemma_le_roundtrip();
        self.lemma_encode_len();
        let e = self.spec_encode();
        assert(e.subrange(0, 8) =~= le64(self.parent));
        lemma_u64_at_le(e, 0, self.parent);
        assert(e.subrange(8, 12) =~= le32(self.namelen));
        lemma_u32_at_le(e, 8, self.namelen);
        assert(e.subrange(12, 16) =~= le32(self.padding));
        lemma_u32_at_le(e, 12, self.padding);
    }
}

impl FuseNotifyDeleteOut {
    /// Each field stands, little endian, at its place in the encoding: the
    /// fields in the order declared, with nothing between them.
    pub proof fn lemma_encode_fields(self)
        ensures
            self.spec_encode().len() >= 24,
            u64_at(self.spec_encode(), 0) == self.parent,
            u64_at(self.spec_encode(), 8) == self.child,
            u32_at(self.spec_encode(), 16) == self.namelen,
            u32_at(self.spec_encode(), 20) == self.padding,
    {
        lemma_le_roundtrip();
        self.lemma_encode_len();
        let e = self.spec_encode();
        assert(e.subrange(0, 8) =~= le64(self.parent));
        lemma_u64_at_le(e, 0, self.parent);
        assert(e.subrange(8, 16) =~= le64(self.child));
        lemma_u64_at_le(e, 8, self.child);
        assert(e.subrange(16, 20) =~= le32(self.namelen));
        lemma_u32_at_le(e, 16, self.namelen);
        assert(e.subrange(20, 24) =~= le32(self.padding));
        lemma_u32_at_le(e, 20, self.padding);
    }
}

impl FuseNotifyStoreOut {
    /// Each field stands, little endian, at its place in the encoding: the
    /// fields in the order declared, with nothing between them.
    pub proof fn lemma_encode_fields(self)
        ensures
            self.spec_encode().len() >= 24,
            u64_at(self.spec_encode(), 0) == self.nodeid,
            u64_at(self.spec_encode(), 8) == self.offset,
            u32_at(self.spec_encode(), 16) == self.size,
            u32_at(self.spec_encode(), 20) == self.padding,
    {
        lemma_le_roundtrip();
        self.lemma_encode_len();
        let e = self.spec_encode();
        assert(e.subrange(0, 8) =~= le64(self.nodeid));
        lemma_u64_at_le(e, 0, self.nodeid);
        assert(e.subrange(8, 16) =~= le64(self.offset));
        lemma_u64_at_le(e, 8, self.offset);
        assert(e.subrange(16, 20) =~= le32(self.size));
        lemma_u32_at_le(e, 16, self.size);
        assert(e.subrange(20, 24) =~= le32(self.padding));
        lemma_u32_at_le(e, 20, self.padding);
    }
}

impl FuseNotifyRetrieveOut {
    /// Each field stands, little endian, at its place in the encoding: the
    /// fields in the order declared, with nothing between them.
    pub proof fn lemma_encode_fields(self)
        ensures
            self.spec_encode().len() >= 32,
            u64_at(self.spec_encode(), 0) == self.notify_unique,
            u64_at(self.spec_encode(), 8) == self.nodeid,
            u64_at(self.spec_encode(), 16) == self.offset,
            u32_at(self.spec_encode(), 24) == self.size,
            u32_at(self.spec_encode(), 28) == self.padding,
    {
        lemma_le_roundtrip();
        self.lemma_encode_len();
        let e = self.spec_encode();
        assert(e.subrange(0, 8) =~= le64(self.notify_unique));
        lemma_u64_at_le(e, 0, self.notify_unique);
        assert(e.subrange(8, 16) =~= le64(self.nodeid));
        lemma_u64_at_le(e, 8, self.nodeid);
        assert(e.subrange(16, 24) =~= le64(self.offset));
        lemma_u64_at_le(e, 16, self.offset);
        assert(e.subrange(24, 28) =~= le32(self.size));
        lemma_u32_at_le(e, 24, self.size);
        assert(e.subrange(28, 32) =~= le32(self.padding));
        lemma_u32_at_le(e, 28, self.padding);
    }
}

} // verus!
