//! An asynchronous FUSE user-space library: the verified core.
//!
//! This crate holds the parts of the library that decide: the kernel wire format
//! (requests are decoded, replies and notifications are encoded), the
//! path/inode bookkeeping of the path based filesystem adapter, mount option
//! strings and the attribute conversions. Everything that talks to the kernel
//! device, spawns tasks or runs user filesystem code lives outside of it.

pub mod errno;
pub mod helper;
pub mod mount_option;
pub mod mount_options;
pub mod notify;
pub mod path;
pub mod raw;
pub mod reply;
pub mod request;
pub mod text;
pub mod wire;

pub use errno::Errno;
pub use helper::perm_from_mode_and_kind;
pub use mount_options::MountOptions;
pub use request::Request;

use crate::raw::abi::{
    FuseAttr, FuseSetattrIn, FATTR_ATIME, FATTR_ATIME_NOW, FATTR_CTIME, FATTR_GID, FATTR_LOCKOWNER,
    FATTR_MODE, FATTR_MTIME, FATTR_MTIME_NOW, FATTR_SIZE, FATTR_UID,
};
use vstd::prelude::*;

verus! {

/// An inode number.
pub type Inode = u64;

/// pre-defined Result, the Err type is [`Errno`].
pub type Result<T> = core::result::Result<T, Errno>;

/// A point in time: `sec` seconds (negative before 1970) and `nsec` nanoseconds
/// after the Unix epoch, as `SystemTime` holds it.
#[derive(Clone, Copy, Debug, PartialEq, Eq, Structural)]
pub struct Timestamp {
    /// whole seconds since the epoch.
    pub sec: i64,
    /// nanoseconds past `sec`, below one billion.
    pub nsec: u32,
}

impl Timestamp {
    /// Seconds since the epoch as the kernel wants them: zero for a time before the epoch.
    pub open spec fn spec_epoch_secs(self) -> u64 {
        if self.sec < 0 { 0 } else { self.sec as u64 }
    }

    /// Nanoseconds past the second as the kernel wants them: zero for a time before the epoch.
    pub open spec fn spec_epoch_nanos(self) -> u32 {
        if self.sec < 0 { 0 } else { self.nsec }
    }

    /// Seconds since the epoch, zero for a time before the epoch.
    pub fn epoch_secs(&self) -> (r: u64)
        ensures
            r == self.spec_epoch_secs(),
    {
        if self.sec < 0 { 0 } else { self.sec as u64 }
    }

    /// Nanoseconds past the second, zero for a time before the epoch.
    pub fn epoch_nanos(&self) -> (r: u32)
        ensures
            r == self.spec_epoch_nanos(),
    {
        if self.sec < 0 { 0 } else { self.nsec }
    }
}

/// A span of time: `secs` seconds and `nanos` nanoseconds, as `Duration` holds it.
#[derive(Clone, Copy, Debug, PartialEq, Eq, Structural)]
pub struct Ttl {
    /// whole seconds.
    pub secs: u64,
    /// nanoseconds past `secs`, below one billion.
    pub nanos: u32,
}

impl Ttl {
    /// Whole seconds.
    pub fn as_secs(&self) -> (r: u64)
        ensures
            r == self.secs,
    {
        self.secs
    }

    /// Nanoseconds past the whole seconds.
    pub fn subsec_nanos(&self) -> (r: u32)
        ensures
            r == self.nanos,
    {
        self.nanos
    }
}

/// File types
#[derive(Clone, Copy, Debug, PartialEq, Eq, Structural, Hash)]
pub enum FileType {
    /// Named pipe (S_IFIFO)
    NamedPipe,
    /// Character device (S_IFCHR)
    CharDevice,
    /// Block device (S_IFBLK)
    BlockDevice,
    /// Directory (S_IFDIR)
    Directory,
    /// Regular file (S_IFREG)
    RegularFile,
    /// Symbolic link (S_IFLNK)
    Symlink,
    /// Unix domain socket (S_IFSOCK)
    Socket,
}

/// The file type bits (`S_IF*`) of a mode for each kind of file.
pub open spec fn file_type_mode(kind: FileType) -> u32 {
    match kind {
        FileType::NamedPipe => 0o010000,
        FileType::CharDevice => 0o020000,
        FileType::BlockDevice => 0o060000,
        FileType::Directory => 0o040000,
        FileType::RegularFile => 0o100000,
        FileType::Symlink => 0o120000,
        FileType::Socket => 0o140000,
    }
}

/// The file type bits (`S_IF*`) of a mode for a kind of file.
pub fn file_type_mode_exec(kind: FileType) -> (r: u32)
    ensures
        r == file_type_mode(kind),
{
    match kind {
        FileType::NamedPipe => 0o010000,
        FileType::CharDevice => 0o020000,
        FileType::BlockDevice => 0o060000,
        FileType::Directory => 0o040000,
        FileType::RegularFile => 0o100000,
        FileType::Symlink => 0o120000,
        FileType::Socket => 0o140000,
    }
}

/// file attributes
#[derive(Clone, Copy, Debug, PartialEq, Eq, Structural)]
pub struct FileAttr {
    /// Inode number
    pub ino: u64,
    /// Generation
    pub generation: u64,
    /// Size in bytes
    pub size: u64,
    /// Size in blocks
    pub blocks: u64,
    /// Time of last access
    pub atime: Timestamp,
    /// Time of last modification
    pub mtime: Timestamp,
    /// Time of last change
    pub ctime: Timestamp,
    /// Kind of file (directory, file, pipe, etc)
    pub kind: FileType,
    /// Permissions
    pub perm: u16,
    /// Number of hard links
    pub nlink: u32,
    /// User id
    pub uid: u32,
    /// Group id
    pub gid: u32,
    /// Rdev
    pub rdev: u32,
    /// block size
    pub blksize: u32,
}

impl FileAttr {
    /// The attributes as the kernel reads them.
    pub open spec fn spec_to_fuse_attr(self) -> FuseAttr {
        FuseAttr {
            ino: self.ino,
            size: self.size,
            blocks: self.blocks,
            atime: self.atime.spec_epoch_secs(),
            mtime: self.mtime.spec_epoch_secs(),
            ctime: self.ctime.spec_epoch_secs(),
            atimensec: self.atime.spec_epoch_nanos(),
            mtimensec: self.mtime.spec_epoch_nanos(),
            ctimensec: self.ctime.spec_epoch_nanos(),
            mode: helper::spec_mode_from_kind_and_perm(self.kind, self.perm),
            nlink: self.nlink,
            uid: self.uid,
            gid: self.gid,
            rdev: self.rdev,
            blksize: self.blksize,
            padding: 0,
        }
    }

    /// The attributes as the kernel reads them.
    pub fn to_fuse_attr(&self) -> (r: FuseAttr)
        ensures
            r == self.spec_to_fuse_attr(),
    {
        FuseAttr {
            ino: self.ino,
            size: self.size,
            blocks: self.blocks,
            atime: self.atime.epoch_secs(),
            mtime: self.mtime.epoch_secs(),
            ctime: self.ctime.epoch_secs(),
            atimensec: self.atime.epoch_nanos(),
            mtimensec: self.mtime.epoch_nanos(),
            ctimensec: self.ctime.epoch_nanos(),
            mode: helper::mode_from_kind_and_perm(self.kind, self.perm),
            nlink: self.nlink,
            uid: self.uid,
            gid: self.gid,
            rdev: self.rdev,
            blksize: self.blksize,
            padding: 0,
        }
    }

    /// The kernel's view of the attributes keeps the file's number, size,
    /// blocks, links, owner, group, device and block size as they are; a time
    /// at or after the epoch goes as its seconds and nanoseconds, one before
    /// it as zero; the mode holds the kind's type bits and gives the
    /// permissions back.
    pub proof fn lemma_fuse_attr_fields(self)
        ensures
            self.spec_to_fuse_attr().ino == self.ino,
            self.spec_to_fuse_attr().size == self.size,
            self.spec_to_fuse_attr().blocks == self.blocks,
            self.spec_to_fuse_attr().nlink == self.nlink,
            self.spec_to_fuse_attr().uid == self.uid,
            self.spec_to_fuse_attr().gid == self.gid,
            self.spec_to_fuse_attr().rdev == self.rdev,
            self.spec_to_fuse_attr().blksize == self.blksize,
            self.spec_to_fuse_attr().padding == 0,
            self.atime.sec >= 0 ==> self.spec_to_fuse_attr().atime == self.atime.sec
                && self.spec_to_fuse_attr().atimensec == self.atime.nsec,
            self.mtime.sec >= 0 ==> self.spec_to_fuse_attr().mtime == self.mtime.sec
                && self.spec_to_fuse_attr().mtimensec == self.mtime.nsec,
            self.ctime.sec >= 0 ==> self.spec_to_fuse_attr().ctime == self.ctime.sec
                && self.spec_to_fuse_attr().ctimensec == self.ctime.nsec,
            self.atime.sec < 0 ==> self.spec_to_fuse_attr().atime == 0
                && self.spec_to_fuse_attr().atimensec == 0,
            self.mtime.sec < 0 ==> self.spec_to_fuse_attr().mtime == 0
                && self.spec_to_fuse_attr().mtimensec == 0,
            self.ctime.sec < 0 ==> self.spec_to_fuse_attr().ctime == 0
                && self.spec_to_fuse_attr().ctimensec == 0,
            self.perm < 4096 ==> helper::spec_perm_from_mode_and_kind(
                self.kind,
                self.spec_to_fuse_attr().mode,
            ) == self.perm && self.spec_to_fuse_attr().mode >> 12 == file_type_mode(self.kind)
                >> 12,
    {
        if self.perm < 4096 {
            helper::lemma_perm_mode_roundtrip(self.kind, self.perm);
        }
    }
}

/// the setattr argument.
#[derive(Debug, Clone, Copy, PartialEq, Eq, Structural)]
pub struct SetAttr {
    /// set file or directory mode.
    pub mode: Option<u32>,
    /// set file or directory uid.
    pub uid: Option<u32>,
    /// set file or directory gid.
    pub gid: Option<u32>,
    /// set file or directory size.
    pub size: Option<u64>,
    /// the lock_owner argument.
    pub lock_owner: Option<u64>,
    /// set file or directory atime.
    pub atime: Option<Timestamp>,
    /// set file or directory mtime.
    pub mtime: Option<Timestamp>,
    /// set file or directory ctime.
    pub ctime: Option<Timestamp>,
}

/// The time `secs` seconds and `nanos` nanoseconds after the epoch, the
/// nanoseconds carried into whole seconds as `Duration::new` carries them.
pub open spec fn spec_epoch_plus(secs: u64, nanos: u32) -> Timestamp {
    Timestamp { sec: (secs + nanos / 1_000_000_000) as i64, nsec: nanos % 1_000_000_000 }
}

/// The time `secs` seconds and `nanos` nanoseconds after the epoch can be held.
pub open spec fn epoch_plus_fits(secs: u64, nanos: u32) -> bool {
    secs + nanos / 1_000_000_000 <= i64::MAX
}

/// The time `secs` seconds and `nanos` nanoseconds after the epoch.
pub fn epoch_plus(secs: u64, nanos: u32) -> (r: Timestamp)
    requires
        epoch_plus_fits(secs, nanos),
    ensures
        r == spec_epoch_plus(secs, nanos),
{
    let carry = (nanos / 1_000_000_000) as u64;
    Timestamp { sec: (secs + carry) as i64, nsec: nanos % 1_000_000_000 }
}

impl SetAttr {
    /// Which fields a `SETATTR` request sets, and to what; `now` stands for the
    /// time of the request where the kernel asks for the current time.
    pub open spec fn spec_from_setattr_in(s: FuseSetattrIn, now: Timestamp) -> SetAttr {
        SetAttr {
            mode: if s.valid & FATTR_MODE > 0 { Some(s.mode) } else { None },
            uid: if s.valid & FATTR_UID > 0 { Some(s.uid) } else { None },
            gid: if s.valid & FATTR_GID > 0 { Some(s.gid) } else { None },
            size: if s.valid & FATTR_SIZE > 0 { Some(s.size) } else { None },
            lock_owner: if s.valid & FATTR_LOCKOWNER > 0 { Some(s.lock_owner) } else { None },
            atime: if s.valid & FATTR_ATIME_NOW > 0 {
                Some(now)
            } else if s.valid & FATTR_ATIME > 0 {
                Some(spec_epoch_plus(s.atime, s.atimensec))
            } else {
                None
            },
            mtime: if s.valid & FATTR_MTIME_NOW > 0 {
                Some(now)
            } else if s.valid & FATTR_MTIME > 0 {
                Some(spec_epoch_plus(s.mtime, s.mtimensec))
            } else {
                None
            },
            ctime: if s.valid & FATTR_CTIME > 0 {
                Some(spec_epoch_plus(s.ctime, s.ctimensec))
            } else {
                None
            },
        }
    }

    /// The times that a `SETATTR` request gives can be held.
    pub open spec fn setattr_in_times_fit(s: FuseSetattrIn) -> bool {
        &&& s.valid & FATTR_ATIME > 0 ==> epoch_plus_fits(s.atime, s.atimensec)
        &&& s.valid & FATTR_MTIME > 0 ==> epoch_plus_fits(s.mtime, s.mtimensec)
        &&& s.valid & FATTR_CTIME > 0 ==> epoch_plus_fits(s.ctime, s.ctimensec)
    }

    /// The changes a `SETATTR` request asks for; `now` is the current time.
    pub fn from_setattr_in(setattr_in: &FuseSetattrIn, now: Timestamp) -> (r: SetAttr)
        requires
            Self::setattr_in_times_fit(*setattr_in),
        ensures
            r == Self::spec_from_setattr_in(*setattr_in, now),
    {
        let mut set_attr = SetAttr {
            mode: None,
            uid: None,
            gid: None,
            size: None,
            lock_owner: None,
            atime: None,
            mtime: None,
            ctime: None,
        };
        if setattr_in.valid & FATTR_MODE > 0 {
            set_attr.mode = Some(setattr_in.mode);
        }
        if setattr_in.valid & FATTR_UID > 0 {
            set_attr.uid = Some(setattr_in.uid);
        }
        if setattr_in.valid & FATTR_GID > 0 {
            set_attr.gid = Some(setattr_in.gid);
        }
        if setattr_in.valid & FATTR_SIZE > 0 {
            set_attr.size = Some(setattr_in.size);
        }
        if setattr_in.valid & FATTR_ATIME > 0 {
            set_attr.atime = Some(epoch_plus(setattr_in.atime, setattr_in.atimensec));
        }
        if setattr_in.valid & FATTR_ATIME_NOW > 0 {
            set_attr.atime = Some(now);
        }
        if setattr_in.valid & FATTR_MTIME > 0 {
            set_attr.mtime = Some(epoch_plus(setattr_in.mtime, setattr_in.mtimensec));
        }
        if setattr_in.valid & FATTR_MTIME_NOW > 0 {
            set_attr.mtime = Some(now);
        }
        if setattr_in.valid & FATTR_LOCKOWNER > 0 {
            set_attr.lock_owner = Some(setattr_in.lock_owner);
        }
        if setattr_in.valid & FATTR_CTIME > 0 {
            set_attr.ctime = Some(epoch_plus(setattr_in.ctime, setattr_in.ctimensec));
        }
        set_attr
    }

    /// Each change a `SETATTR` request asks for is present exactly when its bit
    /// is set in `valid`, and is the request's own field of that name: the mode
    /// from `mode`, the owner from `uid`, the group from `gid`, the size from
    /// `size`, the lock owner from `lock_owner`. A time the kernel asks to be
    /// "now" is `now`; another time given is its seconds, with whole seconds
    /// of its nanoseconds carried over, and the nanoseconds left.
    pub proof fn lemma_setattr_changes(s: FuseSetattrIn, now: Timestamp)
        requires
            Self::setattr_in_times_fit(s),
        ensures
            Self::spec_from_setattr_in(s, now).mode is Some <==> s.valid & FATTR_MODE > 0,
            Self::spec_from_setattr_in(s, now).uid is Some <==> s.valid & FATTR_UID > 0,
            Self::spec_from_setattr_in(s, now).gid is Some <==> s.valid & FATTR_GID > 0,
            Self::spec_from_setattr_in(s, now).size is Some <==> s.valid & FATTR_SIZE > 0,
            Self::spec_from_setattr_in(s, now).lock_owner is Some <==> s.valid & FATTR_LOCKOWNER > 0,
            Self::spec_from_setattr_in(s, now).atime is Some <==> (s.valid & FATTR_ATIME > 0 || s.valid
                & FATTR_ATIME_NOW > 0),
            Self::spec_from_setattr_in(s, now).mtime is Some <==> (s.valid & FATTR_MTIME > 0 || s.valid
                & FATTR_MTIME_NOW > 0),
            Self::spec_from_setattr_in(s, now).ctime is Some <==> s.valid & FATTR_CTIME > 0,
            Self::spec_from_setattr_in(s, now).mode matches Some(m) ==> m == s.mode,
            Self::spec_from_setattr_in(s, now).uid matches Some(u) ==> u == s.uid,
            Self::spec_from_setattr_in(s, now).gid matches Some(g) ==> g == s.gid,
            Self::spec_from_setattr_in(s, now).size matches Some(z) ==> z == s.size,
            Self::spec_from_setattr_in(s, now).lock_owner matches Some(o) ==> o == s.lock_owner,
            s.valid & FATTR_ATIME_NOW > 0 ==> Self::spec_from_setattr_in(s, now).atime == Some(now),
            s.valid & FATTR_MTIME_NOW > 0 ==> Self::spec_from_setattr_in(s, now).mtime == Some(now),
            s.valid & FATTR_ATIME_NOW == 0 && s.valid & FATTR_ATIME > 0 ==> (Self::spec_from_setattr_in(
                s,
                now,
            ).atime matches Some(t) && t.sec == s.atime + s.atimensec / 1_000_000_000 && t.nsec
                == s.atimensec % 1_000_000_000),
            s.valid & FATTR_MTIME_NOW == 0 && s.valid & FATTR_MTIME > 0 ==> (Self::spec_from_setattr_in(
                s,
                now,
            ).mtime matches Some(t) && t.sec == s.mtime + s.mtimensec / 1_000_000_000 && t.nsec
                == s.mtimensec % 1_000_000_000),
            s.valid & FATTR_CTIME > 0 ==> (Self::spec_from_setattr_in(s, now).ctime matches Some(t)
                && t.sec == s.ctime + s.ctimensec / 1_000_000_000 && t.nsec == s.ctimensec
                % 1_000_000_000),
    {
    }

    /// The group a `SETATTR` request sets depends on its `gid` and `valid`
    /// fields alone, and the owner on its `uid` and `valid` fields alone: two
    /// requests that agree on those set the same group, or the same owner.
    pub proof fn lemma_setattr_owner_and_group_apart(
        s1: FuseSetattrIn,
        s2: FuseSetattrIn,
        now1: Timestamp,
        now2: Timestamp,
    )
        ensures
            s1.valid == s2.valid && s1.gid == s2.gid ==> Self::spec_from_setattr_in(s1, now1).gid
                == Self::spec_from_setattr_in(s2, now2).gid,
            s1.valid == s2.valid && s1.uid == s2.uid ==> Self::spec_from_setattr_in(s1, now1).uid
                == Self::spec_from_setattr_in(s2, now2).uid,
    {
    }
}

} // verus!
