//! reply structures, and the reply bodies they become.

use crate::raw::abi::{
    FuseAttrOut, FuseBmapOut, FuseEntryOut, FuseLkOut, FuseLseekOut, FuseOpenOut, FusePollOut,
    FuseStatfsOut, FuseWriteOut,
};
use crate::{FileType, Ttl};
use vstd::prelude::*;

pub use crate::FileAttr;

verus! {

/// init reply.
#[derive(Debug, Copy, Clone, PartialEq, Eq, Structural)]
pub struct ReplyInit {
    /// the max write size.
    pub max_write: u32,
}

/// entry reply.
#[derive(Debug, Copy, Clone, PartialEq, Eq, Structural)]
pub struct ReplyEntry {
    /// the attribute TTL.
    pub ttl: Ttl,
    /// the attribute.
    pub attr: FileAttr,
    /// the generation.
    pub generation: u64,
}

impl ReplyEntry {
    /// The body of the reply to an entry request.
    pub open spec fn spec_to_entry_out(self) -> FuseEntryOut {
        FuseEntryOut {
            nodeid: self.attr.ino,
            generation: self.generation,
            entry_valid: self.ttl.secs,
            attr_valid: self.ttl.secs,
            entry_valid_nsec: self.ttl.nanos,
            attr_valid_nsec: self.ttl.nanos,
            attr: self.attr.spec_to_fuse_attr(),
        }
    }

    /// The body of the reply to an entry request.
    pub fn to_entry_out(&self) -> (r: FuseEntryOut)
        ensures
            r == self.spec_to_entry_out(),
    {
        FuseEntryOut {
            nodeid: self.attr.ino,
            generation: self.generation,
            entry_valid: self.ttl.as_secs(),
            attr_valid: self.ttl.as_secs(),
            entry_valid_nsec: self.ttl.subsec_nanos(),
            attr_valid_nsec: self.ttl.subsec_nanos(),
            attr: self.attr.to_fuse_attr(),
        }
    }

    /// An entry reply names the file's inode and generation, gives the TTL
    /// for both the entry and its attributes, and carries the attributes.
    pub proof fn lemma_entry_out_fields(self)
        ensures
            self.spec_to_entry_out().nodeid == self.attr.ino,
            self.spec_to_entry_out().generation == self.generation,
            self.spec_to_entry_out().entry_valid == self.ttl.secs,
            self.spec_to_entry_out().attr_valid == self.ttl.secs,
            self.spec_to_entry_out().entry_valid_nsec == self.ttl.nanos,
            self.spec_to_entry_out().attr_valid_nsec == self.ttl.nanos,
            self.spec_to_entry_out().attr == self.attr.spec_to_fuse_attr(),
    {
    }
}

/// reply attr.
#[derive(Debug, Copy, Clone, PartialEq, Eq, Structural)]
pub struct ReplyAttr {
    /// the attribute TTL.
    pub ttl: Ttl,
    /// the attribute.
    pub attr: FileAttr,
}

impl ReplyAttr {
    /// The body of the reply to an attribute request, with `dummy` echoed.
    pub open spec fn spec_to_attr_out(self, dummy: u32) -> FuseAttrOut {
        FuseAttrOut {
            attr_valid: self.ttl.secs,
            attr_valid_nsec: self.ttl.nanos,
            dummy: dummy,
            attr: self.attr.spec_to_fuse_attr(),
        }
    }

    /// The body of the reply to an attribute request, with `dummy` echoed.
    pub fn to_attr_out(&self, dummy: u32) -> (r: FuseAttrOut)
        ensures
            r == self.spec_to_attr_out(dummy),
    {
        FuseAttrOut {
            attr_valid: self.ttl.as_secs(),
            attr_valid_nsec: self.ttl.subsec_nanos(),
            dummy: dummy,
            attr: self.attr.to_fuse_attr(),
        }
    }

    /// An attribute reply gives the TTL, echoes `dummy` and carries the
    /// attributes.
    pub proof fn lemma_attr_out_fields(self, dummy: u32)
        ensures
            self.spec_to_attr_out(dummy).attr_valid == self.ttl.secs,
            self.spec_to_attr_out(dummy).attr_valid_nsec == self.ttl.nanos,
            self.spec_to_attr_out(dummy).dummy == dummy,
            self.spec_to_attr_out(dummy).attr == self.attr.spec_to_fuse_attr(),
    {
    }
}

/// data reply.
#[derive(Debug, Clone, PartialEq, Eq)]
pub struct ReplyData {
    /// the data.
    pub data: Vec<u8>,
}

/// open reply.
#[derive(Debug, Copy, Clone, PartialEq, Eq, Structural)]
pub struct ReplyOpen {
    /// the file handle id.
    ///
    /// # Notes:
    ///
    /// if set fh 0, means use stateless IO.
    pub fh: u64,
    /// the flags.
    pub flags: u32,
}

impl ReplyOpen {
    /// The body of the reply to an open request.
    pub open spec fn spec_to_open_out(self) -> FuseOpenOut {
        FuseOpenOut { fh: self.fh, open_flags: self.flags, padding: 0 }
    }

    /// The body of the reply to an open request.
    pub fn to_open_out(&self) -> (r: FuseOpenOut)
        ensures
            r == self.spec_to_open_out(),
    {
        FuseOpenOut { fh: self.fh, open_flags: self.flags, padding: 0 }
    }

    /// An open reply carries the file handle and the open flags.
    pub proof fn lemma_open_out_fields(self)
        ensures
            self.spec_to_open_out().fh == self.fh,
            self.spec_to_open_out().open_flags == self.flags,
            self.spec_to_open_out().padding == 0,
    {
    }
}

/// write reply.
#[derive(Debug, Copy, Clone, PartialEq, Eq, Structural)]
pub struct ReplyWrite {
    /// the data written.
    pub written: u64,
}

impl ReplyWrite {
    /// The body of the reply to a write request: the count, cut to 32 bits.
    pub open spec fn spec_to_write_out(self) -> FuseWriteOut {
        FuseWriteOut { size: self.written as u32, padding: 0 }
    }

    /// The body of the reply to a write request: the count, cut to 32 bits.
    pub fn to_write_out(&self) -> (r: FuseWriteOut)
        ensures
            r == self.spec_to_write_out(),
    {
        FuseWriteOut { size: self.written as u32, padding: 0 }
    }

    /// A write reply carries the count written, which the kernel reads as 32
    /// bits: a count that fits goes as it is.
    pub proof fn lemma_write_out_fields(self)
        ensures
            self.written <= u32::MAX ==> self.spec_to_write_out().size == self.written,
            self.spec_to_write_out().padding == 0,
    {
    }
}

/// statfs reply.
#[derive(Debug, Copy, Clone, PartialEq, Eq, Structural)]
pub struct ReplyStatFs {
    /// the number of blocks in the filesystem.
    pub blocks: u64,
    /// the number of free blocks.
    pub bfree: u64,
    /// the number of free blocks for non-priviledge users.
    pub bavail: u64,
    /// the number of inodes.
    pub files: u64,
    /// the number of free inodes.
    pub ffree: u64,
    /// the block size.
    pub bsize: u32,
    /// the maximum length of file name.
    pub namelen: u32,
    /// the fragment size.
    pub frsize: u32,
}

impl ReplyStatFs {
    /// The body of the reply to a statfs request.
    pub open spec fn spec_to_statfs_out(self) -> FuseStatfsOut {
        FuseStatfsOut {
            blocks: self.blocks,
            bfree: self.bfree,
            bavail: self.bavail,
            files: self.files,
            ffree: self.ffree,
            bsize: self.bsize,
            namelen: self.namelen,
            frsize: self.frsize,
            padding: 0,
        }
    }

    /// The body of the reply to a statfs request.
    pub fn to_statfs_out(&self) -> (r: FuseStatfsOut)
        ensures
            r == self.spec_to_statfs_out(),
    {
        FuseStatfsOut {
            blocks: self.blocks,
            bfree: self.bfree,
            bavail: self.bavail,
            files: self.files,
            ffree: self.ffree,
            bsize: self.bsize,
            namelen: self.namelen,
            frsize: self.frsize,
            padding: 0,
        }
    }

    /// A statfs reply carries each count and size under its own name.
    pub proof fn lemma_statfs_out_fields(self)
        ensures
            self.spec_to_statfs_out().blocks == self.blocks,
            self.spec_to_statfs_out().bfree == self.bfree,
            self.spec_to_statfs_out().bavail == self.bavail,
            self.spec_to_statfs_out().files == self.files,
            self.spec_to_statfs_out().ffree == self.ffree,
            self.spec_to_statfs_out().bsize == self.bsize,
            self.spec_to_statfs_out().namelen == self.namelen,
            self.spec_to_statfs_out().frsize == self.frsize,
    {
    }
}

/// xattr reply.
#[derive(Debug, Clone, PartialEq, Eq)]
pub enum ReplyXAttr {
    /// the size the value would need.
    Size(u32),
    /// the value.
    Data(Vec<u8>),
}

/// directory entry.
#[derive(Debug, Clone, PartialEq, Eq)]
pub struct DirectoryEntry {
    /// entry inode.
    pub inode: u64,
    /// entry kind.
    pub kind: FileType,
    /// entry name.
    pub name: Vec<u8>,
    /// offset of the next entry: the first entry's offset is 1.
    pub offset: i64,
}

/// file lock reply.
#[derive(Debug, Copy, Clone, PartialEq, Eq, Structural)]
pub struct ReplyLock {
    /// starting offset for lock.
    pub start: u64,
    /// end offset for lock.
    pub end: u64,
    /// type of lock, such as: `F_RDLCK`, `F_WRLCK` and `F_UNLCK`.
    pub lock_type: u32,
    /// PID of process blocking our lock
    pub pid: u32,
}

impl ReplyLock {
    /// The body of the reply to a lock request.
    pub open spec fn spec_to_lk_out(self) -> FuseLkOut {
        FuseLkOut { start: self.start, end: self.end, lk_type: self.lock_type, pid: self.pid }
    }

    /// The body of the reply to a lock request.
    pub fn to_lk_out(&self) -> (r: FuseLkOut)
        ensures
            r == self.spec_to_lk_out(),
    {
        FuseLkOut { start: self.start, end: self.end, lk_type: self.lock_type, pid: self.pid }
    }

    /// A lock reply carries the range, type and holder of the lock.
    pub proof fn lemma_lk_out_fields(self)
        ensures
            self.spec_to_lk_out().start == self.start,
            self.spec_to_lk_out().end == self.end,
            self.spec_to_lk_out().lk_type == self.lock_type,
            self.spec_to_lk_out().pid == self.pid,
    {
    }
}

/// crate reply.
#[derive(Debug, Copy, Clone, PartialEq, Eq, Structural)]
pub struct ReplyCreated {
    /// the attribute TTL.
    pub ttl: Ttl,
    /// the attribute of file.
    pub attr: FileAttr,
    /// the generation of file.
    pub generation: u64,
    /// the file handle.
    pub fh: u64,
    /// the flags.
    pub flags: u32,
}

impl ReplyCreated {
    /// The entry part of the reply to a create request: the file's inode and
    /// generation, and the attribute TTL for both the entry and the attributes.
    pub open spec fn spec_to_entry_out(self) -> FuseEntryOut {
        FuseEntryOut {
            nodeid: self.attr.ino,
            generation: self.generation,
            entry_valid: self.ttl.secs,
            attr_valid: self.ttl.secs,
            entry_valid_nsec: self.ttl.nanos,
            attr_valid_nsec: self.ttl.nanos,
            attr: self.attr.spec_to_fuse_attr(),
        }
    }

    /// The open part of the reply to a create request.
    pub open spec fn spec_to_open_out(self) -> FuseOpenOut {
        FuseOpenOut { fh: self.fh, open_flags: self.flags, padding: 0 }
    }

    /// The two parts of the reply to a create request.
    pub fn to_entry_and_open_out(&self) -> (r: (FuseEntryOut, FuseOpenOut))
        ensures
            r.0 == self.spec_to_entry_out(),
            r.1 == self.spec_to_open_out(),
    {
        let entry_out = FuseEntryOut {
            nodeid: self.attr.ino,
            generation: self.generation,
            entry_valid: self.ttl.as_secs(),
            attr_valid: self.ttl.as_secs(),
            entry_valid_nsec: self.ttl.subsec_nanos(),
            attr_valid_nsec: self.ttl.subsec_nanos(),
            attr: self.attr.to_fuse_attr(),
        };
        let open_out = FuseOpenOut { fh: self.fh, open_flags: self.flags, padding: 0 };
        (entry_out, open_out)
    }

    /// A create reply names the file's inode and generation, gives the TTL
    /// for both the entry and its attributes, carries the attributes, and
    /// then the file handle and open flags.
    pub proof fn lemma_created_out_fields(self)
        ensures
            self.spec_to_entry_out().nodeid == self.attr.ino,
            self.spec_to_entry_out().generation == self.generation,
            self.spec_to_entry_out().entry_valid == self.ttl.secs,
            self.spec_to_entry_out().attr_valid == self.ttl.secs,
            self.spec_to_entry_out().entry_valid_nsec == self.ttl.nanos,
            self.spec_to_entry_out().attr_valid_nsec == self.ttl.nanos,
            self.spec_to_entry_out().attr == self.attr.spec_to_fuse_attr(),
            self.spec_to_open_out().fh == self.fh,
            self.spec_to_open_out().open_flags == self.flags,
    {
    }
}

/// bmap reply.
#[derive(Debug, Copy, Clone, PartialEq, Eq, Structural)]
pub struct ReplyBmap {
    /// the block.
    pub block: u64,
}

impl ReplyBmap {
    /// The body of the reply to a bmap request.
    pub fn to_bmap_out(&self) -> (r: FuseBmapOut)
        ensures
            r == (FuseBmapOut { block: self.block }),
    {
        FuseBmapOut { block: self.block }
    }
}

/// poll reply
#[derive(Debug, Copy, Clone, PartialEq, Eq, Structural)]
pub struct ReplyPoll {
    /// the ready events.
    pub revents: u32,
}

impl ReplyPoll {
    /// The body of the reply to a poll request.
    pub fn to_poll_out(&self) -> (r: FusePollOut)
        ensures
            r == (FusePollOut { revents: self.revents, padding: 0 }),
    {
        FusePollOut { revents: self.revents, padding: 0 }
    }
}

/// directory entry with attribute
#[derive(Debug, Clone, PartialEq, Eq)]
pub struct DirectoryEntryPlus {
    /// the entry inode.
    pub inode: u64,
    /// the entry generation.
    pub generation: u64,
    /// the entry kind.
    pub kind: FileType,
    /// the entry name.
    pub name: Vec<u8>,
    /// offset of the next entry: the first entry's offset is 1.
    pub offset: i64,
    /// the entry attribute.
    pub attr: FileAttr,
    /// the entry TTL.
    pub entry_ttl: Ttl,
    /// the attribute TTL.
    pub attr_ttl: Ttl,
}

/// the lseek reply.
#[derive(Debug, Copy, Clone, PartialEq, Eq, Structural)]
pub struct ReplyLSeek {
    /// lseek offset.
    pub offset: u64,
}

impl ReplyLSeek {
    /// The body of the reply to an lseek request.
    pub fn to_lseek_out(&self) -> (r: FuseLseekOut)
        ensures
            r == (FuseLseekOut { offset: self.offset }),
    {
        FuseLseekOut { offset: self.offset }
    }
}

/// copy_file_range reply.
#[derive(Debug, Copy, Clone, PartialEq, Eq, Structural)]
pub struct ReplyCopyFileRange {
    /// data copied size.
    pub copied: u64,
}

impl ReplyCopyFileRange {
    /// The body of the reply to a copy request: the count, cut to 32 bits.
    pub fn to_write_out(&self) -> (r: FuseWriteOut)
        ensures
            r == (FuseWriteOut { size: self.copied as u32, padding: 0 }),
    {
        FuseWriteOut { size: self.copied as u32, padding: 0 }
    }
}

} // verus!
