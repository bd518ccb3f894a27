//! reply structures of the path based filesystem: attributes without inode
//! numbers, which the library assigns.

use crate::{FileType, Inode, Timestamp, Ttl};
use vstd::prelude::*;

pub use crate::raw::reply::{
    ReplyBmap, ReplyCopyFileRange, ReplyData, ReplyLSeek, ReplyLock, ReplyOpen, ReplyPoll,
    ReplyStatFs, ReplyWrite, ReplyXAttr,
};

verus! {

/// file attributes
#[derive(Clone, Copy, Debug, PartialEq, Eq, Structural)]
pub struct FileAttr {
    /// Size in bytes
    pub size: u64,
    /// Size in blocks
    pub blocks: u64,
    /// Time of last access
    pub atime: Timestamp,
    /// Time of last modification
    pub mtime: Timestamp,
    /// Time of last change
    pub ctime: Timestamp,
    /// Kind of file (directory, file, pipe, etc)
    pub kind: FileType,
    /// Permissions
    pub perm: u16,
    /// Number of hard links
    pub nlink: u32,
    /// User id
    pub uid: u32,
    /// Group id
    pub gid: u32,
    /// Rdev
    pub rdev: u32,
    /// block size
    pub blksize: u32,
}

/// The attributes `attr` of the file numbered `inode`, generation zero.
pub open spec fn spec_into_file_attr(inode: Inode, attr: FileAttr) -> crate::FileAttr {
    crate::FileAttr {
        ino: inode,
        generation: 0,
        size: attr.size,
        blocks: attr.blocks,
        atime: attr.atime,
        mtime: attr.mtime,
        ctime: attr.ctime,
        kind: attr.kind,
        perm: attr.perm,
        nlink: attr.nlink,
        uid: attr.uid,
        gid: attr.gid,
        rdev: attr.rdev,
        blksize: attr.blksize,
    }
}

/// The attributes `attr` of the file numbered `inode`, generation zero.
pub fn into_file_attr(inode: Inode, attr: &FileAttr) -> (r: crate::FileAttr)
    ensures
        r == spec_into_file_attr(inode, *attr),
{
    crate::FileAttr {
        ino: inode,
        generation: 0,
        size: attr.size,
        blocks: attr.blocks,
        atime: attr.atime,
        mtime: attr.mtime,
        ctime: attr.ctime,
        kind: attr.kind,
        perm: attr.perm,
        nlink: attr.nlink,
        uid: attr.uid,
        gid: attr.gid,
        rdev: attr.rdev,
        blksize: attr.blksize,
    }
}

/// The attributes handed to the kernel for a path filesystem's file are the
/// ones the filesystem gave, field for field (owner and group, size, times,
/// kind, permissions, links, device and block size), under the inode number
/// the bridge chose and generation zero.
pub proof fn lemma_into_file_attr_keeps_attrs(inode: Inode, attr: FileAttr)
    ensures
        spec_into_file_attr(inode, attr).ino == inode,
        spec_into_file_attr(inode, attr).generation == 0,
        spec_into_file_attr(inode, attr).uid == attr.uid,
        spec_into_file_attr(inode, attr).gid == attr.gid,
        spec_into_file_attr(inode, attr).size == attr.size,
        spec_into_file_attr(inode, attr).blocks == attr.blocks,
        spec_into_file_attr(inode, attr).atime == attr.atime,
        spec_into_file_attr(inode, attr).mtime == attr.mtime,
        spec_into_file_attr(inode, attr).ctime == attr.ctime,
        spec_into_file_attr(inode, attr).kind == attr.kind,
        spec_into_file_attr(inode, attr).perm == attr.perm,
        spec_into_file_attr(inode, attr).nlink == attr.nlink,
        spec_into_file_attr(inode, attr).rdev == attr.rdev,
        spec_into_file_attr(inode, attr).blksize == attr.blksize,
{
}

/// Two files whose attributes differ get different converted attributes
/// under one inode number: the conversion loses nothing the filesystem said.
pub proof fn lemma_into_file_attr_injective(inode: Inode, a: FileAttr, b: FileAttr)
    ensures
        spec_into_file_attr(inode, a) == spec_into_file_attr(inode, b) ==> a == b,
{
}

/// entry reply.
#[derive(Debug, Clone, Copy, PartialEq, Eq, Structural)]
pub struct ReplyEntry {
    /// the attribute TTL.
    pub ttl: Ttl,
    /// the attribute.
    pub attr: FileAttr,
}

/// reply attr.
#[derive(Debug, Clone, Copy, PartialEq, Eq, Structural)]
pub struct ReplyAttr {
    /// the attribute TTL.
    pub ttl: Ttl,
    /// the attribute.
    pub attr: FileAttr,
}

/// create reply.
#[derive(Debug, Clone, Copy, PartialEq, Eq, Structural)]
pub struct ReplyCreated {
    /// the attribute TTL.
    pub ttl: Ttl,
    /// the attribute of file.
    pub attr: FileAttr,
    /// the file handle.
    pub fh: u64,
    /// the flags.
    pub flags: u32,
}

/// directory entry.
#[derive(Debug, Clone, PartialEq, Eq)]
pub struct DirectoryEntry {
    /// entry kind.
    pub kind: FileType,
    /// entry name.
    pub name: Vec<u8>,
    /// offset of the next entry: the first entry's offset is 1.
    pub offset: i64,
}

/// directory entry with attribute
#[derive(Debug, Clone, PartialEq, Eq)]
pub struct DirectoryEntryPlus {
    /// the entry kind.
    pub kind: FileType,
    /// the entry name.
    pub name: Vec<u8>,
    /// offset of the next entry: the first entry's offset is 1.
    pub offset: i64,
    /// the entry attribute.
    pub attr: FileAttr,
    /// the entry TTL.
    pub entry_ttl: Ttl,
    /// the attribute TTL.
    pub attr_ttl: Ttl,
}

} // verus!
