//! Notifications the filesystem sends the kernel unasked.

use crate::raw::abi::{
    FuseNotifyDeleteOut, FuseNotifyInvalEntryOut, FuseNotifyInvalInodeOut,
    FuseNotifyPollWakeupOut, FuseNotifyRetrieveOut, FuseNotifyStoreOut, FuseOutHeader,
    FUSE_NOTIFY_DELETE_OUT_SIZE, FUSE_NOTIFY_INVAL_ENTRY, FUSE_NOTIFY_INVAL_ENTRY_OUT_SIZE,
    FUSE_NOTIFY_INVAL_INODE, FUSE_NOTIFY_INVAL_INODE_OUT_SIZE, FUSE_NOTIFY_POLL,
    FUSE_NOTIFY_POLL_WAKEUP_OUT_SIZE, FUSE_NOTIFY_RETRIEVE_OUT_SIZE, FUSE_NOTIFY_STORE_OUT_SIZE,
    FUSE_OUT_HEADER_SIZE,
};
use crate::wire::{le32, le64, lemma_le_roundtrip, lemma_u32_at_le, lemma_u64_at_le, u32_at, u64_at};
use vstd::prelude::*;

verus! {

/// A notification.
#[derive(Debug, Clone, PartialEq, Eq)]
pub enum PollNotifyKind {
    /// wake up a poll waiting on `kh`.
    Wakeup { kh: u64 },
    /// drop the cached data of a range of an inode.
    InvalidInode { inode: u64, offset: i64, len: i64 },
    /// drop the cached entry `name` of directory `parent`.
    InvalidEntry { parent: u64, name: Vec<u8> },
    /// the entry `name` of directory `parent`, inode `child`, was deleted.
    Delete { parent: u64, child: u64, name: Vec<u8> },
    /// store `data` at `offset` in the cache of an inode.
    Store { inode: u64, offset: u64, data: Vec<u8> },
    /// ask the kernel for cached data of an inode.
    Retrieve { notify_unique: u64, inode: u64, offset: u64, size: u32 },
}

/// The header of a notification: its length field, the code in the error
/// field, and request id zero.
pub open spec fn notify_header(len: int, code: i32) -> Seq<u8> {
    (FuseOutHeader { len: len as u32, error: code, unique: 0 }).spec_encode()
}

impl PollNotifyKind {
    /// The bytes of a notification. The length field counts the header and the
    /// fixed part (not the name); a wakeup carries code `FUSE_NOTIFY_POLL`, the
    /// two invalidations theirs, and the other kinds zero.
    pub open spec fn spec_encode(&self) -> Seq<u8> {
        match *self {
            PollNotifyKind::Wakeup { kh } => notify_header(
                FUSE_OUT_HEADER_SIZE + FUSE_NOTIFY_POLL_WAKEUP_OUT_SIZE,
                FUSE_NOTIFY_POLL,
            ) + (FuseNotifyPollWakeupOut { kh }).spec_encode(),
            PollNotifyKind::InvalidInode { inode, offset, len } => notify_header(
                FUSE_OUT_HEADER_SIZE + FUSE_NOTIFY_INVAL_INODE_OUT_SIZE,
                FUSE_NOTIFY_INVAL_INODE,
            ) + (FuseNotifyInvalInodeOut { ino: inode, off: offset, len }).spec_encode(),
            PollNotifyKind::InvalidEntry { parent, name } => notify_header(
                FUSE_OUT_HEADER_SIZE + FUSE_NOTIFY_INVAL_ENTRY_OUT_SIZE,
                FUSE_NOTIFY_INVAL_ENTRY,
            ) + (FuseNotifyInvalEntryOut {
                parent,
                namelen: name@.len() as u32,
                padding: 0,
            }).spec_encode() + name@,
            PollNotifyKind::Delete { parent, child, name } => notify_header(
                FUSE_OUT_HEADER_SIZE + FUSE_NOTIFY_DELETE_OUT_SIZE,
                0,
            ) + (FuseNotifyDeleteOut {
                parent,
                child,
                namelen: name@.len() as u32,
                padding: 0,
            }).spec_encode() + name@,
            PollNotifyKind::Store { inode, offset, data } => notify_header(
                FUSE_OUT_HEADER_SIZE + FUSE_NOTIFY_STORE_OUT_SIZE,
                0,
            ) + (FuseNotifyStoreOut {
                nodeid: inode,
                offset,
                size: data@.len() as u32,
                padding: 0,
            }).spec_encode() + data@,
            PollNotifyKind::Retrieve { notify_unique, inode, offset, size } => notify_header(
                FUSE_OUT_HEADER_SIZE + FUSE_NOTIFY_RETRIEVE_OUT_SIZE,
                0,
            ) + (FuseNotifyRetrieveOut {
                notify_unique,
                nodeid: inode,
                offset,
                size,
                padding: 0,
            }).spec_encode(),
        }
    }

    /// The bytes of this notification.
    pub fn encode(&self) -> (r: Vec<u8>)
        ensures
            r@ == self.spec_encode(),
    {
        let mut data = Vec::new();
        match self {
            PollNotifyKind::Wakeup { kh } => {
                let header = FuseOutHeader {
                    len: (FUSE_OUT_HEADER_SIZE + FUSE_NOTIFY_POLL_WAKEUP_OUT_SIZE) as u32,
                    error: FUSE_NOTIFY_POLL,
                    unique: 0,
                };
                header.encode_into(&mut data);
                (FuseNotifyPollWakeupOut { kh: *kh }).encode_into(&mut data);
            },
            PollNotifyKind::InvalidInode { inode, offset, len } => {
                let header = FuseOutHeader {
                    len: (FUSE_OUT_HEADER_SIZE + FUSE_NOTIFY_INVAL_INODE_OUT_SIZE) as u32,
                    error: FUSE_NOTIFY_INVAL_INODE,
                    unique: 0,
                };
                header.encode_into(&mut data);
                (FuseNotifyInvalInodeOut { ino: *inode, off: *offset, len: *len }).encode_into(
                    &mut data,
                );
            },
            PollNotifyKind::InvalidEntry { parent, name } => {
                let header = FuseOutHeader {
                    len: (FUSE_OUT_HEADER_SIZE + FUSE_NOTIFY_INVAL_ENTRY_OUT_SIZE) as u32,
                    error: FUSE_NOTIFY_INVAL_ENTRY,
                    unique: 0,
                };
                header.encode_into(&mut data);
                (FuseNotifyInvalEntryOut {
                    parent: *parent,
                    namelen: name.len() as u32,
                    padding: 0,
                }).encode_into(&mut data);
                data.extend_from_slice(name.as_slice());
            },
            PollNotifyKind::Delete { parent, child, name } => {
                let header = FuseOutHeader {
                    len: (FUSE_OUT_HEADER_SIZE + FUSE_NOTIFY_DELETE_OUT_SIZE) as u32,
                    error: 0,
                    unique: 0,
                };
                header.encode_into(&mut data);
                (FuseNotifyDeleteOut {
                    parent: *parent,
                    child: *child,
                    namelen: name.len() as u32,
                    padding: 0,
                }).encode_into(&mut data);
                data.extend_from_slice(name.as_slice());
            },
            PollNotifyKind::Store { inode, offset, data: stored } => {
                let header = FuseOutHeader {
                    len: (FUSE_OUT_HEADER_SIZE + FUSE_NOTIFY_STORE_OUT_SIZE) as u32,
                    error: 0,
                    unique: 0,
                };
                header.encode_into(&mut data);
                (FuseNotifyStoreOut {
                    nodeid: *inode,
                    offset: *offset,
                    size: stored.len() as u32,
                    padding: 0,
                }).encode_into(&mut data);
                data.extend_from_slice(stored.as_slice());
            },
            PollNotifyKind::Retrieve { notify_unique, inode, offset, size } => {
                let header = FuseOutHeader {
                    len: (FUSE_OUT_HEADER_SIZE + FUSE_NOTIFY_RETRIEVE_OUT_SIZE) as u32,
                    error: 0,
                    unique: 0,
                };
                header.encode_into(&mut data);
                (FuseNotifyRetrieveOut {
                    notify_unique: *notify_unique,
                    nodeid: *inode,
                    offset: *offset,
                    size: *size,
                    padding: 0,
                }).encode_into(&mut data);
            },
        }
        assert(data@ =~= self.spec_encode());
        data
    }

    /// What the kernel reads from a notification, at the places it reads it.
    /// Every one starts with a header whose request id is zero and whose
    /// error field holds the notify code: 1 (poll) for a wakeup, 2 (inval
    /// inode) for an inode invalidation, 3 (inval entry) for an entry
    /// invalidation and 0 for the other kinds; its length field counts the
    /// header and the fixed part. Behind the header come the kind's own fields
    /// in order, and the name or data last.
    pub proof fn lemma_notify_layout(n: PollNotifyKind)
        ensures
            n.spec_encode().len() >= 16,
            u64_at(n.spec_encode(), 8) == 0,
            n matches PollNotifyKind::Wakeup { kh } ==> {
                &&& n.spec_encode().len() == 24
                &&& u32_at(n.spec_encode(), 0) == 24
                &&& u32_at(n.spec_encode(), 4) == 1
                &&& u64_at(n.spec_encode(), 16) == kh
            },
            n matches PollNotifyKind::InvalidInode { inode, offset, len } ==> {
                &&& n.spec_encode().len() == 40
                &&& u32_at(n.spec_encode(), 0) == 40
                &&& u32_at(n.spec_encode(), 4) == 2
                &&& u64_at(n.spec_encode(), 16) == inode
                &&& u64_at(n.spec_encode(), 24) == offset as u64
                &&& u64_at(n.spec_encode(), 32) == len as u64
            },
            n matches PollNotifyKind::InvalidEntry { parent, name } ==> {
                &&& n.spec_encode().len() == 32 + name@.len()
                &&& u32_at(n.spec_encode(), 0) == 32
                &&& u32_at(n.spec_encode(), 4) == 3
                &&& u64_at(n.spec_encode(), 16) == parent
                &&& u32_at(n.spec_encode(), 24) == name@.len() as u32
                &&& n.spec_encode().skip(32) == name@
            },
            n matches PollNotifyKind::Delete { parent, child, name } ==> {
                &&& n.spec_encode().len() == 40 + name@.len()
                &&& u32_at(n.spec_encode(), 0) == 40
                &&& u32_at(n.spec_encode(), 4) == 0
                &&& u64_at(n.spec_encode(), 16) == parent
                &&& u64_at(n.spec_encode(), 24) == child
                &&& u32_at(n.spec_encode(), 32) == name@.len() as u32
                &&& n.spec_encode().skip(40) == name@
            },
            n matches PollNotifyKind::Store { inode, offset, data } ==> {
                &&& n.spec_encode().len() == 40 + data@.len()
                &&& u32_at(n.spec_encode(), 0) == 40
                &&& u32_at(n.spec_encode(), 4) == 0
                &&& u64_at(n.spec_encode(), 16) == inode
                &&& u64_at(n.spec_encode(), 24) == offset
                &&& u32_at(n.spec_encode(), 32) == data@.len() as u32
                &&& n.spec_encode().skip(40) == data@
            },
            n matches PollNotifyKind::Retrieve { notify_unique, inode, offset, size } ==> {
                &&& n.spec_encode().len() == 48
                &&& u32_at(n.spec_encode(), 0) == 48
                &&& u32_at(n.spec_encode(), 4) == 0
                &&& u64_at(n.spec_encode(), 16) == notify_unique
                &&& u64_at(n.spec_encode(), 24) == inode
                &&& u64_at(n.spec_encode(), 32) == offset
                &&& u32_at(n.spec_encode(), 40) == size
            },
    {
        lemma_le_roundtrip();
        let e = n.spec_encode();
        match n {
            PollNotifyKind::Wakeup { kh } => {
                assert(e.subrange(0, 4) =~= le32(24));
                assert(e.subrange(4, 8) =~= le32(1));
                assert(e.subrange(8, 16) =~= le64(0));
                assert(e.subrange(16, 24) =~= le64(kh));
                lemma_u32_at_le(e, 0, 24);
                lemma_u32_at_le(e, 4, 1);
                lemma_u64_at_le(e, 8, 0);
                lemma_u64_at_le(e, 16, kh);
            },
            PollNotifyKind::InvalidInode { inode, offset, len } => {
                assert(e.subrange(0, 4) =~= le32(40));
                assert(e.subrange(4, 8) =~= le32(2));
                assert(e.subrange(8, 16) =~= le64(0));
                assert(e.subrange(16, 24) =~= le64(inode));
                assert(e.subrange(24, 32) =~= le64(offset as u64));
                assert(e.subrange(32, 40) =~= le64(len as u64));
                lemma_u32_at_le(e, 0, 40);
                lemma_u32_at_le(e, 4, 2);
                lemma_u64_at_le(e, 8, 0);
                lemma_u64_at_le(e, 16, inode);
                lemma_u64_at_le(e, 24, offset as u64);
                lemma_u64_at_le(e, 32, len as u64);
            },
            PollNotifyKind::InvalidEntry { parent, name } => {
                assert(e.subrange(0, 4) =~= le32(32));
                assert(e.subrange(4, 8) =~= le32(3));
                assert(e.subrange(8, 16) =~= le64(0));
                assert(e.subrange(16, 24) =~= le64(parent));
                assert(e.subrange(24, 28) =~= le32(name@.len() as u32));
                assert(e.skip(32) =~= name@);
                lemma_u32_at_le(e, 0, 32);
                lemma_u32_at_le(e, 4, 3);
                lemma_u64_at_le(e, 8, 0);
                lemma_u64_at_le(e, 16, parent);
                lemma_u32_at_le(e, 24, name@.len() as u32);
            },
            PollNotifyKind::Delete { parent, child, name } => {
                assert(e.subrange(0, 4) =~= le32(40));
                assert(e.subrange(4, 8) =~= le32(0));
                assert(e.subrange(8, 16) =~= le64(0));
                assert(e.subrange(16, 24) =~= le64(parent));
                assert(e.subrange(24, 32) =~= le64(child));
                assert(e.subrange(32, 36) =~= le32(name@.len() as u32));
                assert(e.skip(40) =~= name@);
                lemma_u32_at_le(e, 0, 40);
                lemma_u32_at_le(e, 4, 0);
                lemma_u64_at_le(e, 8, 0);
                lemma_u64_at_le(e, 16, parent);
                lemma_u64_at_le(e, 24, child);
                lemma_u32_at_le(e, 32, name@.len() as u32);
            },
            PollNotifyKind::Store { inode, offset, data } => {
                assert(e.subrange(0, 4) =~= le32(40));
                assert(e.subrange(4, 8) =~= le32(0));
                assert(e.subrange(8, 16) =~= le64(0));
                assert(e.subrange(16, 24) =~= le64(inode));
                assert(e.subrange(24, 32) =~= le64(offset));
                assert(e.subrange(32, 36) =~= le32(data@.len() as u32));
                assert(e.skip(40) =~= data@);
                lemma_u32_at_le(e, 0, 40);
                lemma_u32_at_le(e, 4, 0);
                lemma_u64_at_le(e, 8, 0);
                lemma_u64_at_le(e, 16, inode);
                lemma_u64_at_le(e, 24, offset);
                lemma_u32_at_le(e, 32, data@.len() as u32);
            },
            PollNotifyKind::Retrieve { notify_unique, inode, offset, size } => {
                assert(e.subrange(0, 4) =~= le32(48));
                assert(e.subrange(4, 8) =~= le32(0));
                assert(e.subrange(8, 16) =~= le64(0));
                assert(e.subrange(16, 24) =~= le64(notify_unique));
                assert(e.subrange(24, 32) =~= le64(inode));
                assert(e.subrange(32, 40) =~= le64(offset));
                assert(e.subrange(40, 44) =~= le32(size));
                lemma_u32_at_le(e, 0, 48);
                lemma_u32_at_le(e, 4, 0);
                lemma_u64_at_le(e, 8, 0);
                lemma_u64_at_le(e, 16, notify_unique);
                lemma_u64_at_le(e, 24, inode);
                lemma_u64_at_le(e, 32, offset);
                lemma_u32_at_le(e, 40, size);
            },
        }
    }
}

} // verus!
