//! reply structures, shared by the inode based and the path based sides.

pub use crate::raw::reply::{
    DirectoryEntry, DirectoryEntryPlus, ReplyAttr, ReplyBmap, ReplyCopyFileRange, ReplyCreated,
    ReplyData, ReplyEntry, ReplyInit, ReplyLSeek, ReplyLock, ReplyOpen, ReplyPoll, ReplyStatFs,
    ReplyWrite, ReplyXAttr,
};
