//! The inode based side of the library: the kernel protocol and its replies.

pub mod abi;
pub mod reply;
pub mod session;
