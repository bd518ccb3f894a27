//! The path based side of the library: a filesystem that works on paths, and
//! the bookkeeping that gives its files inode numbers.

pub mod absolute_path;
pub mod inode_generator;
pub mod inode_path_bridge;
pub mod reply;
