//! The caller of a request.

use crate::raw::abi::FuseInHeader;
use vstd::prelude::*;

verus! {

/// Request data
#[derive(Debug, Copy, Clone, PartialEq, Eq, Structural)]
pub struct Request {
    /// the unique identifier of this request.
    pub unique: u64,
    /// the uid of this request.
    pub uid: u32,
    /// the gid of this request.
    pub gid: u32,
    /// the pid of this request.
    pub pid: u32,
}

impl Request {
    /// The request described by a request header.
    pub open spec fn spec_from_header(header: FuseInHeader) -> Request {
        Request { unique: header.unique, uid: header.uid, gid: header.gid, pid: header.pid }
    }

    /// The request described by a request header.
    pub fn from_header(header: &FuseInHeader) -> (r: Request)
        ensures
            r == Self::spec_from_header(*header),
    {
        Request { unique: header.unique, uid: header.uid, gid: header.gid, pid: header.pid }
    }
}

} // verus!
