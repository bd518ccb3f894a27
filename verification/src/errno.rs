//! Error numbers as the kernel understands them.

use vstd::prelude::*;

verus! {

/// No such file or directory.
pub const ENOENT: i32 = 2;
/// Input/output error.
pub const EIO: i32 = 5;
/// No such device.
pub const ENODEV: i32 = 19;
/// File exists.
pub const EEXIST: i32 = 17;
/// Not a directory.
pub const ENOTDIR: i32 = 20;
/// Is a directory.
pub const EISDIR: i32 = 21;
/// Invalid argument.
pub const EINVAL: i32 = 22;
/// Result too large (reply buffer too small).
pub const ERANGE: i32 = 34;
/// Function not implemented.
pub const ENOSYS: i32 = 38;
/// Operation not supported.
pub const ENOTSUP: i32 = 95;

/// A Linux errno.
#[derive(Debug, Copy, Clone, PartialEq, Eq, Structural)]
pub struct Errno(pub i32);

impl Errno {
    /// The error for a missing file or directory.
    pub fn new_not_exist() -> (r: Self)
        ensures
            r.0 == ENOENT,
    {
        Errno(ENOENT)
    }

    /// Whether this is the error for a missing file or directory.
    pub fn is_not_exist(&self) -> (r: bool)
        ensures
            r == (self.0 == ENOENT),
    {
        self.0 == ENOENT
    }

    /// Whether this is the error for an existing file.
    pub fn is_exist(&self) -> (r: bool)
        ensures
            r == (self.0 == EEXIST),
    {
        self.0 == EEXIST
    }

    /// Whether this is the error for a directory where a file was expected.
    pub fn is_dir(&self) -> (r: bool)
        ensures
            r == (self.0 == EISDIR),
    {
        self.0 == EISDIR
    }

    /// Whether this is the error for a non-directory where a directory was expected.
    pub fn is_not_dir(&self) -> (r: bool)
        ensures
            r == (self.0 == ENOTDIR),
    {
        self.0 == ENOTDIR
    }

    /// The errno of an I/O error whose raw OS error is `raw`: that error, or
    /// `EIO` when the error has none.
    pub open spec fn spec_from_os_error(raw: Option<i32>) -> Errno {
        match raw {
            Some(e) => Errno(e),
            None => Errno(EIO),
        }
    }

    /// An errno carried as a raw OS error comes back unchanged.
    pub proof fn lemma_os_error_roundtrip(e: Errno)
        ensures
            Self::spec_from_os_error(Some(e.0)) == e,
    {
    }

    /// The errno of an I/O error whose raw OS error is `raw`: that error, or
    /// `EIO` when the error has none.
    pub fn from_os_error(raw: Option<i32>) -> (r: Self)
        ensures
            r == Self::spec_from_os_error(raw),
    {
        match raw {
            Some(e) => Errno(e),
            None => Errno(EIO),
        }
    }

    /// The value of a reply header's error field for this errno: its negation.
    pub fn to_reply_error(self) -> (r: i32)
        requires
            self.0 != i32::MIN,
        ensures
            r == -self.0,
    {
        -self.0
    }
}

impl From<i32> for Errno {
    fn from(errno: i32) -> (r: Self) {
        Errno(errno)
    }
}

impl vstd::std_specs::convert::FromSpecImpl<i32> for Errno {
    open spec fn obeys_from_spec() -> bool {
        true
    }

    open spec fn from_spec(errno: i32) -> Self {
        Errno(errno)
    }
}

} // verus!
