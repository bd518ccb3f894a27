//! The older, smaller set of mount options.

use crate::mount_options::{flag_text, or_default, process_gid, process_uid};
use crate::text::{decimal, push_decimal, push_signed_decimal, signed_decimal};
use vstd::prelude::*;
use vstd::string::*;

verus! {

/// mount options.
#[derive(Debug, Clone)]
pub struct MountOption {
    pub uid: Option<u32>,
    pub gid: Option<u32>,
    pub fs_name: Option<String>,
    // default 40000
    pub rootmode: Option<u32>,
    pub allow_root: bool,
    pub allow_other: bool,
    pub read_only: Option<bool>,
    pub default_permissions: bool,
    pub nonempty: bool,
}

impl MountOption {
    /// All options off or unset.
    pub open spec fn spec_default() -> MountOption {
        MountOption {
            uid: None,
            gid: None,
            fs_name: None,
            rootmode: None,
            allow_root: false,
            allow_other: false,
            read_only: None,
            default_permissions: false,
            nonempty: false,
        }
    }

    /// The mount data for `/dev/fuse` descriptor `fd`, where `uid` and `gid`
    /// stand for the ids of this process: the descriptor, the ids and the root
    /// mode (40000 when unset), then the flags that are on.
    pub open spec fn spec_build(&self, fd: i32, uid: u32, gid: u32) -> Seq<char> {
        "fd="@ + signed_decimal(fd as int) + ",user_id="@ + decimal(
            or_default(self.uid, uid) as nat,
        ) + ",group_id="@ + decimal(or_default(self.gid, gid) as nat) + ",rootmode="@ + decimal(
            or_default(self.rootmode, 40000) as nat,
        ) + self.flags_text()
    }

    /// The flag options that come after the ids and the root mode, in order.
    pub open spec fn flags_text(&self) -> Seq<char> {
        flag_text(self.allow_root, "allow_root"@) + flag_text(self.allow_other, "allow_other"@)
            + flag_text(self.read_only == Some(true), "ro"@) + flag_text(
            self.default_permissions,
            "default_permissions"@,
        )
    }

    /// Appends the flag options that follow the ids and the root mode.
    fn push_flags(&self, options: &mut String)
        ensures
            final(options)@ == old(options)@ + self.flags_text(),
    {
        if self.allow_root {
            options.append(",allow_root");
        }
        if self.allow_other {
            options.append(",allow_other");
        }
        if matches!(self.read_only, Some(true)) {
            options.append(",ro");
        }
        if self.default_permissions {
            options.append(",default_permissions");
        }
        proof {
            reveal_strlit(",");
            reveal_strlit(",allow_root");
            reveal_strlit(",allow_other");
            reveal_strlit(",ro");
            reveal_strlit(",default_permissions");
            reveal_strlit("allow_root");
            reveal_strlit("allow_other");
            reveal_strlit("ro");
            reveal_strlit("default_permissions");
        }
        assert(final(options)@ =~= old(options)@ + self.flags_text());
    }

    /// set the mount `user_id`, default is current uid.
    pub fn uid(self, uid: u32) -> (r: Self)
        ensures
            r == (MountOption { uid: Some(uid), ..self }),
    {
        let mut option = self;
        option.uid = Some(uid);
        option
    }

    /// set the mount `group_id`, default is current gid.
    pub fn gid(self, gid: u32) -> (r: Self)
        ensures
            r == (MountOption { gid: Some(gid), ..self }),
    {
        let mut option = self;
        option.gid = Some(gid);
        option
    }

    /// set the filesystem name.
    pub fn fs_name(self, name: String) -> (r: Self)
        ensures
            r == (MountOption { fs_name: Some(name), ..self }),
    {
        let mut option = self;
        option.fs_name = Some(name);
        option
    }

    /// set the `rootmode`, default is 40000.
    pub fn rootmode(self, rootmode: u32) -> (r: Self)
        ensures
            r == (MountOption { rootmode: Some(rootmode), ..self }),
    {
        let mut option = self;
        option.rootmode = Some(rootmode);
        option
    }

    /// set the `allow_root` mount option.
    pub fn allow_root(self, allow_root: bool) -> (r: Self)
        ensures
            r == (MountOption { allow_root, ..self }),
    {
        let mut option = self;
        option.allow_root = allow_root;
        option
    }

    /// set the `allow_other` mount option.
    pub fn allow_other(self, allow_other: bool) -> (r: Self)
        ensures
            r == (MountOption { allow_other, ..self }),
    {
        let mut option = self;
        option.allow_other = allow_other;
        option
    }

    /// set the `ro` mount option.
    pub fn read_only(self, read_only: bool) -> (r: Self)
        ensures
            r == (MountOption { read_only: Some(read_only), ..self }),
    {
        let mut option = self;
        option.read_only = Some(read_only);
        option
    }

    /// set the `default_permissions` mount option.
    pub fn default_permissions(self, default_permissions: bool) -> (r: Self)
        ensures
            r == (MountOption { default_permissions, ..self }),
    {
        let mut option = self;
        option.default_permissions = default_permissions;
        option
    }

    /// allow mounting on a non-empty directory.
    pub fn nonempty(self, nonempty: bool) -> (r: Self)
        ensures
            r == (MountOption { nonempty, ..self }),
    {
        let mut option = self;
        option.nonempty = nonempty;
        option
    }

    /// The mount data for `/dev/fuse` descriptor `fd`, with `uid` and `gid`
    /// used where no id is set.
    pub fn build_with_ids(&self, fd: i32, uid: u32, gid: u32) -> (r: String)
        ensures
            r@ == self.spec_build(fd, uid, gid),
    {
        let mut options = String::new();
        options.append("fd=");
        push_signed_decimal(&mut options, fd as i64);
        options.append(",user_id=");
        push_decimal(&mut options, match self.uid { Some(x) => x, None => uid } as u64);
        options.append(",group_id=");
        push_decimal(&mut options, match self.gid { Some(x) => x, None => gid } as u64);
        options.append(",rootmode=");
        push_decimal(&mut options, match self.rootmode { Some(x) => x, None => 40000 } as u64);
        self.push_flags(&mut options);
        assert(options@ =~= self.spec_build(fd, uid, gid));
        options
    }

    /// The mount data for `/dev/fuse` descriptor `fd`; unset ids default to
    /// those of this process.
    pub fn build(&self, fd: i32) -> (r: String)
        ensures
            exists|uid: u32, gid: u32| r@ == #[trigger] self.spec_build(fd, uid, gid),
    {
        let uid = process_uid();
        let gid = process_gid();
        self.build_with_ids(fd, uid, gid)
    }
}

impl Default for MountOption {
    fn default() -> (r: Self)
        ensures
            r == Self::spec_default(),
    {
        MountOption {
            uid: None,
            gid: None,
            fs_name: None,
            rootmode: None,
            allow_root: false,
            allow_other: false,
            read_only: None,
            default_permissions: false,
            nonempty: false,
        }
    }
}

} // verus!
