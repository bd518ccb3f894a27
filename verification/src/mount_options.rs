//! mount options.

use crate::text::{decimal, push_decimal, push_signed_decimal, signed_decimal};
use vstd::prelude::*;
use vstd::string::*;

verus! {

/// The user id of this process: `nix::unistd::getuid`. Nothing is stated of
/// the result, which depends on the process.
#[verifier::external_body]
pub(crate) fn process_uid() -> (r: u32) {
    nix::unistd::getuid().as_raw()
}

/// The group id of this process: `nix::unistd::getgid`. Nothing is stated of
/// the result, which depends on the process.
#[verifier::external_body]
pub(crate) fn process_gid() -> (r: u32) {
    nix::unistd::getgid().as_raw()
}

/// What `{:?}` prints for a path or `OsStr` of text `s`, quotes included.
pub uninterp spec fn os_str_debug(s: Seq<char>) -> Seq<char>;

/// Quotes `s` as `{:?}` prints an `OsStr` (a `Path` prints the same): the
/// result depends on the text alone and is named `os_str_debug`; its escaping
/// rules are left unstated.
#[verifier::external_body]
pub(crate) fn debug_quote(s: &str) -> (r: String)
    ensures
        r@ == os_str_debug(s@),
{
    format!("{:?}", std::path::Path::new(s))
}

/// The `mount` flag that makes the mount read-only.
pub const MS_RDONLY: u64 = 1;

/// mount options.
#[derive(Debug, Clone)]
pub struct MountOptions {
    // mount syscall data field option
    pub uid: Option<u32>,
    pub gid: Option<u32>,
    pub fs_name: Option<String>,
    // default 40000
    pub rootmode: Option<u32>,
    pub allow_root: bool,
    pub allow_other: bool,
    pub read_only: Option<bool>,
    // when run in privileged mode, it is lib self option
    pub nonempty: bool,
    // lib self option
    pub default_permissions: bool,
    pub dont_mask: bool,
    pub no_open_support: bool,
    pub no_open_dir_support: bool,
    pub handle_killpriv: bool,
    pub write_back: bool,
    pub force_readdir_plus: bool,
    pub custom_options: Option<String>,
}

/// `",name"` when `on`, else nothing.
pub open spec fn flag_text(on: bool, name: Seq<char>) -> Seq<char> {
    if on { ","@ + name } else { Seq::empty() }
}

/// The value of an optional setting, or its default.
pub open spec fn or_default(v: Option<u32>, default: u32) -> u32 {
    match v {
        Some(x) => x,
        None => default,
    }
}

impl MountOptions {
    /// All options off or unset.
    pub open spec fn spec_default() -> MountOptions {
        MountOptions {
            uid: None,
            gid: None,
            fs_name: None,
            rootmode: None,
            allow_root: false,
            allow_other: false,
            read_only: None,
            nonempty: false,
            default_permissions: false,
            dont_mask: false,
            no_open_support: false,
            no_open_dir_support: false,
            handle_killpriv: false,
            write_back: false,
            force_readdir_plus: false,
            custom_options: None,
        }
    }

    /// The fs name (**fuse** when none is set) as `{:?}` prints it.
    pub open spec fn quoted_fs_name(&self) -> Seq<char> {
        os_str_debug(
            match self.fs_name {
                Some(n) => n@,
                None => "fuse"@,
            },
        )
    }

    /// The flag options that come after the ids and the root mode, in order.
    pub open spec fn flags_text(&self) -> Seq<char> {
        flag_text(self.allow_root, "allow_root"@) + flag_text(self.allow_other, "allow_other"@)
            + flag_text(self.read_only == Some(true), "ro"@) + flag_text(
            self.default_permissions,
            "default_permissions"@,
        )
    }

    /// The custom options after a comma, if any are set.
    pub open spec fn custom_text(&self) -> Seq<char> {
        match self.custom_options {
            Some(c) => ","@ + c@,
            None => Seq::empty(),
        }
    }

    /// The mount data for a privileged mount on `/dev/fuse` descriptor `fd`,
    /// where `uid` and `gid` stand for the ids of this process.
    pub open spec fn spec_build(&self, fd: i32, uid: u32, gid: u32) -> Seq<char> {
        "fd="@ + signed_decimal(fd as int) + ",user_id="@ + decimal(
            or_default(self.uid, uid) as nat,
        ) + ",group_id="@ + decimal(or_default(self.gid, gid) as nat) + ",rootmode="@ + decimal(
            or_default(self.rootmode, 40000) as nat,
        ) + self.flags_text() + self.custom_text()
    }

    /// The options for `fusermount3`, where `uid` and `gid` stand for the ids of
    /// this process and `quoted_name` for the quoted fs name.
    pub open spec fn spec_build_with_unprivileged(
        &self,
        uid: u32,
        gid: u32,
        quoted_name: Seq<char>,
    ) -> Seq<char> {
        "user_id="@ + decimal(or_default(self.uid, uid) as nat) + ",group_id="@ + decimal(
            or_default(self.gid, gid) as nat,
        ) + ",rootmode="@ + decimal(or_default(self.rootmode, 40000) as nat) + ",fsname="@
            + quoted_name + self.flags_text() + self.custom_text()
    }

    /// set fuse filesystem mount `user_id`, default is current uid.
    pub fn uid(self, uid: u32) -> (r: Self)
        ensures
            r == (MountOptions { uid: Some(uid), ..self }),
    {
        let mut options = self;
        options.uid = Some(uid);
        options
    }

    /// set fuse filesystem mount `group_id`, default is current gid.
    pub fn gid(self, gid: u32) -> (r: Self)
        ensures
            r == (MountOptions { gid: Some(gid), ..self }),
    {
        let mut options = self;
        options.gid = Some(gid);
        options
    }

    /// set fuse filesystem name, default is **fuse**.
    pub fn fs_name(self, name: String) -> (r: Self)
        ensures
            r == (MountOptions { fs_name: Some(name), ..self }),
    {
        let mut options = self;
        options.fs_name = Some(name);
        options
    }

    /// set fuse filesystem `rootmode`, default is 40000.
    pub fn rootmode(self, rootmode: u32) -> (r: Self)
        ensures
            r == (MountOptions { rootmode: Some(rootmode), ..self }),
    {
        let mut options = self;
        options.rootmode = Some(rootmode);
        options
    }

    /// set fuse filesystem `allow_root` mount option, default is disable.
    pub fn allow_root(self, allow_root: bool) -> (r: Self)
        ensures
            r == (MountOptions { allow_root, ..self }),
    {
        let mut options = self;
        options.allow_root = allow_root;
        options
    }

    /// set fuse filesystem `allow_other` mount option, default is disable.
    pub fn allow_other(self, allow_other: bool) -> (r: Self)
        ensures
            r == (MountOptions { allow_other, ..self }),
    {
        let mut options = self;
        options.allow_other = allow_other;
        options
    }

    /// set fuse filesystem `ro` mount option, default is disable.
    pub fn read_only(self, read_only: bool) -> (r: Self)
        ensures
            r == (MountOptions { read_only: Some(read_only), ..self }),
    {
        let mut options = self;
        options.read_only = Some(read_only);
        options
    }

    /// allow fuse filesystem mount on a non-empty directory, default is not allowed.
    pub fn nonempty(self, nonempty: bool) -> (r: Self)
        ensures
            r == (MountOptions { nonempty, ..self }),
    {
        let mut options = self;
        options.nonempty = nonempty;
        options
    }

    /// set fuse filesystem `default_permissions` mount option, default is disable.
    ///
    /// When `default_permissions` is set, the `access` operation is useless.
    pub fn default_permissions(self, default_permissions: bool) -> (r: Self)
        ensures
            r == (MountOptions { default_permissions, ..self }),
    {
        let mut options = self;
        options.default_permissions = default_permissions;
        options
    }

    /// don't apply umask to file mode on create operations, default is disable.
    pub fn dont_mask(self, dont_mask: bool) -> (r: Self)
        ensures
            r == (MountOptions { dont_mask, ..self }),
    {
        let mut options = self;
        options.dont_mask = dont_mask;
        options
    }

    /// make kernel support zero-message opens, default is disable
    pub fn no_open_support(self, no_open_support: bool) -> (r: Self)
        ensures
            r == (MountOptions { no_open_support, ..self }),
    {
        let mut options = self;
        options.no_open_support = no_open_support;
        options
    }

    /// make kernel support zero-message opendir, default is disable
    pub fn no_open_dir_support(self, no_open_dir_support: bool) -> (r: Self)
        ensures
            r == (MountOptions { no_open_dir_support, ..self }),
    {
        let mut options = self;
        options.no_open_dir_support = no_open_dir_support;
        options
    }

    /// fs handle killing `suid`/`sgid`/`cap` on `write`/`chown`/`trunc`, default is disable.
    pub fn handle_killpriv(self, handle_killpriv: bool) -> (r: Self)
        ensures
            r == (MountOptions { handle_killpriv, ..self }),
    {
        let mut options = self;
        options.handle_killpriv = handle_killpriv;
        options
    }

    /// enable write back cache for buffered writes, default is disable.
    ///
    /// # Notes:
    ///
    /// if enable this feature, when write flags has `FUSE_WRITE_CACHE`, file handle is guessed.
    pub fn write_back(self, write_back: bool) -> (r: Self)
        ensures
            r == (MountOptions { write_back, ..self }),
    {
        let mut options = self;
        options.write_back = write_back;
        options
    }

    /// always use readdirplus: the kernel is told to use it, and plain readdir
    /// requests are answered with `ENOSYS`. Default is disable.
    pub fn force_readdir_plus(self, force_readdir_plus: bool) -> (r: Self)
        ensures
            r == (MountOptions { force_readdir_plus, ..self }),
    {
        let mut options = self;
        options.force_readdir_plus = force_readdir_plus;
        options
    }

    /// set custom options for fuse filesystem, the custom options will be used in mount
    pub fn custom_options(self, custom_options: String) -> (r: Self)
        ensures
            r == (MountOptions { custom_options: Some(custom_options), ..self }),
    {
        let mut options = self;
        options.custom_options = Some(custom_options);
        options
    }

    /// Appends the flag options that follow the ids and the root mode.
    fn push_flags(&self, options: &mut String)
        ensures
            final(options)@ == old(options)@ + self.flags_text(),
    {
        if self.allow_root {
            options.append(",allow_root");
        }
        if self.allow_other {
            options.append(",allow_other");
        }
        if matches!(self.read_only, Some(true)) {
            options.append(",ro");
        }
        if self.default_permissions {
            options.append(",default_permissions");
        }
        proof {
            reveal_strlit(",");
            reveal_strlit(",allow_root");
            reveal_strlit(",allow_other");
            reveal_strlit(",ro");
            reveal_strlit(",default_permissions");
            reveal_strlit("allow_root");
            reveal_strlit("allow_other");
            reveal_strlit("ro");
            reveal_strlit("default_permissions");
        }
        assert(final(options)@ =~= old(options)@ + self.flags_text());
    }

    /// Appends the custom options after a comma, if any are set.
    fn push_custom(&self, options: &mut String)
        ensures
            final(options)@ == old(options)@ + self.custom_text(),
    {
        if let Some(custom_options) = &self.custom_options {
            options.append(",");
            options.append(custom_options.as_str());
        }
        assert(final(options)@ =~= old(options)@ + self.custom_text());
    }

    /// Whether a mount point may be used: an empty one always, one that holds
    /// entries only when `nonempty` is set.
    pub fn allows_mount_point(&self, has_entries: bool) -> (r: bool)
        ensures
            r == (self.nonempty || !has_entries),
    {
        self.nonempty || !has_entries
    }

    /// The flags of the `mount` call: read-only (`MS_RDONLY`) when the
    /// options ask for it, else none.
    pub fn flags(&self) -> (r: u64)
        ensures
            r == (if self.read_only == Some(true) { MS_RDONLY } else { 0 }),
    {
        if matches!(self.read_only, Some(true)) { MS_RDONLY } else { 0 }
    }

    /// The mount data for a privileged mount on `/dev/fuse` descriptor `fd`,
    /// with `uid` and `gid` used where no id is set.
    pub fn build_with_ids(&self, fd: i32, uid: u32, gid: u32) -> (r: String)
        ensures
            r@ == self.spec_build(fd, uid, gid),
    {
        let mut options = String::new();
        options.append("fd=");
        push_signed_decimal(&mut options, fd as i64);
        options.append(",user_id=");
        push_decimal(&mut options, match self.uid { Some(x) => x, None => uid } as u64);
        options.append(",group_id=");
        push_decimal(&mut options, match self.gid { Some(x) => x, None => gid } as u64);
        options.append(",rootmode=");
        push_decimal(&mut options, match self.rootmode { Some(x) => x, None => 40000 } as u64);
        self.push_flags(&mut options);
        self.push_custom(&mut options);
        assert(options@ =~= self.spec_build(fd, uid, gid));
        options
    }

    /// The mount data for a privileged mount on `/dev/fuse` descriptor `fd`;
    /// unset ids default to those of this process.
    pub fn build(&self, fd: i32) -> (r: String)
        ensures
            exists|uid: u32, gid: u32| r@ == #[trigger] self.spec_build(fd, uid, gid),
    {
        let uid = process_uid();
        let gid = process_gid();
        self.build_with_ids(fd, uid, gid)
    }

    /// The options for `fusermount3`, with `uid` and `gid` used where no id is
    /// set and `quoted_name` as the fs name.
    pub fn unprivileged_options(&self, uid: u32, gid: u32, quoted_name: &str) -> (r: String)
        ensures
            r@ == self.spec_build_with_unprivileged(uid, gid, quoted_name@),
    {
        let mut options = String::new();
        options.append("user_id=");
        push_decimal(&mut options, match self.uid { Some(x) => x, None => uid } as u64);
        options.append(",group_id=");
        push_decimal(&mut options, match self.gid { Some(x) => x, None => gid } as u64);
        options.append(",rootmode=");
        push_decimal(&mut options, match self.rootmode { Some(x) => x, None => 40000 } as u64);
        options.append(",fsname=");
        options.append(quoted_name);
        self.push_flags(&mut options);
        self.push_custom(&mut options);
        assert(options@ =~= self.spec_build_with_unprivileged(uid, gid, quoted_name@));
        options
    }

    /// The options for `fusermount3`, with `uid` and `gid` used where no id is set.
    pub fn build_with_unprivileged_ids(&self, uid: u32, gid: u32) -> (r: String)
        ensures
            r@ == self.spec_build_with_unprivileged(
                uid,
                gid,
                self.quoted_fs_name(),
            ),
    {
        let quoted = match &self.fs_name {
            Some(name) => debug_quote(name.as_str()),
            None => debug_quote("fuse"),
        };
        self.unprivileged_options(uid, gid, quoted.as_str())
    }

    /// The options for `fusermount3`; unset ids default to those of this process.
    pub fn build_with_unprivileged(&self) -> (r: String)
        ensures
            exists|uid: u32, gid: u32|
                r@ == #[trigger] self.spec_build_with_unprivileged(
                    uid,
                    gid,
                    self.quoted_fs_name(),
                ),
    {
        let uid = process_uid();
        let gid = process_gid();
        self.build_with_unprivileged_ids(uid, gid)
    }
}

impl Default for MountOptions {
    fn default() -> (r: Self)
        ensures
            r == Self::spec_default(),
    {
        MountOptions {
            uid: None,
            gid: None,
            fs_name: None,
            rootmode: None,
            allow_root: false,
            allow_other: false,
            read_only: None,
            nonempty: false,
            default_permissions: false,
            dont_mask: false,
            no_open_support: false,
            no_open_dir_support: false,
            handle_killpriv: false,
            write_back: false,
            force_readdir_plus: false,
            custom_options: None,
        }
    }
}

} // verus!
