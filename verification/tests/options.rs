use fuse3::errno::Errno;
use fuse3::helper::{get_first_null_position, get_padding_size, mode_from_kind_and_perm};
use fuse3::mount_option::MountOption;
use fuse3::{perm_from_mode_and_kind, FileType, MountOptions};

#[test]
fn mount_data_lists_ids_root_mode_and_flags() {
    let opts = MountOptions::default().uid(1).gid(2).allow_other(true).read_only(true);
    assert_eq!(opts.build_with_ids(3, 9, 9), "fd=3,user_id=1,group_id=2,rootmode=40000,allow_other,ro");
    let opts = MountOptions::default().rootmode(40755).default_permissions(true).custom_options("x=y".to_string());
    assert_eq!(
        opts.build_with_ids(-1, 7, 8),
        "fd=-1,user_id=7,group_id=8,rootmode=40755,default_permissions,x=y"
    );
}

#[test]
fn read_only_false_adds_nothing() {
    let opts = MountOptions::default().read_only(false).allow_root(true);
    assert_eq!(opts.build_with_ids(0, 0, 0), "fd=0,user_id=0,group_id=0,rootmode=40000,allow_root");
}

#[test]
fn unprivileged_options_quote_the_fs_name() {
    let opts = MountOptions::default().uid(5).gid(6);
    assert_eq!(
        opts.build_with_unprivileged_ids(0, 0),
        "user_id=5,group_id=6,rootmode=40000,fsname=\"fuse\""
    );
    let opts = MountOptions::default().fs_name("my \"fs\"".to_string()).nonempty(true);
    assert_eq!(
        opts.build_with_unprivileged_ids(1, 2),
        "user_id=1,group_id=2,rootmode=40000,fsname=\"my \\\"fs\\\"\""
    );
}

#[test]
fn process_ids_fill_unset_ids() {
    let opts = MountOptions::default().uid(5).gid(6);
    assert_eq!(opts.build(4), "fd=4,user_id=5,group_id=6,rootmode=40000");
}

#[test]
fn old_mount_option_data() {
    let opt = MountOption::default().uid(1).gid(2).allow_root(true).default_permissions(true);
    assert_eq!(opt.build_with_ids(6, 0, 0), "fd=6,user_id=1,group_id=2,rootmode=40000,allow_root,default_permissions");
    let opt = MountOption::default().rootmode(1).read_only(true).fs_name("n".to_string());
    assert_eq!(opt.build_with_ids(6, 3, 4), "fd=6,user_id=3,group_id=4,rootmode=1,ro");
}

#[test]
fn first_null_position() {
    assert_eq!(get_first_null_position(b"ab\0c\0"), Some(2));
    assert_eq!(get_first_null_position(b"abc"), None);
    assert_eq!(get_first_null_position(b""), None);
}

#[test]
fn padding_to_eight_bytes() {
    assert_eq!(get_padding_size(24), 0);
    assert_eq!(get_padding_size(25), 7);
    assert_eq!(get_padding_size(31), 1);
    assert_eq!(get_padding_size(0), 0);
}

#[test]
fn mode_and_perm_round_trip() {
    assert_eq!(mode_from_kind_and_perm(FileType::Directory, 0o755), 0o040755);
    assert_eq!(mode_from_kind_and_perm(FileType::Symlink, 0o777), 0o120777);
    assert_eq!(perm_from_mode_and_kind(FileType::RegularFile, 0o100644), 0o644);
    assert_eq!(perm_from_mode_and_kind(FileType::Socket, mode_from_kind_and_perm(FileType::Socket, 0o600)), 0o600);
}

#[test]
fn errno_kinds() {
    assert!(Errno::new_not_exist().is_not_exist());
    assert!(Errno(17).is_exist());
    assert!(Errno(21).is_dir());
    assert!(Errno(20).is_not_dir());
    assert!(!Errno(20).is_dir());
    assert_eq!(Errno::from(5).0, 5);
    assert_eq!(Errno(5).to_reply_error(), -5);
}

#[test]
fn unprivileged_options_put_the_quoted_name_after_the_root_mode() {
    let opts = MountOptions::default().allow_other(true).custom_options("a=b".to_string());
    assert_eq!(
        opts.unprivileged_options(3, 4, "\"x\""),
        "user_id=3,group_id=4,rootmode=40000,fsname=\"x\",allow_other,a=b"
    );
}

#[test]
fn read_only_mounts_get_the_read_only_flag() {
    assert_eq!(MountOptions::default().read_only(true).flags(), 1);
    assert_eq!(MountOptions::default().read_only(false).flags(), 0);
    assert_eq!(MountOptions::default().flags(), 0);
    assert_eq!(Errno::from_os_error(Some(13)).0, 13);
    assert_eq!(Errno::from_os_error(None).0, 5);
}

#[test]
fn non_empty_mount_points_need_the_option() {
    assert!(MountOptions::default().allows_mount_point(false));
    assert!(!MountOptions::default().allows_mount_point(true));
    assert!(MountOptions::default().nonempty(true).allows_mount_point(true));
}

#[test]
fn os_errors_come_back_unchanged() {
    let e = Errno(13);
    let io = std::io::Error::from_raw_os_error(e.0);
    assert_eq!(Errno::from_os_error(io.raw_os_error()), e);
}
