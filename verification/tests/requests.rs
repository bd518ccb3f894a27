use fuse3::raw::abi::{FuseForgetIn, FuseGetattrIn, FuseInHeader, FusePollIn, FuseReleaseIn, FuseSetattrIn};
use fuse3::raw::session::{
    decode_request, ends_session, getattr_fh, refusal_reply, parse_operation, poll_kh, release_flush, setattr_fh, Decoded,
    Operation, ParseError,
};
use fuse3::{SetAttr, Timestamp};

fn request(opcode: u32, unique: u64, nodeid: u64, body: &[u8]) -> Vec<u8> {
    let mut v = Vec::new();
    v.extend_from_slice(&((40 + body.len()) as u32).to_le_bytes());
    v.extend_from_slice(&opcode.to_le_bytes());
    v.extend_from_slice(&unique.to_le_bytes());
    v.extend_from_slice(&nodeid.to_le_bytes());
    v.extend_from_slice(&1000u32.to_le_bytes());
    v.extend_from_slice(&100u32.to_le_bytes());
    v.extend_from_slice(&42u32.to_le_bytes());
    v.extend_from_slice(&0u32.to_le_bytes());
    v.extend_from_slice(body);
    v
}

#[test]
fn short_read_is_ignored() {
    assert!(matches!(decode_request(&[0u8; 39], false), Decoded::Ignore));
}

#[test]
fn lookup_name_is_read_up_to_its_nul() {
    let data = request(1, 7, 1, b"hello\0junk");
    match decode_request(&data, false) {
        Decoded::Run { request, header, op } => {
            assert_eq!(request.unique, 7);
            assert_eq!(request.uid, 1000);
            assert_eq!(request.gid, 100);
            assert_eq!(request.pid, 42);
            assert_eq!(header.nodeid, 1);
            assert_eq!(op, Operation::Lookup { name: b"hello".to_vec() });
        },
        _ => panic!("lookup not decoded"),
    }
}

#[test]
fn lookup_without_nul_is_invalid() {
    let data = request(1, 7, 1, b"hello");
    match decode_request(&data, false) {
        Decoded::Refused { error, .. } => {
            assert_eq!(error, ParseError::Invalid);
            assert_eq!(error.reply_errno(), Some(22));
        },
        _ => panic!("malformed lookup accepted"),
    }
}

#[test]
fn unknown_opcode_is_refused_with_enosys() {
    let data = request(7, 3, 1, b"");
    match decode_request(&data, false) {
        Decoded::Refused { error, request, .. } => {
            assert_eq!(error, ParseError::Unknown);
            assert_eq!(error.reply_errno(), Some(38));
            assert_eq!(request.unique, 3);
        },
        _ => panic!("unknown opcode accepted"),
    }
}

#[test]
fn short_forget_is_dropped_silently() {
    let data = request(2, 3, 5, &[1, 2, 3]);
    match decode_request(&data, false) {
        Decoded::Refused { error, .. } => {
            assert_eq!(error, ParseError::Silent);
            assert_eq!(error.reply_errno(), None);
        },
        _ => panic!("short forget accepted"),
    }
}

#[test]
fn short_init_ends_the_session() {
    assert_eq!(parse_operation(26, &[0; 8], false), Err(ParseError::InitFailed));
}

#[test]
fn readdir_is_refused_when_readdirplus_is_forced() {
    let body = [0u8; 40];
    assert_eq!(parse_operation(28, &body, true), Err(ParseError::NotImplemented));
    assert_eq!(ParseError::NotImplemented.reply_errno(), Some(38));
    assert!(matches!(parse_operation(28, &body, false), Ok(Operation::Readdir(_))));
}

#[test]
fn rename_reads_two_names() {
    let mut body = Vec::new();
    body.extend_from_slice(&9u64.to_le_bytes());
    body.extend_from_slice(b"old\0new\0");
    match parse_operation(12, &body, false) {
        Ok(Operation::Rename { arg, name, new_name }) => {
            assert_eq!(arg.newdir, 9);
            assert_eq!(name, b"old".to_vec());
            assert_eq!(new_name, b"new".to_vec());
        },
        other => panic!("unexpected {:?}", other),
    }
    body.truncate(8 + 4);
    assert_eq!(parse_operation(12, &body, false), Err(ParseError::Invalid));
}

#[test]
fn write_data_must_match_its_size() {
    let mut body = Vec::new();
    body.extend_from_slice(&1u64.to_le_bytes());
    body.extend_from_slice(&0u64.to_le_bytes());
    body.extend_from_slice(&3u32.to_le_bytes());
    body.extend_from_slice(&0u32.to_le_bytes());
    body.extend_from_slice(&0u64.to_le_bytes());
    body.extend_from_slice(&0u32.to_le_bytes());
    body.extend_from_slice(&0u32.to_le_bytes());
    body.extend_from_slice(b"abc");
    match parse_operation(16, &body, false) {
        Ok(Operation::Write { arg, data }) => {
            assert_eq!(arg.fh, 1);
            assert_eq!(arg.size, 3);
            assert_eq!(data, b"abc".to_vec());
        },
        other => panic!("unexpected {:?}", other),
    }
    body.push(b'd');
    assert_eq!(parse_operation(16, &body, false), Err(ParseError::Invalid));
}

#[test]
fn batch_forget_reads_every_node() {
    let mut body = Vec::new();
    body.extend_from_slice(&2u32.to_le_bytes());
    body.extend_from_slice(&0u32.to_le_bytes());
    body.extend_from_slice(&5u64.to_le_bytes());
    body.extend_from_slice(&1u64.to_le_bytes());
    body.extend_from_slice(&6u64.to_le_bytes());
    body.extend_from_slice(&1u64.to_le_bytes());
    assert_eq!(parse_operation(42, &body, false), Ok(Operation::BatchForget { nodeids: vec![5, 6] }));
    body.truncate(24);
    assert_eq!(parse_operation(42, &body, false), Err(ParseError::Silent));
}

#[test]
fn header_decoding_needs_forty_bytes() {
    assert!(FuseInHeader::decode(&[0u8; 39]).is_none());
    let data = request(3, 1, 2, b"");
    let h = FuseInHeader::decode(&data).unwrap();
    assert_eq!(h.len, 40);
    assert_eq!(h.opcode, 3);
    assert_eq!(h.unique, 1);
    assert_eq!(h.nodeid, 2);
}

#[test]
fn file_handles_only_when_flagged() {
    assert_eq!(getattr_fh(&FuseGetattrIn { getattr_flags: 1, dummy: 0, fh: 5 }), Some(5));
    assert_eq!(getattr_fh(&FuseGetattrIn { getattr_flags: 0, dummy: 0, fh: 5 }), None);
    assert_eq!(poll_kh(&FusePollIn { fh: 1, kh: 9, flags: 1, events: 0 }), Some(9));
    assert_eq!(poll_kh(&FusePollIn { fh: 1, kh: 9, flags: 2, events: 0 }), None);
    assert!(release_flush(&FuseReleaseIn { fh: 1, flags: 0, release_flags: 1, lock_owner: 0 }));
    assert!(!release_flush(&FuseReleaseIn { fh: 1, flags: 0, release_flags: 2, lock_owner: 0 }));
}

fn setattr_in(valid: u32) -> FuseSetattrIn {
    FuseSetattrIn {
        valid,
        padding: 0,
        fh: 3,
        size: 100,
        lock_owner: 4,
        atime: 10,
        mtime: 20,
        ctime: 30,
        atimensec: 1_500_000_000,
        mtimensec: 2,
        ctimensec: 3,
        mode: 0o755,
        unused4: 0,
        uid: 1,
        gid: 2,
        unused5: 0,
    }
}

#[test]
fn setattr_sets_only_the_valid_fields() {
    let now = Timestamp { sec: 99, nsec: 1 };
    let s = SetAttr::from_setattr_in(&setattr_in(1 | 8 | 16 | 64), now);
    assert_eq!(s.mode, Some(0o755));
    assert_eq!(s.size, Some(100));
    assert_eq!(s.uid, None);
    assert_eq!(s.atime, Some(Timestamp { sec: 11, nsec: 500_000_000 }));
    assert_eq!(s.mtime, None);
    assert_eq!(setattr_fh(&setattr_in(64)), Some(3));
    assert_eq!(setattr_fh(&setattr_in(1)), None);
}

#[test]
fn setattr_now_wins_over_a_given_time() {
    let now = Timestamp { sec: 99, nsec: 1 };
    let s = SetAttr::from_setattr_in(&setattr_in(16 | 128 | 32 | 1024 | 512), now);
    assert_eq!(s.atime, Some(now));
    assert_eq!(s.mtime, Some(Timestamp { sec: 20, nsec: 2 }));
    assert_eq!(s.ctime, Some(Timestamp { sec: 30, nsec: 3 }));
    assert_eq!(s.lock_owner, Some(4));
}

#[test]
fn only_destroy_ends_the_session() {
    assert!(ends_session(&Operation::Destroy));
    assert!(!ends_session(&Operation::Forget(FuseForgetIn { nlookup: 1 })));
    assert!(!ends_session(&Operation::Statfs));
}

#[test]
fn device_errors_that_end_or_pass() {
    assert!(fuse3::raw::session::read_error_unmounted(Some(19)));
    assert!(!fuse3::raw::session::read_error_unmounted(Some(5)));
    assert!(!fuse3::raw::session::read_error_unmounted(None));
    assert!(fuse3::raw::session::write_error_ignored(Some(2)));
    assert!(!fuse3::raw::session::write_error_ignored(Some(19)));
    assert!(!fuse3::raw::session::write_error_ignored(None));
}

#[test]
fn refused_requests_are_answered_with_their_errno() {
    let mut expected = Vec::new();
    expected.extend_from_slice(&16u32.to_le_bytes());
    expected.extend_from_slice(&(-38i32).to_le_bytes());
    expected.extend_from_slice(&9u64.to_le_bytes());
    assert_eq!(refusal_reply(9, ParseError::Unknown), Some(expected));
    assert_eq!(refusal_reply(9, ParseError::Silent), None);
}

#[test]
fn malformed_init_is_answered_with_einval_as_is() {
    let mut expected = Vec::new();
    expected.extend_from_slice(&16u32.to_le_bytes());
    expected.extend_from_slice(&22i32.to_le_bytes());
    expected.extend_from_slice(&4u64.to_le_bytes());
    assert_eq!(refusal_reply(4, ParseError::InitFailed), Some(expected));
    let mut expected = Vec::new();
    expected.extend_from_slice(&16u32.to_le_bytes());
    expected.extend_from_slice(&(-22i32).to_le_bytes());
    expected.extend_from_slice(&4u64.to_le_bytes());
    assert_eq!(refusal_reply(4, ParseError::Invalid), Some(expected));
}
