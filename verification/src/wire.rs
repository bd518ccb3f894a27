//! The byte encoding of the kernel protocol: fixed width little endian integers,
//! written and read with `bincode` configured the way the session configures it
//! (little endian, fixed-int encoding, trailing bytes allowed).

use bincode::Options;
use vstd::bytes::*;
use vstd::prelude::*;

verus! {

/// Little endian bytes of a `u16`.
pub open spec fn le16(x: u16) -> Seq<u8> {
    spec_u16_to_le_bytes(x)
}

/// Little endian bytes of a `u32`.
pub open spec fn le32(x: u32) -> Seq<u8> {
    spec_u32_to_le_bytes(x)
}

/// Little endian bytes of a `u64`.
pub open spec fn le64(x: u64) -> Seq<u8> {
    spec_u64_to_le_bytes(x)
}

/// Two's complement little endian bytes of an `i32`.
pub open spec fn le_i32(x: i32) -> Seq<u8> {
    spec_u32_to_le_bytes(x as u32)
}

/// Two's complement little endian bytes of an `i64`.
pub open spec fn le_i64(x: i64) -> Seq<u8> {
    spec_u64_to_le_bytes(x as u64)
}

/// The `u32` stored little endian at `off` in `s`.
pub open spec fn u32_at(s: Seq<u8>, off: int) -> u32 {
    spec_u32_from_le_bytes(s.subrange(off, off + 4))
}

/// The `u64` stored little endian at `off` in `s`.
pub open spec fn u64_at(s: Seq<u8>, off: int) -> u64 {
    spec_u64_from_le_bytes(s.subrange(off, off + 8))
}

/// Appends `x` with `bincode::Options::serialize_into`; bincode's fixed-int
/// little endian encoding of a `u16` is its two little endian bytes.
#[verifier::external_body]
pub(crate) fn put_u16(buf: &mut Vec<u8>, x: u16)
    ensures
        final(buf)@ == old(buf)@ + le16(x),
{
    bincode::DefaultOptions::new().with_little_endian().allow_trailing_bytes()
        .with_fixint_encoding().serialize_into(&mut *buf, &x).expect("writing to a Vec");
}

/// Appends `x` with `bincode::Options::serialize_into`; bincode's fixed-int
/// little endian encoding of a `u32` is its four little endian bytes.
#[verifier::external_body]
pub(crate) fn put_u32(buf: &mut Vec<u8>, x: u32)
    ensures
        final(buf)@ == old(buf)@ + le32(x),
{
    bincode::DefaultOptions::new().with_little_endian().allow_trailing_bytes()
        .with_fixint_encoding().serialize_into(&mut *buf, &x).expect("writing to a Vec");
}

/// Appends `x` with `bincode::Options::serialize_into`; bincode's fixed-int
/// little endian encoding of an `i32` is the four little endian bytes of its
/// two's complement.
#[verifier::external_body]
pub(crate) fn put_i32(buf: &mut Vec<u8>, x: i32)
    ensures
        final(buf)@ == old(buf)@ + le_i32(x),
{
    bincode::DefaultOptions::new().with_little_endian().allow_trailing_bytes()
        .with_fixint_encoding().serialize_into(&mut *buf, &x).expect("writing to a Vec");
}

/// Appends `x` with `bincode::Options::serialize_into`; bincode's fixed-int
/// little endian encoding of a `u64` is its eight little endian bytes.
#[verifier::external_body]
pub(crate) fn put_u64(buf: &mut Vec<u8>, x: u64)
    ensures
        final(buf)@ == old(buf)@ + le64(x),
{
    bincode::DefaultOptions::new().with_little_endian().allow_trailing_bytes()
        .with_fixint_encoding().serialize_into(&mut *buf, &x).expect("writing to a Vec");
}

/// Appends `x` with `bincode::Options::serialize_into`; bincode's fixed-int
/// little endian encoding of an `i64` is the eight little endian bytes of its
/// two's complement.
#[verifier::external_body]
pub(crate) fn put_i64(buf: &mut Vec<u8>, x: i64)
    ensures
        final(buf)@ == old(buf)@ + le_i64(x),
{
    bincode::DefaultOptions::new().with_little_endian().allow_trailing_bytes()
        .with_fixint_encoding().serialize_into(&mut *buf, &x).expect("writing to a Vec");
}

/// Reads a `u32` from the front of `data` with `bincode::Options::deserialize`:
/// bincode reads four little endian bytes, fails when fewer are left, and
/// (trailing bytes allowed) ignores the rest.
#[verifier::external_body]
pub(crate) fn get_u32(data: &[u8]) -> (r: Option<u32>)
    ensures
        r is Some <==> data@.len() >= 4,
        r matches Some(x) ==> x == u32_at(data@, 0),
{
    bincode::DefaultOptions::new().with_little_endian().allow_trailing_bytes()
        .with_fixint_encoding().deserialize::<u32>(data).ok()
}

/// Reads a `u64` from the front of `data` with `bincode::Options::deserialize`:
/// bincode reads eight little endian bytes, fails when fewer are left, and
/// (trailing bytes allowed) ignores the rest.
#[verifier::external_body]
pub(crate) fn get_u64(data: &[u8]) -> (r: Option<u64>)
    ensures
        r is Some <==> data@.len() >= 8,
        r matches Some(x) ==> x == u64_at(data@, 0),
{
    bincode::DefaultOptions::new().with_little_endian().allow_trailing_bytes()
        .with_fixint_encoding().deserialize::<u64>(data).ok()
}

/// Reads the `u32` at `off`, which lies within `data`.
pub fn read_u32_at(data: &[u8], off: usize) -> (r: u32)
    requires
        off + 4 <= data@.len(),
    ensures
        r == u32_at(data@, off as int),
{
    let rest = vstd::slice::slice_subrange(data, off, data.len());
    match get_u32(rest) {
        Some(x) => {
            assert(rest@.subrange(0, 4) =~= data@.subrange(off as int, off + 4));
            x
        },
        None => 0,
    }
}

/// Reads the `u64` at `off`, which lies within `data`.
pub fn read_u64_at(data: &[u8], off: usize) -> (r: u64)
    requires
        off + 8 <= data@.len(),
    ensures
        r == u64_at(data@, off as int),
{
    let rest = vstd::slice::slice_subrange(data, off, data.len());
    match get_u64(rest) {
        Some(x) => {
            assert(rest@.subrange(0, 8) =~= data@.subrange(off as int, off + 8));
            x
        },
        None => 0,
    }
}

/// Where the little endian bytes of `x` stand at `off` in `s`, the `u64`
/// read there is `x`.
pub proof fn lemma_u64_at_le(s: Seq<u8>, off: int, x: u64)
    requires
        0 <= off,
        off + 8 <= s.len(),
        s.subrange(off, off + 8) == le64(x),
    ensures
        u64_at(s, off) == x,
{
    lemma_le_roundtrip();
    assert(le64(x).subrange(0, 8) =~= le64(x));
}

/// Where the little endian bytes of `x` stand at `off` in `s`, the `u32`
/// read there is `x`.
pub proof fn lemma_u32_at_le(s: Seq<u8>, off: int, x: u32)
    requires
        0 <= off,
        off + 4 <= s.len(),
        s.subrange(off, off + 4) == le32(x),
    ensures
        u32_at(s, off) == x,
{
    lemma_le_roundtrip();
    assert(le32(x).subrange(0, 4) =~= le32(x));
}

/// Decoding what was encoded gives back the value, and each encoding has the
/// width of its type.
pub proof fn lemma_le_roundtrip()
    ensures
        forall|x: u32| #[trigger] le32(x).len() == 4 && u32_at(le32(x), 0) == x,
        forall|x: u64| #[trigger] le64(x).len() == 8 && u64_at(le64(x), 0) == x,
        forall|x: u16| #[trigger] le16(x).len() == 2,
        forall|x: i32| #[trigger] le_i32(x).len() == 4,
        forall|x: i64| #[trigger] le_i64(x).len() == 8,
{
    lemma_auto_spec_u32_to_from_le_bytes();
    lemma_auto_spec_u64_to_from_le_bytes();
    lemma_auto_spec_u16_to_from_le_bytes();
    assert forall|x: u32| #[trigger] le32(x).len() == 4 && u32_at(le32(x), 0) == x by {
        assert(le32(x).subrange(0, 4) =~= le32(x));
    }
    assert forall|x: u64| #[trigger] le64(x).len() == 8 && u64_at(le64(x), 0) == x by {
        assert(le64(x).subrange(0, 8) =~= le64(x));
    }
    assert forall|x: i32| #[trigger] le_i32(x).len() == 4 by {
        assert(le32(x as u32).len() == 4);
    }
    assert forall|x: i64| #[trigger] le_i64(x).len() == 8 by {
        assert(le64(x as u64).len() == 8);
    }
}

} // verus!
