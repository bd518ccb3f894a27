//! Small helpers of the wire format: C strings, record padding and file modes.

use crate::{file_type_mode, FileType};
use vstd::prelude::*;

verus! {

/// `i` is the position of the first zero byte of `s`.
pub open spec fn is_first_null(s: Seq<u8>, i: int) -> bool {
    &&& 0 <= i < s.len()
    &&& s[i] == 0
    &&& forall|j: int| 0 <= j < i ==> s[j] != 0
}

/// `s` holds a zero byte.
pub open spec fn has_null(s: Seq<u8>) -> bool {
    exists|i: int| 0 <= i < s.len() && s[i] == 0
}

/// The position of the first zero byte of `s` (meaningful when `has_null(s)`).
pub open spec fn null_index(s: Seq<u8>) -> int {
    choose|i: int| is_first_null(s, i)
}

/// The C string at the front of `s`: the bytes before its first zero.
pub open spec fn cstr(s: Seq<u8>) -> Seq<u8> {
    s.subrange(0, null_index(s))
}

/// What follows the first zero byte of `s`.
pub open spec fn after_cstr(s: Seq<u8>) -> Seq<u8> {
    s.subrange(null_index(s) + 1, s.len() as int)
}

/// A name without zero bytes, a zero byte and then anything: the C string
/// at the front is the name, and what follows it is the rest.
pub proof fn lemma_cstr_split(name: Seq<u8>, rest: Seq<u8>)
    requires
        forall|i: int| 0 <= i < name.len() ==> name[i] != 0,
    ensures
        has_null(name + seq![0u8] + rest),
        cstr(name + seq![0u8] + rest) == name,
        after_cstr(name + seq![0u8] + rest) == rest,
{
    let s = name + seq![0u8] + rest;
    let k = name.len() as int;
    assert(s[k] == 0);
    assert(is_first_null(s, k));
    lemma_null_index(s);
    assert(null_index(s) == k);
    assert(s.subrange(0, k) =~= name);
    assert(s.subrange(k + 1, s.len() as int) =~= rest);
}

/// A string that holds a zero byte has exactly one first zero byte, `null_index`.
pub proof fn lemma_null_index(s: Seq<u8>)
    requires
        has_null(s),
    ensures
        is_first_null(s, null_index(s)),
        forall|i: int| is_first_null(s, i) ==> i == null_index(s),
{
    let k = choose|k: int| 0 <= k < s.len() && s[k] == 0;
    lemma_first_null_below(s, k);
    let f = choose|i: int| is_first_null(s, i);
    assert forall|i: int| is_first_null(s, i) implies i == f by {
        if i < f {
            assert(s[i] == 0);
        } else if f < i {
            assert(s[f] == 0);
        }
    }
}

proof fn lemma_first_null_below(s: Seq<u8>, k: int)
    requires
        0 <= k < s.len(),
        s[k] == 0,
    ensures
        exists|i: int| is_first_null(s, i),
    decreases k,
{
    if exists|j: int| 0 <= j < k && s[j] == 0 {
        let j = choose|j: int| 0 <= j < k && s[j] == 0;
        lemma_first_null_below(s, j);
    } else {
        assert(is_first_null(s, k));
    }
}

/// The position of the first zero byte in `data`.
pub fn get_first_null_position(data: &[u8]) -> (r: Option<usize>)
    ensures
        r is None <==> !has_null(data@),
        r matches Some(i) ==> is_first_null(data@, i as int) && i == null_index(data@),
{
    let mut i: usize = 0;
    while i < data.len()
        invariant
            i <= data@.len(),
            forall|j: int| 0 <= j < i ==> data@[j] != 0,
        decreases data@.len() - i,
    {
        if data[i] == 0 {
            proof {
                assert(is_first_null(data@, i as int));
                lemma_null_index(data@);
            }
            return Some(i);
        }
        i = i + 1;
    }
    None
}

/// The number of zero bytes that pad a directory record of `dir_entry_size`
/// bytes to a multiple of eight.
pub fn get_padding_size(dir_entry_size: usize) -> (r: usize)
    requires
        dir_entry_size <= usize::MAX - 7,
    ensures
        r < 8,
        (dir_entry_size + r) % 8 == 0,
{
    let rounded_up = dir_entry_size + 7;
    let entry_size = rounded_up & !7usize;
    assert(entry_size <= rounded_up && rounded_up - entry_size < 8 && entry_size % 8 == 0)
        by (bit_vector)
        requires
            entry_size == rounded_up & !7usize,
    ;
    entry_size - dir_entry_size
}

/// The mode bits of a file of kind `kind` with permissions `perm`.
pub open spec fn spec_mode_from_kind_and_perm(kind: FileType, perm: u16) -> u32 {
    file_type_mode(kind) | (perm as u32)
}

/// returns the mode for a given file kind and permission
pub fn mode_from_kind_and_perm(kind: FileType, perm: u16) -> (r: u32)
    ensures
        r == spec_mode_from_kind_and_perm(kind, perm),
{
    crate::file_type_mode_exec(kind) | (perm as u32)
}

/// The permission bits of a mode of a file of kind `kind`.
pub open spec fn spec_perm_from_mode_and_kind(kind: FileType, mode: u32) -> u16 {
    (mode ^ file_type_mode(kind)) as u16
}

/// returns the permission for a given file kind and mode
pub fn perm_from_mode_and_kind(kind: FileType, mode: u32) -> (r: u16)
    ensures
        r == spec_perm_from_mode_and_kind(kind, mode),
{
    (mode ^ crate::file_type_mode_exec(kind)) as u16
}

/// Taking the permission bits back out of a mode gives the permissions that
/// went in, when they fit below the file type bits.
pub proof fn lemma_perm_mode_roundtrip(kind: FileType, perm: u16)
    requires
        perm < 4096,
    ensures
        spec_perm_from_mode_and_kind(kind, spec_mode_from_kind_and_perm(kind, perm)) == perm,
        spec_mode_from_kind_and_perm(kind, perm) >> 12 == file_type_mode(kind) >> 12,
{
    let m = file_type_mode(kind);
    assert(m & 4095 == 0 && m < 65536) by (bit_vector)
        requires
            m == 4096u32 || m == 8192u32 || m == 24576u32 || m == 16384u32 || m == 32768u32
                || m == 40960u32 || m == 49152u32,
    ;
    let p = perm as u32;
    assert(((m | p) ^ m) as u16 == perm && (m | p) >> 12 == m >> 12) by (bit_vector)
        requires
            m & 4095 == 0,
            m < 65536,
            p == perm as u32,
            perm < 4096,
    ;
}

} // verus!
