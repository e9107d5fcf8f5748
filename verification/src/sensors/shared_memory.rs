//! What the drivers read out of a named shared-memory section: fixed-width C strings,
//! and structures at an offset that must lie inside the mapped view.

use vstd::prelude::*;

use crate::text::{law_trimmed_has_no_outer_white_space, str_trim, trimmed, whitespace};

verus! {

/// What `String::from_utf8_lossy` returns: the bytes decoded as UTF-8, every invalid
/// sequence replaced by U+FFFD.
pub uninterp spec fn utf8_lossy(bytes: Seq<u8>) -> Seq<char>;

/// Calls `String::from_utf8_lossy`; its result is named by `utf8_lossy`, and is the
/// plain decoding when the bytes are valid UTF-8.
#[verifier::external_body]
pub(crate) fn decode_lossy(bytes: &[u8]) -> (s: String)
    ensures
        s@ == utf8_lossy(bytes@),
        vstd::utf8::valid_utf8(bytes@) ==> s@ == vstd::utf8::decode_utf8(bytes@),
{
    String::from_utf8_lossy(bytes).into_owned()
}

/// Position of the first NUL byte, or the length when there is none.
pub open spec fn nul_position(bytes: Seq<u8>) -> int
    decreases bytes.len(),
{
    if bytes.len() == 0 {
        0
    } else if bytes[0] == 0 {
        0
    } else {
        1 + nul_position(bytes.drop_first())
    }
}

/// The text of a fixed-width C string: up to the first NUL, decoded, trimmed.
pub open spec fn c_text(bytes: Seq<u8>) -> Seq<char> {
    trimmed(utf8_lossy(bytes.take(nul_position(bytes))))
}

proof fn lemma_nul_position(bytes: Seq<u8>, i: int)
    requires
        0 <= i <= bytes.len(),
        forall|j: int| 0 <= j < i ==> bytes[j] != 0,
    ensures
        nul_position(bytes) == i + nul_position(bytes.skip(i)),
    decreases i,
{
    if i > 0 {
        lemma_nul_position(bytes.drop_first(), i - 1);
        assert(bytes.drop_first().skip(i - 1) == bytes.skip(i));
    } else {
        assert(bytes.skip(0) == bytes);
    }
}

/// The first NUL of `a` followed by a NUL lies within `a` or at that NUL, whatever follows.
proof fn lemma_nul_position_before_tail(a: Seq<u8>, b: Seq<u8>)
    ensures
        nul_position(a + seq![0u8] + b) == nul_position(a + seq![0u8]),
        0 <= nul_position(a + seq![0u8]) <= a.len(),
    decreases a.len(),
{
    let x = a + seq![0u8] + b;
    let y = a + seq![0u8];
    if a.len() == 0 {
        assert(x[0] == 0u8);
        assert(y[0] == 0u8);
    } else if a[0] == 0 {
        assert(x[0] == 0u8);
        assert(y[0] == 0u8);
    } else {
        lemma_nul_position_before_tail(a.drop_first(), b);
        assert(x.drop_first() =~= a.drop_first() + seq![0u8] + b);
        assert(y.drop_first() =~= a.drop_first() + seq![0u8]);
    }
}

/// The bytes after the first NUL of a C string never change its text.
pub proof fn law_bytes_after_the_first_nul_do_not_matter(a: Seq<u8>, b: Seq<u8>)
    ensures
        c_text(a + seq![0u8] + b) == c_text(a + seq![0u8]),
{
    lemma_nul_position_before_tail(a, b);
    let n = nul_position(a + seq![0u8]);
    assert forall|i: int| 0 <= i < n implies (a + seq![0u8] + b)[i] == (a + seq![0u8])[i] by {
        assert((a + seq![0u8] + b)[i] == a[i]);
    }
    assert((a + seq![0u8] + b).take(n) =~= (a + seq![0u8]).take(n));
}

/// The text of a C string neither begins nor ends with whitespace.
pub proof fn law_c_text_has_no_outer_white_space(bytes: Seq<u8>)
    ensures
        c_text(bytes).len() > 0 ==> !whitespace(c_text(bytes)[0]) && !whitespace(
            c_text(bytes).last(),
        ),
{
    law_trimmed_has_no_outer_white_space(utf8_lossy(bytes.take(nul_position(bytes))));
}

/// Decodes a fixed-width C string, as found in these structures.
pub fn c_string(bytes: &[u8]) -> (s: String)
    ensures
        s@ == c_text(bytes@),
{
    let mut end: usize = 0;
    while end < bytes.len() && bytes[end] != 0
        invariant
            end <= bytes@.len(),
            forall|j: int| 0 <= j < end ==> bytes@[j] != 0,
        decreases bytes.len() - end,
    {
        end = end + 1;
    }
    proof {
        lemma_nul_position(bytes@, end as int);
        if end < bytes@.len() {
            assert(bytes@.skip(end as int)[0] == 0);
        }
    }
    let mut prefix: Vec<u8> = Vec::new();
    let mut i: usize = 0;
    while i < end
        invariant
            i <= end <= bytes@.len(),
            prefix@ == bytes@.take(i as int),
        decreases end - i,
    {
        prefix.push(bytes[i]);
        assert(bytes@.take(i as int + 1) == bytes@.take(i as int).push(bytes@[i as int]));
        i = i + 1;
    }
    let decoded = decode_lossy(prefix.as_slice());
    str_trim(decoded.as_str())
}

/// The unsigned integer stored little-endian in the four bytes at `offset`.
pub open spec fn le_u32(bytes: Seq<u8>, offset: int) -> int {
    bytes[offset] + 256 * bytes[offset + 1] + 65536 * bytes[offset + 2] + 16777216 * bytes[offset
        + 3]
}

/// The unsigned integer stored little-endian in the eight bytes at `offset`.
pub open spec fn le_u64(bytes: Seq<u8>, offset: int) -> int {
    le_u32(bytes, offset) + 4294967296 * le_u32(bytes, offset + 4)
}

/// Reads the little-endian `u32` at `offset`.
pub fn read_u32_le(bytes: &[u8], offset: usize) -> (v: u32)
    requires
        offset + 4 <= bytes@.len(),
    ensures
        v == le_u32(bytes@, offset as int),
{
    let b0 = bytes[offset] as u32;
    let b1 = bytes[offset + 1] as u32;
    let b2 = bytes[offset + 2] as u32;
    let b3 = bytes[offset + 3] as u32;
    b0 + b1 * 256 + b2 * 65536 + b3 * 16777216
}

/// Reads the little-endian `u64` at `offset`.
pub fn read_u64_le(bytes: &[u8], offset: usize) -> (v: u64)
    requires
        offset + 8 <= bytes@.len(),
    ensures
        v == le_u64(bytes@, offset as int),
{
    let n = bytes.len();
    assert(offset + 8 <= n);
    let lo = read_u32_le(bytes, offset) as u64;
    let hi = read_u32_le(bytes, offset + 4) as u64;
    lo + hi * 4294967296
}

/// Copies the `len` bytes at `offset`.
pub fn bytes_at(bytes: &[u8], offset: usize, len: usize) -> (v: Vec<u8>)
    requires
        offset + len <= bytes@.len(),
    ensures
        v@ == bytes@.subrange(offset as int, offset + len),
{
    let n = bytes.len();
    let mut v: Vec<u8> = Vec::new();
    let mut i: usize = 0;
    while i < len
        invariant
            i <= len,
            n == bytes@.len(),
            offset + len <= n,
            v@ == bytes@.subrange(offset as int, offset + i),
        decreases len - i,
    {
        v.push(bytes[offset + i]);
        assert(bytes@.subrange(offset as int, offset + i + 1) =~= bytes@.subrange(
            offset as int,
            offset + i,
        ).push(bytes@[offset + i]));
        i = i + 1;
    }
    v
}

/// A structure of `size` bytes at `offset` lies inside a view of `len` bytes.
pub fn fits(offset: usize, size: usize, len: usize) -> (b: bool)
    ensures
        b == (offset + size <= len),
{
    match offset.checked_add(size) {
        Some(end) => end <= len,
        None => false,
    }
}

} // verus!
