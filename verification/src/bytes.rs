//! Little-endian integer reads, NUL-terminator search and UTF-8 validation
//! over raw image bytes. These are the primitives the export table reader
//! builds on.
use vstd::prelude::*;

verus! {

/// The 16-bit little-endian value stored at `off`.
pub open spec fn le16(s: Seq<u8>, off: int) -> int
    recommends
        0 <= off,
        off + 2 <= s.len(),
{
    s[off] + 0x100 * s[off + 1]
}

/// The 32-bit little-endian value stored at `off`.
pub open spec fn le32(s: Seq<u8>, off: int) -> int
    recommends
        0 <= off,
        off + 4 <= s.len(),
{
    s[off] + 0x100 * s[off + 1] + 0x1_0000 * s[off + 2] + 0x100_0000 * s[off + 3]
}

/// Reads the 16-bit little-endian value at `off`.
pub fn read_le16(s: &[u8], off: usize) -> (r: u16)
    requires
        off + 2 <= s@.len(),
    ensures
        r == le16(s@, off as int),
{
    let b0 = s[off] as u16;
    let b1 = s[off + 1] as u16;
    b0 + 0x100 * b1
}

/// Reads the 32-bit little-endian value at `off`.
pub fn read_le32(s: &[u8], off: usize) -> (r: u32)
    requires
        off + 4 <= s@.len(),
    ensures
        r == le32(s@, off as int),
{
    let b0 = s[off] as u32;
    let b1 = s[off + 1] as u32;
    let b2 = s[off + 2] as u32;
    let b3 = s[off + 3] as u32;
    b0 + 0x100 * b1 + 0x1_0000 * b2 + 0x100_0000 * b3
}

/// Position of the first NUL byte at or after `off`, if any.
pub open spec fn find_nul(s: Seq<u8>, off: int) -> Option<int>
    decreases s.len() - off,
{
    if off < 0 || off >= s.len() {
        None
    } else if s[off] == 0 {
        Some(off)
    } else {
        find_nul(s, off + 1)
    }
}

/// A found NUL lies in `[off, s.len())` and no byte before it (from `off` on)
/// is NUL.
pub proof fn lemma_find_nul(s: Seq<u8>, off: int)
    requires
        0 <= off <= s.len(),
    ensures
        match find_nul(s, off) {
            Some(end) => off <= end < s.len() && s[end] == 0 && (forall|j: int|
                off <= j < end ==> s[j] != 0),
            None => forall|j: int| off <= j < s.len() ==> s[j] != 0,
        },
    decreases s.len() - off,
{
    if off < s.len() && s[off] != 0 {
        lemma_find_nul(s, off + 1);
    }
}

/// Scans for the first NUL byte at or after `off`.
pub fn scan_nul(s: &[u8], off: usize) -> (r: Option<usize>)
    requires
        off <= s@.len(),
    ensures
        match r {
            Some(end) => find_nul(s@, off as int) == Some(end as int),
            None => find_nul(s@, off as int) is None,
        },
{
    let n = s.len();
    let mut i = off;
    while i < n
        invariant
            off <= i <= n,
            n == s@.len(),
            find_nul(s@, off as int) == find_nul(s@, i as int),
        decreases n - i,
    {
        if s[i] == 0 {
            return Some(i);
        }
        i = i + 1;
    }
    None
}

/// A fresh copy of a byte string.
pub fn copy_bytes(v: &Vec<u8>) -> (r: Vec<u8>)
    ensures
        r@ == v@,
{
    let n = v.len();
    let mut r: Vec<u8> = Vec::new();
    let mut i: usize = 0;
    while i < n
        invariant
            i <= n,
            n == v@.len(),
            r@ == v@.subrange(0, i as int),
        decreases n - i,
    {
        r.push(v[i]);
        assert(r@ =~= v@.subrange(0, i as int + 1));
        i = i + 1;
    }
    proof {
        assert(v@.subrange(0, n as int) =~= v@);
    }
    r
}

/// Byte-for-byte equality of two byte strings. Export identity is exact:
/// forwarding is only correct for the very name the target declares.
pub fn bytes_eq(a: &[u8], b: &[u8]) -> (r: bool)
    ensures
        r == (a@ == b@),
{
    if a.len() != b.len() {
        return false;
    }
    let n = a.len();
    let mut i: usize = 0;
    while i < n
        invariant
            i <= n,
            n == a@.len() == b@.len(),
            forall|j: int| 0 <= j < i ==> a@[j] == b@[j],
        decreases n - i,
    {
        if a[i] != b[i] {
            return false;
        }
        i = i + 1;
    }
    proof {
        assert(a@ =~= b@);
    }
    true
}

/// Checks that the bytes are a valid UTF-8 encoding, per vstd's model of
/// the encoding. Export names must pass this before they are accepted.
pub fn is_valid_utf8(s: &[u8]) -> (r: bool)
    ensures
        r == vstd::utf8::valid_utf8(s@),
{
    let n = s.len();
    let mut i: usize = 0;
    assert(s@.skip(0) =~= s@);
    while i < n
        invariant
            i <= n,
            n == s@.len(),
            vstd::utf8::valid_utf8(s@) == vstd::utf8::valid_utf8(s@.skip(i as int)),
        decreases n - i,
    {
        let ghost t = s@.skip(i as int);
        assert(t.len() == n - i);
        assert(t[0] == s@[i as int]);
        let b0 = s[i];
        let width: usize;
        let cp: u32;
        if b0 <= 0x7f {
            width = 1;
            cp = b0 as u32;
            assert((b0 & 0x7f) == b0) by (bit_vector)
                requires
                    b0 <= 0x7f,
            ;
        } else if b0 < 0xc0 {
            // a stray continuation byte cannot lead an encoding
            return false;
        } else if b0 <= 0xdf {
            if n - i < 2 {
                return false;
            }
            assert(t[1] == s@[i as int + 1]);
            let b1 = s[i + 1];
            if !(0x80 <= b1 && b1 <= 0xbf) {
                return false;
            }
            width = 2;
            cp = (((b0 & 0x1f) as u32) << 6u32) | ((b1 & 0x3f) as u32);
        } else if b0 <= 0xef {
            if n - i < 3 {
                return false;
            }
            assert(t[1] == s@[i as int + 1]);
            assert(t[2] == s@[i as int + 2]);
            let b1 = s[i + 1];
            let b2 = s[i + 2];
            if !(0x80 <= b1 && b1 <= 0xbf) || !(0x80 <= b2 && b2 <= 0xbf) {
                return false;
            }
            width = 3;
            cp = (((b0 & 0x0f) as u32) << 12u32) | (((b1 & 0x3f) as u32) << 6u32) | ((b2
                & 0x3f) as u32);
        } else if b0 <= 0xf7 {
            if n - i < 4 {
                return false;
            }
            assert(t[1] == s@[i as int + 1]);
            assert(t[2] == s@[i as int + 2]);
            assert(t[3] == s@[i as int + 3]);
            let b1 = s[i + 1];
            let b2 = s[i + 2];
            let b3 = s[i + 3];
            if !(0x80 <= b1 && b1 <= 0xbf) || !(0x80 <= b2 && b2 <= 0xbf) || !(0x80 <= b3 && b3
                <= 0xbf) {
                return false;
            }
            width = 4;
            cp = (((b0 & 0x07) as u32) << 18u32) | (((b1 & 0x3f) as u32) << 12u32) | (((b2
                & 0x3f) as u32) << 6u32) | ((b3 & 0x3f) as u32);
        } else {
            // no leading byte is above 0xf7
            return false;
        }
        // reject overlong encodings, surrogates, and values beyond the
        // last Unicode scalar
        if width == 2 && cp < 0x80 {
            return false;
        }
        if width == 3 && cp < 0x800 {
            return false;
        }
        if width == 4 && !(0x10000 <= cp && cp <= 0x10ffff) {
            return false;
        }
        if 0xd800 <= cp && cp <= 0xdfff {
            return false;
        }
        assert(vstd::utf8::valid_first_scalar(t));
        assert(vstd::utf8::length_of_first_scalar(t) == width);
        assert(vstd::utf8::pop_first_scalar(t) =~= s@.skip(i as int + width as int));
        i = i + width;
    }
    assert(s@.skip(n as int) =~= Seq::<u8>::empty());
    true
}

} // verus!
