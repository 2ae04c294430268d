//! The primitive reader: the sole point of bounds checking.
//!
//! Every decode step advances an explicit cursor over the byte buffer. The
//! spec functions below give each read its mathematical meaning: a read
//! yields the little-endian value of the bytes at the cursor and the new
//! cursor, or `UnexpectedEof` if the buffer is too short.

use vstd::prelude::*;

use crate::error::PmxError;

verus! {

/// Little-endian value of the two bytes at `p`.
pub open spec fn le16(s: Seq<u8>, p: int) -> int {
    s[p] + 0x100 * s[p + 1]
}

/// Little-endian value of the four bytes at `p`.
pub open spec fn le32(s: Seq<u8>, p: int) -> int {
    s[p] + 0x100 * s[p + 1] + 0x10000 * s[p + 2] + 0x1000000 * s[p + 3]
}

/// Two's-complement reading of a single byte.
pub open spec fn sx8(b: u8) -> int {
    if b < 0x80 {
        b as int
    } else {
        b - 0x100
    }
}

/// Two's-complement reading of the two little-endian bytes at `p`.
pub open spec fn sx16(s: Seq<u8>, p: int) -> int {
    if le16(s, p) < 0x8000 {
        le16(s, p)
    } else {
        le16(s, p) - 0x10000
    }
}

/// Two's-complement reading of the four little-endian bytes at `p`.
pub open spec fn sx32(s: Seq<u8>, p: int) -> int {
    if le32(s, p) < 0x8000_0000 {
        le32(s, p)
    } else {
        le32(s, p) - 0x1_0000_0000
    }
}

/// One byte at `p`, and the advanced cursor.
pub open spec fn spec_read_u8(s: Seq<u8>, p: int) -> Result<(u8, int), PmxError> {
    if 0 <= p && p + 1 <= s.len() {
        Ok((s[p], p + 1))
    } else {
        Err(PmxError::UnexpectedEof)
    }
}

/// One signed byte at `p`.
pub open spec fn spec_read_i8(s: Seq<u8>, p: int) -> Result<(i8, int), PmxError> {
    if 0 <= p && p + 1 <= s.len() {
        Ok((sx8(s[p]) as i8, p + 1))
    } else {
        Err(PmxError::UnexpectedEof)
    }
}

/// An unsigned little-endian 16-bit value at `p`.
pub open spec fn spec_read_u16(s: Seq<u8>, p: int) -> Result<(u16, int), PmxError> {
    if 0 <= p && p + 2 <= s.len() {
        Ok((le16(s, p) as u16, p + 2))
    } else {
        Err(PmxError::UnexpectedEof)
    }
}

/// A signed little-endian 16-bit value at `p`.
pub open spec fn spec_read_i16(s: Seq<u8>, p: int) -> Result<(i16, int), PmxError> {
    if 0 <= p && p + 2 <= s.len() {
        Ok((sx16(s, p) as i16, p + 2))
    } else {
        Err(PmxError::UnexpectedEof)
    }
}

/// An unsigned little-endian 32-bit value at `p`.
pub open spec fn spec_read_u32(s: Seq<u8>, p: int) -> Result<(u32, int), PmxError> {
    if 0 <= p && p + 4 <= s.len() {
        Ok((le32(s, p) as u32, p + 4))
    } else {
        Err(PmxError::UnexpectedEof)
    }
}

/// A signed little-endian 32-bit value at `p`.
pub open spec fn spec_read_i32(s: Seq<u8>, p: int) -> Result<(i32, int), PmxError> {
    if 0 <= p && p + 4 <= s.len() {
        Ok((sx32(s, p) as i32, p + 4))
    } else {
        Err(PmxError::UnexpectedEof)
    }
}

/// `n` raw bytes starting at `p`.
pub open spec fn spec_read_bytes(s: Seq<u8>, p: int, n: int) -> Result<(Seq<u8>, int), PmxError> {
    if 0 <= p && 0 <= n && p + n <= s.len() {
        Ok((s.subrange(p, p + n), p + n))
    } else {
        Err(PmxError::UnexpectedEof)
    }
}

/// A length-prefixed byte block: a signed 32-bit length, then that many raw
/// bytes. A negative length can never be satisfied by a real buffer, so it
/// reads as `UnexpectedEof`.
pub open spec fn spec_read_text(s: Seq<u8>, p: int) -> Result<((i32, Seq<u8>), int), PmxError> {
    match spec_read_i32(s, p) {
        Ok((len, p1)) => if len < 0 {
            Err(PmxError::UnexpectedEof)
        } else {
            match spec_read_bytes(s, p1, len as int) {
                Ok((bytes, p2)) => Ok(((len, bytes), p2)),
                Err(e) => Err(e),
            }
        },
        Err(e) => Err(e),
    }
}

/// Read one byte and advance.
pub fn read_u8(data: &[u8], position: &mut usize) -> (r: Result<u8, PmxError>)
    ensures
        match spec_read_u8(data@, *old(position) as int) {
            Ok(v) => r matches Ok(b) && b == v.0 && *final(position) == v.1,
            Err(e) => r matches Err(a) && a == e && *final(position) == *old(position),
        },
{
    if *position < data.len() {
        let b = data[*position];
        *position = *position + 1;
        Ok(b)
    } else {
        Err(PmxError::UnexpectedEof)
    }
}

/// Read one byte as a signed value and advance.
pub fn read_i8(data: &[u8], position: &mut usize) -> (r: Result<i8, PmxError>)
    ensures
        match spec_read_i8(data@, *old(position) as int) {
            Ok(v) => r matches Ok(b) && b == v.0 && *final(position) == v.1,
            Err(e) => r matches Err(a) && a == e && *final(position) == *old(position),
        },
{
    if *position < data.len() {
        let b = data[*position];
        *position = *position + 1;
        if b < 0x80 {
            Ok(b as i8)
        } else {
            Ok((b - 0x80) as i8 - 0x7f - 1)
        }
    } else {
        Err(PmxError::UnexpectedEof)
    }
}

/// Read an unsigned little-endian 16-bit value and advance.
pub fn read_u16(data: &[u8], position: &mut usize) -> (r: Result<u16, PmxError>)
    ensures
        match spec_read_u16(data@, *old(position) as int) {
            Ok(v) => r matches Ok(b) && b == v.0 && *final(position) == v.1,
            Err(e) => r matches Err(a) && a == e && *final(position) == *old(position),
        },
{
    if data.len() >= 2 && *position <= data.len() - 2 {
        let b0 = data[*position] as u16;
        let b1 = data[*position + 1] as u16;
        *position = *position + 2;
        Ok(b0 + 0x100 * b1)
    } else {
        Err(PmxError::UnexpectedEof)
    }
}

/// Read a signed little-endian 16-bit value and advance.
pub fn read_i16(data: &[u8], position: &mut usize) -> (r: Result<i16, PmxError>)
    ensures
        match spec_read_i16(data@, *old(position) as int) {
            Ok(v) => r matches Ok(b) && b == v.0 && *final(position) == v.1,
            Err(e) => r matches Err(a) && a == e && *final(position) == *old(position),
        },
{
    match read_u16(data, position) {
        Ok(u) => if u < 0x8000 {
            Ok(u as i16)
        } else {
            Ok((u - 0x8000) as i16 - 0x7fff - 1)
        },
        Err(e) => Err(e),
    }
}

/// Read an unsigned little-endian 32-bit value and advance.
pub fn read_u32(data: &[u8], position: &mut usize) -> (r: Result<u32, PmxError>)
    ensures
        match spec_read_u32(data@, *old(position) as int) {
            Ok(v) => r matches Ok(b) && b == v.0 && *final(position) == v.1,
            Err(e) => r matches Err(a) && a == e && *final(position) == *old(position),
        },
{
    if data.len() >= 4 && *position <= data.len() - 4 {
        let b0 = data[*position] as u32;
        let b1 = data[*position + 1] as u32;
        let b2 = data[*position + 2] as u32;
        let b3 = data[*position + 3] as u32;
        *position = *position + 4;
        Ok(b0 + 0x100 * b1 + 0x10000 * b2 + 0x1000000 * b3)
    } else {
        Err(PmxError::UnexpectedEof)
    }
}

/// Read a signed little-endian 32-bit value and advance.
pub fn read_i32(data: &[u8], position: &mut usize) -> (r: Result<i32, PmxError>)
    ensures
        match spec_read_i32(data@, *old(position) as int) {
            Ok(v) => r matches Ok(b) && b == v.0 && *final(position) == v.1,
            Err(e) => r matches Err(a) && a == e && *final(position) == *old(position),
        },
{
    match read_u32(data, position) {
        Ok(u) => if u < 0x8000_0000 {
            Ok(u as i32)
        } else {
            Ok((u - 0x8000_0000) as i32 - 0x7fff_ffff - 1)
        },
        Err(e) => Err(e),
    }
}

/// Read `size` raw bytes into an owned vector and advance.
pub fn read_var(data: &[u8], position: &mut usize, size: usize) -> (r: Result<Vec<u8>, PmxError>)
    ensures
        match spec_read_bytes(data@, *old(position) as int, size as int) {
            Ok(v) => r matches Ok(bytes) && bytes@ == v.0 && *final(position) == v.1,
            Err(e) => r matches Err(a) && a == e && *final(position) == *old(position),
        },
{
    if size <= data.len() && *position <= data.len() - size {
        let start: usize = *position;
        let mut bytes: Vec<u8> = Vec::new();
        let mut i: usize = 0;
        while i < size
            invariant
                start + size <= data.len(),
                i <= size,
                bytes@ =~= data@.subrange(start as int, start + i),
            decreases size - i,
        {
            bytes.push(data[start + i]);
            i = i + 1;
        }
        *position = start + size;
        assert(bytes@ =~= data@.subrange(start as int, start + size as int));
        Ok(bytes)
    } else {
        Err(PmxError::UnexpectedEof)
    }
}

/// An index of `w` bytes at `p`, widened without a sign (vertex and bone
/// indices never carry a -1 sentinel).
pub open spec fn spec_read_index_unsigned(s: Seq<u8>, p: int, w: int) -> Result<
    (u32, int),
    PmxError,
> {
    if 0 <= p && p + w <= s.len() {
        Ok(
            (
                (if w == 1 {
                    s[p] as int
                } else if w == 2 {
                    le16(s, p)
                } else {
                    le32(s, p)
                }) as u32,
                p + w,
            ),
        )
    } else {
        Err(PmxError::UnexpectedEof)
    }
}

/// An index of `w` bytes at `p`, sign-extended (-1 at any width means
/// "absent").
pub open spec fn spec_read_index_signed(s: Seq<u8>, p: int, w: int) -> Result<
    (i32, int),
    PmxError,
> {
    if 0 <= p && p + w <= s.len() {
        Ok(
            (
                (if w == 1 {
                    sx8(s[p])
                } else if w == 2 {
                    sx16(s, p)
                } else {
                    sx32(s, p)
                }) as i32,
                p + w,
            ),
        )
    } else {
        Err(PmxError::UnexpectedEof)
    }
}

/// Read an index of `size` bytes with unsigned widening and advance.
pub fn read_index_unsigned(data: &[u8], position: &mut usize, size: usize) -> (r: Result<
    u32,
    PmxError,
>)
    requires
        size == 1 || size == 2 || size == 4,
    ensures
        match spec_read_index_unsigned(data@, *old(position) as int, size as int) {
            Ok(v) => r matches Ok(b) && b == v.0 && *final(position) == v.1,
            Err(e) => r matches Err(a) && a == e && *final(position) == *old(position),
        },
{
    if size == 1 {
        match read_u8(data, position) {
            Ok(b) => Ok(b as u32),
            Err(e) => Err(e),
        }
    } else if size == 2 {
        match read_u16(data, position) {
            Ok(b) => Ok(b as u32),
            Err(e) => Err(e),
        }
    } else {
        read_u32(data, position)
    }
}

/// Read an index of `size` bytes with sign extension and advance.
pub fn read_index_signed(data: &[u8], position: &mut usize, size: usize) -> (r: Result<
    i32,
    PmxError,
>)
    requires
        size == 1 || size == 2 || size == 4,
    ensures
        match spec_read_index_signed(data@, *old(position) as int, size as int) {
            Ok(v) => r matches Ok(b) && b == v.0 && *final(position) == v.1,
            Err(e) => r matches Err(a) && a == e && *final(position) == *old(position),
        },
{
    if size == 1 {
        match read_i8(data, position) {
            Ok(b) => Ok(b as i32),
            Err(e) => Err(e),
        }
    } else if size == 2 {
        match read_i16(data, position) {
            Ok(b) => Ok(b as i32),
            Err(e) => Err(e),
        }
    } else {
        read_i32(data, position)
    }
}

/// An index widened without a sign is never negative, whatever its width:
/// vertex and bone indices carry no sentinel.
pub proof fn lemma_unsigned_index_nonneg(s: Seq<u8>, p: int, w: int)
    ensures
        spec_read_index_unsigned(s, p, w) matches Ok(v) ==> v.0 >= 0,
{
}

/// An index whose bytes are all 0xFF reads as -1 under signed widening at
/// every width: the "absent" texture sentinel survives whatever width the
/// globals block picked.
pub proof fn lemma_signed_index_minus_one(s: Seq<u8>, p: int, w: int)
    requires
        w == 1 || w == 2 || w == 4,
        0 <= p,
        p + w <= s.len(),
        forall|j: int| p <= j < p + w ==> s[j] == 0xFFu8,
    ensures
        spec_read_index_signed(s, p, w) == Ok::<(i32, int), PmxError>((-1i32, p + w)),
{
    assert(s[p] == 0xFFu8);
    if w >= 2 {
        assert(s[p + 1] == 0xFFu8);
    }
    if w == 4 {
        assert(s[p + 2] == 0xFFu8);
        assert(s[p + 3] == 0xFFu8);
    }
}

/// Read a length-prefixed byte block and advance.
pub fn read_text(data: &[u8], position: &mut usize) -> (r: Result<(i32, Vec<u8>), PmxError>)
    ensures
        match spec_read_text(data@, *old(position) as int) {
            Ok(v) => r matches Ok(t) && t.0 == v.0.0 && t.1@ == v.0.1 && *final(position) == v.1,
            Err(e) => r matches Err(a) && a == e,
        },
{
    let len = match read_i32(data, position) {
        Ok(l) => l,
        Err(e) => {
            return Err(e);
        },
    };
    if len < 0 {
        return Err(PmxError::UnexpectedEof);
    }
    match read_var(data, position, len as usize) {
        Ok(bytes) => Ok((len, bytes)),
        Err(e) => Err(e),
    }
}

} // verus!
