//! Fixed-size float vectors, carried as IEEE-754 little-endian bit patterns.
//!
//! The decoder never computes with floating point: each 32-bit float field is
//! read as the `u32` holding its bit pattern, so decoding is exact and
//! byte-order independent. Callers reinterpret the bits when they need the
//! numeric value.

use vstd::prelude::*;

use crate::error::PmxError;
use crate::utils::{read_u32, spec_read_u32};

verus! {

/// Two packed float bit patterns (a UV coordinate).
#[derive(Debug, Copy, Clone, PartialEq, Eq, Structural)]
pub struct Vec2Bits {
    pub x: u32,
    pub y: u32,
}

/// Three packed float bit patterns (a position, normal or SDEF vector).
#[derive(Debug, Copy, Clone, PartialEq, Eq, Structural)]
pub struct Vec3Bits {
    pub x: u32,
    pub y: u32,
    pub z: u32,
}

/// Four packed float bit patterns (a color or an additional vec4).
#[derive(Debug, Copy, Clone, PartialEq, Eq, Structural)]
pub struct Vec4Bits {
    pub x: u32,
    pub y: u32,
    pub z: u32,
    pub w: u32,
}

/// Two consecutive little-endian 32-bit patterns at `p`.
pub open spec fn spec_read_vec2(s: Seq<u8>, p: int) -> Result<(Vec2Bits, int), PmxError> {
    match spec_read_u32(s, p) {
        Err(e) => Err(e),
        Ok((x, p1)) => match spec_read_u32(s, p1) {
            Err(e) => Err(e),
            Ok((y, p2)) => Ok((Vec2Bits { x, y }, p2)),
        },
    }
}

/// Three consecutive little-endian 32-bit patterns at `p`.
pub open spec fn spec_read_vec3(s: Seq<u8>, p: int) -> Result<(Vec3Bits, int), PmxError> {
    match spec_read_vec2(s, p) {
        Err(e) => Err(e),
        Ok((v, p1)) => match spec_read_u32(s, p1) {
            Err(e) => Err(e),
            Ok((z, p2)) => Ok((Vec3Bits { x: v.x, y: v.y, z }, p2)),
        },
    }
}

/// Four consecutive little-endian 32-bit patterns at `p`.
pub open spec fn spec_read_vec4(s: Seq<u8>, p: int) -> Result<(Vec4Bits, int), PmxError> {
    match spec_read_vec3(s, p) {
        Err(e) => Err(e),
        Ok((v, p1)) => match spec_read_u32(s, p1) {
            Err(e) => Err(e),
            Ok((w, p2)) => Ok((Vec4Bits { x: v.x, y: v.y, z: v.z, w }, p2)),
        },
    }
}

/// `n` consecutive vec4 blocks at `p`.
pub open spec fn spec_read_vec4s(s: Seq<u8>, p: int, n: int) -> Result<
    (Seq<Vec4Bits>, int),
    PmxError,
>
    decreases n,
{
    if n <= 0 {
        Ok((Seq::empty(), p))
    } else {
        match spec_read_vec4(s, p) {
            Err(e) => Err(e),
            Ok((v, p1)) => match spec_read_vec4s(s, p1, n - 1) {
                Err(e) => Err(e),
                Ok((rest, p2)) => Ok((seq![v] + rest, p2)),
            },
        }
    }
}

/// Read a two-float block and advance.
pub fn read_vec2(data: &[u8], cursor: &mut usize) -> (r: Result<Vec2Bits, PmxError>)
    ensures
        match spec_read_vec2(data@, *old(cursor) as int) {
            Ok(v) => r matches Ok(b) && b == v.0 && *final(cursor) == v.1,
            Err(e) => r matches Err(a) && a == e,
        },
{
    let x = match read_u32(data, cursor) {
        Ok(v) => v,
        Err(e) => {
            return Err(e);
        },
    };
    let y = match read_u32(data, cursor) {
        Ok(v) => v,
        Err(e) => {
            return Err(e);
        },
    };
    Ok(Vec2Bits { x, y })
}

/// Read a three-float block and advance.
pub fn read_vec3(data: &[u8], cursor: &mut usize) -> (r: Result<Vec3Bits, PmxError>)
    ensures
        match spec_read_vec3(data@, *old(cursor) as int) {
            Ok(v) => r matches Ok(b) && b == v.0 && *final(cursor) == v.1,
            Err(e) => r matches Err(a) && a == e,
        },
{
    let v = match read_vec2(data, cursor) {
        Ok(v) => v,
        Err(e) => {
            return Err(e);
        },
    };
    let z = match read_u32(data, cursor) {
        Ok(v) => v,
        Err(e) => {
            return Err(e);
        },
    };
    Ok(Vec3Bits { x: v.x, y: v.y, z })
}

/// Read a four-float block and advance.
pub fn read_vec4(data: &[u8], cursor: &mut usize) -> (r: Result<Vec4Bits, PmxError>)
    ensures
        match spec_read_vec4(data@, *old(cursor) as int) {
            Ok(v) => r matches Ok(b) && b == v.0 && *final(cursor) == v.1,
            Err(e) => r matches Err(a) && a == e,
        },
{
    let v = match read_vec3(data, cursor) {
        Ok(v) => v,
        Err(e) => {
            return Err(e);
        },
    };
    let w = match read_u32(data, cursor) {
        Ok(v) => v,
        Err(e) => {
            return Err(e);
        },
    };
    Ok(Vec4Bits { x: v.x, y: v.y, z: v.z, w })
}

/// Read `count` four-float blocks and advance.
pub fn read_vec4_list(data: &[u8], cursor: &mut usize, count: usize) -> (r: Result<
    Vec<Vec4Bits>,
    PmxError,
>)
    ensures
        match spec_read_vec4s(data@, *old(cursor) as int, count as int) {
            Ok(v) => r matches Ok(list) && list@ == v.0 && *final(cursor) == v.1,
            Err(e) => r matches Err(a) && a == e,
        },
{
    let ghost p0 = *cursor as int;
    let ghost s = data@;
    let mut pos: usize = *cursor;
    let mut list: Vec<Vec4Bits> = Vec::new();
    let mut i: usize = 0;
    while i < count
        invariant
            i <= count,
            list@.len() == i,
            match spec_read_vec4s(s, pos as int, count - i) {
                Ok(v) => spec_read_vec4s(s, p0, count as int) == Ok::<_, PmxError>(
                    (list@ + v.0, v.1),
                ),
                Err(e) => spec_read_vec4s(s, p0, count as int) == Err::<(Seq<Vec4Bits>, int), _>(e),
            },
            s == data@,
            p0 == *old(cursor) as int,
        decreases count - i,
    {
        let ghost old_list = list@;
        let ghost old_pos = pos as int;
        match read_vec4(data, &mut pos) {
            Ok(v) => {
                list.push(v);
                i = i + 1;
                proof {
                    if let Ok((rest, p2)) = spec_read_vec4s(s, pos as int, count - i) {
                        assert(old_list + (seq![v] + rest) =~= (old_list + seq![v]) + rest);
                        assert(list@ =~= old_list + seq![v]);
                    }
                }
            },
            Err(e) => {
                return Err(e);
            },
        }
    }
    proof {
        assert(list@ + Seq::<Vec4Bits>::empty() =~= list@);
    }
    *cursor = pos;
    Ok(list)
}

} // verus!
