//! Surface records: triangles of three vertex indices, each decoded with the
//! configured vertex-index width and widened without a sign — a surface
//! always names real vertices, so indices are never negative whatever the
//! width.

use vstd::prelude::*;

use crate::error::PmxError;
use crate::globals::PMXIndexType;
use crate::utils::{read_index_unsigned, spec_read_index_unsigned};

verus! {

/// One triangle of vertex indices.
#[derive(Debug, Clone, Copy, PartialEq, Eq)]
pub struct PMXSurfaceData {
    pub triangle: (u32, u32, u32),
}

/// One triangle at `p`: three unsigned vertex indices of width `w`.
pub open spec fn spec_read_surface(s: Seq<u8>, p: int, w: int) -> Result<
    (PMXSurfaceData, int),
    PmxError,
> {
    match spec_read_index_unsigned(s, p, w) {
        Err(e) => Err(e),
        Ok((a, p1)) => match spec_read_index_unsigned(s, p1, w) {
            Err(e) => Err(e),
            Ok((b, p2)) => match spec_read_index_unsigned(s, p2, w) {
                Err(e) => Err(e),
                Ok((c, p3)) => Ok((PMXSurfaceData { triangle: (a, b, c) }, p3)),
            },
        },
    }
}

/// `n` triangles at `p`.
pub open spec fn spec_read_surfaces(s: Seq<u8>, p: int, n: int, w: int) -> Result<
    (Seq<PMXSurfaceData>, int),
    PmxError,
>
    decreases n,
{
    if n <= 0 {
        Ok((Seq::empty(), p))
    } else {
        match spec_read_surface(s, p, w) {
            Err(e) => Err(e),
            Ok((v, p1)) => match spec_read_surfaces(s, p1, n - 1, w) {
                Err(e) => Err(e),
                Ok((rest, p2)) => Ok((seq![v] + rest, p2)),
            },
        }
    }
}

impl PMXSurfaceData {
    /// Read one triangle with vertex indices of the configured width.
    pub fn parse(data: &[u8], cursor: &mut usize, vertex_index_size: PMXIndexType) -> (r: Result<
        PMXSurfaceData,
        PmxError,
    >)
        ensures
            match spec_read_surface(
                data@,
                *old(cursor) as int,
                vertex_index_size.spec_to_usize() as int,
            ) {
                Ok(v) => r matches Ok(d) && d == v.0 && *final(cursor) == v.1,
                Err(e) => r matches Err(a) && a == e,
            },
    {
        let w = vertex_index_size.to_usize();
        let a = match read_index_unsigned(data, cursor, w) {
            Ok(v) => v,
            Err(e) => {
                return Err(e);
            },
        };
        let b = match read_index_unsigned(data, cursor, w) {
            Ok(v) => v,
            Err(e) => {
                return Err(e);
            },
        };
        let c = match read_index_unsigned(data, cursor, w) {
            Ok(v) => v,
            Err(e) => {
                return Err(e);
            },
        };
        Ok(PMXSurfaceData { triangle: (a, b, c) })
    }
}

/// Read `count` triangles and advance.
pub fn read_surface_list(
    data: &[u8],
    cursor: &mut usize,
    count: usize,
    vertex_index_size: PMXIndexType,
) -> (r: Result<Vec<PMXSurfaceData>, PmxError>)
    ensures
        match spec_read_surfaces(
            data@,
            *old(cursor) as int,
            count as int,
            vertex_index_size.spec_to_usize() as int,
        ) {
            Ok(v) => r matches Ok(list) && list@ == v.0 && *final(cursor) == v.1,
            Err(e) => r matches Err(a) && a == e,
        },
{
    let ghost p0 = *cursor as int;
    let ghost s = data@;
    let ghost w = vertex_index_size.spec_to_usize() as int;
    let mut pos: usize = *cursor;
    let mut list: Vec<PMXSurfaceData> = Vec::new();
    let mut i: usize = 0;
    while i < count
        invariant
            i <= count,
            list@.len() == i,
            match spec_read_surfaces(s, pos as int, count - i, w) {
                Ok(v) => spec_read_surfaces(s, p0, count as int, w) == Ok::<_, PmxError>(
                    (list@ + v.0, v.1),
                ),
                Err(e) => spec_read_surfaces(s, p0, count as int, w) == Err::<
                    (Seq<PMXSurfaceData>, int),
                    _,
                >(e),
            },
            s == data@,
            p0 == *old(cursor) as int,
            w == vertex_index_size.spec_to_usize() as int,
        decreases count - i,
    {
        let ghost old_list = list@;
        match PMXSurfaceData::parse(data, &mut pos, vertex_index_size) {
            Ok(v) => {
                list.push(v);
                i = i + 1;
                proof {
                    assert(list@ =~= old_list + seq![v]);
                    if let Ok((rest, p2)) = spec_read_surfaces(s, pos as int, count - i, w) {
                        assert(old_list + (seq![v] + rest) =~= (old_list + seq![v]) + rest);
                    }
                }
            },
            Err(e) => {
                return Err(e);
            },
        }
    }
    proof {
        assert(list@ + Seq::<PMXSurfaceData>::empty() =~= list@);
    }
    *cursor = pos;
    Ok(list)
}

} // verus!
