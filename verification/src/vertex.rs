//! Per-vertex records: fixed geometry fields, a configurable number of
//! additional vec4 attributes, and one of five mutually exclusive skinning
//! (weight-deform) layouts selected by a tag byte. Bone indices are unsigned
//! at every configured width: a vertex always names real bones, never the -1
//! sentinel.

use vstd::prelude::*;

use crate::error::PmxError;
use crate::fbits::{
    read_vec2, read_vec3, read_vec4_list, spec_read_vec2, spec_read_vec3, spec_read_vec4s,
    Vec2Bits, Vec3Bits, Vec4Bits,
};
use crate::utils::{
    read_i8, read_index_unsigned, read_u32, spec_read_i8, spec_read_index_unsigned, spec_read_u32,
};

verus! {

/// The tag byte selecting a skinning layout: 0..=4.
#[derive(Debug, Clone, Copy, PartialEq, Eq, Structural)]
pub enum PMXWeightDeformType {
    BDEF1,
    BDEF2,
    BDEF4,
    SDEF,
    QDEF,
}

/// The layout named by a tag byte, or `InvalidEnumValue` beyond 4.
pub open spec fn spec_weight_type(tag: i8) -> Result<PMXWeightDeformType, PmxError> {
    if tag == 0 {
        Ok(PMXWeightDeformType::BDEF1)
    } else if tag == 1 {
        Ok(PMXWeightDeformType::BDEF2)
    } else if tag == 2 {
        Ok(PMXWeightDeformType::BDEF4)
    } else if tag == 3 {
        Ok(PMXWeightDeformType::SDEF)
    } else if tag == 4 {
        Ok(PMXWeightDeformType::QDEF)
    } else {
        Err(PmxError::InvalidEnumValue)
    }
}

/// The tag byte at `p` resolved to a layout.
pub open spec fn spec_read_weight_type(s: Seq<u8>, p: int) -> Result<
    (PMXWeightDeformType, int),
    PmxError,
> {
    match spec_read_i8(s, p) {
        Err(e) => Err(e),
        Ok((tag, p1)) => match spec_weight_type(tag) {
            Err(e) => Err(e),
            Ok(ty) => Ok((ty, p1)),
        },
    }
}

impl PMXWeightDeformType {
    /// Read the tag byte and resolve the skinning layout it names.
    pub fn parse(data: &[u8], cursor: &mut usize) -> (r: Result<PMXWeightDeformType, PmxError>)
        ensures
            match spec_read_weight_type(data@, *old(cursor) as int) {
                Ok(v) => r matches Ok(t) && t == v.0 && *final(cursor) == v.1,
                Err(e) => r matches Err(a) && a == e,
            },
    {
        let tag = match read_i8(data, cursor) {
            Ok(t) => t,
            Err(e) => {
                return Err(e);
            },
        };
        match tag {
            0 => Ok(PMXWeightDeformType::BDEF1),
            1 => Ok(PMXWeightDeformType::BDEF2),
            2 => Ok(PMXWeightDeformType::BDEF4),
            3 => Ok(PMXWeightDeformType::SDEF),
            4 => Ok(PMXWeightDeformType::QDEF),
            _ => Err(PmxError::InvalidEnumValue),
        }
    }
}

/// One bone, full weight.
#[derive(Debug, Clone, Copy, PartialEq, Eq, Structural)]
pub struct BDEF1Data {
    pub bone_index: u32,
}

/// Two bones; the second bone's weight is 1 - weight of the first.
#[derive(Debug, Clone, Copy, PartialEq, Eq, Structural)]
pub struct BDEF2Data {
    pub bone_index1: u32,
    pub bone_index2: u32,
    /// IEEE-754 bit pattern.
    pub bone1_weight: u32,
}

/// Four bones with four explicit weights (bit patterns).
#[derive(Debug, Clone, Copy, PartialEq, Eq, Structural)]
pub struct BDEF4Data {
    pub bone_index1: u32,
    pub bone_index2: u32,
    pub bone_index3: u32,
    pub bone_index4: u32,
    pub bone1_weight: u32,
    pub bone2_weight: u32,
    pub bone3_weight: u32,
    pub bone4_weight: u32,
}

/// Spherical deform: two bones, one weight, and three auxiliary vectors.
#[derive(Debug, Clone, Copy, PartialEq, Eq, Structural)]
pub struct SDEFData {
    pub bone_index1: u32,
    pub bone_index2: u32,
    /// IEEE-754 bit pattern.
    pub bone1_weight: u32,
    pub c: Vec3Bits,
    pub r0: Vec3Bits,
    pub r1: Vec3Bits,
}

/// Dual-quaternion deform: same field layout as BDEF4.
#[derive(Debug, Clone, Copy, PartialEq, Eq, Structural)]
pub struct QDEFData {
    pub bone_index1: u32,
    pub bone_index2: u32,
    pub bone_index3: u32,
    pub bone_index4: u32,
    pub bone1_weight: u32,
    pub bone2_weight: u32,
    pub bone3_weight: u32,
    pub bone4_weight: u32,
}

/// Two consecutive unsigned bone indices of width `w` at `p`.
pub open spec fn spec_read_bone_pair(s: Seq<u8>, p: int, w: int) -> Result<
    ((u32, u32), int),
    PmxError,
> {
    match spec_read_index_unsigned(s, p, w) {
        Err(e) => Err(e),
        Ok((b1, p1)) => match spec_read_index_unsigned(s, p1, w) {
            Err(e) => Err(e),
            Ok((b2, p2)) => Ok(((b1, b2), p2)),
        },
    }
}

/// The BDEF1 payload at `p`: one bone index of width `w`.
pub open spec fn spec_read_bdef1(s: Seq<u8>, p: int, w: int) -> Result<(BDEF1Data, int), PmxError> {
    match spec_read_index_unsigned(s, p, w) {
        Err(e) => Err(e),
        Ok((bone_index, p1)) => Ok((BDEF1Data { bone_index }, p1)),
    }
}

/// The BDEF2 payload at `p`: two bone indices, one weight.
pub open spec fn spec_read_bdef2(s: Seq<u8>, p: int, w: int) -> Result<(BDEF2Data, int), PmxError> {
    match spec_read_bone_pair(s, p, w) {
        Err(e) => Err(e),
        Ok((bones, p1)) => match spec_read_u32(s, p1) {
            Err(e) => Err(e),
            Ok((bone1_weight, p2)) => Ok(
                (BDEF2Data { bone_index1: bones.0, bone_index2: bones.1, bone1_weight }, p2),
            ),
        },
    }
}

/// The BDEF4 payload at `p`: four bone indices, then four weights (the
/// weight block has the byte layout of one vec4).
pub open spec fn spec_read_bdef4(s: Seq<u8>, p: int, w: int) -> Result<(BDEF4Data, int), PmxError> {
    match spec_read_bone_pair(s, p, w) {
        Err(e) => Err(e),
        Ok((b12, p1)) => match spec_read_bone_pair(s, p1, w) {
            Err(e) => Err(e),
            Ok((b34, p2)) => match crate::fbits::spec_read_vec4(s, p2) {
                Err(e) => Err(e),
                Ok((ws, p3)) => Ok(
                    (
                        BDEF4Data {
                            bone_index1: b12.0,
                            bone_index2: b12.1,
                            bone_index3: b34.0,
                            bone_index4: b34.1,
                            bone1_weight: ws.x,
                            bone2_weight: ws.y,
                            bone3_weight: ws.z,
                            bone4_weight: ws.w,
                        },
                        p3,
                    ),
                ),
            },
        },
    }
}

/// The SDEF payload at `p`: two bone indices, one weight, three vectors.
pub open spec fn spec_read_sdef(s: Seq<u8>, p: int, w: int) -> Result<(SDEFData, int), PmxError> {
    match spec_read_bdef2(s, p, w) {
        Err(e) => Err(e),
        Ok((b, p1)) => match spec_read_vec3(s, p1) {
            Err(e) => Err(e),
            Ok((c, p2)) => match spec_read_vec3(s, p2) {
                Err(e) => Err(e),
                Ok((r0, p3)) => match spec_read_vec3(s, p3) {
                    Err(e) => Err(e),
                    Ok((r1, p4)) => Ok(
                        (
                            SDEFData {
                                bone_index1: b.bone_index1,
                                bone_index2: b.bone_index2,
                                bone1_weight: b.bone1_weight,
                                c,
                                r0,
                                r1,
                            },
                            p4,
                        ),
                    ),
                },
            },
        },
    }
}

/// The QDEF payload at `p`: the same byte layout as BDEF4.
pub open spec fn spec_read_qdef(s: Seq<u8>, p: int, w: int) -> Result<(QDEFData, int), PmxError> {
    match spec_read_bdef4(s, p, w) {
        Err(e) => Err(e),
        Ok((b, p1)) => Ok(
            (
                QDEFData {
                    bone_index1: b.bone_index1,
                    bone_index2: b.bone_index2,
                    bone_index3: b.bone_index3,
                    bone_index4: b.bone_index4,
                    bone1_weight: b.bone1_weight,
                    bone2_weight: b.bone2_weight,
                    bone3_weight: b.bone3_weight,
                    bone4_weight: b.bone4_weight,
                },
                p1,
            ),
        ),
    }
}

impl BDEF1Data {
    /// Read a BDEF1 payload with bone indices of `index_size` bytes.
    pub fn parse(data: &[u8], cursor: &mut usize, index_size: usize) -> (r: Result<
        BDEF1Data,
        PmxError,
    >)
        requires
            index_size == 1 || index_size == 2 || index_size == 4,
        ensures
            match spec_read_bdef1(data@, *old(cursor) as int, index_size as int) {
                Ok(v) => r matches Ok(d) && d == v.0 && *final(cursor) == v.1,
                Err(e) => r matches Err(a) && a == e,
            },
    {
        match read_index_unsigned(data, cursor, index_size) {
            Ok(bone_index) => Ok(BDEF1Data { bone_index }),
            Err(e) => Err(e),
        }
    }
}

impl BDEF2Data {
    /// Read a BDEF2 payload with bone indices of `index_size` bytes.
    pub fn parse(data: &[u8], cursor: &mut usize, index_size: usize) -> (r: Result<
        BDEF2Data,
        PmxError,
    >)
        requires
            index_size == 1 || index_size == 2 || index_size == 4,
        ensures
            match spec_read_bdef2(data@, *old(cursor) as int, index_size as int) {
                Ok(v) => r matches Ok(d) && d == v.0 && *final(cursor) == v.1,
                Err(e) => r matches Err(a) && a == e,
            },
    {
        let bone_index1 = match read_index_unsigned(data, cursor, index_size) {
            Ok(v) => v,
            Err(e) => {
                return Err(e);
            },
        };
        let bone_index2 = match read_index_unsigned(data, cursor, index_size) {
            Ok(v) => v,
            Err(e) => {
                return Err(e);
            },
        };
        let bone1_weight = match read_u32(data, cursor) {
            Ok(v) => v,
            Err(e) => {
                return Err(e);
            },
        };
        Ok(BDEF2Data { bone_index1, bone_index2, bone1_weight })
    }
}

impl BDEF4Data {
    /// Read a BDEF4 payload with bone indices of `index_size` bytes.
    pub fn parse(data: &[u8], cursor: &mut usize, index_size: usize) -> (r: Result<
        BDEF4Data,
        PmxError,
    >)
        requires
            index_size == 1 || index_size == 2 || index_size == 4,
        ensures
            match spec_read_bdef4(data@, *old(cursor) as int, index_size as int) {
                Ok(v) => r matches Ok(d) && d == v.0 && *final(cursor) == v.1,
                Err(e) => r matches Err(a) && a == e,
            },
    {
        let bone_index1 = match read_index_unsigned(data, cursor, index_size) {
            Ok(v) => v,
            Err(e) => {
                return Err(e);
            },
        };
        let bone_index2 = match read_index_unsigned(data, cursor, index_size) {
            Ok(v) => v,
            Err(e) => {
                return Err(e);
            },
        };
        let bone_index3 = match read_index_unsigned(data, cursor, index_size) {
            Ok(v) => v,
            Err(e) => {
                return Err(e);
            },
        };
        let bone_index4 = match read_index_unsigned(data, cursor, index_size) {
            Ok(v) => v,
            Err(e) => {
                return Err(e);
            },
        };
        let ws = match crate::fbits::read_vec4(data, cursor) {
            Ok(v) => v,
            Err(e) => {
                return Err(e);
            },
        };
        Ok(
            BDEF4Data {
                bone_index1,
                bone_index2,
                bone_index3,
                bone_index4,
                bone1_weight: ws.x,
                bone2_weight: ws.y,
                bone3_weight: ws.z,
                bone4_weight: ws.w,
            },
        )
    }
}

impl SDEFData {
    /// Read an SDEF payload with bone indices of `index_size` bytes.
    pub fn parse(data: &[u8], cursor: &mut usize, index_size: usize) -> (r: Result<
        SDEFData,
        PmxError,
    >)
        requires
            index_size == 1 || index_size == 2 || index_size == 4,
        ensures
            match spec_read_sdef(data@, *old(cursor) as int, index_size as int) {
                Ok(v) => r matches Ok(d) && d == v.0 && *final(cursor) == v.1,
                Err(e) => r matches Err(a) && a == e,
            },
    {
        let b = match BDEF2Data::parse(data, cursor, index_size) {
            Ok(v) => v,
            Err(e) => {
                return Err(e);
            },
        };
        let c = match read_vec3(data, cursor) {
            Ok(v) => v,
            Err(e) => {
                return Err(e);
            },
        };
        let r0 = match read_vec3(data, cursor) {
            Ok(v) => v,
            Err(e) => {
                return Err(e);
            },
        };
        let r1 = match read_vec3(data, cursor) {
            Ok(v) => v,
            Err(e) => {
                return Err(e);
            },
        };
        Ok(
            SDEFData {
                bone_index1: b.bone_index1,
                bone_index2: b.bone_index2,
                bone1_weight: b.bone1_weight,
                c,
                r0,
                r1,
            },
        )
    }
}

impl QDEFData {
    /// Read a QDEF payload with bone indices of `index_size` bytes.
    pub fn parse(data: &[u8], cursor: &mut usize, index_size: usize) -> (r: Result<
        QDEFData,
        PmxError,
    >)
        requires
            index_size == 1 || index_size == 2 || index_size == 4,
        ensures
            match spec_read_qdef(data@, *old(cursor) as int, index_size as int) {
                Ok(v) => r matches Ok(d) && d == v.0 && *final(cursor) == v.1,
                Err(e) => r matches Err(a) && a == e,
            },
    {
        match BDEF4Data::parse(data, cursor, index_size) {
            Ok(b) => Ok(
                QDEFData {
                    bone_index1: b.bone_index1,
                    bone_index2: b.bone_index2,
                    bone_index3: b.bone_index3,
                    bone_index4: b.bone_index4,
                    bone1_weight: b.bone1_weight,
                    bone2_weight: b.bone2_weight,
                    bone3_weight: b.bone3_weight,
                    bone4_weight: b.bone4_weight,
                },
            ),
            Err(e) => Err(e),
        }
    }
}

/// The payload of one skinning layout.
#[derive(Debug, Clone, Copy, PartialEq, Eq, Structural)]
pub enum PMXWeightDeformData {
    BDEF1(BDEF1Data),
    BDEF2(BDEF2Data),
    BDEF4(BDEF4Data),
    SDEF(SDEFData),
    QDEF(QDEFData),
}

/// The payload of layout `ty` at `p`, with bone indices of width `w`.
pub open spec fn spec_read_weight_deform(
    s: Seq<u8>,
    p: int,
    w: int,
    ty: PMXWeightDeformType,
) -> Result<(PMXWeightDeformData, int), PmxError> {
    match ty {
        PMXWeightDeformType::BDEF1 => match spec_read_bdef1(s, p, w) {
            Ok((d, q)) => Ok((PMXWeightDeformData::BDEF1(d), q)),
            Err(e) => Err(e),
        },
        PMXWeightDeformType::BDEF2 => match spec_read_bdef2(s, p, w) {
            Ok((d, q)) => Ok((PMXWeightDeformData::BDEF2(d), q)),
            Err(e) => Err(e),
        },
        PMXWeightDeformType::BDEF4 => match spec_read_bdef4(s, p, w) {
            Ok((d, q)) => Ok((PMXWeightDeformData::BDEF4(d), q)),
            Err(e) => Err(e),
        },
        PMXWeightDeformType::SDEF => match spec_read_sdef(s, p, w) {
            Ok((d, q)) => Ok((PMXWeightDeformData::SDEF(d), q)),
            Err(e) => Err(e),
        },
        PMXWeightDeformType::QDEF => match spec_read_qdef(s, p, w) {
            Ok((d, q)) => Ok((PMXWeightDeformData::QDEF(d), q)),
            Err(e) => Err(e),
        },
    }
}

impl PMXWeightDeformData {
    /// Read the payload of the already-resolved layout `ty`.
    pub fn parse(
        data: &[u8],
        cursor: &mut usize,
        index_size: usize,
        ty: PMXWeightDeformType,
    ) -> (r: Result<PMXWeightDeformData, PmxError>)
        requires
            index_size == 1 || index_size == 2 || index_size == 4,
        ensures
            match spec_read_weight_deform(data@, *old(cursor) as int, index_size as int, ty) {
                Ok(v) => r matches Ok(d) && d == v.0 && *final(cursor) == v.1,
                Err(e) => r matches Err(a) && a == e,
            },
    {
        match ty {
            PMXWeightDeformType::BDEF1 => match BDEF1Data::parse(data, cursor, index_size) {
                Ok(d) => Ok(PMXWeightDeformData::BDEF1(d)),
                Err(e) => Err(e),
            },
            PMXWeightDeformType::BDEF2 => match BDEF2Data::parse(data, cursor, index_size) {
                Ok(d) => Ok(PMXWeightDeformData::BDEF2(d)),
                Err(e) => Err(e),
            },
            PMXWeightDeformType::BDEF4 => match BDEF4Data::parse(data, cursor, index_size) {
                Ok(d) => Ok(PMXWeightDeformData::BDEF4(d)),
                Err(e) => Err(e),
            },
            PMXWeightDeformType::SDEF => match SDEFData::parse(data, cursor, index_size) {
                Ok(d) => Ok(PMXWeightDeformData::SDEF(d)),
                Err(e) => Err(e),
            },
            PMXWeightDeformType::QDEF => match QDEFData::parse(data, cursor, index_size) {
                Ok(d) => Ok(PMXWeightDeformData::QDEF(d)),
                Err(e) => Err(e),
            },
        }
    }
}

/// One vertex record: geometry, the configured additional vec4s, the tagged
/// skinning payload, and an edge scale.
#[derive(Debug, Clone, PartialEq)]
pub struct PMXVertexData {
    pub position: Vec3Bits,
    pub normal: Vec3Bits,
    pub uv: Vec2Bits,
    pub additional_vec4: Vec<Vec4Bits>,
    pub weight_deform_type: PMXWeightDeformType,
    pub weight_deform: PMXWeightDeformData,
    /// IEEE-754 bit pattern.
    pub edge_scale: u32,
}

/// The mathematical value of one vertex record.
pub ghost struct VertexView {
    pub position: Vec3Bits,
    pub normal: Vec3Bits,
    pub uv: Vec2Bits,
    pub additional_vec4: Seq<Vec4Bits>,
    pub weight_deform_type: PMXWeightDeformType,
    pub weight_deform: PMXWeightDeformData,
    pub edge_scale: u32,
}

impl DeepView for PMXVertexData {
    type V = VertexView;

    open spec fn deep_view(&self) -> VertexView {
        VertexView {
            position: self.position,
            normal: self.normal,
            uv: self.uv,
            additional_vec4: self.additional_vec4@,
            weight_deform_type: self.weight_deform_type,
            weight_deform: self.weight_deform,
            edge_scale: self.edge_scale,
        }
    }
}

/// One vertex record at `p`: position, normal, uv, `add_count` vec4 blocks,
/// the weight-deform tag and payload (bone width `w`), and the edge scale.
/// Opaque: parsing one record is a large conjunction that callers never need
/// to see unfolded.
#[verifier::opaque]
pub open spec fn spec_read_vertex(s: Seq<u8>, p: int, w: int, add_count: int) -> Result<
    (VertexView, int),
    PmxError,
> {
    match spec_read_vec3(s, p) {
        Err(e) => Err(e),
        Ok((position, p1)) => match spec_read_vec3(s, p1) {
            Err(e) => Err(e),
            Ok((normal, p2)) => match spec_read_vec2(s, p2) {
                Err(e) => Err(e),
                Ok((uv, p3)) => match spec_read_vec4s(s, p3, add_count) {
                    Err(e) => Err(e),
                    Ok((additional_vec4, p4)) => match spec_read_weight_type(s, p4) {
                        Err(e) => Err(e),
                        Ok((ty, p5)) => match spec_read_weight_deform(s, p5, w, ty) {
                            Err(e) => Err(e),
                            Ok((weight_deform, p6)) => match spec_read_u32(s, p6) {
                                Err(e) => Err(e),
                                Ok((edge_scale, p7)) => Ok(
                                    (
                                        VertexView {
                                            position,
                                            normal,
                                            uv,
                                            additional_vec4,
                                            weight_deform_type: ty,
                                            weight_deform,
                                            edge_scale,
                                        },
                                        p7,
                                    ),
                                ),
                            },
                        },
                    },
                },
            },
        },
    }
}

/// `n` vertex records at `p`.
pub open spec fn spec_read_vertices(s: Seq<u8>, p: int, n: int, w: int, add_count: int) -> Result<
    (Seq<VertexView>, int),
    PmxError,
>
    decreases n,
{
    if n <= 0 {
        Ok((Seq::empty(), p))
    } else {
        match spec_read_vertex(s, p, w, add_count) {
            Err(e) => Err(e),
            Ok((v, p1)) => match spec_read_vertices(s, p1, n - 1, w, add_count) {
                Err(e) => Err(e),
                Ok((rest, p2)) => Ok((seq![v] + rest, p2)),
            },
        }
    }
}

impl PMXVertexData {
    /// Read one vertex record; `index_size` is the bone-index width and
    /// `addition_vec4_size` the configured count of additional vec4 blocks.
    pub fn parse(
        data: &[u8],
        cursor: &mut usize,
        index_size: usize,
        addition_vec4_size: usize,
    ) -> (r: Result<PMXVertexData, PmxError>)
        requires
            index_size == 1 || index_size == 2 || index_size == 4,
        ensures
            match spec_read_vertex(
                data@,
                *old(cursor) as int,
                index_size as int,
                addition_vec4_size as int,
            ) {
                Ok(v) => r matches Ok(d) && d.deep_view() == v.0 && *final(cursor) == v.1,
                Err(e) => r matches Err(a) && a == e,
            },
    {
        proof {
            reveal(spec_read_vertex);
        }
        let position = match read_vec3(data, cursor) {
            Ok(v) => v,
            Err(e) => {
                return Err(e);
            },
        };
        let normal = match read_vec3(data, cursor) {
            Ok(v) => v,
            Err(e) => {
                return Err(e);
            },
        };
        let uv = match read_vec2(data, cursor) {
            Ok(v) => v,
            Err(e) => {
                return Err(e);
            },
        };
        let additional_vec4 = match read_vec4_list(data, cursor, addition_vec4_size) {
            Ok(v) => v,
            Err(e) => {
                return Err(e);
            },
        };
        let weight_deform_type = match PMXWeightDeformType::parse(data, cursor) {
            Ok(v) => v,
            Err(e) => {
                return Err(e);
            },
        };
        let weight_deform = match PMXWeightDeformData::parse(
            data,
            cursor,
            index_size,
            weight_deform_type,
        ) {
            Ok(v) => v,
            Err(e) => {
                return Err(e);
            },
        };
        let edge_scale = match read_u32(data, cursor) {
            Ok(v) => v,
            Err(e) => {
                return Err(e);
            },
        };
        Ok(
            PMXVertexData {
                position,
                normal,
                uv,
                additional_vec4,
                weight_deform_type,
                weight_deform,
                edge_scale,
            },
        )
    }
}

/// Read `count` vertex records and advance.
#[verifier::rlimit(50)]
pub fn read_vertex_list(
    data: &[u8],
    cursor: &mut usize,
    count: usize,
    index_size: usize,
    addition_vec4_size: usize,
) -> (r: Result<Vec<PMXVertexData>, PmxError>)
    requires
        index_size == 1 || index_size == 2 || index_size == 4,
    ensures
        match spec_read_vertices(
            data@,
            *old(cursor) as int,
            count as int,
            index_size as int,
            addition_vec4_size as int,
        ) {
            Ok(v) => r matches Ok(list) && list.deep_view() == v.0 && *final(cursor) == v.1,
            Err(e) => r matches Err(a) && a == e,
        },
{
    let ghost p0 = *cursor as int;
    let ghost s = data@;
    let ghost w = index_size as int;
    let ghost ac = addition_vec4_size as int;
    let mut pos: usize = *cursor;
    let mut list: Vec<PMXVertexData> = Vec::new();
    let mut i: usize = 0;
    while i < count
        invariant
            i <= count,
            list@.len() == i,
            match spec_read_vertices(s, pos as int, count - i, w, ac) {
                Ok(v) => spec_read_vertices(s, p0, count as int, w, ac) == Ok::<_, PmxError>(
                    (list.deep_view() + v.0, v.1),
                ),
                Err(e) => spec_read_vertices(s, p0, count as int, w, ac) == Err::<
                    (Seq<VertexView>, int),
                    _,
                >(e),
            },
            s == data@,
            p0 == *old(cursor) as int,
            w == index_size as int,
            ac == addition_vec4_size as int,
            index_size == 1 || index_size == 2 || index_size == 4,
        decreases count - i,
    {
        let ghost old_list = list.deep_view();
        match PMXVertexData::parse(data, &mut pos, index_size, addition_vec4_size) {
            Ok(v) => {
                list.push(v);
                i = i + 1;
                proof {
                    assert(list.deep_view() =~= old_list + seq![v.deep_view()]);
                    if let Ok((rest, p2)) = spec_read_vertices(s, pos as int, count - i, w, ac) {
                        assert(old_list + (seq![v.deep_view()] + rest) =~= (old_list + seq![
                            v.deep_view(),
                        ]) + rest);
                    }
                }
            },
            Err(e) => {
                return Err(e);
            },
        }
    }
    proof {
        assert(list.deep_view() + Seq::<VertexView>::empty() =~= list.deep_view());
    }
    *cursor = pos;
    Ok(list)
}

} // verus!
