//! Material records: names, colors, drawing flags, two signed texture
//! references (-1 means "no texture" at every width), an environment blend
//! mode, a toon reference with its variant payload, metadata text, and the
//! number of flat surface indices owned by the material's submesh.

use vstd::prelude::*;

use crate::error::PmxError;
use crate::fbits::{read_vec3, read_vec4, spec_read_vec3, spec_read_vec4, Vec3Bits, Vec4Bits};
use crate::globals::PMXIndexType;
use crate::text::{spec_decode_text, TextEncodingType};
use crate::utils::{
    read_i32, read_i8, read_index_signed, read_text, read_u32, read_u8, spec_read_i32,
    spec_read_i8, spec_read_index_signed, spec_read_text, spec_read_u32, spec_read_u8,
};

verus! {

/// How an environment map combines with the base color.
#[derive(Clone, Copy, Debug, PartialEq, Eq, Structural)]
pub enum PMXEnvironmentBlendMode {
    Disabled,
    Multiply,
    Additive,
    AdditionalVec4,
}

/// The blend mode named by a tag byte: 0..=3.
pub open spec fn spec_blend_mode(tag: i8) -> Result<PMXEnvironmentBlendMode, PmxError> {
    if tag == 0 {
        Ok(PMXEnvironmentBlendMode::Disabled)
    } else if tag == 1 {
        Ok(PMXEnvironmentBlendMode::Multiply)
    } else if tag == 2 {
        Ok(PMXEnvironmentBlendMode::Additive)
    } else if tag == 3 {
        Ok(PMXEnvironmentBlendMode::AdditionalVec4)
    } else {
        Err(PmxError::InvalidEnumValue)
    }
}

/// The blend-mode byte at `p`.
pub open spec fn spec_read_blend_mode(s: Seq<u8>, p: int) -> Result<
    (PMXEnvironmentBlendMode, int),
    PmxError,
> {
    match spec_read_i8(s, p) {
        Err(e) => Err(e),
        Ok((tag, p1)) => match spec_blend_mode(tag) {
            Err(e) => Err(e),
            Ok(m) => Ok((m, p1)),
        },
    }
}

impl PMXEnvironmentBlendMode {
    /// Read the blend-mode byte.
    pub fn parse(data: &[u8], cursor: &mut usize) -> (r: Result<PMXEnvironmentBlendMode, PmxError>)
        ensures
            match spec_read_blend_mode(data@, *old(cursor) as int) {
                Ok(v) => r matches Ok(m) && m == v.0 && *final(cursor) == v.1,
                Err(e) => r matches Err(a) && a == e,
            },
    {
        let tag = match read_i8(data, cursor) {
            Ok(t) => t,
            Err(e) => {
                return Err(e);
            },
        };
        match tag {
            0 => Ok(PMXEnvironmentBlendMode::Disabled),
            1 => Ok(PMXEnvironmentBlendMode::Multiply),
            2 => Ok(PMXEnvironmentBlendMode::Additive),
            3 => Ok(PMXEnvironmentBlendMode::AdditionalVec4),
            _ => Err(PmxError::InvalidEnumValue),
        }
    }
}

/// Whether a material's toon shading names a texture by index or one of the
/// internal toon textures by small id.
#[derive(Clone, Copy, Debug, PartialEq, Eq, Structural)]
pub enum PMXToonReference {
    Texture,
    Internal,
}

/// The toon reference named by a tag byte: 0 or 1.
pub open spec fn spec_toon_reference(tag: i8) -> Result<PMXToonReference, PmxError> {
    if tag == 0 {
        Ok(PMXToonReference::Texture)
    } else if tag == 1 {
        Ok(PMXToonReference::Internal)
    } else {
        Err(PmxError::InvalidEnumValue)
    }
}

/// The toon-reference byte at `p`.
pub open spec fn spec_read_toon_reference(s: Seq<u8>, p: int) -> Result<
    (PMXToonReference, int),
    PmxError,
> {
    match spec_read_i8(s, p) {
        Err(e) => Err(e),
        Ok((tag, p1)) => match spec_toon_reference(tag) {
            Err(e) => Err(e),
            Ok(m) => Ok((m, p1)),
        },
    }
}

impl PMXToonReference {
    /// Read the toon-reference byte.
    pub fn parse(data: &[u8], cursor: &mut usize) -> (r: Result<PMXToonReference, PmxError>)
        ensures
            match spec_read_toon_reference(data@, *old(cursor) as int) {
                Ok(v) => r matches Ok(m) && m == v.0 && *final(cursor) == v.1,
                Err(e) => r matches Err(a) && a == e,
            },
    {
        let tag = match read_i8(data, cursor) {
            Ok(t) => t,
            Err(e) => {
                return Err(e);
            },
        };
        match tag {
            0 => Ok(PMXToonReference::Texture),
            1 => Ok(PMXToonReference::Internal),
            _ => Err(PmxError::InvalidEnumValue),
        }
    }
}

/// The toon payload selected by the toon reference: a signed texture index of
/// the configured width, or one signed internal byte.
#[derive(Clone, Copy, Debug, PartialEq, Eq, Structural)]
pub enum PMXToonValue {
    Texture(i32),
    Internal(i8),
}

/// The toon payload of kind `ty` at `p`, texture indices `tw` bytes wide.
pub open spec fn spec_read_toon_value(s: Seq<u8>, p: int, ty: PMXToonReference, tw: int) -> Result<
    (PMXToonValue, int),
    PmxError,
> {
    match ty {
        PMXToonReference::Texture => match spec_read_index_signed(s, p, tw) {
            Ok((v, q)) => Ok((PMXToonValue::Texture(v), q)),
            Err(e) => Err(e),
        },
        PMXToonReference::Internal => match spec_read_i8(s, p) {
            Ok((v, q)) => Ok((PMXToonValue::Internal(v), q)),
            Err(e) => Err(e),
        },
    }
}

impl PMXToonValue {
    /// Read the toon payload of the already-resolved kind `ty`.
    pub fn parse(
        data: &[u8],
        cursor: &mut usize,
        ty: PMXToonReference,
        texture_index_size: PMXIndexType,
    ) -> (r: Result<PMXToonValue, PmxError>)
        ensures
            match spec_read_toon_value(
                data@,
                *old(cursor) as int,
                ty,
                texture_index_size.spec_to_usize() as int,
            ) {
                Ok(v) => r matches Ok(m) && m == v.0 && *final(cursor) == v.1,
                Err(e) => r matches Err(a) && a == e,
            },
    {
        match ty {
            PMXToonReference::Texture => {
                let w = texture_index_size.to_usize();
                match read_index_signed(data, cursor, w) {
                    Ok(v) => Ok(PMXToonValue::Texture(v)),
                    Err(e) => Err(e),
                }
            },
            PMXToonReference::Internal => match read_i8(data, cursor) {
                Ok(v) => Ok(PMXToonValue::Internal(v)),
                Err(e) => Err(e),
            },
        }
    }
}

/// One material record.
#[derive(Debug, Clone, PartialEq)]
pub struct PMXMaterialData {
    pub material_name_local: String,
    pub material_name_universal: String,
    pub diffuse_color: Vec4Bits,
    pub specular_color: Vec3Bits,
    /// IEEE-754 bit pattern.
    pub specular_strength: u32,
    pub ambient_color: Vec3Bits,
    pub drawing_flags: u8,
    pub edge_color: Vec4Bits,
    /// IEEE-754 bit pattern.
    pub edge_scale: u32,
    /// Signed: -1 means "no texture".
    pub texture_index: i32,
    /// Signed: -1 means "no environment map".
    pub environment_index: i32,
    pub environment_blend_mode: PMXEnvironmentBlendMode,
    pub toon_reference: PMXToonReference,
    pub toon_value: PMXToonValue,
    pub meta_data: String,
    /// How many flat surface indices this material's submesh owns; the sum
    /// over all materials must equal the whole surface-index count.
    pub surface_count: i32,
}

/// The mathematical value of one material record.
pub ghost struct MaterialView {
    pub material_name_local: Seq<char>,
    pub material_name_universal: Seq<char>,
    pub diffuse_color: Vec4Bits,
    pub specular_color: Vec3Bits,
    pub specular_strength: u32,
    pub ambient_color: Vec3Bits,
    pub drawing_flags: u8,
    pub edge_color: Vec4Bits,
    pub edge_scale: u32,
    pub texture_index: i32,
    pub environment_index: i32,
    pub environment_blend_mode: PMXEnvironmentBlendMode,
    pub toon_reference: PMXToonReference,
    pub toon_value: PMXToonValue,
    pub meta_data: Seq<char>,
    pub surface_count: i32,
}

impl DeepView for PMXMaterialData {
    type V = MaterialView;

    open spec fn deep_view(&self) -> MaterialView {
        MaterialView {
            material_name_local: self.material_name_local@,
            material_name_universal: self.material_name_universal@,
            diffuse_color: self.diffuse_color,
            specular_color: self.specular_color,
            specular_strength: self.specular_strength,
            ambient_color: self.ambient_color,
            drawing_flags: self.drawing_flags,
            edge_color: self.edge_color,
            edge_scale: self.edge_scale,
            texture_index: self.texture_index,
            environment_index: self.environment_index,
            environment_blend_mode: self.environment_blend_mode,
            toon_reference: self.toon_reference,
            toon_value: self.toon_value,
            meta_data: self.meta_data@,
            surface_count: self.surface_count,
        }
    }
}

/// One material record at `p`: the raw fields in fixed order (texture and
/// environment indices signed, `tw` bytes wide), then the two names and the
/// metadata decoded through `enc`, in that order. Opaque: parsing one record
/// is a large conjunction that callers never need to see unfolded.
#[verifier::opaque]
pub open spec fn spec_read_material(s: Seq<u8>, p: int, tw: int, enc: TextEncodingType) -> Result<
    (MaterialView, int),
    PmxError,
> {
    match spec_read_text(s, p) {
        Err(e) => Err(e),
        Ok((name_local_raw, p1)) => match spec_read_text(s, p1) {
            Err(e) => Err(e),
            Ok((name_universal_raw, p2)) => match spec_read_vec4(s, p2) {
                Err(e) => Err(e),
                Ok((diffuse_color, p3)) => match spec_read_vec3(s, p3) {
                    Err(e) => Err(e),
                    Ok((specular_color, p4)) => match spec_read_u32(s, p4) {
                        Err(e) => Err(e),
                        Ok((specular_strength, p5)) => match spec_read_vec3(s, p5) {
                            Err(e) => Err(e),
                            Ok((ambient_color, p6)) => match spec_read_u8(s, p6) {
                                Err(e) => Err(e),
                                Ok((drawing_flags, p7)) => match spec_read_vec4(s, p7) {
                                    Err(e) => Err(e),
                                    Ok((edge_color, p8)) => match spec_read_u32(s, p8) {
                                        Err(e) => Err(e),
                                        Ok((edge_scale, p9)) => match spec_read_index_signed(
                                            s,
                                            p9,
                                            tw,
                                        ) {
                                            Err(e) => Err(e),
                                            Ok((texture_index, p10)) => match spec_read_index_signed(
                                                s,
                                                p10,
                                                tw,
                                            ) {
                                                Err(e) => Err(e),
                                                Ok((environment_index, p11)) => match spec_read_blend_mode(
                                                    s,
                                                    p11,
                                                ) {
                                                    Err(e) => Err(e),
                                                    Ok(
                                                        (environment_blend_mode, p12),
                                                    ) => match spec_read_toon_reference(s, p12) {
                                                        Err(e) => Err(e),
                                                        Ok(
                                                            (toon_reference, p13),
                                                        ) => match spec_read_toon_value(
                                                            s,
                                                            p13,
                                                            toon_reference,
                                                            tw,
                                                        ) {
                                                            Err(e) => Err(e),
                                                            Ok(
                                                                (toon_value, p14),
                                                            ) => match spec_read_text(s, p14) {
                                                                Err(e) => Err(e),
                                                                Ok(
                                                                    (meta_raw, p15),
                                                                ) => match spec_read_i32(s, p15) {
                                                                    Err(e) => Err(e),
                                                                    Ok(
                                                                        (surface_count, p16),
                                                                    ) => match spec_decode_text(
                                                                        enc,
                                                                        name_local_raw.1,
                                                                    ) {
                                                                        Err(e) => Err(e),
                                                                        Ok(
                                                                            material_name_local,
                                                                        ) => match spec_decode_text(
                                                                            enc,
                                                                            name_universal_raw.1,
                                                                        ) {
                                                                            Err(e) => Err(e),
                                                                            Ok(
                                                                                material_name_universal,
                                                                            ) => match spec_decode_text(
                                                                                enc,
                                                                                meta_raw.1,
                                                                            ) {
                                                                                Err(e) => Err(e),
                                                                                Ok(meta_data) => Ok(
                                                                                    (
                                                                                        MaterialView {
                                                                                            material_name_local,
                                                                                            material_name_universal,
                                                                                            diffuse_color,
                                                                                            specular_color,
                                                                                            specular_strength,
                                                                                            ambient_color,
                                                                                            drawing_flags,
                                                                                            edge_color,
                                                                                            edge_scale,
                                                                                            texture_index,
                                                                                            environment_index,
                                                                                            environment_blend_mode,
                                                                                            toon_reference,
                                                                                            toon_value,
                                                                                            meta_data,
                                                                                            surface_count,
                                                                                        },
                                                                                        p16,
                                                                                    ),
                                                                                ),
                                                                            },
                                                                        },
                                                                    },
                                                                },
                                                            },
                                                        },
                                                    },
                                                },
                                            },
                                        },
                                    },
                                },
                            },
                        },
                    },
                },
            },
        },
    }
}

/// `n` material records at `p`.
pub open spec fn spec_read_materials(
    s: Seq<u8>,
    p: int,
    n: int,
    tw: int,
    enc: TextEncodingType,
) -> Result<(Seq<MaterialView>, int), PmxError>
    decreases n,
{
    if n <= 0 {
        Ok((Seq::empty(), p))
    } else {
        match spec_read_material(s, p, tw, enc) {
            Err(e) => Err(e),
            Ok((v, p1)) => match spec_read_materials(s, p1, n - 1, tw, enc) {
                Err(e) => Err(e),
                Ok((rest, p2)) => Ok((seq![v] + rest, p2)),
            },
        }
    }
}

impl PMXMaterialData {
    /// Read one material record; texture and environment indices are
    /// `texture_index_size` bytes wide and the text fields decode through
    /// `text_encoding`.
    #[verifier::rlimit(50)]
    pub fn parse(
        data: &[u8],
        cursor: &mut usize,
        texture_index_size: PMXIndexType,
        text_encoding: TextEncodingType,
    ) -> (r: Result<PMXMaterialData, PmxError>)
        ensures
            match spec_read_material(
                data@,
                *old(cursor) as int,
                texture_index_size.spec_to_usize() as int,
                text_encoding,
            ) {
                Ok(v) => r matches Ok(d) && d.deep_view() == v.0 && *final(cursor) == v.1,
                Err(e) => r matches Err(a) && a == e,
            },
    {
        proof {
            reveal(spec_read_material);
        }
        let tw = texture_index_size.to_usize();
        let name_local_raw = match read_text(data, cursor) {
            Ok(v) => v,
            Err(e) => {
                return Err(e);
            },
        };
        let name_universal_raw = match read_text(data, cursor) {
            Ok(v) => v,
            Err(e) => {
                return Err(e);
            },
        };
        let diffuse_color = match read_vec4(data, cursor) {
            Ok(v) => v,
            Err(e) => {
                return Err(e);
            },
        };
        let specular_color = match read_vec3(data, cursor) {
            Ok(v) => v,
            Err(e) => {
                return Err(e);
            },
        };
        let specular_strength = match read_u32(data, cursor) {
            Ok(v) => v,
            Err(e) => {
                return Err(e);
            },
        };
        let ambient_color = match read_vec3(data, cursor) {
            Ok(v) => v,
            Err(e) => {
                return Err(e);
            },
        };
        let drawing_flags = match read_u8(data, cursor) {
            Ok(v) => v,
            Err(e) => {
                return Err(e);
            },
        };
        let edge_color = match read_vec4(data, cursor) {
            Ok(v) => v,
            Err(e) => {
                return Err(e);
            },
        };
        let edge_scale = match read_u32(data, cursor) {
            Ok(v) => v,
            Err(e) => {
                return Err(e);
            },
        };
        let texture_index = match read_index_signed(data, cursor, tw) {
            Ok(v) => v,
            Err(e) => {
                return Err(e);
            },
        };
        let environment_index = match read_index_signed(data, cursor, tw) {
            Ok(v) => v,
            Err(e) => {
                return Err(e);
            },
        };
        let environment_blend_mode = match PMXEnvironmentBlendMode::parse(data, cursor) {
            Ok(v) => v,
            Err(e) => {
                return Err(e);
            },
        };
        let toon_reference = match PMXToonReference::parse(data, cursor) {
            Ok(v) => v,
            Err(e) => {
                return Err(e);
            },
        };
        let toon_value = match PMXToonValue::parse(data, cursor, toon_reference, texture_index_size)
            {
            Ok(v) => v,
            Err(e) => {
                return Err(e);
            },
        };
        let meta_raw = match read_text(data, cursor) {
            Ok(v) => v,
            Err(e) => {
                return Err(e);
            },
        };
        let surface_count = match read_i32(data, cursor) {
            Ok(v) => v,
            Err(e) => {
                return Err(e);
            },
        };
        let material_name_local = match text_encoding.parse_text(&name_local_raw) {
            Ok(v) => v,
            Err(e) => {
                return Err(e);
            },
        };
        let material_name_universal = match text_encoding.parse_text(&name_universal_raw) {
            Ok(v) => v,
            Err(e) => {
                return Err(e);
            },
        };
        let meta_data = match text_encoding.parse_text(&meta_raw) {
            Ok(v) => v,
            Err(e) => {
                return Err(e);
            },
        };
        Ok(
            PMXMaterialData {
                material_name_local,
                material_name_universal,
                diffuse_color,
                specular_color,
                specular_strength,
                ambient_color,
                drawing_flags,
                edge_color,
                edge_scale,
                texture_index,
                environment_index,
                environment_blend_mode,
                toon_reference,
                toon_value,
                meta_data,
                surface_count,
            },
        )
    }
}

/// Read `count` material records and advance.
#[verifier::rlimit(50)]
pub fn read_material_list(
    data: &[u8],
    cursor: &mut usize,
    count: usize,
    texture_index_size: PMXIndexType,
    text_encoding: TextEncodingType,
) -> (r: Result<Vec<PMXMaterialData>, PmxError>)
    ensures
        match spec_read_materials(
            data@,
            *old(cursor) as int,
            count as int,
            texture_index_size.spec_to_usize() as int,
            text_encoding,
        ) {
            Ok(v) => r matches Ok(list) && list.deep_view() == v.0 && *final(cursor) == v.1,
            Err(e) => r matches Err(a) && a == e,
        },
{
    let ghost p0 = *cursor as int;
    let ghost s = data@;
    let ghost tw = texture_index_size.spec_to_usize() as int;
    let mut pos: usize = *cursor;
    let mut list: Vec<PMXMaterialData> = Vec::new();
    let mut i: usize = 0;
    while i < count
        invariant
            i <= count,
            list@.len() == i,
            match spec_read_materials(s, pos as int, count - i, tw, text_encoding) {
                Ok(v) => spec_read_materials(s, p0, count as int, tw, text_encoding) == Ok::<
                    _,
                    PmxError,
                >((list.deep_view() + v.0, v.1)),
                Err(e) => spec_read_materials(s, p0, count as int, tw, text_encoding) == Err::<
                    (Seq<MaterialView>, int),
                    _,
                >(e),
            },
            s == data@,
            p0 == *old(cursor) as int,
            tw == texture_index_size.spec_to_usize() as int,
        decreases count - i,
    {
        let ghost old_list = list.deep_view();
        match PMXMaterialData::parse(data, &mut pos, texture_index_size, text_encoding) {
            Ok(v) => {
                list.push(v);
                i = i + 1;
                proof {
                    assert(list.deep_view() =~= old_list + seq![v.deep_view()]);
                    if let Ok((rest, p2)) = spec_read_materials(
                        s,
                        pos as int,
                        count - i,
                        tw,
                        text_encoding,
                    ) {
                        assert(old_list + (seq![v.deep_view()] + rest) =~= (old_list + seq![
                            v.deep_view(),
                        ]) + rest);
                    }
                }
            },
            Err(e) => {
                return Err(e);
            },
        }
    }
    proof {
        assert(list.deep_view() + Seq::<MaterialView>::empty() =~= list.deep_view());
    }
    *cursor = pos;
    Ok(list)
}

} // verus!
