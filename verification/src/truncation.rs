//! Truncation safety: cutting a buffer short can only turn a successful
//! decode into `UnexpectedEof`, never into a silently different result.
//!
//! Every reader depends only on the bytes before the position it ends at. So
//! on a prefix of the buffer it either ends at the same position with the
//! same value, or — when its end lies beyond the cut — fails with
//! `UnexpectedEof`. One lemma per reader states exactly that, and the chain
//! culminates in `lemma_truncation_eof` for the whole parse.

use vstd::prelude::*;

use crate::error::PmxError;
use crate::fbits::{spec_read_vec2, spec_read_vec3, spec_read_vec4, spec_read_vec4s, Vec2Bits, Vec3Bits, Vec4Bits};
use crate::globals::{spec_globals, spec_globals_raw};
use crate::header::{spec_i8_seq, spec_read_header_raw, spec_read_i8s, HeaderRawView};
use crate::material::{spec_read_blend_mode, spec_read_material, spec_read_materials, spec_read_toon_reference, spec_read_toon_value, MaterialView, PMXEnvironmentBlendMode, PMXToonReference, PMXToonValue};
use crate::parser::{nneg, spec_parse, spec_parse_all, spec_read_texture_path, spec_read_texture_paths, ModelView};
use crate::surface::{spec_read_surface, spec_read_surfaces, PMXSurfaceData};
use crate::text::TextEncodingType;
use crate::utils::{
    spec_read_bytes, spec_read_i32, spec_read_i8, spec_read_index_signed, spec_read_index_unsigned,
    spec_read_text, spec_read_u32, spec_read_u8,
};
use crate::vertex::{
    spec_read_bdef1, spec_read_bdef2, spec_read_bdef4, spec_read_bone_pair, spec_read_qdef,
    spec_read_sdef, spec_read_vertex, spec_read_vertices, spec_read_weight_deform,
    spec_read_weight_type, BDEF1Data, BDEF2Data, BDEF4Data, PMXWeightDeformData,
    PMXWeightDeformType, QDEFData, SDEFData, VertexView,
};

verus! {

/// `s2` is `s1` cut at some byte boundary.
pub open spec fn prefix_of(s2: Seq<u8>, s1: Seq<u8>) -> bool {
    s2.len() <= s1.len() && s2 == s1.take(s2.len() as int)
}

/// Every sequence is a (trivial) prefix of itself.
pub proof fn lemma_prefix_refl(s: Seq<u8>)
    ensures
        prefix_of(s, s),
{
    assert(s.take(s.len() as int) =~= s);
}

/// Bytes of a prefix agree with the original.
pub proof fn lemma_prefix_index(s1: Seq<u8>, s2: Seq<u8>, i: int)
    requires
        prefix_of(s2, s1),
        0 <= i < s2.len(),
    ensures
        s2[i] == s1[i],
{
    assert(s1.take(s2.len() as int)[i] == s1[i]);
}

pub proof fn lemma_trunc_read_u8(s1: Seq<u8>, s2: Seq<u8>, p: int)
    requires
        prefix_of(s2, s1),
        0 <= p <= s2.len(),
    ensures
        spec_read_u8(s1, p) matches Ok(v) ==> p <= v.1 <= s1.len() && (if v.1 <= s2.len() {
            spec_read_u8(s2, p) == spec_read_u8(s1, p)
        } else {
            spec_read_u8(s2, p) == Err::<(u8, int), PmxError>(PmxError::UnexpectedEof)
        }),
{
    if p + 1 <= s2.len() {
        lemma_prefix_index(s1, s2, p);
    }
}

pub proof fn lemma_trunc_read_i8(s1: Seq<u8>, s2: Seq<u8>, p: int)
    requires
        prefix_of(s2, s1),
        0 <= p <= s2.len(),
    ensures
        spec_read_i8(s1, p) matches Ok(v) ==> p <= v.1 <= s1.len() && (if v.1 <= s2.len() {
            spec_read_i8(s2, p) == spec_read_i8(s1, p)
        } else {
            spec_read_i8(s2, p) == Err::<(i8, int), PmxError>(PmxError::UnexpectedEof)
        }),
{
    if p + 1 <= s2.len() {
        lemma_prefix_index(s1, s2, p);
    }
}

pub proof fn lemma_trunc_read_u32(s1: Seq<u8>, s2: Seq<u8>, p: int)
    requires
        prefix_of(s2, s1),
        0 <= p <= s2.len(),
    ensures
        spec_read_u32(s1, p) matches Ok(v) ==> p <= v.1 <= s1.len() && (if v.1 <= s2.len() {
            spec_read_u32(s2, p) == spec_read_u32(s1, p)
        } else {
            spec_read_u32(s2, p) == Err::<(u32, int), PmxError>(PmxError::UnexpectedEof)
        }),
{
    if p + 4 <= s2.len() {
        lemma_prefix_index(s1, s2, p);
        lemma_prefix_index(s1, s2, p + 1);
        lemma_prefix_index(s1, s2, p + 2);
        lemma_prefix_index(s1, s2, p + 3);
    }
}

pub proof fn lemma_trunc_read_i32(s1: Seq<u8>, s2: Seq<u8>, p: int)
    requires
        prefix_of(s2, s1),
        0 <= p <= s2.len(),
    ensures
        spec_read_i32(s1, p) matches Ok(v) ==> p <= v.1 <= s1.len() && (if v.1 <= s2.len() {
            spec_read_i32(s2, p) == spec_read_i32(s1, p)
        } else {
            spec_read_i32(s2, p) == Err::<(i32, int), PmxError>(PmxError::UnexpectedEof)
        }),
{
    if p + 4 <= s2.len() {
        lemma_prefix_index(s1, s2, p);
        lemma_prefix_index(s1, s2, p + 1);
        lemma_prefix_index(s1, s2, p + 2);
        lemma_prefix_index(s1, s2, p + 3);
    }
}

pub proof fn lemma_trunc_read_bytes(s1: Seq<u8>, s2: Seq<u8>, p: int, n: int)
    requires
        prefix_of(s2, s1),
        0 <= p <= s2.len(),
    ensures
        spec_read_bytes(s1, p, n) matches Ok(v) ==> p <= v.1 <= s1.len() && (if v.1 <= s2.len() {
            spec_read_bytes(s2, p, n) == spec_read_bytes(s1, p, n)
        } else {
            spec_read_bytes(s2, p, n) == Err::<(Seq<u8>, int), PmxError>(PmxError::UnexpectedEof)
        }),
{
    if 0 <= n && p + n <= s2.len() {
        assert forall|i: int| 0 <= i < s2.len() implies s2[i] == s1[i] by {
            lemma_prefix_index(s1, s2, i);
        }
        assert(s2.subrange(p, p + n) =~= s1.subrange(p, p + n));
    }
}

pub proof fn lemma_trunc_read_text(s1: Seq<u8>, s2: Seq<u8>, p: int)
    requires
        prefix_of(s2, s1),
        0 <= p <= s2.len(),
    ensures
        spec_read_text(s1, p) matches Ok(v) ==> p <= v.1 <= s1.len() && (if v.1 <= s2.len() {
            spec_read_text(s2, p) == spec_read_text(s1, p)
        } else {
            spec_read_text(s2, p) == Err::<((i32, Seq<u8>), int), PmxError>(
                PmxError::UnexpectedEof,
            )
        }),
{
    if let Ok((t, e)) = spec_read_text(s1, p) {
        lemma_prefix_refl(s1);
        lemma_trunc_read_i32(s1, s2, p);
        lemma_trunc_read_i32(s1, s1, p);
        if let Ok((len, p1)) = spec_read_i32(s1, p) {
            if p1 <= s2.len() {
                lemma_trunc_read_bytes(s1, s2, p1, len as int);
            }
            lemma_trunc_read_bytes(s1, s1, p1, len as int);
        }
    }
}

pub proof fn lemma_trunc_read_index_unsigned(s1: Seq<u8>, s2: Seq<u8>, p: int, w: int)
    requires
        prefix_of(s2, s1),
        0 <= p <= s2.len(),
        w == 1 || w == 2 || w == 4,
    ensures
        spec_read_index_unsigned(s1, p, w) matches Ok(v) ==> p <= v.1 <= s1.len() && (if v.1
            <= s2.len() {
            spec_read_index_unsigned(s2, p, w) == spec_read_index_unsigned(s1, p, w)
        } else {
            spec_read_index_unsigned(s2, p, w) == Err::<(u32, int), PmxError>(
                PmxError::UnexpectedEof,
            )
        }),
{
    if p + w <= s2.len() {
        assert forall|i: int| p <= i < p + w implies s2[i] == s1[i] by {
            lemma_prefix_index(s1, s2, i);
        }
    }
}

pub proof fn lemma_trunc_read_index_signed(s1: Seq<u8>, s2: Seq<u8>, p: int, w: int)
    requires
        prefix_of(s2, s1),
        0 <= p <= s2.len(),
        w == 1 || w == 2 || w == 4,
    ensures
        spec_read_index_signed(s1, p, w) matches Ok(v) ==> p <= v.1 <= s1.len() && (if v.1
            <= s2.len() {
            spec_read_index_signed(s2, p, w) == spec_read_index_signed(s1, p, w)
        } else {
            spec_read_index_signed(s2, p, w) == Err::<(i32, int), PmxError>(
                PmxError::UnexpectedEof,
            )
        }),
{
    if p + w <= s2.len() {
        assert forall|i: int| p <= i < p + w implies s2[i] == s1[i] by {
            lemma_prefix_index(s1, s2, i);
        }
    }
}

pub proof fn lemma_trunc_read_i8s(s1: Seq<u8>, s2: Seq<u8>, p: int, n: int)
    requires
        prefix_of(s2, s1),
        0 <= p <= s2.len(),
    ensures
        spec_read_i8s(s1, p, n) matches Ok(v) ==> p <= v.1 <= s1.len() && (if v.1 <= s2.len() {
            spec_read_i8s(s2, p, n) == spec_read_i8s(s1, p, n)
        } else {
            spec_read_i8s(s2, p, n) == Err::<(Seq<i8>, int), PmxError>(PmxError::UnexpectedEof)
        }),
{
    if 0 <= n && p + n <= s2.len() {
        assert forall|i: int| 0 <= i < s2.len() implies s2[i] == s1[i] by {
            lemma_prefix_index(s1, s2, i);
        }
        assert(spec_i8_seq(s2, p, n) =~= spec_i8_seq(s1, p, n));
    }
}

pub proof fn lemma_trunc_read_vec2(s1: Seq<u8>, s2: Seq<u8>, p: int)
    requires
        prefix_of(s2, s1),
        0 <= p <= s2.len(),
    ensures
        spec_read_vec2(s1, p) matches Ok(v) ==> p <= v.1 <= s1.len() && (if v.1 <= s2.len() {
            spec_read_vec2(s2, p) == spec_read_vec2(s1, p)
        } else {
            spec_read_vec2(s2, p) == Err::<(Vec2Bits, int), PmxError>(PmxError::UnexpectedEof)
        }),
{
    lemma_prefix_refl(s1);
    if let Ok(_) = spec_read_vec2(s1, p) {
        lemma_trunc_read_u32(s1, s1, p);
        lemma_trunc_read_u32(s1, s2, p);
        if let Ok((_, p1)) = spec_read_u32(s1, p) {
            lemma_trunc_read_u32(s1, s1, p1);
            if p1 <= s2.len() {
                lemma_trunc_read_u32(s1, s2, p1);
            }
        }
    }
}

pub proof fn lemma_trunc_read_vec3(s1: Seq<u8>, s2: Seq<u8>, p: int)
    requires
        prefix_of(s2, s1),
        0 <= p <= s2.len(),
    ensures
        spec_read_vec3(s1, p) matches Ok(v) ==> p <= v.1 <= s1.len() && (if v.1 <= s2.len() {
            spec_read_vec3(s2, p) == spec_read_vec3(s1, p)
        } else {
            spec_read_vec3(s2, p) == Err::<(Vec3Bits, int), PmxError>(PmxError::UnexpectedEof)
        }),
{
    lemma_prefix_refl(s1);
    if let Ok(_) = spec_read_vec3(s1, p) {
        lemma_trunc_read_vec2(s1, s1, p);
        lemma_trunc_read_vec2(s1, s2, p);
        if let Ok((_, p1)) = spec_read_vec2(s1, p) {
            lemma_trunc_read_u32(s1, s1, p1);
            if p1 <= s2.len() {
                lemma_trunc_read_u32(s1, s2, p1);
            }
        }
    }
}

pub proof fn lemma_trunc_read_vec4(s1: Seq<u8>, s2: Seq<u8>, p: int)
    requires
        prefix_of(s2, s1),
        0 <= p <= s2.len(),
    ensures
        spec_read_vec4(s1, p) matches Ok(v) ==> p <= v.1 <= s1.len() && (if v.1 <= s2.len() {
            spec_read_vec4(s2, p) == spec_read_vec4(s1, p)
        } else {
            spec_read_vec4(s2, p) == Err::<(Vec4Bits, int), PmxError>(PmxError::UnexpectedEof)
        }),
{
    lemma_prefix_refl(s1);
    if let Ok(_) = spec_read_vec4(s1, p) {
        lemma_trunc_read_vec3(s1, s1, p);
        lemma_trunc_read_vec3(s1, s2, p);
        if let Ok((_, p1)) = spec_read_vec3(s1, p) {
            lemma_trunc_read_u32(s1, s1, p1);
            if p1 <= s2.len() {
                lemma_trunc_read_u32(s1, s2, p1);
            }
        }
    }
}

pub proof fn lemma_trunc_read_vec4s(s1: Seq<u8>, s2: Seq<u8>, p: int, n: int)
    requires
        prefix_of(s2, s1),
        0 <= p <= s2.len(),
    ensures
        spec_read_vec4s(s1, p, n) matches Ok(v) ==> p <= v.1 <= s1.len() && (if v.1 <= s2.len() {
            spec_read_vec4s(s2, p, n) == spec_read_vec4s(s1, p, n)
        } else {
            spec_read_vec4s(s2, p, n) == Err::<(Seq<Vec4Bits>, int), PmxError>(
                PmxError::UnexpectedEof,
            )
        }),
    decreases n,
{
    lemma_prefix_refl(s1);
    if n > 0 {
        if let Ok(_) = spec_read_vec4s(s1, p, n) {
            lemma_trunc_read_vec4(s1, s1, p);
            lemma_trunc_read_vec4(s1, s2, p);
            if let Ok((_, p1)) = spec_read_vec4(s1, p) {
                lemma_trunc_read_vec4s(s1, s1, p1, n - 1);
                if p1 <= s2.len() {
                    lemma_trunc_read_vec4s(s1, s2, p1, n - 1);
                }
            }
        }
    }
}

pub proof fn lemma_trunc_read_weight_type(s1: Seq<u8>, s2: Seq<u8>, p: int)
    requires
        prefix_of(s2, s1),
        0 <= p <= s2.len(),
    ensures
        spec_read_weight_type(s1, p) matches Ok(v) ==> p <= v.1 <= s1.len() && (if v.1 <= s2.len() {
            spec_read_weight_type(s2, p) == spec_read_weight_type(s1, p)
        } else {
            spec_read_weight_type(s2, p) == Err::<(PMXWeightDeformType, int), PmxError>(
                PmxError::UnexpectedEof,
            )
        }),
{
    lemma_prefix_refl(s1);
    lemma_trunc_read_i8(s1, s1, p);
    lemma_trunc_read_i8(s1, s2, p);
}

pub proof fn lemma_trunc_read_bone_pair(s1: Seq<u8>, s2: Seq<u8>, p: int, w: int)
    requires
        prefix_of(s2, s1),
        0 <= p <= s2.len(),
        w == 1 || w == 2 || w == 4,
    ensures
        spec_read_bone_pair(s1, p, w) matches Ok(v) ==> p <= v.1 <= s1.len() && (if v.1 <= s2.len() {
            spec_read_bone_pair(s2, p, w) == spec_read_bone_pair(s1, p, w)
        } else {
            spec_read_bone_pair(s2, p, w) == Err::<((u32, u32), int), PmxError>(
                PmxError::UnexpectedEof,
            )
        }),
{
    lemma_prefix_refl(s1);
    if let Ok(_) = spec_read_bone_pair(s1, p, w) {
        lemma_trunc_read_index_unsigned(s1, s1, p, w);
        lemma_trunc_read_index_unsigned(s1, s2, p, w);
        if let Ok((_, p1)) = spec_read_index_unsigned(s1, p, w) {
            lemma_trunc_read_index_unsigned(s1, s1, p1, w);
            if p1 <= s2.len() {
                lemma_trunc_read_index_unsigned(s1, s2, p1, w);
            }
        }
    }
}

pub proof fn lemma_trunc_read_bdef1(s1: Seq<u8>, s2: Seq<u8>, p: int, w: int)
    requires
        prefix_of(s2, s1),
        0 <= p <= s2.len(),
        w == 1 || w == 2 || w == 4,
    ensures
        spec_read_bdef1(s1, p, w) matches Ok(v) ==> p <= v.1 <= s1.len() && (if v.1 <= s2.len() {
            spec_read_bdef1(s2, p, w) == spec_read_bdef1(s1, p, w)
        } else {
            spec_read_bdef1(s2, p, w) == Err::<(BDEF1Data, int), PmxError>(PmxError::UnexpectedEof)
        }),
{
    lemma_prefix_refl(s1);
    lemma_trunc_read_index_unsigned(s1, s1, p, w);
    lemma_trunc_read_index_unsigned(s1, s2, p, w);
}

pub proof fn lemma_trunc_read_bdef2(s1: Seq<u8>, s2: Seq<u8>, p: int, w: int)
    requires
        prefix_of(s2, s1),
        0 <= p <= s2.len(),
        w == 1 || w == 2 || w == 4,
    ensures
        spec_read_bdef2(s1, p, w) matches Ok(v) ==> p <= v.1 <= s1.len() && (if v.1 <= s2.len() {
            spec_read_bdef2(s2, p, w) == spec_read_bdef2(s1, p, w)
        } else {
            spec_read_bdef2(s2, p, w) == Err::<(BDEF2Data, int), PmxError>(PmxError::UnexpectedEof)
        }),
{
    lemma_prefix_refl(s1);
    if let Ok(_) = spec_read_bdef2(s1, p, w) {
        lemma_trunc_read_bone_pair(s1, s1, p, w);
        lemma_trunc_read_bone_pair(s1, s2, p, w);
        if let Ok((_, p1)) = spec_read_bone_pair(s1, p, w) {
            lemma_trunc_read_u32(s1, s1, p1);
            if p1 <= s2.len() {
                lemma_trunc_read_u32(s1, s2, p1);
            }
        }
    }
}

pub proof fn lemma_trunc_read_bdef4(s1: Seq<u8>, s2: Seq<u8>, p: int, w: int)
    requires
        prefix_of(s2, s1),
        0 <= p <= s2.len(),
        w == 1 || w == 2 || w == 4,
    ensures
        spec_read_bdef4(s1, p, w) matches Ok(v) ==> p <= v.1 <= s1.len() && (if v.1 <= s2.len() {
            spec_read_bdef4(s2, p, w) == spec_read_bdef4(s1, p, w)
        } else {
            spec_read_bdef4(s2, p, w) == Err::<(BDEF4Data, int), PmxError>(PmxError::UnexpectedEof)
        }),
{
    lemma_prefix_refl(s1);
    if let Ok(_) = spec_read_bdef4(s1, p, w) {
        lemma_trunc_read_bone_pair(s1, s1, p, w);
        lemma_trunc_read_bone_pair(s1, s2, p, w);
        if let Ok((_, p1)) = spec_read_bone_pair(s1, p, w) {
            lemma_trunc_read_bone_pair(s1, s1, p1, w);
            if p1 <= s2.len() {
                lemma_trunc_read_bone_pair(s1, s2, p1, w);
            }
            if let Ok((_, p2)) = spec_read_bone_pair(s1, p1, w) {
                lemma_trunc_read_vec4(s1, s1, p2);
                if p2 <= s2.len() {
                    lemma_trunc_read_vec4(s1, s2, p2);
                }
            }
        }
    }
}

pub proof fn lemma_trunc_read_sdef(s1: Seq<u8>, s2: Seq<u8>, p: int, w: int)
    requires
        prefix_of(s2, s1),
        0 <= p <= s2.len(),
        w == 1 || w == 2 || w == 4,
    ensures
        spec_read_sdef(s1, p, w) matches Ok(v) ==> p <= v.1 <= s1.len() && (if v.1 <= s2.len() {
            spec_read_sdef(s2, p, w) == spec_read_sdef(s1, p, w)
        } else {
            spec_read_sdef(s2, p, w) == Err::<(SDEFData, int), PmxError>(PmxError::UnexpectedEof)
        }),
{
    lemma_prefix_refl(s1);
    if let Ok(_) = spec_read_sdef(s1, p, w) {
        lemma_trunc_read_bdef2(s1, s1, p, w);
        lemma_trunc_read_bdef2(s1, s2, p, w);
        if let Ok((_, p1)) = spec_read_bdef2(s1, p, w) {
            lemma_trunc_read_vec3(s1, s1, p1);
            if p1 <= s2.len() {
                lemma_trunc_read_vec3(s1, s2, p1);
            }
            if let Ok((_, p2)) = spec_read_vec3(s1, p1) {
                lemma_trunc_read_vec3(s1, s1, p2);
                if p2 <= s2.len() {
                    lemma_trunc_read_vec3(s1, s2, p2);
                }
                if let Ok((_, p3)) = spec_read_vec3(s1, p2) {
                    lemma_trunc_read_vec3(s1, s1, p3);
                    if p3 <= s2.len() {
                        lemma_trunc_read_vec3(s1, s2, p3);
                    }
                }
            }
        }
    }
}

pub proof fn lemma_trunc_read_qdef(s1: Seq<u8>, s2: Seq<u8>, p: int, w: int)
    requires
        prefix_of(s2, s1),
        0 <= p <= s2.len(),
        w == 1 || w == 2 || w == 4,
    ensures
        spec_read_qdef(s1, p, w) matches Ok(v) ==> p <= v.1 <= s1.len() && (if v.1 <= s2.len() {
            spec_read_qdef(s2, p, w) == spec_read_qdef(s1, p, w)
        } else {
            spec_read_qdef(s2, p, w) == Err::<(QDEFData, int), PmxError>(PmxError::UnexpectedEof)
        }),
{
    lemma_trunc_read_bdef4(s1, s2, p, w);
}

pub proof fn lemma_trunc_read_weight_deform(
    s1: Seq<u8>,
    s2: Seq<u8>,
    p: int,
    w: int,
    ty: PMXWeightDeformType,
)
    requires
        prefix_of(s2, s1),
        0 <= p <= s2.len(),
        w == 1 || w == 2 || w == 4,
    ensures
        spec_read_weight_deform(s1, p, w, ty) matches Ok(v) ==> p <= v.1 <= s1.len() && (if v.1
            <= s2.len() {
            spec_read_weight_deform(s2, p, w, ty) == spec_read_weight_deform(s1, p, w, ty)
        } else {
            spec_read_weight_deform(s2, p, w, ty) == Err::<(PMXWeightDeformData, int), PmxError>(
                PmxError::UnexpectedEof,
            )
        }),
{
    match ty {
        PMXWeightDeformType::BDEF1 => lemma_trunc_read_bdef1(s1, s2, p, w),
        PMXWeightDeformType::BDEF2 => lemma_trunc_read_bdef2(s1, s2, p, w),
        PMXWeightDeformType::BDEF4 => lemma_trunc_read_bdef4(s1, s2, p, w),
        PMXWeightDeformType::SDEF => lemma_trunc_read_sdef(s1, s2, p, w),
        PMXWeightDeformType::QDEF => lemma_trunc_read_qdef(s1, s2, p, w),
    }
}

pub proof fn lemma_trunc_read_vertex(s1: Seq<u8>, s2: Seq<u8>, p: int, w: int, ac: int)
    requires
        prefix_of(s2, s1),
        0 <= p <= s2.len(),
        w == 1 || w == 2 || w == 4,
    ensures
        spec_read_vertex(s1, p, w, ac) matches Ok(v) ==> p <= v.1 <= s1.len() && (if v.1
            <= s2.len() {
            spec_read_vertex(s2, p, w, ac) == spec_read_vertex(s1, p, w, ac)
        } else {
            spec_read_vertex(s2, p, w, ac) == Err::<(VertexView, int), PmxError>(
                PmxError::UnexpectedEof,
            )
        }),
{
    reveal(spec_read_vertex);
    lemma_prefix_refl(s1);
    if let Ok(_) = spec_read_vertex(s1, p, w, ac) {
        lemma_trunc_read_vec3(s1, s1, p);
        lemma_trunc_read_vec3(s1, s2, p);
        if let Ok((_, p1)) = spec_read_vec3(s1, p) {
            lemma_trunc_read_vec3(s1, s1, p1);
            if p1 <= s2.len() {
                lemma_trunc_read_vec3(s1, s2, p1);
            }
            if let Ok((_, p2)) = spec_read_vec3(s1, p1) {
                lemma_trunc_read_vec2(s1, s1, p2);
                if p2 <= s2.len() {
                    lemma_trunc_read_vec2(s1, s2, p2);
                }
                if let Ok((_, p3)) = spec_read_vec2(s1, p2) {
                    lemma_trunc_read_vec4s(s1, s1, p3, ac);
                    if p3 <= s2.len() {
                        lemma_trunc_read_vec4s(s1, s2, p3, ac);
                    }
                    if let Ok((_, p4)) = spec_read_vec4s(s1, p3, ac) {
                        lemma_trunc_read_weight_type(s1, s1, p4);
                        if p4 <= s2.len() {
                            lemma_trunc_read_weight_type(s1, s2, p4);
                        }
                        if let Ok((ty, p5)) = spec_read_weight_type(s1, p4) {
                            lemma_trunc_read_weight_deform(s1, s1, p5, w, ty);
                            if p5 <= s2.len() {
                                lemma_trunc_read_weight_deform(s1, s2, p5, w, ty);
                            }
                            if let Ok((_, p6)) = spec_read_weight_deform(s1, p5, w, ty) {
                                lemma_trunc_read_u32(s1, s1, p6);
                                if p6 <= s2.len() {
                                    lemma_trunc_read_u32(s1, s2, p6);
                                }
                            }
                        }
                    }
                }
            }
        }
    }
}

pub proof fn lemma_trunc_read_vertices(s1: Seq<u8>, s2: Seq<u8>, p: int, n: int, w: int, ac: int)
    requires
        prefix_of(s2, s1),
        0 <= p <= s2.len(),
        w == 1 || w == 2 || w == 4,
    ensures
        spec_read_vertices(s1, p, n, w, ac) matches Ok(v) ==> p <= v.1 <= s1.len() && (if v.1
            <= s2.len() {
            spec_read_vertices(s2, p, n, w, ac) == spec_read_vertices(s1, p, n, w, ac)
        } else {
            spec_read_vertices(s2, p, n, w, ac) == Err::<(Seq<VertexView>, int), PmxError>(
                PmxError::UnexpectedEof,
            )
        }),
    decreases n,
{
    lemma_prefix_refl(s1);
    if n > 0 {
        if let Ok(_) = spec_read_vertices(s1, p, n, w, ac) {
            lemma_trunc_read_vertex(s1, s1, p, w, ac);
            lemma_trunc_read_vertex(s1, s2, p, w, ac);
            if let Ok((_, p1)) = spec_read_vertex(s1, p, w, ac) {
                lemma_trunc_read_vertices(s1, s1, p1, n - 1, w, ac);
                if p1 <= s2.len() {
                    lemma_trunc_read_vertices(s1, s2, p1, n - 1, w, ac);
                }
            }
        }
    }
}

pub proof fn lemma_trunc_read_surface(s1: Seq<u8>, s2: Seq<u8>, p: int, w: int)
    requires
        prefix_of(s2, s1),
        0 <= p <= s2.len(),
        w == 1 || w == 2 || w == 4,
    ensures
        spec_read_surface(s1, p, w) matches Ok(v) ==> p <= v.1 <= s1.len() && (if v.1 <= s2.len() {
            spec_read_surface(s2, p, w) == spec_read_surface(s1, p, w)
        } else {
            spec_read_surface(s2, p, w) == Err::<(PMXSurfaceData, int), PmxError>(
                PmxError::UnexpectedEof,
            )
        }),
{
    lemma_prefix_refl(s1);
    if let Ok(_) = spec_read_surface(s1, p, w) {
        lemma_trunc_read_index_unsigned(s1, s1, p, w);
        lemma_trunc_read_index_unsigned(s1, s2, p, w);
        if let Ok((_, p1)) = spec_read_index_unsigned(s1, p, w) {
            lemma_trunc_read_index_unsigned(s1, s1, p1, w);
            if p1 <= s2.len() {
                lemma_trunc_read_index_unsigned(s1, s2, p1, w);
            }
            if let Ok((_, p2)) = spec_read_index_unsigned(s1, p1, w) {
                lemma_trunc_read_index_unsigned(s1, s1, p2, w);
                if p2 <= s2.len() {
                    lemma_trunc_read_index_unsigned(s1, s2, p2, w);
                }
            }
        }
    }
}

pub proof fn lemma_trunc_read_surfaces(s1: Seq<u8>, s2: Seq<u8>, p: int, n: int, w: int)
    requires
        prefix_of(s2, s1),
        0 <= p <= s2.len(),
        w == 1 || w == 2 || w == 4,
    ensures
        spec_read_surfaces(s1, p, n, w) matches Ok(v) ==> p <= v.1 <= s1.len() && (if v.1
            <= s2.len() {
            spec_read_surfaces(s2, p, n, w) == spec_read_surfaces(s1, p, n, w)
        } else {
            spec_read_surfaces(s2, p, n, w) == Err::<(Seq<PMXSurfaceData>, int), PmxError>(
                PmxError::UnexpectedEof,
            )
        }),
    decreases n,
{
    lemma_prefix_refl(s1);
    if n > 0 {
        if let Ok(_) = spec_read_surfaces(s1, p, n, w) {
            lemma_trunc_read_surface(s1, s1, p, w);
            lemma_trunc_read_surface(s1, s2, p, w);
            if let Ok((_, p1)) = spec_read_surface(s1, p, w) {
                lemma_trunc_read_surfaces(s1, s1, p1, n - 1, w);
                if p1 <= s2.len() {
                    lemma_trunc_read_surfaces(s1, s2, p1, n - 1, w);
                }
            }
        }
    }
}

pub proof fn lemma_trunc_read_texture_path(s1: Seq<u8>, s2: Seq<u8>, p: int, enc: TextEncodingType)
    requires
        prefix_of(s2, s1),
        0 <= p <= s2.len(),
    ensures
        spec_read_texture_path(s1, p, enc) matches Ok(v) ==> p <= v.1 <= s1.len() && (if v.1
            <= s2.len() {
            spec_read_texture_path(s2, p, enc) == spec_read_texture_path(s1, p, enc)
        } else {
            spec_read_texture_path(s2, p, enc) == Err::<(Seq<char>, int), PmxError>(
                PmxError::UnexpectedEof,
            )
        }),
{
    lemma_prefix_refl(s1);
    lemma_trunc_read_text(s1, s1, p);
    lemma_trunc_read_text(s1, s2, p);
}

pub proof fn lemma_trunc_read_texture_paths(
    s1: Seq<u8>,
    s2: Seq<u8>,
    p: int,
    n: int,
    enc: TextEncodingType,
)
    requires
        prefix_of(s2, s1),
        0 <= p <= s2.len(),
    ensures
        spec_read_texture_paths(s1, p, n, enc) matches Ok(v) ==> p <= v.1 <= s1.len() && (if v.1
            <= s2.len() {
            spec_read_texture_paths(s2, p, n, enc) == spec_read_texture_paths(s1, p, n, enc)
        } else {
            spec_read_texture_paths(s2, p, n, enc) == Err::<(Seq<Seq<char>>, int), PmxError>(
                PmxError::UnexpectedEof,
            )
        }),
    decreases n,
{
    lemma_prefix_refl(s1);
    if n > 0 {
        if let Ok(_) = spec_read_texture_paths(s1, p, n, enc) {
            lemma_trunc_read_texture_path(s1, s1, p, enc);
            lemma_trunc_read_texture_path(s1, s2, p, enc);
            if let Ok((_, p1)) = spec_read_texture_path(s1, p, enc) {
                lemma_trunc_read_texture_paths(s1, s1, p1, n - 1, enc);
                if p1 <= s2.len() {
                    lemma_trunc_read_texture_paths(s1, s2, p1, n - 1, enc);
                }
            }
        }
    }
}

pub proof fn lemma_trunc_read_blend_mode(s1: Seq<u8>, s2: Seq<u8>, p: int)
    requires
        prefix_of(s2, s1),
        0 <= p <= s2.len(),
    ensures
        spec_read_blend_mode(s1, p) matches Ok(v) ==> p <= v.1 <= s1.len() && (if v.1 <= s2.len() {
            spec_read_blend_mode(s2, p) == spec_read_blend_mode(s1, p)
        } else {
            spec_read_blend_mode(s2, p) == Err::<(PMXEnvironmentBlendMode, int), PmxError>(
                PmxError::UnexpectedEof,
            )
        }),
{
    lemma_prefix_refl(s1);
    lemma_trunc_read_i8(s1, s1, p);
    lemma_trunc_read_i8(s1, s2, p);
}

pub proof fn lemma_trunc_read_toon_reference(s1: Seq<u8>, s2: Seq<u8>, p: int)
    requires
        prefix_of(s2, s1),
        0 <= p <= s2.len(),
    ensures
        spec_read_toon_reference(s1, p) matches Ok(v) ==> p <= v.1 <= s1.len() && (if v.1
            <= s2.len() {
            spec_read_toon_reference(s2, p) == spec_read_toon_reference(s1, p)
        } else {
            spec_read_toon_reference(s2, p) == Err::<(PMXToonReference, int), PmxError>(
                PmxError::UnexpectedEof,
            )
        }),
{
    lemma_prefix_refl(s1);
    lemma_trunc_read_i8(s1, s1, p);
    lemma_trunc_read_i8(s1, s2, p);
}

pub proof fn lemma_trunc_read_toon_value(
    s1: Seq<u8>,
    s2: Seq<u8>,
    p: int,
    ty: PMXToonReference,
    tw: int,
)
    requires
        prefix_of(s2, s1),
        0 <= p <= s2.len(),
        tw == 1 || tw == 2 || tw == 4,
    ensures
        spec_read_toon_value(s1, p, ty, tw) matches Ok(v) ==> p <= v.1 <= s1.len() && (if v.1
            <= s2.len() {
            spec_read_toon_value(s2, p, ty, tw) == spec_read_toon_value(s1, p, ty, tw)
        } else {
            spec_read_toon_value(s2, p, ty, tw) == Err::<(PMXToonValue, int), PmxError>(
                PmxError::UnexpectedEof,
            )
        }),
{
    lemma_prefix_refl(s1);
    match ty {
        PMXToonReference::Texture => {
            lemma_trunc_read_index_signed(s1, s1, p, tw);
            lemma_trunc_read_index_signed(s1, s2, p, tw);
        },
        PMXToonReference::Internal => {
            lemma_trunc_read_i8(s1, s1, p);
            lemma_trunc_read_i8(s1, s2, p);
        },
    }
}

#[verifier::rlimit(100)]
pub proof fn lemma_trunc_read_material(
    s1: Seq<u8>,
    s2: Seq<u8>,
    p: int,
    tw: int,
    enc: TextEncodingType,
)
    requires
        prefix_of(s2, s1),
        0 <= p <= s2.len(),
        tw == 1 || tw == 2 || tw == 4,
    ensures
        spec_read_material(s1, p, tw, enc) matches Ok(v) ==> p <= v.1 <= s1.len() && (if v.1
            <= s2.len() {
            spec_read_material(s2, p, tw, enc) == spec_read_material(s1, p, tw, enc)
        } else {
            spec_read_material(s2, p, tw, enc) == Err::<(MaterialView, int), PmxError>(
                PmxError::UnexpectedEof,
            )
        }),
{
    reveal(spec_read_material);
    lemma_prefix_refl(s1);
    if let Ok(_) = spec_read_material(s1, p, tw, enc) {
        lemma_trunc_read_text(s1, s1, p);
        lemma_trunc_read_text(s1, s2, p);
        if let Ok((_, p1)) = spec_read_text(s1, p) {
            lemma_trunc_read_text(s1, s1, p1);
            if p1 <= s2.len() {
                lemma_trunc_read_text(s1, s2, p1);
            }
            if let Ok((_, p2)) = spec_read_text(s1, p1) {
                lemma_trunc_read_vec4(s1, s1, p2);
                if p2 <= s2.len() {
                    lemma_trunc_read_vec4(s1, s2, p2);
                }
                if let Ok((_, p3)) = spec_read_vec4(s1, p2) {
                    lemma_trunc_read_vec3(s1, s1, p3);
                    if p3 <= s2.len() {
                        lemma_trunc_read_vec3(s1, s2, p3);
                    }
                    if let Ok((_, p4)) = spec_read_vec3(s1, p3) {
                        lemma_trunc_read_u32(s1, s1, p4);
                        if p4 <= s2.len() {
                            lemma_trunc_read_u32(s1, s2, p4);
                        }
                        if let Ok((_, p5)) = spec_read_u32(s1, p4) {
                            lemma_trunc_read_vec3(s1, s1, p5);
                            if p5 <= s2.len() {
                                lemma_trunc_read_vec3(s1, s2, p5);
                            }
                            if let Ok((_, p6)) = spec_read_vec3(s1, p5) {
                                lemma_trunc_read_u8(s1, s1, p6);
                                if p6 <= s2.len() {
                                    lemma_trunc_read_u8(s1, s2, p6);
                                }
                                if let Ok((_, p7)) = spec_read_u8(s1, p6) {
                                    lemma_trunc_read_vec4(s1, s1, p7);
                                    if p7 <= s2.len() {
                                        lemma_trunc_read_vec4(s1, s2, p7);
                                    }
                                    if let Ok((_, p8)) = spec_read_vec4(s1, p7) {
                                        lemma_trunc_read_u32(s1, s1, p8);
                                        if p8 <= s2.len() {
                                            lemma_trunc_read_u32(s1, s2, p8);
                                        }
                                        if let Ok((_, p9)) = spec_read_u32(s1, p8) {
                                            lemma_trunc_read_index_signed(s1, s1, p9, tw);
                                            if p9 <= s2.len() {
                                                lemma_trunc_read_index_signed(s1, s2, p9, tw);
                                            }
                                            if let Ok((_, p10)) = spec_read_index_signed(
                                                s1,
                                                p9,
                                                tw,
                                            ) {
                                                lemma_trunc_read_index_signed(s1, s1, p10, tw);
                                                if p10 <= s2.len() {
                                                    lemma_trunc_read_index_signed(s1, s2, p10, tw);
                                                }
                                                lemma_trunc_material_tail(s1, s2, p10, tw, enc);
                                            }
                                        }
                                    }
                                }
                            }
                        }
                    }
                }
            }
        }
    }
}

/// The tail of a material record, from the environment index on: shared by
/// the material truncation lemma to keep each proof small.
proof fn lemma_trunc_material_tail(s1: Seq<u8>, s2: Seq<u8>, p10: int, tw: int, enc: TextEncodingType)
    requires
        prefix_of(s2, s1),
        0 <= p10 <= s1.len(),
        tw == 1 || tw == 2 || tw == 4,
    ensures
        spec_read_index_signed(s1, p10, tw) matches Ok(w11) ==> {
            let p11 = w11.1;
            &&& p10 <= p11 <= s1.len()
            &&& (p11 <= s2.len() && p10 <= s2.len() ==> spec_read_index_signed(s2, p10, tw)
                == spec_read_index_signed(s1, p10, tw))
            &&& (p11 > s2.len() && p10 <= s2.len() ==> spec_read_index_signed(s2, p10, tw)
                == Err::<(i32, int), PmxError>(PmxError::UnexpectedEof))
            &&& (spec_read_blend_mode(s1, p11) matches Ok(w12) ==> {
                let p12 = w12.1;
                &&& p11 <= p12 <= s1.len()
                &&& (p12 <= s2.len() && p11 <= s2.len() ==> spec_read_blend_mode(s2, p11)
                    == spec_read_blend_mode(s1, p11))
                &&& (p12 > s2.len() && p11 <= s2.len() ==> spec_read_blend_mode(s2, p11)
                    == Err::<(PMXEnvironmentBlendMode, int), PmxError>(PmxError::UnexpectedEof))
                &&& (spec_read_toon_reference(s1, p12) matches Ok(w13) ==> {
                    let p13 = w13.1;
                    &&& p12 <= p13 <= s1.len()
                    &&& (p13 <= s2.len() && p12 <= s2.len() ==> spec_read_toon_reference(s2, p12)
                        == spec_read_toon_reference(s1, p12))
                    &&& (p13 > s2.len() && p12 <= s2.len() ==> spec_read_toon_reference(s2, p12)
                        == Err::<(PMXToonReference, int), PmxError>(PmxError::UnexpectedEof))
                    &&& (spec_read_toon_value(s1, p13, w13.0, tw) matches Ok(w14) ==> {
                        let p14 = w14.1;
                        &&& p13 <= p14 <= s1.len()
                        &&& (p14 <= s2.len() && p13 <= s2.len() ==> spec_read_toon_value(
                            s2,
                            p13,
                            w13.0,
                            tw,
                        ) == spec_read_toon_value(s1, p13, w13.0, tw))
                        &&& (p14 > s2.len() && p13 <= s2.len() ==> spec_read_toon_value(
                            s2,
                            p13,
                            w13.0,
                            tw,
                        ) == Err::<(PMXToonValue, int), PmxError>(PmxError::UnexpectedEof))
                        &&& (spec_read_text(s1, p14) matches Ok(w15) ==> {
                            let p15 = w15.1;
                            &&& p14 <= p15 <= s1.len()
                            &&& (p15 <= s2.len() && p14 <= s2.len() ==> spec_read_text(s2, p14)
                                == spec_read_text(s1, p14))
                            &&& (p15 > s2.len() && p14 <= s2.len() ==> spec_read_text(s2, p14)
                                == Err::<((i32, Seq<u8>), int), PmxError>(PmxError::UnexpectedEof))
                            &&& (spec_read_i32(s1, p15) matches Ok(w16) ==> {
                                let p16 = w16.1;
                                &&& p15 <= p16 <= s1.len()
                                &&& (p16 <= s2.len() && p15 <= s2.len() ==> spec_read_i32(s2, p15)
                                    == spec_read_i32(s1, p15))
                                &&& (p16 > s2.len() && p15 <= s2.len() ==> spec_read_i32(s2, p15)
                                    == Err::<(i32, int), PmxError>(PmxError::UnexpectedEof))
                            })
                        })
                    })
                })
            })
        },
{
    lemma_prefix_refl(s1);
    lemma_trunc_read_index_signed(s1, s1, p10, tw);
    if p10 <= s2.len() {
        lemma_trunc_read_index_signed(s1, s2, p10, tw);
    }
    if let Ok((_, p11)) = spec_read_index_signed(s1, p10, tw) {
        lemma_trunc_read_blend_mode(s1, s1, p11);
        if p11 <= s2.len() {
            lemma_trunc_read_blend_mode(s1, s2, p11);
        }
        if let Ok((_, p12)) = spec_read_blend_mode(s1, p11) {
            lemma_trunc_read_toon_reference(s1, s1, p12);
            if p12 <= s2.len() {
                lemma_trunc_read_toon_reference(s1, s2, p12);
            }
            if let Ok((ty, p13)) = spec_read_toon_reference(s1, p12) {
                lemma_trunc_read_toon_value(s1, s1, p13, ty, tw);
                if p13 <= s2.len() {
                    lemma_trunc_read_toon_value(s1, s2, p13, ty, tw);
                }
                if let Ok((_, p14)) = spec_read_toon_value(s1, p13, ty, tw) {
                    lemma_trunc_read_text(s1, s1, p14);
                    if p14 <= s2.len() {
                        lemma_trunc_read_text(s1, s2, p14);
                    }
                    if let Ok((_, p15)) = spec_read_text(s1, p14) {
                        lemma_trunc_read_i32(s1, s1, p15);
                        if p15 <= s2.len() {
                            lemma_trunc_read_i32(s1, s2, p15);
                        }
                    }
                }
            }
        }
    }
}

pub proof fn lemma_trunc_read_materials(
    s1: Seq<u8>,
    s2: Seq<u8>,
    p: int,
    n: int,
    tw: int,
    enc: TextEncodingType,
)
    requires
        prefix_of(s2, s1),
        0 <= p <= s2.len(),
        tw == 1 || tw == 2 || tw == 4,
    ensures
        spec_read_materials(s1, p, n, tw, enc) matches Ok(v) ==> p <= v.1 <= s1.len() && (if v.1
            <= s2.len() {
            spec_read_materials(s2, p, n, tw, enc) == spec_read_materials(s1, p, n, tw, enc)
        } else {
            spec_read_materials(s2, p, n, tw, enc) == Err::<(Seq<MaterialView>, int), PmxError>(
                PmxError::UnexpectedEof,
            )
        }),
    decreases n,
{
    lemma_prefix_refl(s1);
    if n > 0 {
        if let Ok(_) = spec_read_materials(s1, p, n, tw, enc) {
            lemma_trunc_read_material(s1, s1, p, tw, enc);
            lemma_trunc_read_material(s1, s2, p, tw, enc);
            if let Ok((_, p1)) = spec_read_material(s1, p, tw, enc) {
                lemma_trunc_read_materials(s1, s1, p1, n - 1, tw, enc);
                if p1 <= s2.len() {
                    lemma_trunc_read_materials(s1, s2, p1, n - 1, tw, enc);
                }
            }
        }
    }
}

#[verifier::rlimit(100)]
pub proof fn lemma_trunc_read_header_raw(s1: Seq<u8>, s2: Seq<u8>, p: int)
    requires
        prefix_of(s2, s1),
        0 <= p <= s2.len(),
    ensures
        spec_read_header_raw(s1, p) matches Ok(v) ==> p <= v.1 <= s1.len() && (if v.1 <= s2.len() {
            spec_read_header_raw(s2, p) == spec_read_header_raw(s1, p)
        } else {
            spec_read_header_raw(s2, p) == Err::<(HeaderRawView, int), PmxError>(
                PmxError::UnexpectedEof,
            )
        }),
{
    lemma_prefix_refl(s1);
    if let Ok(_) = spec_read_header_raw(s1, p) {
        lemma_trunc_read_i8s(s1, s1, p, 4);
        lemma_trunc_read_i8s(s1, s2, p, 4);
        if let Ok((_, p1)) = spec_read_i8s(s1, p, 4) {
            lemma_trunc_read_u32(s1, s1, p1);
            if p1 <= s2.len() {
                lemma_trunc_read_u32(s1, s2, p1);
            }
            if let Ok((_, p2)) = spec_read_u32(s1, p1) {
                lemma_trunc_read_i8(s1, s1, p2);
                if p2 <= s2.len() {
                    lemma_trunc_read_i8(s1, s2, p2);
                }
                if let Ok((gc, p3)) = spec_read_i8(s1, p2) {
                    lemma_trunc_read_i8s(s1, s1, p3, gc as int);
                    if p3 <= s2.len() {
                        lemma_trunc_read_i8s(s1, s2, p3, gc as int);
                    }
                    if let Ok((_, p4)) = spec_read_i8s(s1, p3, gc as int) {
                        lemma_trunc_read_text(s1, s1, p4);
                        if p4 <= s2.len() {
                            lemma_trunc_read_text(s1, s2, p4);
                        }
                        if let Ok((_, p5)) = spec_read_text(s1, p4) {
                            lemma_trunc_read_text(s1, s1, p5);
                            if p5 <= s2.len() {
                                lemma_trunc_read_text(s1, s2, p5);
                            }
                            if let Ok((_, p6)) = spec_read_text(s1, p5) {
                                lemma_trunc_read_text(s1, s1, p6);
                                if p6 <= s2.len() {
                                    lemma_trunc_read_text(s1, s2, p6);
                                }
                                if let Ok((_, p7)) = spec_read_text(s1, p6) {
                                    lemma_trunc_read_text(s1, s1, p7);
                                    if p7 <= s2.len() {
                                        lemma_trunc_read_text(s1, s2, p7);
                                    }
                                }
                            }
                        }
                    }
                }
            }
        }
    }
}

/// The whole decode depends only on the bytes before the position it ends
/// at: a prefix either decodes to the very same model, or — cut before that
/// end — fails with `UnexpectedEof`.
#[verifier::rlimit(100)]
pub proof fn lemma_trunc_parse_all(s1: Seq<u8>, s2: Seq<u8>)
    requires
        prefix_of(s2, s1),
    ensures
        spec_parse_all(s1) matches Ok(v) ==> 0 <= v.1 <= s1.len() && (if v.1 <= s2.len() {
            spec_parse_all(s2) == spec_parse_all(s1)
        } else {
            spec_parse_all(s2) == Err::<(ModelView, int), PmxError>(PmxError::UnexpectedEof)
        }),
{
    reveal(crate::parser::spec_parse_all);
    lemma_prefix_refl(s1);
    if let Ok(_) = spec_parse_all(s1) {
        lemma_trunc_read_header_raw(s1, s1, 0);
        lemma_trunc_read_header_raw(s1, s2, 0);
        if let Ok((raw, p1)) = spec_read_header_raw(s1, 0) {
            if let Ok(g) = spec_globals(spec_globals_raw(raw.globals)) {
                let bw = g.bone_index_size.spec_to_usize() as int;
                let vw = g.vertex_index_size.spec_to_usize() as int;
                let tw = g.texture_index_size.spec_to_usize() as int;
                let ac = g.additional_vec4_count as int;
                let enc = g.text_encoding;
                assert(bw == 1 || bw == 2 || bw == 4);
                assert(vw == 1 || vw == 2 || vw == 4);
                assert(tw == 1 || tw == 2 || tw == 4);
                lemma_trunc_read_i32(s1, s1, p1);
                if p1 <= s2.len() {
                    lemma_trunc_read_i32(s1, s2, p1);
                }
                if let Ok((vertex_count, p2)) = spec_read_i32(s1, p1) {
                    lemma_trunc_read_vertices(s1, s1, p2, nneg(vertex_count), bw, ac);
                    if p2 <= s2.len() {
                        lemma_trunc_read_vertices(s1, s2, p2, nneg(vertex_count), bw, ac);
                    }
                    if let Ok((_, p3)) = spec_read_vertices(s1, p2, nneg(vertex_count), bw, ac) {
                        lemma_trunc_read_i32(s1, s1, p3);
                        if p3 <= s2.len() {
                            lemma_trunc_read_i32(s1, s2, p3);
                        }
                        if let Ok((sic, p4)) = spec_read_i32(s1, p3) {
                            lemma_trunc_read_surfaces(s1, s1, p4, nneg(sic) / 3, vw);
                            if p4 <= s2.len() {
                                lemma_trunc_read_surfaces(s1, s2, p4, nneg(sic) / 3, vw);
                            }
                            if let Ok((_, p5)) = spec_read_surfaces(s1, p4, nneg(sic) / 3, vw) {
                                lemma_trunc_read_i32(s1, s1, p5);
                                if p5 <= s2.len() {
                                    lemma_trunc_read_i32(s1, s2, p5);
                                }
                                if let Ok((tc, p6)) = spec_read_i32(s1, p5) {
                                    lemma_trunc_read_texture_paths(s1, s1, p6, nneg(tc), enc);
                                    if p6 <= s2.len() {
                                        lemma_trunc_read_texture_paths(s1, s2, p6, nneg(tc), enc);
                                    }
                                    if let Ok((_, p7)) = spec_read_texture_paths(
                                        s1,
                                        p6,
                                        nneg(tc),
                                        enc,
                                    ) {
                                        lemma_trunc_read_i32(s1, s1, p7);
                                        if p7 <= s2.len() {
                                            lemma_trunc_read_i32(s1, s2, p7);
                                        }
                                        if let Ok((mc, p8)) = spec_read_i32(s1, p7) {
                                            lemma_trunc_read_materials(
                                                s1,
                                                s1,
                                                p8,
                                                nneg(mc),
                                                tw,
                                                enc,
                                            );
                                            if p8 <= s2.len() {
                                                lemma_trunc_read_materials(
                                                    s1,
                                                    s2,
                                                    p8,
                                                    nneg(mc),
                                                    tw,
                                                    enc,
                                                );
                                            }
                                        }
                                    }
                                }
                            }
                        }
                    }
                }
            }
        }
    }
}

/// Truncating a buffer at any byte boundary before the end of its material
/// section turns the decode into `UnexpectedEof`: a shortened buffer is
/// never silently decoded into a different model or a different error.
pub proof fn lemma_truncation_eof(s: Seq<u8>, t: int, m: ModelView, e: int)
    requires
        spec_parse_all(s) == Ok::<(ModelView, int), PmxError>((m, e)),
        0 <= t < e,
    ensures
        t <= s.len(),
        spec_parse(s.take(t)) == Err::<ModelView, PmxError>(PmxError::UnexpectedEof),
{
    lemma_prefix_refl(s);
    lemma_trunc_parse_all(s, s);
    assert(e <= s.len());
    let s2 = s.take(t);
    assert(s2.len() == t);
    assert(prefix_of(s2, s));
    lemma_trunc_parse_all(s, s2);
}

} // verus!
