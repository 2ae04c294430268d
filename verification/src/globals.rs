//! The globals block: the file's self-describing configuration. It fixes the
//! text encoding, the byte width of each index category, and the number of
//! extra per-vertex vec4 attributes. Slots missing from short (older) files
//! take documented defaults.

use vstd::prelude::*;

use crate::error::PmxError;
use crate::text::TextEncodingType;

verus! {

/// The byte width of one index category: 1, 2 or 4 bytes.
#[derive(Debug, Copy, Clone, Eq, PartialEq, Hash, Structural)]
pub enum PMXIndexType {
    B1,
    B2,
    B4,
}

impl PMXIndexType {
    /// The width as a number of bytes.
    pub open spec fn spec_to_usize(self) -> usize {
        match self {
            PMXIndexType::B1 => 1usize,
            PMXIndexType::B2 => 2usize,
            PMXIndexType::B4 => 4usize,
        }
    }

    /// The width as a number of bytes.
    pub fn to_usize(&self) -> (r: usize)
        ensures
            r == self.spec_to_usize(),
            r == 1 || r == 2 || r == 4,
    {
        match *self {
            PMXIndexType::B1 => 1,
            PMXIndexType::B2 => 2,
            PMXIndexType::B4 => 4,
        }
    }

    /// The width named by raw globals value `value`: exactly 1, 2 or 4;
    /// anything else is `InvalidEnumValue`.
    pub open spec fn spec_from_raw(value: i8) -> Result<PMXIndexType, PmxError> {
        if value == 1 {
            Ok(PMXIndexType::B1)
        } else if value == 2 {
            Ok(PMXIndexType::B2)
        } else if value == 4 {
            Ok(PMXIndexType::B4)
        } else {
            Err(PmxError::InvalidEnumValue)
        }
    }

    /// Select the index width named by a raw globals byte.
    pub fn from_raw(value: i8) -> (r: Result<PMXIndexType, PmxError>)
        ensures
            r == PMXIndexType::spec_from_raw(value),
    {
        match value {
            1 => Ok(PMXIndexType::B1),
            2 => Ok(PMXIndexType::B2),
            4 => Ok(PMXIndexType::B4),
            _ => Err(PmxError::InvalidEnumValue),
        }
    }

    /// An index of this width at `p` as a 32-bit value. Vertex indices widen
    /// without a sign below 4 bytes (4-byte ones are taken verbatim); all
    /// other index categories sign-extend, so -1 survives at every width.
    pub open spec fn spec_parse_i32(self, s: Seq<u8>, p: int, is_vertex: bool) -> Result<
        (i32, int),
        PmxError,
    > {
        let w = self.spec_to_usize() as int;
        if is_vertex && w < 4 {
            match crate::utils::spec_read_index_unsigned(s, p, w) {
                Ok((v, q)) => Ok((v as i32, q)),
                Err(e) => Err(e),
            }
        } else {
            crate::utils::spec_read_index_signed(s, p, w)
        }
    }

    /// Read an index of this width: unsigned widening for vertex indices,
    /// sign extension for every other category.
    pub fn parse_i32(&self, data: &[u8], cursor: &mut usize, is_vertex: bool) -> (r: Result<
        i32,
        PmxError,
    >)
        ensures
            match self.spec_parse_i32(data@, *old(cursor) as int, is_vertex) {
                Ok(v) => r matches Ok(b) && b == v.0 && *final(cursor) == v.1,
                Err(e) => r matches Err(a) && a == e && *final(cursor) == *old(cursor),
            },
    {
        let w = self.to_usize();
        if is_vertex && w < 4 {
            match crate::utils::read_index_unsigned(data, cursor, w) {
                Ok(v) => Ok(v as i32),
                Err(e) => Err(e),
            }
        } else {
            crate::utils::read_index_signed(data, cursor, w)
        }
    }
}

/// The globals slots as read from the file: `None` where the file's globals
/// array was too short to fill the slot.
#[derive(Debug, Copy, Clone, Eq, PartialEq, Structural)]
pub struct PMXGlobalsRaw {
    pub text_encoding: Option<i8>,
    pub additional_vec4_count: Option<i8>,
    pub vertex_index_size: Option<i8>,
    pub texture_index_size: Option<i8>,
    pub material_index_size: Option<i8>,
    pub bone_index_size: Option<i8>,
    pub morph_index_size: Option<i8>,
    pub rigidbody_index_size: Option<i8>,
}

impl PMXGlobalsRaw {
    /// All slots absent.
    pub fn new() -> (r: PMXGlobalsRaw)
        ensures
            r == spec_globals_raw(Seq::<i8>::empty()),
    {
        PMXGlobalsRaw {
            text_encoding: None,
            additional_vec4_count: None,
            vertex_index_size: None,
            texture_index_size: None,
            material_index_size: None,
            bone_index_size: None,
            morph_index_size: None,
            rigidbody_index_size: None,
        }
    }
}

/// The slots filled positionally from the file's raw globals array; slots
/// beyond its length stay absent, entries beyond the eighth are ignored.
pub open spec fn spec_globals_raw(gs: Seq<i8>) -> PMXGlobalsRaw {
    PMXGlobalsRaw {
        text_encoding: if gs.len() > 0 {
            Some(gs[0])
        } else {
            None
        },
        additional_vec4_count: if gs.len() > 1 {
            Some(gs[1])
        } else {
            None
        },
        vertex_index_size: if gs.len() > 2 {
            Some(gs[2])
        } else {
            None
        },
        texture_index_size: if gs.len() > 3 {
            Some(gs[3])
        } else {
            None
        },
        material_index_size: if gs.len() > 4 {
            Some(gs[4])
        } else {
            None
        },
        bone_index_size: if gs.len() > 5 {
            Some(gs[5])
        } else {
            None
        },
        morph_index_size: if gs.len() > 6 {
            Some(gs[6])
        } else {
            None
        },
        rigidbody_index_size: if gs.len() > 7 {
            Some(gs[7])
        } else {
            None
        },
    }
}

/// The validated configuration threaded through the whole parse.
#[derive(Debug, Copy, Clone, Eq, PartialEq, Structural)]
pub struct PMXGlobals {
    pub text_encoding: TextEncodingType,
    pub additional_vec4_count: u8,
    pub vertex_index_size: PMXIndexType,
    pub texture_index_size: PMXIndexType,
    pub material_index_size: PMXIndexType,
    pub bone_index_size: PMXIndexType,
    pub morph_index_size: PMXIndexType,
    pub rigidbody_index_size: PMXIndexType,
}

/// An absent additional-vec4 slot defaults to 0; a present slot is its raw
/// byte reinterpreted without a sign.
pub open spec fn spec_vec4_count(slot: Option<i8>) -> u8 {
    match slot {
        Some(v) => if v >= 0 {
            v as u8
        } else {
            (v + 0x100) as u8
        },
        None => 0u8,
    }
}

/// An absent encoding slot defaults to UTF-8.
pub open spec fn spec_encoding_slot(slot: Option<i8>) -> Result<TextEncodingType, PmxError> {
    match slot {
        Some(v) => TextEncodingType::spec_from_raw(v),
        None => Ok(TextEncodingType::UTF8),
    }
}

/// An absent index-width slot defaults to 4 bytes.
pub open spec fn spec_index_slot(slot: Option<i8>) -> Result<PMXIndexType, PmxError> {
    match slot {
        Some(v) => PMXIndexType::spec_from_raw(v),
        None => Ok(PMXIndexType::B4),
    }
}

/// The configuration derived from the raw slots: defaults where absent, and
/// `InvalidEnumValue` where a present slot names no defined encoding or
/// width. Slots are validated in their fixed order and the first offender
/// decides.
pub open spec fn spec_globals(raw: PMXGlobalsRaw) -> Result<PMXGlobals, PmxError> {
    match spec_encoding_slot(raw.text_encoding) {
        Err(e) => Err(e),
        Ok(text_encoding) => match spec_index_slot(raw.vertex_index_size) {
            Err(e) => Err(e),
            Ok(vertex_index_size) => match spec_index_slot(raw.texture_index_size) {
                Err(e) => Err(e),
                Ok(texture_index_size) => match spec_index_slot(raw.material_index_size) {
                    Err(e) => Err(e),
                    Ok(material_index_size) => match spec_index_slot(raw.bone_index_size) {
                        Err(e) => Err(e),
                        Ok(bone_index_size) => match spec_index_slot(raw.morph_index_size) {
                            Err(e) => Err(e),
                            Ok(morph_index_size) => match spec_index_slot(
                                raw.rigidbody_index_size,
                            ) {
                                Err(e) => Err(e),
                                Ok(rigidbody_index_size) => Ok(
                                    PMXGlobals {
                                        text_encoding,
                                        additional_vec4_count: spec_vec4_count(
                                            raw.additional_vec4_count,
                                        ),
                                        vertex_index_size,
                                        texture_index_size,
                                        material_index_size,
                                        bone_index_size,
                                        morph_index_size,
                                        rigidbody_index_size,
                                    },
                                ),
                            },
                        },
                    },
                },
            },
        },
    }
}

impl PMXGlobals {
    /// The configuration of a file that omits every globals slot.
    pub open spec fn spec_default() -> PMXGlobals {
        PMXGlobals {
            text_encoding: TextEncodingType::UTF8,
            additional_vec4_count: 0u8,
            vertex_index_size: PMXIndexType::B4,
            texture_index_size: PMXIndexType::B4,
            material_index_size: PMXIndexType::B4,
            bone_index_size: PMXIndexType::B4,
            morph_index_size: PMXIndexType::B4,
            rigidbody_index_size: PMXIndexType::B4,
        }
    }

    /// Validate the raw slots into a configuration.
    pub fn from_raw(raw: &PMXGlobalsRaw) -> (r: Result<PMXGlobals, PmxError>)
        ensures
            r == spec_globals(*raw),
    {
        let text_encoding = match encoding_slot(raw.text_encoding) {
            Ok(v) => v,
            Err(e) => {
                return Err(e);
            },
        };
        let vertex_index_size = match index_slot(raw.vertex_index_size) {
            Ok(v) => v,
            Err(e) => {
                return Err(e);
            },
        };
        let texture_index_size = match index_slot(raw.texture_index_size) {
            Ok(v) => v,
            Err(e) => {
                return Err(e);
            },
        };
        let material_index_size = match index_slot(raw.material_index_size) {
            Ok(v) => v,
            Err(e) => {
                return Err(e);
            },
        };
        let bone_index_size = match index_slot(raw.bone_index_size) {
            Ok(v) => v,
            Err(e) => {
                return Err(e);
            },
        };
        let morph_index_size = match index_slot(raw.morph_index_size) {
            Ok(v) => v,
            Err(e) => {
                return Err(e);
            },
        };
        let rigidbody_index_size = match index_slot(raw.rigidbody_index_size) {
            Ok(v) => v,
            Err(e) => {
                return Err(e);
            },
        };
        let additional_vec4_count = match raw.additional_vec4_count {
            Some(v) => if v >= 0 {
                v as u8
            } else {
                (v + 0x7f + 1) as u8 + 0x80
            },
            None => 0,
        };
        Ok(
            PMXGlobals {
                text_encoding,
                additional_vec4_count,
                vertex_index_size,
                texture_index_size,
                material_index_size,
                bone_index_size,
                morph_index_size,
                rigidbody_index_size,
            },
        )
    }
}

/// A vertex index read through the signed 32-bit API is never negative at
/// the one- and two-byte widths: it is widened without a sign. (At four
/// bytes the surface decoder reads the index as a plain `u32` instead, so a
/// decoded surface carries no negative index at any width.)
pub proof fn lemma_vertex_index_nonneg(w: PMXIndexType, s: Seq<u8>, p: int)
    requires
        w != PMXIndexType::B4,
    ensures
        w.spec_parse_i32(s, p, true) matches Ok(v) ==> v.0 >= 0,
{
}

/// Resolve one encoding slot, defaulting an absent one to UTF-8.
fn encoding_slot(slot: Option<i8>) -> (r: Result<TextEncodingType, PmxError>)
    ensures
        r == spec_encoding_slot(slot),
{
    match slot {
        Some(v) => TextEncodingType::from_raw(v),
        None => Ok(TextEncodingType::UTF8),
    }
}

/// Resolve one index-width slot, defaulting an absent one to 4 bytes.
fn index_slot(slot: Option<i8>) -> (r: Result<PMXIndexType, PmxError>)
    ensures
        r == spec_index_slot(slot),
{
    match slot {
        Some(v) => PMXIndexType::from_raw(v),
        None => Ok(PMXIndexType::B4),
    }
}

/// Any globals slot beyond the raw array's length takes its documented
/// default: UTF-8 text, zero additional vec4s, 4-byte indices. An empty
/// array yields the all-default configuration.
pub proof fn lemma_globals_defaults(gs: Seq<i8>)
    ensures
        spec_globals(spec_globals_raw(gs)) matches Ok(g) ==> {
            &&& gs.len() < 1 ==> g.text_encoding == TextEncodingType::UTF8
            &&& gs.len() < 2 ==> g.additional_vec4_count == 0
            &&& gs.len() < 3 ==> g.vertex_index_size == PMXIndexType::B4
            &&& gs.len() < 4 ==> g.texture_index_size == PMXIndexType::B4
            &&& gs.len() < 5 ==> g.material_index_size == PMXIndexType::B4
            &&& gs.len() < 6 ==> g.bone_index_size == PMXIndexType::B4
            &&& gs.len() < 7 ==> g.morph_index_size == PMXIndexType::B4
            &&& gs.len() < 8 ==> g.rigidbody_index_size == PMXIndexType::B4
        },
        gs.len() == 0 ==> spec_globals(spec_globals_raw(gs)) == Ok::<PMXGlobals, PmxError>(
            PMXGlobals::spec_default(),
        ),
{
}

} // verus!
