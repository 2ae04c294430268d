//! The file header: signature, format version, the raw globals array, and
//! four length-prefixed text fields (names and comments), decoded through the
//! text encoding that the globals block resolves.

use vstd::prelude::*;

use crate::error::PmxError;
use crate::globals::{spec_globals_raw, PMXGlobals, PMXGlobalsRaw};
use crate::text::{spec_decode_text, TextEncodingType};
use crate::utils::{
    read_i8, read_text, read_u32, spec_read_i8, spec_read_text, spec_read_u32, sx8,
};

verus! {

/// The header as it lies in the file: text fields still raw bytes.
#[derive(Debug, PartialEq)]
pub struct PMXHeaderRaw {
    pub signature: [i8; 4],
    /// IEEE-754 bit pattern of the little-endian `f32` version field.
    pub version: u32,
    pub globals_count: i8,
    pub globals: Vec<i8>,
    pub model_name_local: (i32, Vec<u8>),
    pub model_name_universal: (i32, Vec<u8>),
    pub comments_local: (i32, Vec<u8>),
    pub comments_universal: (i32, Vec<u8>),
}

/// The mathematical value of a raw header.
pub ghost struct HeaderRawView {
    pub signature: Seq<i8>,
    pub version: u32,
    pub globals_count: i8,
    pub globals: Seq<i8>,
    pub model_name_local: (i32, Seq<u8>),
    pub model_name_universal: (i32, Seq<u8>),
    pub comments_local: (i32, Seq<u8>),
    pub comments_universal: (i32, Seq<u8>),
}

impl DeepView for PMXHeaderRaw {
    type V = HeaderRawView;

    open spec fn deep_view(&self) -> HeaderRawView {
        HeaderRawView {
            signature: self.signature@,
            version: self.version,
            globals_count: self.globals_count,
            globals: self.globals@,
            model_name_local: (self.model_name_local.0, self.model_name_local.1@),
            model_name_universal: (self.model_name_universal.0, self.model_name_universal.1@),
            comments_local: (self.comments_local.0, self.comments_local.1@),
            comments_universal: (self.comments_universal.0, self.comments_universal.1@),
        }
    }
}

/// The header with its text fields decoded.
#[derive(Debug, Clone, PartialEq)]
pub struct PMXHeader {
    pub signature: [i8; 4],
    /// IEEE-754 bit pattern of the little-endian `f32` version field.
    pub version: u32,
    pub globals_count: i8,
    pub globals: Vec<i8>,
    pub model_name_local: String,
    pub model_name_universal: String,
    pub comments_local: String,
    pub comments_universal: String,
}

/// The mathematical value of a decoded header.
pub ghost struct HeaderView {
    pub signature: Seq<i8>,
    pub version: u32,
    pub globals_count: i8,
    pub globals: Seq<i8>,
    pub model_name_local: Seq<char>,
    pub model_name_universal: Seq<char>,
    pub comments_local: Seq<char>,
    pub comments_universal: Seq<char>,
}

impl DeepView for PMXHeader {
    type V = HeaderView;

    open spec fn deep_view(&self) -> HeaderView {
        HeaderView {
            signature: self.signature@,
            version: self.version,
            globals_count: self.globals_count,
            globals: self.globals@,
            model_name_local: self.model_name_local@,
            model_name_universal: self.model_name_universal@,
            comments_local: self.comments_local@,
            comments_universal: self.comments_universal@,
        }
    }
}

/// The signed bytes at `p .. p + n`.
pub open spec fn spec_i8_seq(s: Seq<u8>, p: int, n: int) -> Seq<i8> {
    Seq::new(n as nat, |i: int| sx8(s[p + i]) as i8)
}

/// `n` signed raw bytes starting at `p`.
pub open spec fn spec_read_i8s(s: Seq<u8>, p: int, n: int) -> Result<(Seq<i8>, int), PmxError> {
    if 0 <= p && 0 <= n && p + n <= s.len() {
        Ok((spec_i8_seq(s, p, n), p + n))
    } else {
        Err(PmxError::UnexpectedEof)
    }
}

/// Read `size` signed bytes into an owned vector and advance.
pub fn read_var_i8(data: &[u8], position: &mut usize, size: usize) -> (r: Result<Vec<i8>, PmxError>)
    ensures
        match spec_read_i8s(data@, *old(position) as int, size as int) {
            Ok(v) => r matches Ok(bytes) && bytes@ == v.0 && *final(position) == v.1,
            Err(e) => r matches Err(a) && a == e && *final(position) == *old(position),
        },
{
    if size <= data.len() && *position <= data.len() - size {
        let start: usize = *position;
        let mut bytes: Vec<i8> = Vec::new();
        let mut i: usize = 0;
        while i < size
            invariant
                start + size <= data.len(),
                i <= size,
                bytes@.len() == i,
                forall|j: int| 0 <= j < i ==> bytes@[j] == sx8(data@[start + j]) as i8,
            decreases size - i,
        {
            let b = data[start + i];
            if b < 0x80 {
                bytes.push(b as i8);
            } else {
                bytes.push((b - 0x80) as i8 - 0x7f - 1);
            }
            i = i + 1;
        }
        *position = start + size;
        assert(bytes@ =~= spec_i8_seq(data@, start as int, size as int));
        Ok(bytes)
    } else {
        Err(PmxError::UnexpectedEof)
    }
}

/// The raw header at `p`: four signature bytes, the version bits, the globals
/// count, that many raw globals bytes, then four length-prefixed text blocks.
pub open spec fn spec_read_header_raw(s: Seq<u8>, p: int) -> Result<(HeaderRawView, int), PmxError> {
    match spec_read_i8s(s, p, 4) {
        Err(e) => Err(e),
        Ok((signature, p1)) => match spec_read_u32(s, p1) {
            Err(e) => Err(e),
            Ok((version, p2)) => match spec_read_i8(s, p2) {
                Err(e) => Err(e),
                Ok((globals_count, p3)) => match spec_read_i8s(s, p3, globals_count as int) {
                    Err(e) => Err(e),
                    Ok((globals, p4)) => match spec_read_text(s, p4) {
                        Err(e) => Err(e),
                        Ok((model_name_local, p5)) => match spec_read_text(s, p5) {
                            Err(e) => Err(e),
                            Ok((model_name_universal, p6)) => match spec_read_text(s, p6) {
                                Err(e) => Err(e),
                                Ok((comments_local, p7)) => match spec_read_text(s, p7) {
                                    Err(e) => Err(e),
                                    Ok((comments_universal, p8)) => Ok(
                                        (
                                            HeaderRawView {
                                                signature,
                                                version,
                                                globals_count,
                                                globals,
                                                model_name_local,
                                                model_name_universal,
                                                comments_local,
                                                comments_universal,
                                            },
                                            p8,
                                        ),
                                    ),
                                },
                            },
                        },
                    },
                },
            },
        },
    }
}

/// The decoded header of a raw one: the four text fields decoded through
/// `enc`, in field order, the first failure deciding.
pub open spec fn spec_header(raw: HeaderRawView, enc: TextEncodingType) -> Result<
    HeaderView,
    PmxError,
> {
    match spec_decode_text(enc, raw.model_name_local.1) {
        Err(e) => Err(e),
        Ok(model_name_local) => match spec_decode_text(enc, raw.model_name_universal.1) {
            Err(e) => Err(e),
            Ok(model_name_universal) => match spec_decode_text(enc, raw.comments_local.1) {
                Err(e) => Err(e),
                Ok(comments_local) => match spec_decode_text(enc, raw.comments_universal.1) {
                    Err(e) => Err(e),
                    Ok(comments_universal) => Ok(
                        HeaderView {
                            signature: raw.signature,
                            version: raw.version,
                            globals_count: raw.globals_count,
                            globals: raw.globals,
                            model_name_local,
                            model_name_universal,
                            comments_local,
                            comments_universal,
                        },
                    ),
                },
            },
        },
    }
}

impl PMXHeaderRaw {
    /// An empty raw header: version 2.0 (bit pattern 0x4000_0000), a full
    /// count of eight globals slots, and empty fields.
    pub fn new() -> (r: PMXHeaderRaw)
        ensures
            r.signature@ =~= seq![0i8, 0i8, 0i8, 0i8],
            r.version == 0x4000_0000u32,
            r.globals_count == 8i8,
            r.globals@ =~= Seq::<i8>::empty(),
            r.model_name_local.0 == 0 && r.model_name_local.1@ =~= Seq::<u8>::empty(),
            r.model_name_universal.0 == 0 && r.model_name_universal.1@ =~= Seq::<u8>::empty(),
            r.comments_local.0 == 0 && r.comments_local.1@ =~= Seq::<u8>::empty(),
            r.comments_universal.0 == 0 && r.comments_universal.1@ =~= Seq::<u8>::empty(),
    {
        PMXHeaderRaw {
            signature: [0; 4],
            version: 0x4000_0000,
            globals_count: 8,
            globals: Vec::new(),
            model_name_local: (0, Vec::new()),
            model_name_universal: (0, Vec::new()),
            comments_local: (0, Vec::new()),
            comments_universal: (0, Vec::new()),
        }
    }

    /// Spread the raw globals array positionally over the eight named slots;
    /// entries beyond the eighth are ignored, missing ones stay absent.
    pub fn to_globals_raw(&self) -> (r: PMXGlobalsRaw)
        ensures
            r == spec_globals_raw(self.globals@),
    {
        let mut result = PMXGlobalsRaw::new();
        let n = self.globals.len();
        if n > 0 {
            result.text_encoding = Some(self.globals[0]);
        }
        if n > 1 {
            result.additional_vec4_count = Some(self.globals[1]);
        }
        if n > 2 {
            result.vertex_index_size = Some(self.globals[2]);
        }
        if n > 3 {
            result.texture_index_size = Some(self.globals[3]);
        }
        if n > 4 {
            result.material_index_size = Some(self.globals[4]);
        }
        if n > 5 {
            result.bone_index_size = Some(self.globals[5]);
        }
        if n > 6 {
            result.morph_index_size = Some(self.globals[6]);
        }
        if n > 7 {
            result.rigidbody_index_size = Some(self.globals[7]);
        }
        result
    }
}

impl PMXHeader {
    /// Decode the four text fields of a raw header through the resolved text
    /// encoding.
    pub fn from_pmx_header_raw(raw: &PMXHeaderRaw, globals: &PMXGlobals) -> (r: Result<
        PMXHeader,
        PmxError,
    >)
        ensures
            match spec_header(raw.deep_view(), globals.text_encoding) {
                Ok(h) => r matches Ok(x) && x.deep_view() == h,
                Err(e) => r matches Err(a) && a == e,
            },
    {
        let model_name_local = match globals.text_encoding.parse_text(&raw.model_name_local) {
            Ok(s) => s,
            Err(e) => {
                return Err(e);
            },
        };
        let model_name_universal = match globals.text_encoding.parse_text(
            &raw.model_name_universal,
        ) {
            Ok(s) => s,
            Err(e) => {
                return Err(e);
            },
        };
        let comments_local = match globals.text_encoding.parse_text(&raw.comments_local) {
            Ok(s) => s,
            Err(e) => {
                return Err(e);
            },
        };
        let comments_universal = match globals.text_encoding.parse_text(&raw.comments_universal) {
            Ok(s) => s,
            Err(e) => {
                return Err(e);
            },
        };
        let mut globals_copy: Vec<i8> = Vec::new();
        let mut i: usize = 0;
        while i < raw.globals.len()
            invariant
                i <= raw.globals@.len(),
                globals_copy@ =~= raw.globals@.subrange(0, i as int),
            decreases raw.globals@.len() - i,
        {
            globals_copy.push(raw.globals[i]);
            i = i + 1;
        }
        assert(globals_copy@ =~= raw.globals@);
        let result = PMXHeader {
            signature: raw.signature,
            version: raw.version,
            globals_count: raw.globals_count,
            globals: globals_copy,
            model_name_local,
            model_name_universal,
            comments_local,
            comments_universal,
        };
        assert(result.deep_view().signature =~= raw.deep_view().signature);
        assert(result.deep_view().globals =~= raw.deep_view().globals);
        Ok(result)
    }
}

/// Read the raw header at the cursor.
pub fn parse_header_raw(data: &[u8], cursor: &mut usize) -> (r: Result<PMXHeaderRaw, PmxError>)
    ensures
        match spec_read_header_raw(data@, *old(cursor) as int) {
            Ok(v) => r matches Ok(h) && h.deep_view() == v.0 && *final(cursor) == v.1,
            Err(e) => r matches Err(a) && a == e,
        },
{
    let s0 = match read_i8(data, cursor) {
        Ok(b) => b,
        Err(e) => {
            return Err(e);
        },
    };
    let s1 = match read_i8(data, cursor) {
        Ok(b) => b,
        Err(e) => {
            return Err(e);
        },
    };
    let s2 = match read_i8(data, cursor) {
        Ok(b) => b,
        Err(e) => {
            return Err(e);
        },
    };
    let s3 = match read_i8(data, cursor) {
        Ok(b) => b,
        Err(e) => {
            return Err(e);
        },
    };
    let signature: [i8; 4] = [s0, s1, s2, s3];
    let version = match read_u32(data, cursor) {
        Ok(v) => v,
        Err(e) => {
            return Err(e);
        },
    };
    let globals_count = match read_i8(data, cursor) {
        Ok(v) => v,
        Err(e) => {
            return Err(e);
        },
    };
    if globals_count < 0 {
        return Err(PmxError::UnexpectedEof);
    }
    let globals = match read_var_i8(data, cursor, globals_count as usize) {
        Ok(v) => v,
        Err(e) => {
            return Err(e);
        },
    };
    let model_name_local = match read_text(data, cursor) {
        Ok(v) => v,
        Err(e) => {
            return Err(e);
        },
    };
    let model_name_universal = match read_text(data, cursor) {
        Ok(v) => v,
        Err(e) => {
            return Err(e);
        },
    };
    let comments_local = match read_text(data, cursor) {
        Ok(v) => v,
        Err(e) => {
            return Err(e);
        },
    };
    let comments_universal = match read_text(data, cursor) {
        Ok(v) => v,
        Err(e) => {
            return Err(e);
        },
    };
    let result = PMXHeaderRaw {
        signature,
        version,
        globals_count,
        globals,
        model_name_local,
        model_name_universal,
        comments_local,
        comments_universal,
    };
    proof {
        let s = data@;
        let p = *old(cursor) as int;
        let spec_sig = spec_i8_seq(s, p, 4);
        assert(result.signature@ =~= spec_sig);
        if let Ok(v) = spec_read_header_raw(s, p) {
            assert(result.deep_view() == v.0);
        }
    }
    Ok(result)
}

} // verus!
