//! Tests for the primitive reader, text decoding, globals resolution, and the
//! record decoders, each on hand-written byte sequences.

use druvis::error::PmxError;
use druvis::fbits::{read_vec2, read_vec3, read_vec4};
use druvis::globals::{PMXGlobals, PMXGlobalsRaw, PMXIndexType};
use druvis::material::{PMXEnvironmentBlendMode, PMXToonReference, PMXToonValue};
use druvis::memory::{create_buffer, write_buffer};
use druvis::shader_property::ShaderPropertyType;
use druvis::surface::PMXSurfaceData;
use druvis::text::TextEncodingType;
use druvis::utils::{
    read_i16, read_i32, read_i8, read_index_signed, read_index_unsigned, read_text, read_u16,
    read_u32, read_u8, read_var,
};
use druvis::vertex::{BDEF1Data, BDEF2Data, BDEF4Data, PMXWeightDeformType, SDEFData};

#[test]
fn read_u8_advances_cursor() {
    let data = [7u8, 9u8];
    let mut pos = 0usize;
    assert_eq!(read_u8(&data, &mut pos), Ok(7));
    assert_eq!(pos, 1);
    assert_eq!(read_u8(&data, &mut pos), Ok(9));
    assert_eq!(pos, 2);
    assert_eq!(read_u8(&data, &mut pos), Err(PmxError::UnexpectedEof));
    assert_eq!(pos, 2);
}

#[test]
fn read_i8_sign_extends() {
    let data = [0xFFu8, 0x7F];
    let mut pos = 0usize;
    assert_eq!(read_i8(&data, &mut pos), Ok(-1));
    assert_eq!(read_i8(&data, &mut pos), Ok(127));
}

#[test]
fn read_u16_little_endian() {
    let data = [0x34u8, 0x12];
    let mut pos = 0usize;
    assert_eq!(read_u16(&data, &mut pos), Ok(0x1234));
    assert_eq!(pos, 2);
}

#[test]
fn read_i16_sign_extends() {
    let data = [0xFEu8, 0xFF];
    let mut pos = 0usize;
    assert_eq!(read_i16(&data, &mut pos), Ok(-2));
}

#[test]
fn read_u32_little_endian() {
    let data = [0x78u8, 0x56, 0x34, 0x12];
    let mut pos = 0usize;
    assert_eq!(read_u32(&data, &mut pos), Ok(0x12345678));
    assert_eq!(pos, 4);
    let mut pos2 = 1usize;
    assert_eq!(read_u32(&data, &mut pos2), Err(PmxError::UnexpectedEof));
}

#[test]
fn read_i32_sign_extends() {
    let data = [0xFFu8, 0xFF, 0xFF, 0xFF];
    let mut pos = 0usize;
    assert_eq!(read_i32(&data, &mut pos), Ok(-1));
    let data2 = [0x00u8, 0x00, 0x00, 0x80];
    let mut pos2 = 0usize;
    assert_eq!(read_i32(&data2, &mut pos2), Ok(i32::MIN));
}

#[test]
fn read_var_copies_window() {
    let data = [1u8, 2, 3, 4, 5];
    let mut pos = 1usize;
    assert_eq!(read_var(&data, &mut pos, 3), Ok(vec![2, 3, 4]));
    assert_eq!(pos, 4);
    assert_eq!(read_var(&data, &mut pos, 2), Err(PmxError::UnexpectedEof));
}

#[test]
fn read_text_length_prefixed() {
    let data = [3u8, 0, 0, 0, b'a', b'b', b'c'];
    let mut pos = 0usize;
    assert_eq!(read_text(&data, &mut pos), Ok((3, vec![b'a', b'b', b'c'])));
    assert_eq!(pos, 7);
}

#[test]
fn read_text_negative_length_is_eof() {
    let data = [0xFFu8, 0xFF, 0xFF, 0xFF, 1, 2];
    let mut pos = 0usize;
    assert_eq!(read_text(&data, &mut pos), Err(PmxError::UnexpectedEof));
}

#[test]
fn unsigned_index_widening_every_width() {
    let data = [0xFFu8, 0xFF, 0xFF, 0xFF];
    for (w, expect) in [(1usize, 0xFFu32), (2, 0xFFFF), (4, 0xFFFF_FFFF)] {
        let mut pos = 0usize;
        assert_eq!(read_index_unsigned(&data, &mut pos, w), Ok(expect));
        assert_eq!(pos, w);
    }
}

#[test]
fn signed_index_minus_one_every_width() {
    let data = [0xFFu8, 0xFF, 0xFF, 0xFF];
    for w in [1usize, 2, 4] {
        let mut pos = 0usize;
        assert_eq!(read_index_signed(&data, &mut pos, w), Ok(-1));
        assert_eq!(pos, w);
    }
}

#[test]
fn parse_i32_vertex_indices_are_unsigned() {
    let data = [0xFFu8, 0xFF, 0xFF, 0xFF];
    let mut pos = 0usize;
    assert_eq!(PMXIndexType::B1.parse_i32(&data, &mut pos, true), Ok(255));
    let mut pos = 0usize;
    assert_eq!(PMXIndexType::B2.parse_i32(&data, &mut pos, true), Ok(65535));
    let mut pos = 0usize;
    assert_eq!(PMXIndexType::B1.parse_i32(&data, &mut pos, false), Ok(-1));
    let mut pos = 0usize;
    assert_eq!(PMXIndexType::B2.parse_i32(&data, &mut pos, false), Ok(-1));
    let mut pos = 0usize;
    assert_eq!(PMXIndexType::B4.parse_i32(&data, &mut pos, false), Ok(-1));
}

#[test]
fn vec_readers_pack_float_bits() {
    let mut data: Vec<u8> = Vec::new();
    for v in [1.0f32, 2.0, 3.0, 4.0] {
        data.extend_from_slice(&v.to_le_bytes());
    }
    let mut pos = 0usize;
    let v2 = read_vec2(&data, &mut pos).unwrap();
    assert_eq!(f32::from_bits(v2.x), 1.0);
    assert_eq!(f32::from_bits(v2.y), 2.0);
    let mut pos = 0usize;
    let v3 = read_vec3(&data, &mut pos).unwrap();
    assert_eq!(f32::from_bits(v3.z), 3.0);
    let mut pos = 0usize;
    let v4 = read_vec4(&data, &mut pos).unwrap();
    assert_eq!(f32::from_bits(v4.w), 4.0);
    assert_eq!(pos, 16);
}

#[test]
fn encoding_from_raw() {
    assert_eq!(TextEncodingType::from_raw(0), Ok(TextEncodingType::UTF16LE));
    assert_eq!(TextEncodingType::from_raw(1), Ok(TextEncodingType::UTF8));
    assert_eq!(TextEncodingType::from_raw(2), Err(PmxError::InvalidEnumValue));
    assert_eq!(TextEncodingType::from_raw(-1), Err(PmxError::InvalidEnumValue));
}

#[test]
fn parse_text_utf8() {
    let raw = (3i32, vec![0xE3u8, 0x81, 0x82]);
    let s = TextEncodingType::UTF8.parse_text(&raw).unwrap();
    assert_eq!(s, "\u{3042}");
    let bad = (2i32, vec![0xFFu8, 0xFE]);
    assert_eq!(
        TextEncodingType::UTF8.parse_text(&bad),
        Err(PmxError::TextDecodeError)
    );
}

#[test]
fn parse_text_utf16le() {
    let raw = (4i32, vec![b'a', 0, b'b', 0]);
    let s = TextEncodingType::UTF16LE.parse_text(&raw).unwrap();
    assert_eq!(s, "ab");
}

#[test]
fn parse_text_utf16le_odd_length_fails() {
    let raw = (3i32, vec![b'a', 0, b'b']);
    assert_eq!(
        TextEncodingType::UTF16LE.parse_text(&raw),
        Err(PmxError::TextDecodeError)
    );
}

#[test]
fn parse_text_utf16le_lone_surrogate_fails() {
    let raw = (2i32, vec![0x00u8, 0xD8]);
    assert_eq!(
        TextEncodingType::UTF16LE.parse_text(&raw),
        Err(PmxError::TextDecodeError)
    );
}

#[test]
fn index_type_from_raw() {
    assert_eq!(PMXIndexType::from_raw(1), Ok(PMXIndexType::B1));
    assert_eq!(PMXIndexType::from_raw(2), Ok(PMXIndexType::B2));
    assert_eq!(PMXIndexType::from_raw(4), Ok(PMXIndexType::B4));
    assert_eq!(PMXIndexType::from_raw(3), Err(PmxError::InvalidEnumValue));
    assert_eq!(PMXIndexType::from_raw(0), Err(PmxError::InvalidEnumValue));
}

#[test]
fn index_type_to_usize() {
    assert_eq!(PMXIndexType::B1.to_usize(), 1);
    assert_eq!(PMXIndexType::B2.to_usize(), 2);
    assert_eq!(PMXIndexType::B4.to_usize(), 4);
}

#[test]
fn globals_all_absent_take_defaults() {
    let raw = PMXGlobalsRaw::new();
    let g = PMXGlobals::from_raw(&raw).unwrap();
    assert_eq!(g.text_encoding, TextEncodingType::UTF8);
    assert_eq!(g.additional_vec4_count, 0);
    assert_eq!(g.vertex_index_size, PMXIndexType::B4);
    assert_eq!(g.texture_index_size, PMXIndexType::B4);
    assert_eq!(g.material_index_size, PMXIndexType::B4);
    assert_eq!(g.bone_index_size, PMXIndexType::B4);
    assert_eq!(g.morph_index_size, PMXIndexType::B4);
    assert_eq!(g.rigidbody_index_size, PMXIndexType::B4);
}

#[test]
fn globals_invalid_slot_rejected() {
    let mut raw = PMXGlobalsRaw::new();
    raw.text_encoding = Some(5);
    assert_eq!(PMXGlobals::from_raw(&raw), Err(PmxError::InvalidEnumValue));
    let mut raw2 = PMXGlobalsRaw::new();
    raw2.vertex_index_size = Some(3);
    assert_eq!(PMXGlobals::from_raw(&raw2), Err(PmxError::InvalidEnumValue));
}

#[test]
fn globals_negative_vec4_count_widens_unsigned() {
    let mut raw = PMXGlobalsRaw::new();
    raw.additional_vec4_count = Some(-1);
    let g = PMXGlobals::from_raw(&raw).unwrap();
    assert_eq!(g.additional_vec4_count, 255);
}

#[test]
fn weight_type_tags() {
    for (tag, expect) in [
        (0u8, PMXWeightDeformType::BDEF1),
        (1, PMXWeightDeformType::BDEF2),
        (2, PMXWeightDeformType::BDEF4),
        (3, PMXWeightDeformType::SDEF),
        (4, PMXWeightDeformType::QDEF),
    ] {
        let data = [tag];
        let mut pos = 0usize;
        assert_eq!(PMXWeightDeformType::parse(&data, &mut pos), Ok(expect));
    }
    let data = [5u8];
    let mut pos = 0usize;
    assert_eq!(
        PMXWeightDeformType::parse(&data, &mut pos),
        Err(PmxError::InvalidEnumValue)
    );
}

#[test]
fn bdef1_reads_one_bone() {
    let data = [0x02u8, 0x01];
    let mut pos = 0usize;
    let d = BDEF1Data::parse(&data, &mut pos, 2).unwrap();
    assert_eq!(d.bone_index, 0x0102);
    assert_eq!(pos, 2);
}

#[test]
fn bdef2_reads_two_bones_and_weight() {
    let mut data: Vec<u8> = vec![1, 2];
    data.extend_from_slice(&0.25f32.to_le_bytes());
    let mut pos = 0usize;
    let d = BDEF2Data::parse(&data, &mut pos, 1).unwrap();
    assert_eq!(d.bone_index1, 1);
    assert_eq!(d.bone_index2, 2);
    assert_eq!(f32::from_bits(d.bone1_weight), 0.25);
}

#[test]
fn bdef4_reads_four_bones_and_weights() {
    let mut data: Vec<u8> = vec![1, 2, 3, 4];
    for w in [0.1f32, 0.2, 0.3, 0.4] {
        data.extend_from_slice(&w.to_le_bytes());
    }
    let mut pos = 0usize;
    let d = BDEF4Data::parse(&data, &mut pos, 1).unwrap();
    assert_eq!(
        (d.bone_index1, d.bone_index2, d.bone_index3, d.bone_index4),
        (1, 2, 3, 4)
    );
    assert_eq!(f32::from_bits(d.bone4_weight), 0.4);
    assert_eq!(pos, 20);
}

#[test]
fn sdef_reads_vectors() {
    let mut data: Vec<u8> = vec![7, 8];
    data.extend_from_slice(&0.5f32.to_le_bytes());
    for v in 0..9 {
        data.extend_from_slice(&(v as f32).to_le_bytes());
    }
    let mut pos = 0usize;
    let d = SDEFData::parse(&data, &mut pos, 1).unwrap();
    assert_eq!(d.bone_index1, 7);
    assert_eq!(f32::from_bits(d.c.x), 0.0);
    assert_eq!(f32::from_bits(d.r0.x), 3.0);
    assert_eq!(f32::from_bits(d.r1.z), 8.0);
    assert_eq!(pos, 2 + 4 + 36);
}

#[test]
fn surface_unsigned_at_every_width() {
    let data = [0xFFu8, 0xFF, 0xFF, 0xFF, 0xFF, 0xFF, 0xFF, 0xFF, 0xFF, 0xFF, 0xFF, 0xFF];
    let mut pos = 0usize;
    let s1 = PMXSurfaceData::parse(&data, &mut pos, PMXIndexType::B1).unwrap();
    assert_eq!(s1.triangle, (255, 255, 255));
    let mut pos = 0usize;
    let s2 = PMXSurfaceData::parse(&data, &mut pos, PMXIndexType::B2).unwrap();
    assert_eq!(s2.triangle, (65535, 65535, 65535));
    let mut pos = 0usize;
    let s4 = PMXSurfaceData::parse(&data, &mut pos, PMXIndexType::B4).unwrap();
    assert_eq!(s4.triangle, (0xFFFF_FFFF, 0xFFFF_FFFF, 0xFFFF_FFFF));
}

#[test]
fn surface_values_in_order() {
    let data = [10u8, 11, 12];
    let mut pos = 0usize;
    let s = PMXSurfaceData::parse(&data, &mut pos, PMXIndexType::B1).unwrap();
    assert_eq!(s.triangle, (10, 11, 12));
}

#[test]
fn blend_mode_tags() {
    for (tag, expect) in [
        (0u8, PMXEnvironmentBlendMode::Disabled),
        (1, PMXEnvironmentBlendMode::Multiply),
        (2, PMXEnvironmentBlendMode::Additive),
        (3, PMXEnvironmentBlendMode::AdditionalVec4),
    ] {
        let data = [tag];
        let mut pos = 0usize;
        assert_eq!(PMXEnvironmentBlendMode::parse(&data, &mut pos), Ok(expect));
    }
    let data = [4u8];
    let mut pos = 0usize;
    assert_eq!(
        PMXEnvironmentBlendMode::parse(&data, &mut pos),
        Err(PmxError::InvalidEnumValue)
    );
}

#[test]
fn toon_reference_tags() {
    let data = [0u8, 1, 2];
    let mut pos = 0usize;
    assert_eq!(
        PMXToonReference::parse(&data, &mut pos),
        Ok(PMXToonReference::Texture)
    );
    assert_eq!(
        PMXToonReference::parse(&data, &mut pos),
        Ok(PMXToonReference::Internal)
    );
    assert_eq!(
        PMXToonReference::parse(&data, &mut pos),
        Err(PmxError::InvalidEnumValue)
    );
}

#[test]
fn toon_value_by_reference_kind() {
    let data = [0xFFu8, 0xFF];
    let mut pos = 0usize;
    assert_eq!(
        PMXToonValue::parse(&data, &mut pos, PMXToonReference::Texture, PMXIndexType::B2),
        Ok(PMXToonValue::Texture(-1))
    );
    let mut pos = 0usize;
    assert_eq!(
        PMXToonValue::parse(&data, &mut pos, PMXToonReference::Internal, PMXIndexType::B2),
        Ok(PMXToonValue::Internal(-1))
    );
    assert_eq!(pos, 1);
}

#[test]
fn create_buffer_zero_filled() {
    let b = create_buffer(5);
    assert_eq!(b, vec![0u8; 5]);
    assert_eq!(create_buffer(0), Vec::<u8>::new());
}

#[test]
fn write_buffer_copies_window() {
    let mut buf = vec![9u8; 6];
    write_buffer(&mut buf, 2, &[1, 2, 3]);
    assert_eq!(buf, vec![9, 9, 1, 2, 3, 9]);
}

#[test]
fn shader_property_sizes() {
    assert_eq!(ShaderPropertyType::Mat4.get_size(), 64);
    assert_eq!(ShaderPropertyType::Vec4.get_size(), 16);
    assert_eq!(ShaderPropertyType::U32.get_size(), 4);
}

#[test]
fn error_descriptions_distinct() {
    let all = [
        PmxError::UnexpectedEof,
        PmxError::InvalidEnumValue,
        PmxError::TextDecodeError,
        PmxError::StructuralInconsistency,
    ];
    for (i, a) in all.iter().enumerate() {
        assert!(!a.describe().is_empty());
        for b in all.iter().skip(i + 1) {
            assert_ne!(a.describe(), b.describe());
        }
    }
}
