//! End-to-end decoder tests on synthetic whole-file buffers.

use druvis::error::PmxError;
use druvis::globals::{PMXGlobals, PMXIndexType};
use druvis::material::PMXToonValue;
use druvis::parser::{PmxParser, PMXFormat};
use druvis::text::TextEncodingType;
use druvis::vertex::PMXWeightDeformData;

fn push_i32(b: &mut Vec<u8>, v: i32) {
    b.extend_from_slice(&v.to_le_bytes());
}

fn push_f32(b: &mut Vec<u8>, v: f32) {
    b.extend_from_slice(&v.to_le_bytes());
}

fn push_text(b: &mut Vec<u8>, s: &str) {
    push_i32(b, s.len() as i32);
    b.extend_from_slice(s.as_bytes());
}

/// Header with the given globals array and empty name/comment fields.
fn push_header(b: &mut Vec<u8>, globals: &[i8]) {
    b.extend_from_slice(b"PMX ");
    push_f32(b, 2.0);
    b.push(globals.len() as u8);
    for g in globals {
        b.push(*g as u8);
    }
    for _ in 0..4 {
        push_text(b, "");
    }
}

/// One vertex: zero geometry, no additional vec4s, BDEF1 with a one-byte
/// bone index.
fn push_vertex_bdef1_w1(b: &mut Vec<u8>, bone: u8) {
    for _ in 0..8 {
        push_f32(b, 0.0);
    }
    b.push(0);
    b.push(bone);
    push_f32(b, 1.0);
}

/// One material with one-byte texture indices, both set to the -1 sentinel,
/// an internal toon byte, and the given surface count.
fn push_material_w1(b: &mut Vec<u8>, surface_count: i32) {
    push_text(b, "mat");
    push_text(b, "");
    for _ in 0..4 {
        push_f32(b, 1.0);
    }
    for _ in 0..3 {
        push_f32(b, 0.5);
    }
    push_f32(b, 5.0);
    for _ in 0..3 {
        push_f32(b, 0.25);
    }
    b.push(0x03);
    for _ in 0..4 {
        push_f32(b, 0.0);
    }
    push_f32(b, 1.0);
    b.push(0xFF);
    b.push(0xFF);
    b.push(0);
    b.push(1);
    b.push(0);
    push_text(b, "");
    push_i32(b, surface_count);
}

/// The scenario buffer: eight globals, one-byte vertex and texture indices,
/// no additional vec4s, one BDEF1 vertex, one triangle, no textures, one
/// material owning all three indices.
fn minimal_buffer() -> Vec<u8> {
    let mut b = Vec::new();
    push_header(&mut b, &[1, 0, 1, 1, 1, 1, 1, 1]);
    push_i32(&mut b, 1);
    push_vertex_bdef1_w1(&mut b, 0);
    push_i32(&mut b, 3);
    b.extend_from_slice(&[0, 0, 0]);
    push_i32(&mut b, 0);
    push_i32(&mut b, 1);
    push_material_w1(&mut b, 3);
    b
}

fn parse(buf: &[u8]) -> Result<PMXFormat, PmxError> {
    PmxParser::new().parse(buf)
}

#[test]
fn minimal_model_decodes() {
    let buf = minimal_buffer();
    let m = parse(&buf).unwrap();
    assert_eq!(&m.header.signature, &[0x50, 0x4D, 0x58, 0x20]);
    assert_eq!(f32::from_bits(m.header.version), 2.0);
    assert_eq!(m.header.globals_count, 8);
    assert_eq!(m.globals.text_encoding, TextEncodingType::UTF8);
    assert_eq!(m.globals.vertex_index_size, PMXIndexType::B1);
    assert_eq!(m.globals.additional_vec4_count, 0);
    assert_eq!(m.vertices.len(), 1);
    assert!(matches!(
        m.vertices[0].weight_deform,
        PMXWeightDeformData::BDEF1(d) if d.bone_index == 0
    ));
    assert_eq!(m.vertices[0].additional_vec4.len(), 0);
    assert_eq!(m.surfaces.len(), 1);
    assert_eq!(m.surfaces[0].triangle, (0, 0, 0));
    assert_eq!(m.texture_paths.len(), 0);
    assert_eq!(m.materials.len(), 1);
    let mat = &m.materials[0];
    assert_eq!(mat.material_name_local, "mat");
    assert_eq!(mat.texture_index, -1);
    assert_eq!(mat.environment_index, -1);
    assert_eq!(mat.toon_value, PMXToonValue::Internal(0));
    assert_eq!(mat.surface_count, 3);
    assert_eq!(f32::from_bits(mat.specular_strength), 5.0);
    let ranges = m.submesh_ranges();
    assert_eq!(ranges, vec![(0, 3)]);
}

#[test]
fn parse_is_deterministic() {
    let buf = minimal_buffer();
    let m1 = parse(&buf).unwrap();
    let m2 = parse(&buf).unwrap();
    assert_eq!(m1, m2);
}

#[test]
fn truncation_always_reports_eof() {
    let buf = minimal_buffer();
    for t in 0..buf.len() {
        assert_eq!(
            parse(&buf[..t]),
            Err(PmxError::UnexpectedEof),
            "truncated at {}",
            t
        );
    }
    assert!(parse(&buf).is_ok());
}

#[test]
fn trailing_bytes_are_ignored() {
    let mut buf = minimal_buffer();
    let m1 = parse(&buf).unwrap();
    buf.extend_from_slice(&[1, 2, 3, 4]);
    let m2 = parse(&buf).unwrap();
    assert_eq!(m1, m2);
}

#[test]
fn globals_defaults_with_present_slot_zero() {
    // Six globals present: the text-encoding slot is still read, only the
    // morph and rigidbody widths fall back to their defaults.
    let mut b6 = Vec::new();
    push_header(&mut b6, &[1, 0, 1, 1, 1, 1]);
    for _ in 0..4 {
        push_i32(&mut b6, 0);
    }
    let m6 = parse(&b6).unwrap();
    assert_eq!(m6.globals.text_encoding, TextEncodingType::UTF8);
    assert_eq!(m6.globals.vertex_index_size, PMXIndexType::B1);
    assert_eq!(m6.globals.bone_index_size, PMXIndexType::B1);
    assert_eq!(m6.globals.morph_index_size, PMXIndexType::B4);
    assert_eq!(m6.globals.rigidbody_index_size, PMXIndexType::B4);

    // No globals at all: every slot defaults.
    let mut b0 = Vec::new();
    push_header(&mut b0, &[]);
    for _ in 0..4 {
        push_i32(&mut b0, 0);
    }
    let m0 = parse(&b0).unwrap();
    let g0 = m0.globals;
    assert_eq!(g0.text_encoding, TextEncodingType::UTF8);
    assert_eq!(g0.additional_vec4_count, 0);
    for w in [
        g0.vertex_index_size,
        g0.texture_index_size,
        g0.material_index_size,
        g0.bone_index_size,
        g0.morph_index_size,
        g0.rigidbody_index_size,
    ] {
        assert_eq!(w, PMXIndexType::B4);
    }

    // Both agree on the encoding, though one read it and one defaulted it.
    assert_eq!(m6.globals.text_encoding, g0.text_encoding);
    assert_ne!(m6.globals, g0);
    let mut expected6 = PMXGlobals::from_raw(&druvis::globals::PMXGlobalsRaw::new()).unwrap();
    expected6.vertex_index_size = PMXIndexType::B1;
    expected6.texture_index_size = PMXIndexType::B1;
    expected6.material_index_size = PMXIndexType::B1;
    expected6.bone_index_size = PMXIndexType::B1;
    assert_eq!(m6.globals, expected6);
}

#[test]
fn submesh_partition_two_materials() {
    let mut b = Vec::new();
    push_header(&mut b, &[1, 0, 1, 1, 1, 1, 1, 1]);
    push_i32(&mut b, 3);
    for i in 0..3 {
        push_vertex_bdef1_w1(&mut b, i);
    }
    push_i32(&mut b, 6);
    b.extend_from_slice(&[0, 1, 2, 2, 1, 0]);
    push_i32(&mut b, 0);
    push_i32(&mut b, 2);
    push_material_w1(&mut b, 3);
    push_material_w1(&mut b, 3);
    let m = parse(&b).unwrap();
    assert_eq!(m.surfaces.len(), 2);
    assert_eq!(m.submesh_ranges(), vec![(0, 3), (3, 6)]);
    assert_eq!(m.flat_indices(), vec![0, 1, 2, 2, 1, 0]);
}

#[test]
fn submesh_sum_mismatch_is_inconsistent() {
    let mut b = Vec::new();
    push_header(&mut b, &[1, 0, 1, 1, 1, 1, 1, 1]);
    push_i32(&mut b, 1);
    push_vertex_bdef1_w1(&mut b, 0);
    push_i32(&mut b, 3);
    b.extend_from_slice(&[0, 0, 0]);
    push_i32(&mut b, 0);
    push_i32(&mut b, 1);
    push_material_w1(&mut b, 6);
    assert_eq!(parse(&b), Err(PmxError::StructuralInconsistency));
}

#[test]
fn negative_submesh_size_is_inconsistent() {
    let mut b = Vec::new();
    push_header(&mut b, &[1, 0, 1, 1, 1, 1, 1, 1]);
    push_i32(&mut b, 0);
    push_i32(&mut b, 3);
    b.extend_from_slice(&[0, 0, 0]);
    push_i32(&mut b, 0);
    push_i32(&mut b, 2);
    push_material_w1(&mut b, -3);
    push_material_w1(&mut b, 6);
    assert_eq!(parse(&b), Err(PmxError::StructuralInconsistency));
}

#[test]
fn invalid_weight_tag_rejected() {
    let mut b = Vec::new();
    push_header(&mut b, &[1, 0, 1, 1, 1, 1, 1, 1]);
    push_i32(&mut b, 1);
    for _ in 0..8 {
        push_f32(&mut b, 0.0);
    }
    b.push(9);
    assert_eq!(parse(&b), Err(PmxError::InvalidEnumValue));
}

#[test]
fn invalid_globals_slot_rejected_in_parse() {
    let mut b = Vec::new();
    push_header(&mut b, &[7, 0, 1, 1, 1, 1, 1, 1]);
    for _ in 0..4 {
        push_i32(&mut b, 0);
    }
    assert_eq!(parse(&b), Err(PmxError::InvalidEnumValue));
}

#[test]
fn utf16_header_names_decode() {
    let mut b = Vec::new();
    b.extend_from_slice(b"PMX ");
    push_f32(&mut b, 2.0);
    b.push(8);
    b.extend_from_slice(&[0, 0, 1, 1, 1, 1, 1, 1]);
    push_i32(&mut b, 4);
    b.extend_from_slice(&[b'a', 0, b'b', 0]);
    for _ in 0..3 {
        push_i32(&mut b, 0);
    }
    for _ in 0..4 {
        push_i32(&mut b, 0);
    }
    let m = parse(&b).unwrap();
    assert_eq!(m.globals.text_encoding, TextEncodingType::UTF16LE);
    assert_eq!(m.header.model_name_local, "ab");
}

#[test]
fn invalid_header_text_rejected() {
    let mut b = Vec::new();
    b.extend_from_slice(b"PMX ");
    push_f32(&mut b, 2.0);
    b.push(8);
    b.extend_from_slice(&[1, 0, 1, 1, 1, 1, 1, 1]);
    push_i32(&mut b, 2);
    b.extend_from_slice(&[0xFF, 0xFE]);
    for _ in 0..3 {
        push_i32(&mut b, 0);
    }
    for _ in 0..4 {
        push_i32(&mut b, 0);
    }
    assert_eq!(parse(&b), Err(PmxError::TextDecodeError));
}

#[test]
fn texture_paths_in_order() {
    let mut b = Vec::new();
    push_header(&mut b, &[1, 0, 1, 1, 1, 1, 1, 1]);
    push_i32(&mut b, 0);
    push_i32(&mut b, 0);
    push_i32(&mut b, 2);
    push_text(&mut b, "tex/a.png");
    push_text(&mut b, "tex/b.png");
    push_i32(&mut b, 0);
    let m = parse(&b).unwrap();
    assert_eq!(m.texture_paths, vec!["tex/a.png", "tex/b.png"]);
}

#[test]
fn additional_vec4s_read_per_vertex() {
    let mut b = Vec::new();
    push_header(&mut b, &[1, 2, 1, 1, 1, 1, 1, 1]);
    push_i32(&mut b, 1);
    for _ in 0..8 {
        push_f32(&mut b, 0.0);
    }
    for i in 0..8 {
        push_f32(&mut b, i as f32);
    }
    b.push(0);
    b.push(0);
    push_f32(&mut b, 1.0);
    push_i32(&mut b, 0);
    push_i32(&mut b, 0);
    push_i32(&mut b, 0);
    let m = parse(&b).unwrap();
    assert_eq!(m.globals.additional_vec4_count, 2);
    let v = &m.vertices[0];
    assert_eq!(v.additional_vec4.len(), 2);
    assert_eq!(f32::from_bits(v.additional_vec4[1].w), 7.0);
}

#[test]
fn empty_model_decodes() {
    let mut b = Vec::new();
    push_header(&mut b, &[]);
    for _ in 0..4 {
        push_i32(&mut b, 0);
    }
    let m = parse(&b).unwrap();
    assert!(m.vertices.is_empty());
    assert!(m.surfaces.is_empty());
    assert!(m.texture_paths.is_empty());
    assert!(m.materials.is_empty());
    assert_eq!(m.submesh_ranges(), Vec::<(u64, u64)>::new());
    assert_eq!(m.flat_indices(), Vec::<u32>::new());
}

#[test]
fn empty_buffer_is_eof() {
    assert_eq!(parse(&[]), Err(PmxError::UnexpectedEof));
}

#[test]
fn two_byte_texture_index_sentinel() {
    // Texture indices two bytes wide; the material's 0xFFFF reads as -1.
    let mut b = Vec::new();
    push_header(&mut b, &[1, 0, 1, 2, 1, 1, 1, 1]);
    push_i32(&mut b, 0);
    push_i32(&mut b, 0);
    push_i32(&mut b, 0);
    push_i32(&mut b, 1);
    push_text(&mut b, "m");
    push_text(&mut b, "");
    for _ in 0..11 {
        push_f32(&mut b, 0.0);
    }
    b.push(0);
    for _ in 0..5 {
        push_f32(&mut b, 0.0);
    }
    b.extend_from_slice(&[0xFF, 0xFF]);
    b.extend_from_slice(&[0xFE, 0xFF]);
    b.push(0);
    b.push(0);
    b.extend_from_slice(&[0xFF, 0xFF]);
    push_text(&mut b, "");
    push_i32(&mut b, 0);
    let m = parse(&b).unwrap();
    let mat = &m.materials[0];
    assert_eq!(mat.texture_index, -1);
    assert_eq!(mat.environment_index, -2);
    assert_eq!(mat.toon_value, PMXToonValue::Texture(-1));
}
