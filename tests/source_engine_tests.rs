use rust_tower_defense::source_engine::mdl_reader::{read_mdl_file, MDL_HEADER};
use rust_tower_defense::source_engine::vtx_reader::{read_vtx_file, VTXDeserializer, VTXFileStripGroupHeader};
use rust_tower_defense::source_engine::vvd_reader::{read_vvd_file, VVD_HEADER};
use rust_tower_defense::source_engine::{
    assemble_model, read_source_engine_model, ModelLoadError, SourceModelVector,
};

const CHECKSUM: i32 = -1234567;

fn put_i32(b: &mut Vec<u8>, at: usize, v: i32) {
    b[at..at + 4].copy_from_slice(&v.to_le_bytes());
}

fn put_u16(b: &mut Vec<u8>, at: usize, v: u16) {
    b[at..at + 2].copy_from_slice(&v.to_le_bytes());
}

fn put_f32(b: &mut Vec<u8>, at: usize, v: f32) {
    b[at..at + 4].copy_from_slice(&v.to_le_bytes());
}

/// A studio-model file of 400 header bytes and some body.
fn studio_file(name: &[u8], bodypart_count: i32, checksum: i32) -> Vec<u8> {
    let mut b = vec![0u8; 420];
    b[0..4].copy_from_slice(&[0x49, 0x44, 0x53, 0x54]);
    put_i32(&mut b, 4, 49);
    put_i32(&mut b, 8, checksum);
    b[12..12 + name.len()].copy_from_slice(name);
    put_i32(&mut b, 76, 91108);
    put_i32(&mut b, 232, bodypart_count);
    put_i32(&mut b, 236, 400);
    put_i32(&mut b, 392, 408);
    b
}

/// An optimized-mesh file with one body part, one model, one level of detail
/// and four meshes, each with one empty strip group.
fn mesh_file(checksum: i32) -> Vec<u8> {
    let mut b = vec![0u8; 152];
    put_i32(&mut b, 0, 7);
    put_i32(&mut b, 16, checksum);
    put_i32(&mut b, 28, 1);
    put_i32(&mut b, 32, 36);
    // body part at 36
    put_i32(&mut b, 36, 1);
    put_i32(&mut b, 40, 8);
    // model at 44
    put_i32(&mut b, 44, 1);
    put_i32(&mut b, 48, 8);
    // level of detail at 52
    put_i32(&mut b, 52, 4);
    put_i32(&mut b, 56, 12);
    put_f32(&mut b, 60, 0.5);
    // meshes at 64, 73, 82, 91
    for m in 0..4 {
        let at = 64 + 9 * m;
        put_i32(&mut b, at, 1);
        put_i32(&mut b, at + 4, 36);
    }
    b
}

/// A vertex-data file whose vertex block holds `n` vertices.
fn vertex_file(n: usize, checksum: i32) -> Vec<u8> {
    let mut b = vec![0u8; 64 + 48 * n];
    b[0..4].copy_from_slice(&[0x49, 0x44, 0x53, 0x56]);
    put_i32(&mut b, 4, 4);
    put_i32(&mut b, 8, checksum);
    put_i32(&mut b, 12, 1);
    put_i32(&mut b, 16, n as i32);
    put_i32(&mut b, 52, 64);
    put_i32(&mut b, 56, 64);
    put_i32(&mut b, 60, (64 + 48 * n) as i32);
    for i in 0..n {
        let at = 64 + 48 * i;
        put_f32(&mut b, at + 16, i as f32);
        put_f32(&mut b, at + 20, 2.0 * i as f32);
        put_f32(&mut b, at + 24, -1.0);
        put_f32(&mut b, at + 28, 0.0);
        put_f32(&mut b, at + 32, 1.0);
        put_f32(&mut b, at + 36, 0.0);
    }
    b
}

#[test]
fn mesh_topology_fixture_shape() {
    let f = read_vtx_file(&mesh_file(CHECKSUM)).unwrap();
    assert_eq!(f.header.version, 7);
    assert_eq!(f.header.num_body_parts, 1);
    assert_eq!(f.header.body_part_offset, 36);
    assert_eq!(f.bodyparts.len(), 1);
    assert_eq!(f.bodyparts[0].header.num_models, 1);
    assert_eq!(f.bodyparts[0].header.model_offset, 8);
    assert_eq!(f.bodyparts[0].models.len(), 1);
    let lods = &f.bodyparts[0].models[0].lods;
    assert_eq!(lods.len(), 1);
    assert_eq!(lods[0].header.mesh_offset, 12);
    assert_eq!(f32::from_bits(lods[0].header.switch_point), 0.5);
    assert_eq!(lods[0].header.num_meshes as usize, lods[0].meshes.len());
    assert_eq!(lods[0].meshes.len(), 4);
    for m in lods[0].meshes.iter() {
        assert_eq!(m.header.num_strip_groups, 1);
        assert_eq!(m.header.strip_group_header_offset, 36);
        assert_eq!(m.header.flags, 0);
        assert_eq!(m.strip_groups.len(), 1);
    }
}

#[test]
fn mesh_topology_rejects_other_versions() {
    let mut b = mesh_file(CHECKSUM);
    put_i32(&mut b, 0, 6);
    assert_eq!(read_vtx_file(&b).unwrap_err(), ModelLoadError::UnsupportedVersion);
}

#[test]
fn mesh_topology_rejects_short_files() {
    let b = mesh_file(CHECKSUM);
    assert_eq!(read_vtx_file(&b[..35]).unwrap_err(), ModelLoadError::TruncatedBuffer);
    assert_eq!(read_vtx_file(&[]).unwrap_err(), ModelLoadError::TruncatedBuffer);
    // the last mesh's strip group runs past the end
    assert_eq!(read_vtx_file(&b[..151]).unwrap_err(), ModelLoadError::TruncatedBuffer);
}

#[test]
fn mesh_topology_rejects_offsets_outside_the_file() {
    let mut b = mesh_file(CHECKSUM);
    put_i32(&mut b, 32, 4000);
    assert_eq!(read_vtx_file(&b).unwrap_err(), ModelLoadError::TruncatedBuffer);
    let mut b = mesh_file(CHECKSUM);
    put_i32(&mut b, 40, -100);
    assert_eq!(read_vtx_file(&b).unwrap_err(), ModelLoadError::TruncatedBuffer);
}

#[test]
fn mesh_topology_rejects_negative_counts() {
    // body-part, model, level-of-detail, mesh and strip-group counts
    for at in [28usize, 36, 44, 52, 64, 91] {
        let mut b = mesh_file(CHECKSUM);
        put_i32(&mut b, at, -1);
        assert_eq!(read_vtx_file(&b).unwrap_err(), ModelLoadError::TruncatedBuffer);
    }
}

#[test]
fn mesh_topology_zero_count_gives_nothing() {
    let mut b = mesh_file(CHECKSUM);
    put_i32(&mut b, 52, 0);
    let f = read_vtx_file(&b).unwrap();
    assert!(f.bodyparts[0].models[0].lods[0].meshes.is_empty());
}

#[test]
fn strip_group_arrays_follow_relative_offsets() {
    // A strip group at 10 whose vertices, indices and strips follow it.
    let mut b = vec![0u8; 120];
    let sg = 10;
    put_i32(&mut b, sg, 2);
    put_i32(&mut b, sg + 4, 25);
    put_i32(&mut b, sg + 8, 3);
    put_i32(&mut b, sg + 12, 43);
    put_i32(&mut b, sg + 16, 1);
    put_i32(&mut b, sg + 20, 49);
    b[sg + 24] = 2;
    // vertices at 35 and 44
    b[35..38].copy_from_slice(&[0, 1, 2]);
    b[38] = 3;
    put_u16(&mut b, 39, 513);
    b[41..44].copy_from_slice(&[7, 8, 9]);
    put_u16(&mut b, 48, 65535);
    // indices at 53, 55, 57
    put_u16(&mut b, 53, 1);
    put_u16(&mut b, 55, 0);
    put_u16(&mut b, 57, 1);
    // strip at 59
    put_i32(&mut b, 59, 3);
    put_i32(&mut b, 67, 2);
    b[75..77].copy_from_slice(&(-2i16).to_le_bytes());
    b[77] = 1;
    put_i32(&mut b, 78, -1);

    let d = VTXDeserializer::new(String::from("in memory"));
    let h = VTXFileStripGroupHeader {
        num_verts: 2,
        vert_offset: 25,
        num_indices: 3,
        index_offset: 43,
        num_strips: 1,
        strip_offset: 49,
        flags: 2,
    };
    let vs = d.read_vertices(&h, sg, &b).unwrap();
    assert_eq!(vs.len(), 2);
    assert_eq!(vs[0].bone_weight_index, [0, 1, 2]);
    assert_eq!(vs[0].num_bones, 3);
    assert_eq!(vs[0].orig_mesh_vert_id, 513);
    assert_eq!(vs[0].bone_id, [7, 8, 9]);
    assert_eq!(vs[1].orig_mesh_vert_id, 65535);
    let is = d.read_indices(&h, sg, &b).unwrap();
    assert_eq!(is.iter().map(|i| i.position).collect::<Vec<u16>>(), vec![1, 0, 1]);
    let ss = d.read_strips(&h, sg, &b).unwrap();
    assert_eq!(ss.len(), 1);
    assert_eq!(ss[0].header.num_indices, 3);
    assert_eq!(ss[0].header.num_verts, 2);
    assert_eq!(ss[0].header.num_bones, -2);
    assert_eq!(ss[0].header.flags, 1);
    assert_eq!(ss[0].header.num_bone_state_changes, -1);
    // the same group read with its index array moved past the end
    let far = VTXFileStripGroupHeader { index_offset: 200, ..h };
    assert_eq!(d.read_indices(&far, sg, &b).unwrap_err(), ModelLoadError::TruncatedBuffer);
}

#[test]
fn vertex_data_fixture_counts() {
    // vertex block from 64 to 537856
    let mut b = vec![0u8; 537856];
    b[0..4].copy_from_slice(&[0x49, 0x44, 0x53, 0x56]);
    put_i32(&mut b, 4, 4);
    put_i32(&mut b, 12, 1);
    put_i32(&mut b, 48, 0);
    put_i32(&mut b, 52, 64);
    put_i32(&mut b, 56, 64);
    put_i32(&mut b, 60, 537856);
    let f = read_vvd_file(&b).unwrap();
    assert_eq!(f.header.id, VVD_HEADER);
    assert_eq!(f.header.version, 4);
    assert_eq!(f.header.num_lods, 1);
    assert_eq!(f.header.num_lod_vertexes.len(), 8);
    assert_eq!(f.header.num_fixups, 0);
    assert_eq!(f.header.fixup_table_start, 64);
    assert_eq!(f.header.vertex_data_start, 64);
    assert_eq!(f.header.tangent_data_start, 537856);
    assert!(f.fixup_table.is_empty());
    // (537856 - 64) / 48 whole vertex records
    assert_eq!(f.vertices.len(), 11204);
}

#[test]
fn vertex_data_fields() {
    let f = read_vvd_file(&vertex_file(3, CHECKSUM)).unwrap();
    assert_eq!(f.header.checksum, CHECKSUM);
    assert_eq!(f.header.num_lod_vertexes, [3, 0, 0, 0, 0, 0, 0, 0]);
    assert_eq!(f.vertices.len(), 3);
    assert_eq!(f32::from_bits(f.vertices[2].vec_position.0), 2.0);
    assert_eq!(f32::from_bits(f.vertices[2].vec_position.1), 4.0);
    assert_eq!(f32::from_bits(f.vertices[2].vec_position.2), -1.0);
    assert_eq!(f32::from_bits(f.vertices[1].vec_normal.1), 1.0);
}

#[test]
fn vertex_data_partial_record_is_dropped() {
    let mut b = vertex_file(2, CHECKSUM);
    put_i32(&mut b, 60, 64 + 48 + 47);
    assert_eq!(read_vvd_file(&b).unwrap().vertices.len(), 1);
    put_i32(&mut b, 60, 64);
    assert_eq!(read_vvd_file(&b).unwrap().vertices.len(), 0);
}

#[test]
fn vertex_data_rejects_reversed_vertex_block() {
    let mut b = vertex_file(2, CHECKSUM);
    put_i32(&mut b, 60, 10);
    assert_eq!(read_vvd_file(&b).unwrap_err(), ModelLoadError::TruncatedBuffer);
}

#[test]
fn vertex_data_rejects_negative_fixup_count() {
    let mut b = vertex_file(2, CHECKSUM);
    put_i32(&mut b, 48, -1);
    assert_eq!(read_vvd_file(&b).unwrap_err(), ModelLoadError::TruncatedBuffer);
}

#[test]
fn vertex_data_fixup_table_is_decoded() {
    let mut b = vertex_file(2, CHECKSUM);
    b.extend_from_slice(&[0u8; 24]);
    let at = b.len() - 24;
    put_i32(&mut b, 48, 2);
    put_i32(&mut b, 52, at as i32);
    put_i32(&mut b, at, 0);
    put_i32(&mut b, at + 4, 0);
    put_i32(&mut b, at + 8, 2);
    put_i32(&mut b, at + 12, 1);
    put_i32(&mut b, at + 16, 1);
    put_i32(&mut b, at + 20, 1);
    let f = read_vvd_file(&b).unwrap();
    assert_eq!(f.fixup_table.len(), 2);
    assert_eq!(f.fixup_table[0].num_vertexes, 2);
    assert_eq!(f.fixup_table[1].lod, 1);
    assert_eq!(f.fixup_table[1].source_vertex_id, 1);
    assert_eq!(f.vertices.len(), 2);
    put_i32(&mut b, 48, 3);
    assert_eq!(read_vvd_file(&b).unwrap_err(), ModelLoadError::TruncatedBuffer);
}

#[test]
fn vertex_data_rejects_wrong_tag_and_short_files() {
    let mut b = vertex_file(1, CHECKSUM);
    b[3] = 0x54;
    assert_eq!(read_vvd_file(&b).unwrap_err(), ModelLoadError::BadMagic);
    assert_eq!(read_vvd_file(&b[..63]).unwrap_err(), ModelLoadError::TruncatedBuffer);
    let mut b = vertex_file(1, CHECKSUM);
    b.truncate(100);
    assert_eq!(read_vvd_file(&b).unwrap_err(), ModelLoadError::TruncatedBuffer);
}

#[test]
fn studio_model_fixture_header() {
    let f = read_mdl_file(&studio_file(b"player/ctm_sas_variantA.mdl", 1, CHECKSUM)).unwrap();
    assert_eq!(f.header.id, MDL_HEADER);
    assert_eq!(f.header.id, i32::from_le_bytes([0x49, 0x44, 0x53, 0x54]));
    assert_eq!(f.header.version, 49);
    assert_eq!(f.header.checksum, CHECKSUM);
    assert_eq!(f.header.data_length, 91108);
    assert_eq!(f.header.bodypart_count, 1);
    assert_eq!(f.header.bodypart_offset, 400);
    assert_eq!(f.header.studiohdr2index, 408);
    assert_eq!(f.name, "player/ctm_sas_variantA.mdl");
}

#[test]
fn studio_model_name_without_terminator_fills_field() {
    let name = [b'a'; 64];
    let f = read_mdl_file(&studio_file(&name, 1, CHECKSUM)).unwrap();
    assert_eq!(f.name, "a".repeat(64));
    let f = read_mdl_file(&studio_file(b"", 1, CHECKSUM)).unwrap();
    assert_eq!(f.name, "");
}

#[test]
fn studio_model_name_must_be_utf8() {
    let b = studio_file(&[0x68, 0xff, 0x69], 1, CHECKSUM);
    assert_eq!(read_mdl_file(&b).unwrap_err(), ModelLoadError::InvalidText);
    let f = read_mdl_file(&studio_file("é/ü".as_bytes(), 1, CHECKSUM)).unwrap();
    assert_eq!(f.name, "é/ü");
}

#[test]
fn studio_model_rejects_wrong_tag_and_short_files() {
    let mut b = studio_file(b"m", 1, CHECKSUM);
    b[0] = 0;
    assert_eq!(read_mdl_file(&b).unwrap_err(), ModelLoadError::BadMagic);
    let b = studio_file(b"m", 1, CHECKSUM);
    assert_eq!(read_mdl_file(&b[..399]).unwrap_err(), ModelLoadError::TruncatedBuffer);
}

#[test]
fn consistent_files_load() {
    let mdl = studio_file(b"player/ctm_sas_variantA.mdl", 1, CHECKSUM);
    let vtx = mesh_file(CHECKSUM);
    let vvd = vertex_file(2, CHECKSUM);
    let m = read_source_engine_model(Some(&mdl), Some(&vtx), Some(&vvd)).unwrap();
    assert_eq!(m.mdl_file.name, "player/ctm_sas_variantA.mdl");
    assert_eq!(m.mdl_file.header.checksum, m.vvd_file.header.checksum);
    assert_eq!(m.vvd_file.header.checksum, m.vtx_file.header.checksum);
    assert_eq!(m.vertices.len(), 2);
    assert_eq!(m.normals.len(), 2);
    assert_eq!(m.vertices[1], SourceModelVector(1.0f32.to_bits(), 2.0f32.to_bits(), (-1.0f32).to_bits()));
    assert_eq!(m.normals[0], SourceModelVector(0.0f32.to_bits(), 1.0f32.to_bits(), 0.0f32.to_bits()));
}

#[test]
fn decoding_twice_gives_equal_models() {
    let mdl = studio_file(b"twice", 1, 5);
    let vtx = mesh_file(5);
    let vvd = vertex_file(3, 5);
    let a = read_source_engine_model(Some(&mdl), Some(&vtx), Some(&vvd)).unwrap();
    let b = read_source_engine_model(Some(&mdl), Some(&vtx), Some(&vvd)).unwrap();
    assert_eq!(a, b);
}

#[test]
fn checksum_mismatch_is_rejected() {
    let mdl = studio_file(b"m", 1, CHECKSUM);
    let vtx = mesh_file(CHECKSUM);
    let vvd = vertex_file(1, CHECKSUM + 1);
    let r = read_source_engine_model(Some(&mdl), Some(&vtx), Some(&vvd));
    assert_eq!(r.unwrap_err(), ModelLoadError::ChecksumMismatch);
    let mdl = studio_file(b"m", 1, 0);
    let r = read_source_engine_model(Some(&mdl), Some(&vtx), Some(&vertex_file(1, CHECKSUM)));
    assert_eq!(r.unwrap_err(), ModelLoadError::ChecksumMismatch);
}

#[test]
fn body_part_count_mismatch_comes_before_checksum() {
    let mdl = studio_file(b"m", 2, 0);
    let vtx = mesh_file(CHECKSUM);
    let vvd = vertex_file(1, 9);
    let r = read_source_engine_model(Some(&mdl), Some(&vtx), Some(&vvd));
    assert_eq!(r.unwrap_err(), ModelLoadError::BodyPartCountMismatch);
    let mdl = studio_file(b"m", -1, CHECKSUM);
    let r = read_source_engine_model(Some(&mdl), Some(&vtx), Some(&vertex_file(1, CHECKSUM)));
    assert_eq!(r.unwrap_err(), ModelLoadError::BodyPartCountMismatch);
    let mut neg = mesh_file(CHECKSUM);
    put_i32(&mut neg, 28, -1);
    let r = read_source_engine_model(Some(&mdl), Some(&neg), Some(&vertex_file(1, CHECKSUM)));
    assert_eq!(r.unwrap_err(), ModelLoadError::TruncatedBuffer);
}

#[test]
fn missing_files_give_io_error() {
    let mdl = studio_file(b"m", 1, CHECKSUM);
    let vtx = mesh_file(CHECKSUM);
    let vvd = vertex_file(1, CHECKSUM);
    assert_eq!(read_source_engine_model(None, None, None).unwrap_err(), ModelLoadError::Io);
    assert_eq!(read_source_engine_model(Some(&mdl), None, Some(&vvd)).unwrap_err(), ModelLoadError::Io);
    assert_eq!(read_source_engine_model(Some(&mdl), Some(&vtx), None).unwrap_err(), ModelLoadError::Io);
}

#[test]
fn corrupted_tags_are_rejected_in_file_order() {
    let mdl = studio_file(b"m", 1, CHECKSUM);
    let vtx = mesh_file(CHECKSUM);
    let vvd = vertex_file(1, CHECKSUM);
    let mut bad_mdl = mdl.clone();
    bad_mdl[0..4].copy_from_slice(&[1, 2, 3, 4]);
    let mut bad_vtx = vtx.clone();
    bad_vtx[0..4].copy_from_slice(&[1, 2, 3, 4]);
    let mut bad_vvd = vvd.clone();
    bad_vvd[0..4].copy_from_slice(&[1, 2, 3, 4]);
    let r = read_source_engine_model(Some(&bad_mdl), Some(&bad_vtx), None);
    assert_eq!(r.unwrap_err(), ModelLoadError::BadMagic);
    let r = read_source_engine_model(Some(&mdl), Some(&bad_vtx), Some(&bad_vvd));
    assert_eq!(r.unwrap_err(), ModelLoadError::UnsupportedVersion);
    let r = read_source_engine_model(Some(&mdl), Some(&vtx), Some(&bad_vvd));
    assert_eq!(r.unwrap_err(), ModelLoadError::BadMagic);
}

#[test]
fn assembling_checks_decoded_files() {
    let mdl = read_mdl_file(&studio_file(b"m", 1, 3)).unwrap();
    let vtx = read_vtx_file(&mesh_file(3)).unwrap();
    let vvd = read_vvd_file(&vertex_file(1, 3)).unwrap();
    let m = assemble_model(mdl.clone(), vtx.clone(), vvd.clone()).unwrap();
    assert_eq!(m.vtx_file, vtx);
    assert_eq!(m.vertices.len(), 1);
    let mut other = vvd.clone();
    other.header.checksum = 4;
    assert_eq!(assemble_model(mdl, vtx, other).unwrap_err(), ModelLoadError::ChecksumMismatch);
}
