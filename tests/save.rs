use astro_save::{Save, SaveError, TempSaveData};

fn zlib(bytes: &[u8]) -> Vec<u8> {
    let mut e = flate2::write::ZlibEncoder::new(Vec::new(), flate2::Compression::default());
    std::io::Write::write_all(&mut e, bytes).unwrap();
    e.finish().unwrap()
}

fn file_of(body: &[u8]) -> Vec<u8> {
    let mut f: Vec<u8> = (100u8..116).collect();
    f.extend_from_slice(&zlib(body));
    f
}

fn string(out: &mut Vec<u8>, s: &str) {
    out.extend_from_slice(&(s.len() as i32).to_le_bytes());
    out.extend_from_slice(s.as_bytes());
}

fn minimal_body() -> Vec<u8> {
    let mut b = Vec::new();
    b.extend_from_slice(&0x5341_5647u32.to_le_bytes());
    b.extend_from_slice(&2i32.to_le_bytes());
    b.extend_from_slice(&517i32.to_le_bytes());
    b.extend_from_slice(&4u16.to_le_bytes());
    b.extend_from_slice(&23u16.to_le_bytes());
    b.extend_from_slice(&1u16.to_le_bytes());
    b.extend_from_slice(&12345u32.to_le_bytes());
    string(&mut b, "build");
    b.extend_from_slice(&3i32.to_le_bytes());
    b.extend_from_slice(&0u32.to_le_bytes());
    string(&mut b, "/Game/SaveClass");
    string(&mut b, "None");
    b.extend_from_slice(&(-7i32).to_le_bytes());
    // level chunk
    b.extend_from_slice(&9u32.to_le_bytes());
    string(&mut b, "Level");
    // its save chunk
    b.extend_from_slice(&11u32.to_le_bytes());
    b.extend_from_slice(&0i64.to_le_bytes());
    b.extend_from_slice(&0u32.to_le_bytes());
    b.extend_from_slice(&0u32.to_le_bytes());
    b.extend_from_slice(&0u32.to_le_bytes());
    b.extend_from_slice(&42u32.to_le_bytes());
    b.extend_from_slice(&0i32.to_le_bytes());
    // remote player chunks
    b.extend_from_slice(&0i32.to_le_bytes());
    b
}

#[test]
fn decompressing_zeros_gives_exact_length() {
    for len in [0usize, 1, 100, 4096] {
        let mut t = TempSaveData::new_bytes("zeros".to_string(), 0, &file_of(&vec![0u8; len]));
        t.decompress().unwrap();
        assert_eq!(t.cursor(), 0);
        assert_eq!(t.get_next_x(len as u64).unwrap(), vec![0u8; len]);
        assert_eq!(t.get_next_u8(), Err(SaveError::BoundsError));
    }
}

#[test]
fn malformed_body_is_decompression_error() {
    let mut f = vec![0u8; 16];
    f.extend_from_slice(&[1, 2, 3, 4, 5, 6]);
    let mut t = TempSaveData::new_bytes("bad".to_string(), f.len() as u64, &f);
    assert_eq!(t.decompress(), Err(SaveError::DecompressionError));
}

#[test]
fn truncated_body_is_decompression_error() {
    let mut f = file_of(&[7u8; 300]);
    f.truncate(f.len() - 6);
    let mut s = Save::new_bytes("cut".to_string(), f.len() as u64, &f);
    assert_eq!(s.load(), Err(SaveError::DecompressionError));
    assert!(s.structured_data.is_none());
}

#[test]
fn file_shorter_than_header_is_bounds_error() {
    let f = [0u8; 10];
    let mut s = Save::new_bytes("short".to_string(), 10, &f);
    assert_eq!(s.load(), Err(SaveError::BoundsError));
    assert!(s.structured_data.is_none());
}

#[test]
fn minimal_save_decodes_end_to_end() {
    let f = file_of(&minimal_body());
    let mut s = Save::new_bytes("minimal.savegame".to_string(), f.len() as u64, &f);
    assert_eq!(s.load(), Ok(()));
    assert_eq!(s.name, "minimal.savegame");
    assert!(s.temp_save_data.is_none());
    let d = s.structured_data.as_ref().unwrap();
    let h = &d.header;
    assert_eq!(h.format_tag, 0x5341_5647);
    assert_eq!(h.save_game_version, 2);
    assert_eq!(h.package_version, 517);
    assert_eq!(h.engine_version.major, 4);
    assert_eq!(h.engine_version.minor, 23);
    assert_eq!(h.engine_version.patch, 1);
    assert_eq!(h.engine_version.build, 12345);
    assert_eq!(h.engine_version.build_id, "build");
    assert_eq!(h.custom_format_data.version, 3);
    assert_eq!(h.custom_format_data.custom_format_count, 0);
    assert!(h.custom_format_data.custom_format_datum.is_empty());
    assert_eq!(h.save_class, "/Game/SaveClass");
    assert_eq!(h.end_of_header1, "None");
    assert_eq!(h.end_of_header2, -7);
    let a = &d.astro_save;
    assert_eq!(a.level_chunk.astro_save_version, 9);
    assert_eq!(a.level_chunk.level_name, "Level");
    let c = &a.level_chunk.data;
    assert_eq!(c.astro_save_version, 11);
    assert_eq!(c.names.count, 0);
    assert!(c.names.strings.is_empty());
    assert_eq!(c.object_records_count, 0);
    assert!(c.object_records.is_empty());
    assert_eq!(c.actor_records_count, 0);
    assert!(c.actor_records.is_empty());
    assert_eq!(c.root_level_actor_indices_count, 0);
    assert!(c.root_level_actor_indices.is_empty());
    assert_eq!(c.first_import_index, 42);
    assert_eq!(a.level_chunk.player_controller_records_count, 0);
    assert!(a.level_chunk.player_controller_records.is_empty());
    assert_eq!(a.remote_player_chunks_count, 0);
    assert!(a.remote_player_chunks.is_empty());
}

#[test]
fn truncated_tree_fails_as_a_whole() {
    let mut body = minimal_body();
    body.truncate(body.len() - 2);
    let f = file_of(&body);
    let mut s = Save::new_bytes("partial".to_string(), f.len() as u64, &f);
    assert_eq!(s.load(), Err(SaveError::BoundsError));
    assert!(s.structured_data.is_none());
}

#[test]
fn save_with_one_remote_player() {
    let mut body = minimal_body();
    body.truncate(body.len() - 4);
    body.extend_from_slice(&1i32.to_le_bytes());
    body.extend_from_slice(&5u32.to_le_bytes());
    body.extend_from_slice(&2i64.to_le_bytes());
    string(&mut body, "Name");
    body.extend_from_slice(&0u32.to_le_bytes());
    body.extend_from_slice(&0u32.to_le_bytes());
    body.extend_from_slice(&2u32.to_le_bytes());
    body.extend_from_slice(&3i32.to_le_bytes());
    body.extend_from_slice(&(-4i32).to_le_bytes());
    body.extend_from_slice(&8u32.to_le_bytes());
    body.extend_from_slice(&77u64.to_le_bytes());
    let f = file_of(&body);
    let mut s = Save::new_bytes("remote".to_string(), f.len() as u64, &f);
    assert_eq!(s.load(), Ok(()));
    let a = &s.structured_data.as_ref().unwrap().astro_save;
    assert_eq!(a.remote_player_chunks_count, 1);
    let r = &a.remote_player_chunks[0];
    assert_eq!(r.network_uuid, 77);
    assert_eq!(r.data.astro_save_version, 5);
    assert_eq!(r.data.names.strings, vec!["Name".to_string()]);
    assert_eq!(r.data.root_level_actor_indices, vec![3, -4]);
    assert_eq!(r.data.first_import_index, 8);
}

#[test]
fn new_save_keeps_name_and_bytes() {
    let mut t = TempSaveData::new_bytes("a.savegame".to_string(), 3, &[1, 2, 3]);
    assert_eq!(t.cursor(), 0);
    assert_eq!(t.get_next_u8(), Err(SaveError::BoundsError));
    let s = Save::new_bytes("a.savegame".to_string(), 3, &[1, 2, 3]);
    assert_eq!(s.name, "a.savegame");
    assert!(s.temp_save_data.is_some());
    assert!(s.structured_data.is_none());
}

#[test]
fn smallest_body_with_empty_strings_decodes() {
    let mut b = Vec::new();
    b.extend_from_slice(&1u32.to_le_bytes());
    b.extend_from_slice(&(-2i32).to_le_bytes());
    b.extend_from_slice(&3i32.to_le_bytes());
    b.extend_from_slice(&4u16.to_le_bytes());
    b.extend_from_slice(&5u16.to_le_bytes());
    b.extend_from_slice(&6u16.to_le_bytes());
    b.extend_from_slice(&7u32.to_le_bytes());
    b.extend_from_slice(&0i32.to_le_bytes());
    b.extend_from_slice(&(-8i32).to_le_bytes());
    b.extend_from_slice(&[0u8; 12]);
    b.extend_from_slice(&9i32.to_le_bytes());
    b.extend_from_slice(&10u32.to_le_bytes());
    b.extend_from_slice(&0i32.to_le_bytes());
    b.extend_from_slice(&11u32.to_le_bytes());
    b.extend_from_slice(&[0u8; 20]);
    b.extend_from_slice(&12u32.to_le_bytes());
    b.extend_from_slice(&[0u8; 8]);
    assert_eq!(b.len(), 90);
    let mut t = TempSaveData::new_decompressed(b);
    let d = astro_save::DecompressedData::deserialize(&mut t).unwrap();
    assert_eq!(t.cursor(), 90);
    assert_eq!(d.header.format_tag, 1);
    assert_eq!(d.header.save_game_version, -2);
    assert_eq!(d.header.package_version, 3);
    assert_eq!(d.header.engine_version.major, 4);
    assert_eq!(d.header.engine_version.minor, 5);
    assert_eq!(d.header.engine_version.patch, 6);
    assert_eq!(d.header.engine_version.build, 7);
    assert_eq!(d.header.engine_version.build_id, "");
    assert_eq!(d.header.custom_format_data.version, -8);
    assert!(d.header.custom_format_data.custom_format_datum.is_empty());
    assert_eq!(d.header.end_of_header2, 9);
    assert_eq!(d.astro_save.level_chunk.astro_save_version, 10);
    assert_eq!(d.astro_save.level_chunk.data.astro_save_version, 11);
    assert_eq!(d.astro_save.level_chunk.data.first_import_index, 12);
    assert!(d.astro_save.level_chunk.data.names.strings.is_empty());
    assert!(d.astro_save.remote_player_chunks.is_empty());
}
