use astro_save::{
    ActorRecord, ObjectSaveRecord, SaveError, StringTable, TempSaveData, Transform,
};

fn string(out: &mut Vec<u8>, s: &str) {
    out.extend_from_slice(&(s.len() as i32).to_le_bytes());
    out.extend_from_slice(s.as_bytes());
}

fn object_bytes(save_flags: u8, offset: u32, size: Option<u32>, payload: &[u8]) -> Vec<u8> {
    let mut b = Vec::new();
    string(&mut b, "Obj");
    b.extend_from_slice(&7i32.to_le_bytes());
    b.extend_from_slice(&9u32.to_le_bytes());
    b.push(save_flags);
    b.extend_from_slice(&(-1i32).to_le_bytes());
    b.extend_from_slice(&offset.to_le_bytes());
    if let Some(s) = size {
        b.extend_from_slice(&s.to_le_bytes());
    }
    b.extend_from_slice(payload);
    b
}

#[test]
fn string_table_count_three_holds_two_strings() {
    let mut b = Vec::new();
    b.extend_from_slice(&3i64.to_le_bytes());
    string(&mut b, "a");
    string(&mut b, "bc");
    string(&mut b, "not read");
    let mut r = TempSaveData::new_decompressed(b);
    let t = StringTable::deserialize(&mut r).unwrap();
    assert_eq!(t.count, 3);
    assert_eq!(t.strings, vec!["a".to_string(), "bc".to_string()]);
    assert_eq!(r.cursor(), 8 + 5 + 6);
}

#[test]
fn string_table_small_counts_hold_nothing() {
    for count in [0i64, 1, -5, i64::MIN] {
        let mut r = TempSaveData::new_decompressed(count.to_le_bytes().to_vec());
        let t = StringTable::deserialize(&mut r).unwrap();
        assert_eq!(t.count, count);
        assert!(t.strings.is_empty());
        assert_eq!(r.cursor(), 8);
    }
}

#[test]
fn object_without_size_flag_reads_no_size() {
    let payload = [1u8, 2, 3, 4, 5];
    let b = object_bytes(0, 3, None, &payload);
    let total = b.len();
    let mut r = TempSaveData::new_decompressed(b);
    let o = ObjectSaveRecord::deserialize(&mut r).unwrap();
    assert_eq!(o.object_type, "Obj");
    assert_eq!(o.name_index, 7);
    assert_eq!(o.flags, 9);
    assert_eq!(o.save_flags, 0);
    assert_eq!(o.outer_object_index, -1);
    assert_eq!(o.custom_data_offset, 3);
    assert_eq!(o.size, 0);
    assert_eq!(o.data, vec![1, 2, 3]);
    assert!(o.custom_data.is_empty());
    assert_eq!(r.cursor(), total - 2);
}

#[test]
fn object_with_size_splits_payload() {
    let payload: Vec<u8> = (0u8..15).collect();
    let b = object_bytes(4, 10, Some(15), &payload);
    let total = b.len();
    let mut r = TempSaveData::new_decompressed(b);
    let o = ObjectSaveRecord::deserialize(&mut r).unwrap();
    assert_eq!(o.size, 15);
    assert_eq!(o.data.len(), 10);
    assert_eq!(o.custom_data.len(), 5);
    assert_eq!(o.data, (0u8..10).collect::<Vec<u8>>());
    assert_eq!(o.custom_data, vec![10, 11, 12, 13, 14]);
    assert_eq!(r.cursor(), total);
}

#[test]
fn object_other_flag_bits_do_not_add_size() {
    let b = object_bytes(0xfb, 2, None, &[8, 9]);
    let mut r = TempSaveData::new_decompressed(b);
    let o = ObjectSaveRecord::deserialize(&mut r).unwrap();
    assert_eq!(o.size, 0);
    assert_eq!(o.data, vec![8, 9]);
    assert!(o.custom_data.is_empty());
}

#[test]
fn object_offset_beyond_size_is_invalid() {
    let b = object_bytes(4, 16, Some(15), &[0u8; 32]);
    let mut r = TempSaveData::new_decompressed(b);
    assert_eq!(ObjectSaveRecord::deserialize(&mut r).unwrap_err(), SaveError::InvalidRecord);
}

#[test]
fn object_truncated_payload_is_bounds_error() {
    let b = object_bytes(4, 10, Some(15), &[0u8; 12]);
    let mut r = TempSaveData::new_decompressed(b);
    assert_eq!(ObjectSaveRecord::deserialize(&mut r).unwrap_err(), SaveError::BoundsError);
}

#[test]
fn actor_record_with_children_components_and_transform() {
    let mut b = Vec::new();
    b.extend_from_slice(&4i32.to_le_bytes());
    b.extend_from_slice(&2i32.to_le_bytes());
    for v in [1i32, 2, 3, 4] {
        b.extend_from_slice(&v.to_le_bytes());
    }
    b.extend_from_slice(&1i32.to_le_bytes());
    for v in [5i32, 6] {
        b.extend_from_slice(&v.to_le_bytes());
    }
    for f in [0.0f32, 0.0, 0.0, 1.0, 10.0, 20.0, 30.0, 1.0, 1.0, 2.0] {
        b.extend_from_slice(&f.to_le_bytes());
    }
    let total = b.len();
    let mut r = TempSaveData::new_decompressed(b);
    let a = ActorRecord::deserialize(&mut r).unwrap();
    assert_eq!(a.object_index, 4);
    assert_eq!(a.child_actor_count, 2);
    assert_eq!(a.child_actor_records.len(), 2);
    assert_eq!(a.child_actor_records[1].name_index, 3);
    assert_eq!(a.child_actor_records[1].actor_index, 4);
    assert_eq!(a.owned_component_count, 1);
    assert_eq!(a.owned_components[0].name_index, 5);
    assert_eq!(a.owned_components[0].object_index, 6);
    let t: Transform = a.root_transform;
    assert_eq!(f32::from_bits(t.rotation.w), 1.0);
    assert_eq!(f32::from_bits(t.translation.y), 20.0);
    assert_eq!(f32::from_bits(t.scale.z), 2.0);
    assert_eq!(r.cursor(), total);
}

#[test]
fn actor_record_negative_counts_read_nothing() {
    let mut b = Vec::new();
    b.extend_from_slice(&0i32.to_le_bytes());
    b.extend_from_slice(&(-3i32).to_le_bytes());
    b.extend_from_slice(&(-1i32).to_le_bytes());
    b.extend_from_slice(&[0u8; 40]);
    let mut r = TempSaveData::new_decompressed(b);
    let a = ActorRecord::deserialize(&mut r).unwrap();
    assert!(a.child_actor_records.is_empty());
    assert!(a.owned_components.is_empty());
    assert_eq!(r.cursor(), 52);
}

#[test]
fn actor_record_truncated_child_fails() {
    let mut b = Vec::new();
    b.extend_from_slice(&0i32.to_le_bytes());
    b.extend_from_slice(&2i32.to_le_bytes());
    b.extend_from_slice(&[0u8; 12]);
    let mut r = TempSaveData::new_decompressed(b);
    assert_eq!(ActorRecord::deserialize(&mut r).unwrap_err(), SaveError::BoundsError);
}
