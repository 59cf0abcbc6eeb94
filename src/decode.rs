use crate::error::SaveError;
use crate::grammar::{
    actor_record_at, actor_record_item, astro_level_save_chunk_at, astro_remote_player_chunk_at,
    astro_remote_player_chunk_item, astro_save_at, astro_save_chunk_at, child_actor_record_item,
    component_record_item, decompressed_data_at, i32_item, object_save_record_item, player_controller_record_at,
    player_controller_record_item, child_actor_record_at, component_record_at, custom_format_data_at, custom_format_datum_at,
    custom_format_datum_item, engine_version_at, header_at, lemma_repeat_error, lemma_repeat_len, object_save_record_at, has_size, string_table_len,
    quaternion_at, repeat_at, string_item, string_table_at, transform_at, vector3_at,
};
use crate::reader::{outcome, TempSaveData};
use crate::records::{
    actor_views, object_views, remote_chunk_views, ActorRecord, ActorRecordModel, AstroLevelSaveChunk,
    AstroRemotePlayerChunk, AstroRemotePlayerChunkModel, AstroSave, AstroSaveChunk, DecompressedData,
    ObjectSaveRecordModel, PlayerControllerRecord, string_views, ChildActorRecord, ComponentRecord, CustomFormatData, CustomFormatDatum, EngineVersion, Header,
    ObjectSaveRecord, Quaternion, StringTable, Transform, Vector3,
};
use vstd::prelude::*;

verus! {

impl EngineVersion {
    pub fn deserialize(save: &mut TempSaveData) -> (r: Result<EngineVersion, SaveError>)
        ensures
            final(save).data() == old(save).data(),
            outcome(r, engine_version_at(old(save).data(), old(save).pos()), final(save).pos()),
    {
        proof {
            reveal(engine_version_at);
        }
        let major = save.get_next_u16()?;
        let minor = save.get_next_u16()?;
        let patch = save.get_next_u16()?;
        let build = save.get_next_u32()?;
        let build_id = save.get_next_string()?;
        Ok(EngineVersion { major, minor, patch, build, build_id })
    }
}

impl CustomFormatDatum {
    pub fn deserialize(save: &mut TempSaveData) -> (r: Result<CustomFormatDatum, SaveError>)
        ensures
            final(save).data() == old(save).data(),
            outcome(r, custom_format_datum_at(old(save).data(), old(save).pos()), final(save).pos()),
    {
        proof {
            reveal(custom_format_datum_at);
        }
        let id = save.get_next_u128()?;
        let value = save.get_next_i32()?;
        Ok(CustomFormatDatum { id, value })
    }
}

impl CustomFormatData {
    #[verifier::loop_isolation(false)]
    pub fn deserialize(save: &mut TempSaveData) -> (r: Result<CustomFormatData, SaveError>)
        ensures
            final(save).data() == old(save).data(),
            outcome(r, custom_format_data_at(old(save).data(), old(save).pos()), final(save).pos()),
    {
        proof {
            reveal(custom_format_data_at);
        }
        let version = save.get_next_i32()?;
        let count = save.get_next_u32()?;
        let ghost data = save.data();
        let ghost start = save.pos();
        let mut items: Vec<CustomFormatDatum> = Vec::new();
        let mut i: u32 = 0;
        while i < count
            invariant
                save.data() == data,
                i <= count,
                repeat_at(i as nat, start, custom_format_datum_item(data)) == Ok::<_, SaveError>((items@, save.pos())),
            decreases count - i,
        {
            match CustomFormatDatum::deserialize(save) {
                Ok(d) => items.push(d),
                Err(e) => {
                    proof {
                        lemma_repeat_error(count as nat, (i + 1) as nat, start, custom_format_datum_item(data));
                    }
                    return Err(e);
                },
            }
            i = i + 1;
        }
        Ok(CustomFormatData { version, custom_format_count: count, custom_format_datum: items })
    }
}

impl Header {
    pub fn deserialize(save: &mut TempSaveData) -> (r: Result<Header, SaveError>)
        ensures
            final(save).data() == old(save).data(),
            outcome(r, header_at(old(save).data(), old(save).pos()), final(save).pos()),
    {
        proof {
            reveal(header_at);
        }
        let format_tag = save.get_next_u32()?;
        let save_game_version = save.get_next_i32()?;
        let package_version = save.get_next_i32()?;
        let engine_version = EngineVersion::deserialize(save)?;
        let custom_format_data = CustomFormatData::deserialize(save)?;
        let save_class = save.get_next_string()?;
        let end_of_header1 = save.get_next_string()?;
        let end_of_header2 = save.get_next_i32()?;
        Ok(Header {
            format_tag,
            save_game_version,
            package_version,
            engine_version,
            custom_format_data,
            save_class,
            end_of_header1,
            end_of_header2,
        })
    }
}

} // verus!

verus! {

impl StringTable {
    #[verifier::loop_isolation(false)]
    pub fn deserialize(save: &mut TempSaveData) -> (r: Result<StringTable, SaveError>)
        ensures
            final(save).data() == old(save).data(),
            outcome(r, string_table_at(old(save).data(), old(save).pos()), final(save).pos()),
            r matches Ok(t) ==> t.strings@.len() == string_table_len(t.count),
    {
        proof {
            reveal(string_table_at);
        }
        let count = save.get_next_i64()?;
        let n: u64 = if count <= 1 { 0 } else { (count - 1) as u64 };
        let ghost data = save.data();
        let ghost start = save.pos();
        let mut strings: Vec<String> = Vec::new();
        proof {
            assert(string_views(strings@) =~= Seq::<Seq<char>>::empty());
        }
        let mut i: u64 = 0;
        while i < n
            invariant
                save.data() == data,
                i <= n,
                repeat_at(i as nat, start, string_item(data)) == Ok::<_, SaveError>((string_views(strings@), save.pos())),
            decreases n - i,
        {
            match save.get_next_string() {
                Ok(s) => {
                    let ghost prev = strings@;
                    strings.push(s);
                    proof {
                        assert(string_views(strings@) =~= string_views(prev).push(s@));
                    }
                },
                Err(e) => {
                    proof {
                        lemma_repeat_error(n as nat, (i + 1) as nat, start, string_item(data));
                    }
                    return Err(e);
                },
            }
            i = i + 1;
        }
        proof {
            lemma_repeat_len(n as nat, start, string_item(data));
        }
        Ok(StringTable { count, strings })
    }
}

impl ObjectSaveRecord {
    pub fn deserialize(save: &mut TempSaveData) -> (r: Result<ObjectSaveRecord, SaveError>)
        ensures
            final(save).data() == old(save).data(),
            outcome(r, object_save_record_at(old(save).data(), old(save).pos()), final(save).pos()),
            r matches Ok(o) ==> o.data@.len() == o.custom_data_offset,
            r matches Ok(o) ==> if has_size(o.save_flags) {
                o.custom_data_offset <= o.size && o.custom_data@.len() == o.size - o.custom_data_offset
            } else {
                o.size == 0 && o.custom_data@.len() == 0
            },
    {
        proof {
            reveal(object_save_record_at);
        }
        let object_type = save.get_next_string()?;
        let name_index = save.get_next_i32()?;
        let flags = save.get_next_u32()?;
        let save_flags = save.get_next_u8()?;
        let outer_object_index = save.get_next_i32()?;
        let custom_data_offset = save.get_next_u32()?;
        let sized = save_flags & 4u8 != 0;
        let size: u32 = if sized { save.get_next_u32()? } else { 0 };
        if sized && custom_data_offset > size {
            return Err(SaveError::InvalidRecord);
        }
        let data = save.get_next_x(custom_data_offset as u64)?;
        let custom_data = if sized {
            save.get_next_x((size - custom_data_offset) as u64)?
        } else {
            Vec::new()
        };
        Ok(ObjectSaveRecord {
            object_type,
            name_index,
            flags,
            save_flags,
            outer_object_index,
            custom_data_offset,
            size,
            data,
            custom_data,
        })
    }
}

impl ChildActorRecord {
    pub fn deserialize(save: &mut TempSaveData) -> (r: Result<ChildActorRecord, SaveError>)
        ensures
            final(save).data() == old(save).data(),
            outcome(r, child_actor_record_at(old(save).data(), old(save).pos()), final(save).pos()),
    {
        proof {
            reveal(child_actor_record_at);
        }
        let name_index = save.get_next_i32()?;
        let actor_index = save.get_next_i32()?;
        Ok(ChildActorRecord { name_index, actor_index })
    }
}

impl ComponentRecord {
    pub fn deserialize(save: &mut TempSaveData) -> (r: Result<ComponentRecord, SaveError>)
        ensures
            final(save).data() == old(save).data(),
            outcome(r, component_record_at(old(save).data(), old(save).pos()), final(save).pos()),
    {
        proof {
            reveal(component_record_at);
        }
        let name_index = save.get_next_i32()?;
        let object_index = save.get_next_i32()?;
        Ok(ComponentRecord { name_index, object_index })
    }
}

impl Quaternion {
    pub fn deserialize(save: &mut TempSaveData) -> (r: Result<Quaternion, SaveError>)
        ensures
            final(save).data() == old(save).data(),
            outcome(r, quaternion_at(old(save).data(), old(save).pos()), final(save).pos()),
    {
        proof {
            reveal(quaternion_at);
        }
        let x = save.get_next_f32()?;
        let y = save.get_next_f32()?;
        let z = save.get_next_f32()?;
        let w = save.get_next_f32()?;
        Ok(Quaternion { x, y, z, w })
    }
}

impl Vector3 {
    pub fn deserialize(save: &mut TempSaveData) -> (r: Result<Vector3, SaveError>)
        ensures
            final(save).data() == old(save).data(),
            outcome(r, vector3_at(old(save).data(), old(save).pos()), final(save).pos()),
    {
        proof {
            reveal(vector3_at);
        }
        let x = save.get_next_f32()?;
        let y = save.get_next_f32()?;
        let z = save.get_next_f32()?;
        Ok(Vector3 { x, y, z })
    }
}

impl Transform {
    pub fn deserialize(save: &mut TempSaveData) -> (r: Result<Transform, SaveError>)
        ensures
            final(save).data() == old(save).data(),
            outcome(r, transform_at(old(save).data(), old(save).pos()), final(save).pos()),
    {
        proof {
            reveal(transform_at);
        }
        let rotation = Quaternion::deserialize(save)?;
        let translation = Vector3::deserialize(save)?;
        let scale = Vector3::deserialize(save)?;
        Ok(Transform { rotation, translation, scale })
    }
}

} // verus!

verus! {

impl ActorRecord {
    #[verifier::loop_isolation(false)]
    pub fn deserialize(save: &mut TempSaveData) -> (r: Result<ActorRecord, SaveError>)
        ensures
            final(save).data() == old(save).data(),
            outcome(r, actor_record_at(old(save).data(), old(save).pos()), final(save).pos()),
    {
        proof {
            reveal(actor_record_at);
        }
        let ghost data = save.data();
        let object_index = save.get_next_i32()?;
        let child_actor_count = save.get_next_i32()?;
        let n: u32 = if child_actor_count < 0 { 0 } else { child_actor_count as u32 };
        let ghost start = save.pos();
        let mut child_actor_records: Vec<ChildActorRecord> = Vec::new();
        let mut i: u32 = 0;
        while i < n
            invariant
                save.data() == data,
                i <= n,
                repeat_at(i as nat, start, child_actor_record_item(data)) == Ok::<_, SaveError>((child_actor_records@, save.pos())),
            decreases n - i,
        {
            match ChildActorRecord::deserialize(save) {
                Ok(c) => child_actor_records.push(c),
                Err(e) => {
                    proof {
                        lemma_repeat_error(n as nat, (i + 1) as nat, start, child_actor_record_item(data));
                    }
                    return Err(e);
                },
            }
            i = i + 1;
        }
        let owned_component_count = save.get_next_i32()?;
        let m: u32 = if owned_component_count < 0 { 0 } else { owned_component_count as u32 };
        let ghost start2 = save.pos();
        let mut owned_components: Vec<ComponentRecord> = Vec::new();
        let mut j: u32 = 0;
        while j < m
            invariant
                save.data() == data,
                j <= m,
                repeat_at(j as nat, start2, component_record_item(data)) == Ok::<_, SaveError>((owned_components@, save.pos())),
            decreases m - j,
        {
            match ComponentRecord::deserialize(save) {
                Ok(c) => owned_components.push(c),
                Err(e) => {
                    proof {
                        lemma_repeat_error(m as nat, (j + 1) as nat, start2, component_record_item(data));
                    }
                    return Err(e);
                },
            }
            j = j + 1;
        }
        let root_transform = Transform::deserialize(save)?;
        Ok(ActorRecord {
            object_index,
            child_actor_count,
            child_actor_records,
            owned_component_count,
            owned_components,
            root_transform,
        })
    }
}

impl AstroSaveChunk {
    #[verifier::loop_isolation(false)]
    pub fn deserialize(save: &mut TempSaveData) -> (r: Result<AstroSaveChunk, SaveError>)
        ensures
            final(save).data() == old(save).data(),
            outcome(r, astro_save_chunk_at(old(save).data(), old(save).pos()), final(save).pos()),
    {
        proof {
            reveal(astro_save_chunk_at);
        }
        let ghost data = save.data();
        let astro_save_version = save.get_next_u32()?;
        let names = StringTable::deserialize(save)?;

        let object_records_count = save.get_next_u32()?;
        let ghost start = save.pos();
        let mut object_records: Vec<ObjectSaveRecord> = Vec::new();
        proof {
            assert(object_views(object_records@) =~= Seq::<ObjectSaveRecordModel>::empty());
        }
        let mut i: u32 = 0;
        while i < object_records_count
            invariant
                save.data() == data,
                i <= object_records_count,
                repeat_at(i as nat, start, object_save_record_item(data)) == Ok::<_, SaveError>((object_views(object_records@), save.pos())),
            decreases object_records_count - i,
        {
            match ObjectSaveRecord::deserialize(save) {
                Ok(o) => {
                    let ghost prev = object_records@;
                    let ghost v = o@;
                    object_records.push(o);
                    proof {
                        assert(object_views(object_records@) =~= object_views(prev).push(v));
                    }
                },
                Err(e) => {
                    proof {
                        lemma_repeat_error(object_records_count as nat, (i + 1) as nat, start, object_save_record_item(data));
                    }
                    return Err(e);
                },
            }
            i = i + 1;
        }

        let actor_records_count = save.get_next_u32()?;
        let ghost start2 = save.pos();
        let mut actor_records: Vec<ActorRecord> = Vec::new();
        proof {
            assert(actor_views(actor_records@) =~= Seq::<ActorRecordModel>::empty());
        }
        let mut j: u32 = 0;
        while j < actor_records_count
            invariant
                save.data() == data,
                j <= actor_records_count,
                repeat_at(j as nat, start2, actor_record_item(data)) == Ok::<_, SaveError>((actor_views(actor_records@), save.pos())),
            decreases actor_records_count - j,
        {
            match ActorRecord::deserialize(save) {
                Ok(a) => {
                    let ghost prev = actor_records@;
                    let ghost v = a@;
                    actor_records.push(a);
                    proof {
                        assert(actor_views(actor_records@) =~= actor_views(prev).push(v));
                    }
                },
                Err(e) => {
                    proof {
                        lemma_repeat_error(actor_records_count as nat, (j + 1) as nat, start2, actor_record_item(data));
                    }
                    return Err(e);
                },
            }
            j = j + 1;
        }

        let root_level_actor_indices_count = save.get_next_u32()?;
        let ghost start3 = save.pos();
        let mut root_level_actor_indices: Vec<i32> = Vec::new();
        let mut k: u32 = 0;
        while k < root_level_actor_indices_count
            invariant
                save.data() == data,
                k <= root_level_actor_indices_count,
                repeat_at(k as nat, start3, i32_item(data)) == Ok::<_, SaveError>((root_level_actor_indices@, save.pos())),
            decreases root_level_actor_indices_count - k,
        {
            match save.get_next_i32() {
                Ok(x) => root_level_actor_indices.push(x),
                Err(e) => {
                    proof {
                        lemma_repeat_error(root_level_actor_indices_count as nat, (k + 1) as nat, start3, i32_item(data));
                    }
                    return Err(e);
                },
            }
            k = k + 1;
        }
        let first_import_index = save.get_next_u32()?;
        Ok(AstroSaveChunk {
            astro_save_version,
            names,
            object_records_count,
            object_records,
            actor_records_count,
            actor_records,
            root_level_actor_indices_count,
            root_level_actor_indices,
            first_import_index,
        })
    }
}

impl PlayerControllerRecord {
    pub fn deserialize(save: &mut TempSaveData) -> (r: Result<PlayerControllerRecord, SaveError>)
        ensures
            final(save).data() == old(save).data(),
            outcome(r, player_controller_record_at(old(save).data(), old(save).pos()), final(save).pos()),
    {
        proof {
            reveal(player_controller_record_at);
        }
        let actor_index = save.get_next_u32()?;
        let last_controller_pawn = save.get_next_u32()?;
        let network_uuid = save.get_next_u64()?;
        Ok(PlayerControllerRecord { actor_index, last_controller_pawn, network_uuid })
    }
}

impl AstroLevelSaveChunk {
    #[verifier::loop_isolation(false)]
    pub fn deserialize(save: &mut TempSaveData) -> (r: Result<AstroLevelSaveChunk, SaveError>)
        ensures
            final(save).data() == old(save).data(),
            outcome(r, astro_level_save_chunk_at(old(save).data(), old(save).pos()), final(save).pos()),
    {
        proof {
            reveal(astro_level_save_chunk_at);
        }
        let ghost data = save.data();
        let astro_save_version = save.get_next_u32()?;
        let level_name = save.get_next_string()?;
        let chunk = AstroSaveChunk::deserialize(save)?;
        let count = save.get_next_i32()?;
        let n: u32 = if count < 0 { 0 } else { count as u32 };
        let ghost start = save.pos();
        let mut records: Vec<PlayerControllerRecord> = Vec::new();
        let mut i: u32 = 0;
        while i < n
            invariant
                save.data() == data,
                i <= n,
                repeat_at(i as nat, start, player_controller_record_item(data)) == Ok::<_, SaveError>((records@, save.pos())),
            decreases n - i,
        {
            match PlayerControllerRecord::deserialize(save) {
                Ok(p) => records.push(p),
                Err(e) => {
                    proof {
                        lemma_repeat_error(n as nat, (i + 1) as nat, start, player_controller_record_item(data));
                    }
                    return Err(e);
                },
            }
            i = i + 1;
        }
        Ok(AstroLevelSaveChunk {
            astro_save_version,
            level_name,
            data: chunk,
            player_controller_records_count: count,
            player_controller_records: records,
        })
    }
}

impl AstroRemotePlayerChunk {
    pub fn deserialize(save: &mut TempSaveData) -> (r: Result<AstroRemotePlayerChunk, SaveError>)
        ensures
            final(save).data() == old(save).data(),
            outcome(r, astro_remote_player_chunk_at(old(save).data(), old(save).pos()), final(save).pos()),
    {
        proof {
            reveal(astro_remote_player_chunk_at);
        }
        let data = AstroSaveChunk::deserialize(save)?;
        let network_uuid = save.get_next_u64()?;
        Ok(AstroRemotePlayerChunk { data, network_uuid })
    }
}

impl AstroSave {
    #[verifier::loop_isolation(false)]
    pub fn deserialize(save: &mut TempSaveData) -> (r: Result<AstroSave, SaveError>)
        ensures
            final(save).data() == old(save).data(),
            outcome(r, astro_save_at(old(save).data(), old(save).pos()), final(save).pos()),
    {
        proof {
            reveal(astro_save_at);
        }
        let ghost data = save.data();
        let level_chunk = AstroLevelSaveChunk::deserialize(save)?;
        let count = save.get_next_i32()?;
        let n: u32 = if count < 0 { 0 } else { count as u32 };
        let ghost start = save.pos();
        let mut chunks: Vec<AstroRemotePlayerChunk> = Vec::new();
        proof {
            assert(remote_chunk_views(chunks@) =~= Seq::<AstroRemotePlayerChunkModel>::empty());
        }
        let mut i: u32 = 0;
        while i < n
            invariant
                save.data() == data,
                i <= n,
                repeat_at(i as nat, start, astro_remote_player_chunk_item(data)) == Ok::<_, SaveError>((remote_chunk_views(chunks@), save.pos())),
            decreases n - i,
        {
            match AstroRemotePlayerChunk::deserialize(save) {
                Ok(c) => {
                    let ghost prev = chunks@;
                    let ghost v = c@;
                    chunks.push(c);
                    proof {
                        assert(remote_chunk_views(chunks@) =~= remote_chunk_views(prev).push(v));
                    }
                },
                Err(e) => {
                    proof {
                        lemma_repeat_error(n as nat, (i + 1) as nat, start, astro_remote_player_chunk_item(data));
                    }
                    return Err(e);
                },
            }
            i = i + 1;
        }
        Ok(AstroSave { level_chunk, remote_player_chunks_count: count, remote_player_chunks: chunks })
    }
}

impl DecompressedData {
    pub fn deserialize(save: &mut TempSaveData) -> (r: Result<DecompressedData, SaveError>)
        ensures
            final(save).data() == old(save).data(),
            outcome(r, decompressed_data_at(old(save).data(), old(save).pos()), final(save).pos()),
    {
        proof {
            reveal(decompressed_data_at);
        }
        let header = Header::deserialize(save)?;
        let astro_save = AstroSave::deserialize(save)?;
        Ok(DecompressedData { header, astro_save })
    }
}

} // verus!
