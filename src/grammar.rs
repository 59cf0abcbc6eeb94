use crate::error::SaveError;
use crate::reader::{bytes_at, i32_at, i64_at, string_at, u128_at, u32_at, u64_at, u8_at, u16_at};
use crate::records::{ActorRecordModel, AstroLevelSaveChunkModel, AstroRemotePlayerChunkModel, AstroSaveChunkModel, AstroSaveModel, ChildActorRecord, ComponentRecord, CustomFormatDataModel, CustomFormatDatum, DecompressedDataModel, EngineVersionModel, HeaderModel, ObjectSaveRecordModel, PlayerControllerRecord, Quaternion, StringTableModel, Transform, Vector3};
use vstd::prelude::*;

verus! {

/// `n` items read back to back from `pos`, each by `item`; the first failure
/// is the result.
pub open spec fn repeat_at<V>(n: nat, pos: int, item: spec_fn(int) -> Result<(V, int), SaveError>) -> Result<(Seq<V>, int), SaveError>
    decreases n,
{
    if n == 0 {
        Ok((Seq::empty(), pos))
    } else {
        match repeat_at((n - 1) as nat, pos, item) {
            Err(e) => Err(e),
            Ok((vs, p)) => match item(p) {
                Err(e) => Err(e),
                Ok((v, q)) => Ok((vs.push(v), q)),
            },
        }
    }
}

/// Once a prefix of the items fails, every longer run fails the same way.
pub proof fn lemma_repeat_error<V>(n: nat, m: nat, pos: int, item: spec_fn(int) -> Result<(V, int), SaveError>)
    requires
        m <= n,
        repeat_at(m, pos, item) is Err,
    ensures
        repeat_at(n, pos, item) == repeat_at(m, pos, item),
    decreases n,
{
    if n > m {
        lemma_repeat_error((n - 1) as nat, m, pos, item);
    }
}

/// A run of `n` items that succeeds holds exactly `n` items.
pub proof fn lemma_repeat_len<V>(n: nat, pos: int, item: spec_fn(int) -> Result<(V, int), SaveError>)
    requires
        repeat_at(n, pos, item) is Ok,
    ensures
        repeat_at(n, pos, item)->Ok_0.0.len() == n,
    decreases n,
{
    if n > 0 {
        lemma_repeat_len((n - 1) as nat, pos, item);
    }
}

/// How many items a signed count announces: none when it is negative.
pub open spec fn signed_count(count: int) -> nat {
    if count < 0 { 0 } else { count as nat }
}

/// Bit 2 of an object's save-flags: whether an explicit size follows.
pub open spec fn has_size(save_flags: u8) -> bool {
    save_flags & 4u8 != 0
}

#[verifier::opaque]
pub open spec fn engine_version_at(data: Seq<u8>, pos: int) -> Result<(EngineVersionModel, int), SaveError> {
    match u16_at(data, pos) {
        Err(e) => Err(e),
        Ok((major, at1)) => match u16_at(data, at1) {
            Err(e) => Err(e),
            Ok((minor, at2)) => match u16_at(data, at2) {
                Err(e) => Err(e),
                Ok((patch, at3)) => match u32_at(data, at3) {
                    Err(e) => Err(e),
                    Ok((build, at4)) => match string_at(data, at4) {
                        Err(e) => Err(e),
                        Ok((build_id, at5)) => Ok((EngineVersionModel { major, minor, patch, build, build_id }, at5)),
                    },
                },
            },
        },
    }
}

#[verifier::opaque]
pub open spec fn custom_format_datum_at(data: Seq<u8>, pos: int) -> Result<(CustomFormatDatum, int), SaveError> {
    match u128_at(data, pos) {
        Err(e) => Err(e),
        Ok((id, at1)) => match i32_at(data, at1) {
            Err(e) => Err(e),
            Ok((value, at2)) => Ok((CustomFormatDatum { id, value }, at2)),
        },
    }
}

pub open spec fn custom_format_datum_item(data: Seq<u8>) -> spec_fn(int) -> Result<(CustomFormatDatum, int), SaveError> {
    |p: int| custom_format_datum_at(data, p)
}

#[verifier::opaque]
pub open spec fn custom_format_data_at(data: Seq<u8>, pos: int) -> Result<(CustomFormatDataModel, int), SaveError> {
    match i32_at(data, pos) {
        Err(e) => Err(e),
        Ok((version, at1)) => match u32_at(data, at1) {
            Err(e) => Err(e),
            Ok((count, at2)) => match repeat_at(count as nat, at2, custom_format_datum_item(data)) {
                Err(e) => Err(e),
                Ok((items, at3)) => Ok((
                    CustomFormatDataModel { version, custom_format_count: count, custom_format_datum: items },
                    at3,
                )),
            },
        },
    }
}

#[verifier::opaque]
pub open spec fn header_at(data: Seq<u8>, pos: int) -> Result<(HeaderModel, int), SaveError> {
    match u32_at(data, pos) {
        Err(e) => Err(e),
        Ok((format_tag, at1)) => match i32_at(data, at1) {
            Err(e) => Err(e),
            Ok((save_game_version, at2)) => match i32_at(data, at2) {
                Err(e) => Err(e),
                Ok((package_version, at3)) => match engine_version_at(data, at3) {
                    Err(e) => Err(e),
                    Ok((engine_version, at4)) => match custom_format_data_at(data, at4) {
                        Err(e) => Err(e),
                        Ok((custom_format_data, at5)) => match string_at(data, at5) {
                            Err(e) => Err(e),
                            Ok((save_class, at6)) => match string_at(data, at6) {
                                Err(e) => Err(e),
                                Ok((end_of_header1, at7)) => match i32_at(data, at7) {
                                    Err(e) => Err(e),
                                    Ok((end_of_header2, at8)) => Ok((
                                        HeaderModel {
                                            format_tag,
                                            save_game_version,
                                            package_version,
                                            engine_version,
                                            custom_format_data,
                                            save_class,
                                            end_of_header1,
                                            end_of_header2,
                                        },
                                        at8,
                                    )),
                                },
                            },
                        },
                    },
                },
            },
        },
    }
}

/// How many strings a string table with stored count `count` holds.
pub open spec fn string_table_len(count: i64) -> nat {
    signed_count(count - 1)
}

pub open spec fn string_item(data: Seq<u8>) -> spec_fn(int) -> Result<(Seq<char>, int), SaveError> {
    |p: int| string_at(data, p)
}

#[verifier::opaque]
pub open spec fn string_table_at(data: Seq<u8>, pos: int) -> Result<(StringTableModel, int), SaveError> {
    match i64_at(data, pos) {
        Err(e) => Err(e),
        Ok((count, at1)) => match repeat_at(string_table_len(count), at1, string_item(data)) {
            Err(e) => Err(e),
            Ok((strings, at2)) => Ok((StringTableModel { count, strings }, at2)),
        },
    }
}

/// The payloads of an object after its fixed fields: `data` of
/// `custom_data_offset` bytes, then, when a size is given, `size -
/// custom_data_offset` bytes of custom data. A size below the offset is an
/// invalid record.
pub open spec fn object_payload_at(data: Seq<u8>, pos: int, sized: bool, size: u32, offset: u32) -> Result<((Seq<u8>, Seq<u8>), int), SaveError> {
    if sized && offset > size {
        Err(SaveError::InvalidRecord)
    } else {
        match bytes_at(data, pos, offset as int) {
            Err(e) => Err(e),
            Ok((body, at1)) => if sized {
                match bytes_at(data, at1, size - offset) {
                    Err(e) => Err(e),
                    Ok((custom, at2)) => Ok(((body, custom), at2)),
                }
            } else {
                Ok(((body, Seq::empty()), at1))
            },
        }
    }
}

#[verifier::opaque]
pub open spec fn object_save_record_at(data: Seq<u8>, pos: int) -> Result<(ObjectSaveRecordModel, int), SaveError> {
    match string_at(data, pos) {
        Err(e) => Err(e),
        Ok((object_type, at1)) => match i32_at(data, at1) {
            Err(e) => Err(e),
            Ok((name_index, at2)) => match u32_at(data, at2) {
                Err(e) => Err(e),
                Ok((flags, at3)) => match u8_at(data, at3) {
                    Err(e) => Err(e),
                    Ok((save_flags, at4)) => match i32_at(data, at4) {
                        Err(e) => Err(e),
                        Ok((outer_object_index, at5)) => match u32_at(data, at5) {
                            Err(e) => Err(e),
                            Ok((custom_data_offset, at6)) => match (if has_size(save_flags) {
                                u32_at(data, at6)
                            } else {
                                Ok((0u32, at6))
                            }) {
                                Err(e) => Err(e),
                                Ok((size, at7)) => match object_payload_at(data, at7, has_size(save_flags), size, custom_data_offset) {
                                    Err(e) => Err(e),
                                    Ok(((body, custom), at8)) => Ok((
                                        ObjectSaveRecordModel {
                                            object_type,
                                            name_index,
                                            flags,
                                            save_flags,
                                            outer_object_index,
                                            custom_data_offset,
                                            size,
                                            data: body,
                                            custom_data: custom,
                                        },
                                        at8,
                                    )),
                                },
                            },
                        },
                    },
                },
            },
        },
    }
}

pub open spec fn object_save_record_item(data: Seq<u8>) -> spec_fn(int) -> Result<(ObjectSaveRecordModel, int), SaveError> {
    |p: int| object_save_record_at(data, p)
}

#[verifier::opaque]
pub open spec fn child_actor_record_at(data: Seq<u8>, pos: int) -> Result<(ChildActorRecord, int), SaveError> {
    match i32_at(data, pos) {
        Err(e) => Err(e),
        Ok((name_index, at1)) => match i32_at(data, at1) {
            Err(e) => Err(e),
            Ok((actor_index, at2)) => Ok((ChildActorRecord { name_index, actor_index }, at2)),
        },
    }
}

pub open spec fn child_actor_record_item(data: Seq<u8>) -> spec_fn(int) -> Result<(ChildActorRecord, int), SaveError> {
    |p: int| child_actor_record_at(data, p)
}

#[verifier::opaque]
pub open spec fn component_record_at(data: Seq<u8>, pos: int) -> Result<(ComponentRecord, int), SaveError> {
    match i32_at(data, pos) {
        Err(e) => Err(e),
        Ok((name_index, at1)) => match i32_at(data, at1) {
            Err(e) => Err(e),
            Ok((object_index, at2)) => Ok((ComponentRecord { name_index, object_index }, at2)),
        },
    }
}

pub open spec fn component_record_item(data: Seq<u8>) -> spec_fn(int) -> Result<(ComponentRecord, int), SaveError> {
    |p: int| component_record_at(data, p)
}

#[verifier::opaque]
pub open spec fn quaternion_at(data: Seq<u8>, pos: int) -> Result<(Quaternion, int), SaveError> {
    match u32_at(data, pos) {
        Err(e) => Err(e),
        Ok((x, at1)) => match u32_at(data, at1) {
            Err(e) => Err(e),
            Ok((y, at2)) => match u32_at(data, at2) {
                Err(e) => Err(e),
                Ok((z, at3)) => match u32_at(data, at3) {
                    Err(e) => Err(e),
                    Ok((w, at4)) => Ok((Quaternion { x, y, z, w }, at4)),
                },
            },
        },
    }
}

#[verifier::opaque]
pub open spec fn vector3_at(data: Seq<u8>, pos: int) -> Result<(Vector3, int), SaveError> {
    match u32_at(data, pos) {
        Err(e) => Err(e),
        Ok((x, at1)) => match u32_at(data, at1) {
            Err(e) => Err(e),
            Ok((y, at2)) => match u32_at(data, at2) {
                Err(e) => Err(e),
                Ok((z, at3)) => Ok((Vector3 { x, y, z }, at3)),
            },
        },
    }
}

#[verifier::opaque]
pub open spec fn transform_at(data: Seq<u8>, pos: int) -> Result<(Transform, int), SaveError> {
    match quaternion_at(data, pos) {
        Err(e) => Err(e),
        Ok((rotation, at1)) => match vector3_at(data, at1) {
            Err(e) => Err(e),
            Ok((translation, at2)) => match vector3_at(data, at2) {
                Err(e) => Err(e),
                Ok((scale, at3)) => Ok((Transform { rotation, translation, scale }, at3)),
            },
        },
    }
}

#[verifier::opaque]
pub open spec fn actor_record_at(data: Seq<u8>, pos: int) -> Result<(ActorRecordModel, int), SaveError> {
    match i32_at(data, pos) {
        Err(e) => Err(e),
        Ok((object_index, at1)) => match i32_at(data, at1) {
            Err(e) => Err(e),
            Ok((child_actor_count, at2)) => match repeat_at(signed_count(child_actor_count as int), at2, child_actor_record_item(data)) {
                Err(e) => Err(e),
                Ok((child_actor_records, at3)) => match i32_at(data, at3) {
                    Err(e) => Err(e),
                    Ok((owned_component_count, at4)) => match repeat_at(signed_count(owned_component_count as int), at4, component_record_item(data)) {
                        Err(e) => Err(e),
                        Ok((owned_components, at5)) => match transform_at(data, at5) {
                            Err(e) => Err(e),
                            Ok((root_transform, at6)) => Ok((
                                ActorRecordModel {
                                    object_index,
                                    child_actor_count,
                                    child_actor_records,
                                    owned_component_count,
                                    owned_components,
                                    root_transform,
                                },
                                at6,
                            )),
                        },
                    },
                },
            },
        },
    }
}

pub open spec fn actor_record_item(data: Seq<u8>) -> spec_fn(int) -> Result<(ActorRecordModel, int), SaveError> {
    |p: int| actor_record_at(data, p)
}

pub open spec fn i32_item(data: Seq<u8>) -> spec_fn(int) -> Result<(i32, int), SaveError> {
    |p: int| i32_at(data, p)
}

#[verifier::opaque]
pub open spec fn astro_save_chunk_at(data: Seq<u8>, pos: int) -> Result<(AstroSaveChunkModel, int), SaveError> {
    match u32_at(data, pos) {
        Err(e) => Err(e),
        Ok((astro_save_version, at1)) => match string_table_at(data, at1) {
            Err(e) => Err(e),
            Ok((names, at2)) => match u32_at(data, at2) {
                Err(e) => Err(e),
                Ok((object_records_count, at3)) => match repeat_at(object_records_count as nat, at3, object_save_record_item(data)) {
                    Err(e) => Err(e),
                    Ok((object_records, at4)) => match u32_at(data, at4) {
                        Err(e) => Err(e),
                        Ok((actor_records_count, at5)) => match repeat_at(actor_records_count as nat, at5, actor_record_item(data)) {
                            Err(e) => Err(e),
                            Ok((actor_records, at6)) => match u32_at(data, at6) {
                                Err(e) => Err(e),
                                Ok((root_level_actor_indices_count, at7)) => match repeat_at(root_level_actor_indices_count as nat, at7, i32_item(data)) {
                                    Err(e) => Err(e),
                                    Ok((root_level_actor_indices, at8)) => match u32_at(data, at8) {
                                        Err(e) => Err(e),
                                        Ok((first_import_index, at9)) => Ok((
                                            AstroSaveChunkModel {
                                                astro_save_version,
                                                names,
                                                object_records_count,
                                                object_records,
                                                actor_records_count,
                                                actor_records,
                                                root_level_actor_indices_count,
                                                root_level_actor_indices,
                                                first_import_index,
                                            },
                                            at9,
                                        )),
                                    },
                                },
                            },
                        },
                    },
                },
            },
        },
    }
}

#[verifier::opaque]
pub open spec fn player_controller_record_at(data: Seq<u8>, pos: int) -> Result<(PlayerControllerRecord, int), SaveError> {
    match u32_at(data, pos) {
        Err(e) => Err(e),
        Ok((actor_index, at1)) => match u32_at(data, at1) {
            Err(e) => Err(e),
            Ok((last_controller_pawn, at2)) => match u64_at(data, at2) {
                Err(e) => Err(e),
                Ok((network_uuid, at3)) => Ok((PlayerControllerRecord { actor_index, last_controller_pawn, network_uuid }, at3)),
            },
        },
    }
}

pub open spec fn player_controller_record_item(data: Seq<u8>) -> spec_fn(int) -> Result<(PlayerControllerRecord, int), SaveError> {
    |p: int| player_controller_record_at(data, p)
}

#[verifier::opaque]
pub open spec fn astro_level_save_chunk_at(data: Seq<u8>, pos: int) -> Result<(AstroLevelSaveChunkModel, int), SaveError> {
    match u32_at(data, pos) {
        Err(e) => Err(e),
        Ok((astro_save_version, at1)) => match string_at(data, at1) {
            Err(e) => Err(e),
            Ok((level_name, at2)) => match astro_save_chunk_at(data, at2) {
                Err(e) => Err(e),
                Ok((chunk, at3)) => match i32_at(data, at3) {
                    Err(e) => Err(e),
                    Ok((count, at4)) => match repeat_at(signed_count(count as int), at4, player_controller_record_item(data)) {
                        Err(e) => Err(e),
                        Ok((records, at5)) => Ok((
                            AstroLevelSaveChunkModel {
                                astro_save_version,
                                level_name,
                                data: chunk,
                                player_controller_records_count: count,
                                player_controller_records: records,
                            },
                            at5,
                        )),
                    },
                },
            },
        },
    }
}

#[verifier::opaque]
pub open spec fn astro_remote_player_chunk_at(data: Seq<u8>, pos: int) -> Result<(AstroRemotePlayerChunkModel, int), SaveError> {
    match astro_save_chunk_at(data, pos) {
        Err(e) => Err(e),
        Ok((chunk, at1)) => match u64_at(data, at1) {
            Err(e) => Err(e),
            Ok((network_uuid, at2)) => Ok((AstroRemotePlayerChunkModel { data: chunk, network_uuid }, at2)),
        },
    }
}

pub open spec fn astro_remote_player_chunk_item(data: Seq<u8>) -> spec_fn(int) -> Result<(AstroRemotePlayerChunkModel, int), SaveError> {
    |p: int| astro_remote_player_chunk_at(data, p)
}

#[verifier::opaque]
pub open spec fn astro_save_at(data: Seq<u8>, pos: int) -> Result<(AstroSaveModel, int), SaveError> {
    match astro_level_save_chunk_at(data, pos) {
        Err(e) => Err(e),
        Ok((level_chunk, at1)) => match i32_at(data, at1) {
            Err(e) => Err(e),
            Ok((count, at2)) => match repeat_at(signed_count(count as int), at2, astro_remote_player_chunk_item(data)) {
                Err(e) => Err(e),
                Ok((chunks, at3)) => Ok((
                    AstroSaveModel { level_chunk, remote_player_chunks_count: count, remote_player_chunks: chunks },
                    at3,
                )),
            },
        },
    }
}

#[verifier::opaque]
pub open spec fn decompressed_data_at(data: Seq<u8>, pos: int) -> Result<(DecompressedDataModel, int), SaveError> {
    match header_at(data, pos) {
        Err(e) => Err(e),
        Ok((header, at1)) => match astro_save_at(data, at1) {
            Err(e) => Err(e),
            Ok((astro_save, at2)) => Ok((DecompressedDataModel { header, astro_save }, at2)),
        },
    }
}

} // verus!
