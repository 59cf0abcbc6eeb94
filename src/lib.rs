//! Decoder for compressed save files: a fixed opaque header, a zlib body, and
//! inside it a little-endian record tree read by a cursor that never reads past the end.
//!
//! `grammar` states, as spec functions over the decompressed bytes, what each
//! record decodes to and where it ends; the decoders in `decode` are proved to
//! return exactly that, or the first error on the way.

mod decode;
mod error;
mod grammar;
mod inflate;
mod laws;
mod le;
mod reader;
mod records;
mod save;

pub use error::SaveError;
pub use grammar::{
    actor_record_at, actor_record_item, astro_level_save_chunk_at, astro_remote_player_chunk_at,
    astro_remote_player_chunk_item, astro_save_at, astro_save_chunk_at, child_actor_record_at,
    child_actor_record_item, component_record_at, component_record_item, custom_format_data_at,
    custom_format_datum_at, custom_format_datum_item, decompressed_data_at, engine_version_at, has_size,
    header_at, i32_item, lemma_repeat_error, lemma_repeat_len, object_payload_at, object_save_record_at,
    object_save_record_item, player_controller_record_at, player_controller_record_item, quaternion_at,
    repeat_at, signed_count, string_item, string_table_at, string_table_len, transform_at, vector3_at,
};
pub use inflate::{body_of, zlib_inflate, HEADER_LEN};
pub use laws::{
    le_bytes, le_signed_bytes, lemma_le_bytes, lemma_le_signed_bytes, lemma_minimal_body_decodes, lemma_minimal_save_decodes, minimal_body, minimal_tree,
};
pub use le::{le_sint, le_uint};
pub use reader::{
    bytes_at, i16_at, i32_at, i64_at, outcome, string_at, u128_at, u16_at, u32_at, u64_at, u8_at, TempSaveData,
};
pub use records::{
    actor_views, object_views, remote_chunk_views, string_views, ActorRecord, ActorRecordModel,
    AstroLevelSaveChunk, AstroLevelSaveChunkModel, AstroRemotePlayerChunk, AstroRemotePlayerChunkModel, AstroSave,
    AstroSaveChunk, AstroSaveChunkModel, AstroSaveModel, ChildActorRecord, ComponentRecord, CustomFormatData,
    CustomFormatDataModel, CustomFormatDatum, DecompressedData, DecompressedDataModel, EngineVersion,
    EngineVersionModel, Header, HeaderModel, ObjectSaveRecord, ObjectSaveRecordModel, PlayerControllerRecord,
    Quaternion, StringTable, StringTableModel, Transform, Vector3,
};
pub use save::{decoded_save, Save};
