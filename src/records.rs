use vstd::prelude::*;

verus! {

/// The build of the engine that wrote the save.
#[derive(Debug)]
pub struct EngineVersion {
    pub major: u16,
    pub minor: u16,
    pub patch: u16,
    pub build: u32,
    pub build_id: String,
}

pub struct EngineVersionModel {
    pub major: u16,
    pub minor: u16,
    pub patch: u16,
    pub build: u32,
    pub build_id: Seq<char>,
}

impl View for EngineVersion {
    type V = EngineVersionModel;

    open spec fn view(&self) -> EngineVersionModel {
        EngineVersionModel {
            major: self.major,
            minor: self.minor,
            patch: self.patch,
            build: self.build,
            build_id: self.build_id@,
        }
    }
}

/// One entry of the custom-format table: a GUID and its value.
#[derive(Debug, Clone, Copy, PartialEq, Eq, Structural)]
pub struct CustomFormatDatum {
    pub id: u128,
    pub value: i32,
}

impl View for CustomFormatDatum {
    type V = CustomFormatDatum;

    open spec fn view(&self) -> CustomFormatDatum {
        *self
    }
}

/// The custom-format table.
#[derive(Debug)]
pub struct CustomFormatData {
    pub version: i32,
    pub custom_format_count: u32,
    pub custom_format_datum: Vec<CustomFormatDatum>,
}

pub struct CustomFormatDataModel {
    pub version: i32,
    pub custom_format_count: u32,
    pub custom_format_datum: Seq<CustomFormatDatum>,
}

impl View for CustomFormatData {
    type V = CustomFormatDataModel;

    open spec fn view(&self) -> CustomFormatDataModel {
        CustomFormatDataModel {
            version: self.version,
            custom_format_count: self.custom_format_count,
            custom_format_datum: self.custom_format_datum@,
        }
    }
}

/// File-format metadata at the start of the decompressed body.
#[derive(Debug)]
pub struct Header {
    pub format_tag: u32,
    pub save_game_version: i32,
    pub package_version: i32,
    pub engine_version: EngineVersion,
    pub custom_format_data: CustomFormatData,
    pub save_class: String,
    pub end_of_header1: String,
    pub end_of_header2: i32,
}

pub struct HeaderModel {
    pub format_tag: u32,
    pub save_game_version: i32,
    pub package_version: i32,
    pub engine_version: EngineVersionModel,
    pub custom_format_data: CustomFormatDataModel,
    pub save_class: Seq<char>,
    pub end_of_header1: Seq<char>,
    pub end_of_header2: i32,
}

impl View for Header {
    type V = HeaderModel;

    open spec fn view(&self) -> HeaderModel {
        HeaderModel {
            format_tag: self.format_tag,
            save_game_version: self.save_game_version,
            package_version: self.package_version,
            engine_version: self.engine_version@,
            custom_format_data: self.custom_format_data@,
            save_class: self.save_class@,
            end_of_header1: self.end_of_header1@,
            end_of_header2: self.end_of_header2,
        }
    }
}

/// The string pool of a chunk. Its stored count is one more than the number
/// of strings that follow it.
#[derive(Debug)]
pub struct StringTable {
    pub count: i64,
    pub strings: Vec<String>,
}

pub struct StringTableModel {
    pub count: i64,
    pub strings: Seq<Seq<char>>,
}

impl View for StringTable {
    type V = StringTableModel;

    open spec fn view(&self) -> StringTableModel {
        StringTableModel { count: self.count, strings: string_views(self.strings@) }
    }
}

/// One serialized game object with its two opaque payloads.
#[derive(Debug)]
pub struct ObjectSaveRecord {
    pub object_type: String,
    pub name_index: i32,
    pub flags: u32,
    pub save_flags: u8,
    pub outer_object_index: i32,
    pub custom_data_offset: u32,
    pub size: u32,
    pub data: Vec<u8>,
    pub custom_data: Vec<u8>,
}

pub struct ObjectSaveRecordModel {
    pub object_type: Seq<char>,
    pub name_index: i32,
    pub flags: u32,
    pub save_flags: u8,
    pub outer_object_index: i32,
    pub custom_data_offset: u32,
    pub size: u32,
    pub data: Seq<u8>,
    pub custom_data: Seq<u8>,
}

impl View for ObjectSaveRecord {
    type V = ObjectSaveRecordModel;

    open spec fn view(&self) -> ObjectSaveRecordModel {
        ObjectSaveRecordModel {
            object_type: self.object_type@,
            name_index: self.name_index,
            flags: self.flags,
            save_flags: self.save_flags,
            outer_object_index: self.outer_object_index,
            custom_data_offset: self.custom_data_offset,
            size: self.size,
            data: self.data@,
            custom_data: self.custom_data@,
        }
    }
}

/// A link from a name to a child actor, both by index.
#[derive(Debug, Clone, Copy, PartialEq, Eq, Structural)]
pub struct ChildActorRecord {
    pub name_index: i32,
    pub actor_index: i32,
}

impl View for ChildActorRecord {
    type V = ChildActorRecord;

    open spec fn view(&self) -> ChildActorRecord {
        *self
    }
}

/// A link from a name to an owned component object, both by index.
#[derive(Debug, Clone, Copy, PartialEq, Eq, Structural)]
pub struct ComponentRecord {
    pub name_index: i32,
    pub object_index: i32,
}

impl View for ComponentRecord {
    type V = ComponentRecord;

    open spec fn view(&self) -> ComponentRecord {
        *self
    }
}

/// A rotation quaternion; each component is the bit pattern of an `f32`.
#[derive(Debug, Clone, Copy, PartialEq, Eq, Structural)]
pub struct Quaternion {
    pub x: u32,
    pub y: u32,
    pub z: u32,
    pub w: u32,
}

impl View for Quaternion {
    type V = Quaternion;

    open spec fn view(&self) -> Quaternion {
        *self
    }
}

/// Three coordinates; each is the bit pattern of an `f32`.
#[derive(Debug, Clone, Copy, PartialEq, Eq, Structural)]
pub struct Vector3 {
    pub x: u32,
    pub y: u32,
    pub z: u32,
}

impl View for Vector3 {
    type V = Vector3;

    open spec fn view(&self) -> Vector3 {
        *self
    }
}

/// The placement of an actor: rotation, translation and scale.
#[derive(Debug, Clone, Copy, PartialEq, Eq, Structural)]
pub struct Transform {
    pub rotation: Quaternion,
    pub translation: Vector3,
    pub scale: Vector3,
}

impl View for Transform {
    type V = Transform;

    open spec fn view(&self) -> Transform {
        *self
    }
}

/// An actor: the object it stands on, its children and components by index,
/// and its root transform.
#[derive(Debug)]
pub struct ActorRecord {
    pub object_index: i32,
    pub child_actor_count: i32,
    pub child_actor_records: Vec<ChildActorRecord>,
    pub owned_component_count: i32,
    pub owned_components: Vec<ComponentRecord>,
    pub root_transform: Transform,
}

pub struct ActorRecordModel {
    pub object_index: i32,
    pub child_actor_count: i32,
    pub child_actor_records: Seq<ChildActorRecord>,
    pub owned_component_count: i32,
    pub owned_components: Seq<ComponentRecord>,
    pub root_transform: Transform,
}

impl View for ActorRecord {
    type V = ActorRecordModel;

    open spec fn view(&self) -> ActorRecordModel {
        ActorRecordModel {
            object_index: self.object_index,
            child_actor_count: self.child_actor_count,
            child_actor_records: self.child_actor_records@,
            owned_component_count: self.owned_component_count,
            owned_components: self.owned_components@,
            root_transform: self.root_transform,
        }
    }
}

/// A self-contained object graph: names, objects, actors and root actors.
#[derive(Debug)]
pub struct AstroSaveChunk {
    pub astro_save_version: u32,
    pub names: StringTable,
    pub object_records_count: u32,
    pub object_records: Vec<ObjectSaveRecord>,
    pub actor_records_count: u32,
    pub actor_records: Vec<ActorRecord>,
    pub root_level_actor_indices_count: u32,
    pub root_level_actor_indices: Vec<i32>,
    pub first_import_index: u32,
}

pub struct AstroSaveChunkModel {
    pub astro_save_version: u32,
    pub names: StringTableModel,
    pub object_records_count: u32,
    pub object_records: Seq<ObjectSaveRecordModel>,
    pub actor_records_count: u32,
    pub actor_records: Seq<ActorRecordModel>,
    pub root_level_actor_indices_count: u32,
    pub root_level_actor_indices: Seq<i32>,
    pub first_import_index: u32,
}

impl View for AstroSaveChunk {
    type V = AstroSaveChunkModel;

    open spec fn view(&self) -> AstroSaveChunkModel {
        AstroSaveChunkModel {
            astro_save_version: self.astro_save_version,
            names: self.names@,
            object_records_count: self.object_records_count,
            object_records: object_views(self.object_records@),
            actor_records_count: self.actor_records_count,
            actor_records: actor_views(self.actor_records@),
            root_level_actor_indices_count: self.root_level_actor_indices_count,
            root_level_actor_indices: self.root_level_actor_indices@,
            first_import_index: self.first_import_index,
        }
    }
}

/// A player controller of the level chunk.
#[derive(Debug, Clone, Copy, PartialEq, Eq, Structural)]
pub struct PlayerControllerRecord {
    pub actor_index: u32,
    pub last_controller_pawn: u32,
    pub network_uuid: u64,
}

impl View for PlayerControllerRecord {
    type V = PlayerControllerRecord;

    open spec fn view(&self) -> PlayerControllerRecord {
        *self
    }
}

/// The level's chunk and its player controllers.
#[derive(Debug)]
pub struct AstroLevelSaveChunk {
    pub astro_save_version: u32,
    pub level_name: String,
    pub data: AstroSaveChunk,
    pub player_controller_records_count: i32,
    pub player_controller_records: Vec<PlayerControllerRecord>,
}

pub struct AstroLevelSaveChunkModel {
    pub astro_save_version: u32,
    pub level_name: Seq<char>,
    pub data: AstroSaveChunkModel,
    pub player_controller_records_count: i32,
    pub player_controller_records: Seq<PlayerControllerRecord>,
}

impl View for AstroLevelSaveChunk {
    type V = AstroLevelSaveChunkModel;

    open spec fn view(&self) -> AstroLevelSaveChunkModel {
        AstroLevelSaveChunkModel {
            astro_save_version: self.astro_save_version,
            level_name: self.level_name@,
            data: self.data@,
            player_controller_records_count: self.player_controller_records_count,
            player_controller_records: self.player_controller_records@,
        }
    }
}

/// The chunk of one remote player.
#[derive(Debug)]
pub struct AstroRemotePlayerChunk {
    pub data: AstroSaveChunk,
    pub network_uuid: u64,
}

pub struct AstroRemotePlayerChunkModel {
    pub data: AstroSaveChunkModel,
    pub network_uuid: u64,
}

impl View for AstroRemotePlayerChunk {
    type V = AstroRemotePlayerChunkModel;

    open spec fn view(&self) -> AstroRemotePlayerChunkModel {
        AstroRemotePlayerChunkModel { data: self.data@, network_uuid: self.network_uuid }
    }
}

/// The save payload: the level chunk and the remote players' chunks.
#[derive(Debug)]
pub struct AstroSave {
    pub level_chunk: AstroLevelSaveChunk,
    pub remote_player_chunks_count: i32,
    pub remote_player_chunks: Vec<AstroRemotePlayerChunk>,
}

pub struct AstroSaveModel {
    pub level_chunk: AstroLevelSaveChunkModel,
    pub remote_player_chunks_count: i32,
    pub remote_player_chunks: Seq<AstroRemotePlayerChunkModel>,
}

impl View for AstroSave {
    type V = AstroSaveModel;

    open spec fn view(&self) -> AstroSaveModel {
        AstroSaveModel {
            level_chunk: self.level_chunk@,
            remote_player_chunks_count: self.remote_player_chunks_count,
            remote_player_chunks: remote_chunk_views(self.remote_player_chunks@),
        }
    }
}

/// The whole decompressed body: header, then save payload.
#[derive(Debug)]
pub struct DecompressedData {
    pub header: Header,
    pub astro_save: AstroSave,
}

pub struct DecompressedDataModel {
    pub header: HeaderModel,
    pub astro_save: AstroSaveModel,
}

impl View for DecompressedData {
    type V = DecompressedDataModel;

    open spec fn view(&self) -> DecompressedDataModel {
        DecompressedDataModel { header: self.header@, astro_save: self.astro_save@ }
    }
}

pub open spec fn string_views(v: Seq<String>) -> Seq<Seq<char>> {
    v.map_values(|s: String| s@)
}

pub open spec fn object_views(v: Seq<ObjectSaveRecord>) -> Seq<ObjectSaveRecordModel> {
    v.map_values(|o: ObjectSaveRecord| o@)
}

pub open spec fn actor_views(v: Seq<ActorRecord>) -> Seq<ActorRecordModel> {
    v.map_values(|a: ActorRecord| a@)
}

pub open spec fn remote_chunk_views(v: Seq<AstroRemotePlayerChunk>) -> Seq<AstroRemotePlayerChunkModel> {
    v.map_values(|c: AstroRemotePlayerChunk| c@)
}

} // verus!
