use crate::error::SaveError;
use crate::le::{le_sint, le_uint};
use crate::inflate::{zlib_inflate, HEADER_LEN};
use crate::save::decoded_save;
use crate::grammar::{
    astro_level_save_chunk_at, astro_save_at, astro_save_chunk_at, custom_format_data_at, decompressed_data_at,
    engine_version_at, header_at, repeat_at, string_table_at,
};
use crate::records::{
    AstroLevelSaveChunkModel, AstroSaveChunkModel, AstroSaveModel, CustomFormatDataModel, DecompressedDataModel,
    EngineVersionModel, HeaderModel, StringTableModel,
};
use crate::reader::{bytes_at, i32_at, i64_at, string_at, u16_at, u32_at};
use vstd::arithmetic::power2::{lemma2_to64, lemma2_to64_rest, lemma_pow2_adds, lemma_pow2_pos, pow2};
use vstd::prelude::*;
use vstd::utf8::{decode_utf8, valid_utf8};

verus! {

/// `v` written as `n` little-endian bytes.
pub open spec fn le_bytes(v: nat, n: nat) -> Seq<u8>
    decreases n,
{
    if n == 0 {
        Seq::empty()
    } else {
        seq![(v % 256) as u8] + le_bytes(v / 256, (n - 1) as nat)
    }
}

/// `v` written as `n` little-endian bytes in two's complement.
pub open spec fn le_signed_bytes(v: int, n: nat) -> Seq<u8> {
    le_bytes((if v < 0 { v + pow2(8 * n) } else { v }) as nat, n)
}

/// Reading back `n` written bytes gives the value written.
pub proof fn lemma_le_bytes(v: nat, n: nat)
    requires
        v < pow2(8 * n),
    ensures
        le_bytes(v, n).len() == n,
        le_uint(le_bytes(v, n)) == v,
    decreases n,
{
    lemma2_to64();
    if n > 0 {
        let m = (n - 1) as nat;
        lemma_pow2_adds(8, 8 * m);
        assert(8 + 8 * m == 8 * n);
        let p = pow2(8 * m);
        assert(v / 256 < p) by (nonlinear_arith)
            requires
                v < 256 * p,
        ;
        lemma_le_bytes(v / 256, m);
        let b = le_bytes(v, n);
        assert(b.drop_first() =~= le_bytes(v / 256, m));
    }
}

/// Reading back `n` bytes written in two's complement gives the value written.
pub proof fn lemma_le_signed_bytes(v: int, n: nat)
    requires
        n > 0,
        -pow2((8 * n - 1) as nat) <= v < pow2((8 * n - 1) as nat),
    ensures
        le_signed_bytes(v, n).len() == n,
        le_sint(le_signed_bytes(v, n)) == v,
{
    lemma2_to64();
    lemma_pow2_adds(1, (8 * n - 1) as nat);
    assert(1 + (8 * n - 1) as nat == 8 * n);
    let u = (if v < 0 { v + pow2(8 * n) } else { v }) as nat;
    lemma_le_bytes(u, n);
}

proof fn lemma_u16_at(data: Seq<u8>, pos: int, v: u16)
    requires
        0 <= pos,
        pos + 2 <= data.len(),
        data.subrange(pos, pos + 2) == le_bytes(v as nat, 2),
    ensures
        u16_at(data, pos) == Ok::<(u16, int), SaveError>((v, pos + 2)),
{
    lemma2_to64();
    lemma_le_bytes(v as nat, 2);
}

proof fn lemma_u32_at(data: Seq<u8>, pos: int, v: u32)
    requires
        0 <= pos,
        pos + 4 <= data.len(),
        data.subrange(pos, pos + 4) == le_bytes(v as nat, 4),
    ensures
        u32_at(data, pos) == Ok::<(u32, int), SaveError>((v, pos + 4)),
{
    lemma2_to64();
    lemma_le_bytes(v as nat, 4);
}

proof fn lemma_i32_at(data: Seq<u8>, pos: int, v: i32)
    requires
        0 <= pos,
        pos + 4 <= data.len(),
        data.subrange(pos, pos + 4) == le_signed_bytes(v as int, 4),
    ensures
        i32_at(data, pos) == Ok::<(i32, int), SaveError>((v, pos + 4)),
{
    lemma2_to64();
    lemma_le_signed_bytes(v as int, 4);
}

proof fn lemma_i64_zero_at(data: Seq<u8>, pos: int)
    requires
        0 <= pos,
        pos + 8 <= data.len(),
        data.subrange(pos, pos + 8) == le_bytes(0, 8),
    ensures
        i64_at(data, pos) == Ok::<(i64, int), SaveError>((0, pos + 8)),
{
    lemma2_to64();
    lemma2_to64_rest();
    lemma_le_bytes(0, 8);
    lemma_pow2_pos(63);
}

proof fn lemma_empty_string_at(data: Seq<u8>, pos: int)
    requires
        0 <= pos,
        pos + 4 <= data.len(),
        data.subrange(pos, pos + 4) == le_bytes(0, 4),
    ensures
        string_at(data, pos) == Ok::<(Seq<char>, int), SaveError>((Seq::empty(), pos + 4)),
{
    lemma2_to64();
    lemma_le_bytes(0, 4);
    lemma_pow2_pos(31);
    assert(i32_at(data, pos) == Ok::<(i32, int), SaveError>((0, pos + 4)));
    let b = data.subrange(pos + 4, pos + 4);
    assert(b =~= Seq::<u8>::empty());
    assert(valid_utf8(b));
    assert(decode_utf8(b) =~= Seq::<char>::empty());
}

/// The smallest body of a save: a header whose strings are empty and whose
/// custom-format table is empty, then a level chunk with an empty name, an
/// empty save chunk (no names, objects, actors or root actors) and no player
/// controllers, and no remote players.
pub open spec fn minimal_body(
    format_tag: u32,
    save_game_version: i32,
    package_version: i32,
    major: u16,
    minor: u16,
    patch: u16,
    build: u32,
    custom_version: i32,
    end_of_header2: i32,
    level_version: u32,
    chunk_version: u32,
    first_import_index: u32,
) -> Seq<u8> {
    le_bytes(format_tag as nat, 4) + le_signed_bytes(save_game_version as int, 4) + le_signed_bytes(
        package_version as int,
        4,
    ) + le_bytes(major as nat, 2) + le_bytes(minor as nat, 2) + le_bytes(patch as nat, 2) + le_bytes(build as nat, 4)
        + le_bytes(0, 4) + le_signed_bytes(custom_version as int, 4) + le_bytes(0, 4) + le_bytes(0, 4) + le_bytes(0, 4)
        + le_signed_bytes(end_of_header2 as int, 4) + le_bytes(level_version as nat, 4) + le_bytes(0, 4) + le_bytes(
        chunk_version as nat,
        4,
    ) + le_bytes(0, 8) + le_bytes(0, 4) + le_bytes(0, 4) + le_bytes(0, 4) + le_bytes(first_import_index as nat, 4)
        + le_bytes(0, 4) + le_bytes(0, 4)
}

/// The tree that a minimal body stands for.
pub open spec fn minimal_tree(
    format_tag: u32,
    save_game_version: i32,
    package_version: i32,
    major: u16,
    minor: u16,
    patch: u16,
    build: u32,
    custom_version: i32,
    end_of_header2: i32,
    level_version: u32,
    chunk_version: u32,
    first_import_index: u32,
) -> DecompressedDataModel {
    DecompressedDataModel {
        header: HeaderModel {
            format_tag,
            save_game_version,
            package_version,
            engine_version: EngineVersionModel { major, minor, patch, build, build_id: Seq::empty() },
            custom_format_data: CustomFormatDataModel {
                version: custom_version,
                custom_format_count: 0,
                custom_format_datum: Seq::empty(),
            },
            save_class: Seq::empty(),
            end_of_header1: Seq::empty(),
            end_of_header2,
        },
        astro_save: AstroSaveModel {
            level_chunk: AstroLevelSaveChunkModel {
                astro_save_version: level_version,
                level_name: Seq::empty(),
                data: AstroSaveChunkModel {
                    astro_save_version: chunk_version,
                    names: StringTableModel { count: 0, strings: Seq::empty() },
                    object_records_count: 0,
                    object_records: Seq::empty(),
                    actor_records_count: 0,
                    actor_records: Seq::empty(),
                    root_level_actor_indices_count: 0,
                    root_level_actor_indices: Seq::empty(),
                    first_import_index,
                },
                player_controller_records_count: 0,
                player_controller_records: Seq::empty(),
            },
            remote_player_chunks_count: 0,
            remote_player_chunks: Seq::empty(),
        },
    }
}

/// A minimal body decodes, in all of its 90 bytes, to a tree whose lists are
/// all empty and whose numbers are the ones written.
#[verifier::rlimit(100)]
pub proof fn lemma_minimal_body_decodes(
    format_tag: u32,
    save_game_version: i32,
    package_version: i32,
    major: u16,
    minor: u16,
    patch: u16,
    build: u32,
    custom_version: i32,
    end_of_header2: i32,
    level_version: u32,
    chunk_version: u32,
    first_import_index: u32,
)
    ensures
        decompressed_data_at(
            minimal_body(
                format_tag,
                save_game_version,
                package_version,
                major,
                minor,
                patch,
                build,
                custom_version,
                end_of_header2,
                level_version,
                chunk_version,
                first_import_index,
            ),
            0,
        ) == Ok::<(DecompressedDataModel, int), SaveError>((
            minimal_tree(
                format_tag,
                save_game_version,
                package_version,
                major,
                minor,
                patch,
                build,
                custom_version,
                end_of_header2,
                level_version,
                chunk_version,
                first_import_index,
            ),
            90,
        )),
{
    let d = minimal_body(
        format_tag,
        save_game_version,
        package_version,
        major,
        minor,
        patch,
        build,
        custom_version,
        end_of_header2,
        level_version,
        chunk_version,
        first_import_index,
    );
    lemma2_to64();
    lemma_le_bytes(0, 4);
    lemma_le_bytes(0, 8);
    lemma_le_bytes(format_tag as nat, 4);
    lemma_le_bytes(major as nat, 2);
    lemma_le_bytes(minor as nat, 2);
    lemma_le_bytes(patch as nat, 2);
    lemma_le_bytes(build as nat, 4);
    lemma_le_bytes(level_version as nat, 4);
    lemma_le_bytes(chunk_version as nat, 4);
    lemma_le_bytes(first_import_index as nat, 4);
    lemma_le_signed_bytes(save_game_version as int, 4);
    lemma_le_signed_bytes(package_version as int, 4);
    lemma_le_signed_bytes(custom_version as int, 4);
    lemma_le_signed_bytes(end_of_header2 as int, 4);
    assert(d.len() == 90);
    assert(d.subrange(0, 4) =~= le_bytes(format_tag as nat, 4));
    assert(d.subrange(4, 8) =~= le_signed_bytes(save_game_version as int, 4));
    assert(d.subrange(8, 12) =~= le_signed_bytes(package_version as int, 4));
    assert(d.subrange(12, 14) =~= le_bytes(major as nat, 2));
    assert(d.subrange(14, 16) =~= le_bytes(minor as nat, 2));
    assert(d.subrange(16, 18) =~= le_bytes(patch as nat, 2));
    assert(d.subrange(18, 22) =~= le_bytes(build as nat, 4));
    assert(d.subrange(22, 26) =~= le_bytes(0, 4));
    assert(d.subrange(26, 30) =~= le_signed_bytes(custom_version as int, 4));
    assert(d.subrange(30, 34) =~= le_bytes(0, 4));
    assert(d.subrange(34, 38) =~= le_bytes(0, 4));
    assert(d.subrange(38, 42) =~= le_bytes(0, 4));
    assert(d.subrange(42, 46) =~= le_signed_bytes(end_of_header2 as int, 4));
    assert(d.subrange(46, 50) =~= le_bytes(level_version as nat, 4));
    assert(d.subrange(50, 54) =~= le_bytes(0, 4));
    assert(d.subrange(54, 58) =~= le_bytes(chunk_version as nat, 4));
    assert(d.subrange(58, 66) =~= le_bytes(0, 8));
    assert(d.subrange(66, 70) =~= le_bytes(0, 4));
    assert(d.subrange(70, 74) =~= le_bytes(0, 4));
    assert(d.subrange(74, 78) =~= le_bytes(0, 4));
    assert(d.subrange(78, 82) =~= le_bytes(first_import_index as nat, 4));
    assert(d.subrange(82, 86) =~= le_bytes(0, 4));
    assert(d.subrange(86, 90) =~= le_bytes(0, 4));
    lemma_u32_at(d, 0, format_tag);
    lemma_i32_at(d, 4, save_game_version);
    lemma_i32_at(d, 8, package_version);
    lemma_u16_at(d, 12, major);
    lemma_u16_at(d, 14, minor);
    lemma_u16_at(d, 16, patch);
    lemma_u32_at(d, 18, build);
    lemma_empty_string_at(d, 22);
    lemma_i32_at(d, 26, custom_version);
    lemma_u32_at(d, 30, 0);
    lemma_empty_string_at(d, 34);
    lemma_empty_string_at(d, 38);
    lemma_i32_at(d, 42, end_of_header2);
    lemma_u32_at(d, 46, level_version);
    lemma_empty_string_at(d, 50);
    lemma_u32_at(d, 54, chunk_version);
    lemma_i64_zero_at(d, 58);
    lemma_u32_at(d, 66, 0);
    lemma_u32_at(d, 70, 0);
    lemma_u32_at(d, 74, 0);
    lemma_u32_at(d, 78, first_import_index);
    lemma_i32_at(d, 82, 0);
    lemma_i32_at(d, 86, 0);
    reveal(engine_version_at);
    reveal(custom_format_data_at);
    reveal(header_at);
    reveal(string_table_at);
    reveal(astro_save_chunk_at);
    reveal(astro_level_save_chunk_at);
    reveal(astro_save_at);
    reveal(decompressed_data_at);
}

/// A file whose body, after the opaque header, inflates to a minimal body
/// decodes to the tree that the body stands for.
pub proof fn lemma_minimal_save_decodes(
    file: Seq<u8>,
    format_tag: u32,
    save_game_version: i32,
    package_version: i32,
    major: u16,
    minor: u16,
    patch: u16,
    build: u32,
    custom_version: i32,
    end_of_header2: i32,
    level_version: u32,
    chunk_version: u32,
    first_import_index: u32,
)
    requires
        file.len() >= HEADER_LEN,
        zlib_inflate(file.subrange(HEADER_LEN as int, file.len() as int)) == Some(
            minimal_body(
                format_tag,
                save_game_version,
                package_version,
                major,
                minor,
                patch,
                build,
                custom_version,
                end_of_header2,
                level_version,
                chunk_version,
                first_import_index,
            ),
        ),
    ensures
        decoded_save(file) == Ok::<DecompressedDataModel, SaveError>(
            minimal_tree(
                format_tag,
                save_game_version,
                package_version,
                major,
                minor,
                patch,
                build,
                custom_version,
                end_of_header2,
                level_version,
                chunk_version,
                first_import_index,
            ),
        ),
{
    lemma_minimal_body_decodes(
        format_tag,
        save_game_version,
        package_version,
        major,
        minor,
        patch,
        build,
        custom_version,
        end_of_header2,
        level_version,
        chunk_version,
        first_import_index,
    );
}

} // verus!
