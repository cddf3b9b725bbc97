//! Patches (ZiPatch files): where the files they touch are, and the empty blocks they leave.
use vstd::prelude::*;
use crate::bytes::{
    push_u32_le, read_u16_be, read_u32_be, read_u32_le, read_u64_be, read_u64_le, u16_be, u32_be,
    u32_le, u64_be, u64_le,
};
use crate::common::{platform_shortname, Platform};
use crate::decimal::{fmt_nat, push_nat, zeros};
use crate::resource::sqpack::{join, join_path};
use crate::text::{chars_of, push_str, string_from_chars, text_from_utf8};
use vstd::utf8::{decode_utf8, valid_utf8};

verus! {

/// Errors emitted in the patching process.
#[derive(Debug, PartialEq, Eq, Structural, Clone, Copy)]
pub enum PatchError {
    /// Failed to read parts of the file.
    InvalidPatchFile,
    /// Failed to parse the patch format.
    ParseError,
}

/// The folder of an expansion: "ffxiv" for the base game, else "ex" and its number.
pub open spec fn expansion_folder(id: u16) -> Seq<char> {
    if id == 0 {
        "ffxiv"@
    } else {
        "ex"@ + fmt_nat(id as nat)
    }
}

/// The folder of an expansion.
pub fn get_expansion_folder(id: u16) -> (r: String)
    ensures
        r@ == expansion_folder(id),
{
    if id == 0 {
        string_from_chars(&chars_of("ffxiv"))
    } else {
        let mut out = chars_of("ex");
        push_nat(&mut out, id as u64);
        string_from_chars(&out)
    }
}

/// The folder of the expansion that a sub ID belongs to: the one of its high byte.
pub fn get_expansion_folder_sub(sub_id: u16) -> (r: String)
    ensures
        r@ == expansion_folder(sub_id >> 8u16),
{
    let expansion_id = sub_id >> 8u16;
    get_expansion_folder(expansion_id)
}

/// The lower-case hexadecimal digit of `n < 16`.
pub open spec fn hex_char(n: nat) -> char {
    if n < 10 {
        ((('0' as int) + n) as char)
    } else {
        ((('a' as int) + n - 10) as char)
    }
}

/// The shortest lower-case hexadecimal text of `n`.
pub open spec fn hex_text(n: nat) -> Seq<char>
    decreases n,
{
    if n < 16 {
        seq![hex_char(n)]
    } else {
        hex_text(n / 16).push(hex_char(n % 16))
    }
}

/// The lower-case hexadecimal text of `n` padded with zeros to at least `width` characters,
/// as the format `{:0width$x}` writes it.
pub open spec fn hex_padded(n: nat, width: nat) -> Seq<char> {
    zeros(width - hex_text(n).len()) + hex_text(n)
}

/// The name of a data file: the main ID in two hexadecimal digits, the sub ID in four, the
/// platform, and the file ID after ".dat".
pub open spec fn dat_file_name(platform: Platform, main_id: u16, sub_id: u16, file_id: u32) -> Seq<
    char,
> {
    hex_padded(main_id as nat, 2) + hex_padded(sub_id as nat, 4) + "."@ + platform_shortname(
        platform,
    ) + ".dat"@ + fmt_nat(file_id as nat)
}

/// The name of an index file: as a data file's, with ".index" and the file ID unless it is
/// zero.
pub open spec fn index_file_name(platform: Platform, main_id: u16, sub_id: u16, file_id: u32) -> Seq<
    char,
> {
    hex_padded(main_id as nat, 2) + hex_padded(sub_id as nat, 4) + "."@ + platform_shortname(
        platform,
    ) + ".index"@ + if file_id != 0 {
        fmt_nat(file_id as nat)
    } else {
        ""@
    }
}

/// Where a file of a patch goes: `sqpack`, then the folder of the expansion of the sub ID, in
/// the data directory.
pub open spec fn patch_file_path(data_dir: Seq<char>, sub_id: u16, name: Seq<char>) -> Seq<char> {
    join_path(join_path(join_path(data_dir, "sqpack"@), expansion_folder(sub_id >> 8u16)), name)
}

/// The lower-case hexadecimal digit of `n < 16`.
fn hex_digit_char(n: u32) -> (c: char)
    requires
        n < 16,
    ensures
        c == hex_char(n as nat),
{
    if n < 10 {
        ((48u8 + n as u8) as char)
    } else {
        ((97u8 + n as u8 - 10) as char)
    }
}

/// Appends the shortest lower-case hexadecimal text of `n`.
fn push_hex(out: &mut Vec<char>, n: u32)
    ensures
        final(out)@ == old(out)@ + hex_text(n as nat),
    decreases n,
{
    if n >= 16 {
        push_hex(out, n / 16);
    }
    out.push(hex_digit_char(n % 16));
    assert(n >= 16 ==> hex_text(n as nat) == hex_text((n / 16) as nat).push(hex_char((n % 16) as nat)));
}

/// Appends the hexadecimal text of `n` padded with zeros to at least `width` characters.
fn push_hex_padded(out: &mut Vec<char>, n: u32, width: usize)
    ensures
        final(out)@ == old(out)@ + hex_padded(n as nat, width as nat),
{
    let mut digits: Vec<char> = Vec::new();
    push_hex(&mut digits, n);
    assert(digits@ =~= hex_text(n as nat));
    let ghost start = out@;
    let pad: usize = if width > digits.len() {
        width - digits.len()
    } else {
        0
    };
    let mut k: usize = 0;
    while k < pad
        invariant
            k <= pad,
            out@ == start + Seq::new(k as nat, |i: int| '0'),
        decreases pad - k,
    {
        out.push('0');
        k = k + 1;
        assert(out@ =~= start + Seq::new(k as nat, |i: int| '0'));
    }
    assert(Seq::new(pad as nat, |i: int| '0') =~= zeros(width - hex_text(n as nat).len()));
    out.append(&mut digits);
    assert(out@ =~= start + hex_padded(n as nat, width as nat));
}

/// The start of a file name: the main and sub IDs, and the platform.
fn push_file_stem(out: &mut Vec<char>, platform: Platform, main_id: u16, sub_id: u16)
    ensures
        final(out)@ == old(out)@ + hex_padded(main_id as nat, 2) + hex_padded(sub_id as nat, 4)
            + "."@ + platform_shortname(platform),
{
    push_hex_padded(out, main_id as u32, 2);
    push_hex_padded(out, sub_id as u32, 4);
    push_str(out, ".");
    push_str(out, platform.shortname());
    assert(final(out)@ =~= old(out)@ + hex_padded(main_id as nat, 2) + hex_padded(sub_id as nat, 4)
        + "."@ + platform_shortname(platform));
}

/// Where a file of a patch named `name` goes.
fn file_path(data_dir: &str, sub_id: u16, name: &Vec<char>) -> (r: String)
    ensures
        r@ == patch_file_path(data_dir@, sub_id, name@),
{
    let sqpack = join(&chars_of(data_dir), &chars_of("sqpack"));
    let folder = get_expansion_folder_sub(sub_id);
    let dir = join(&sqpack, &chars_of(folder.as_str()));
    string_from_chars(&join(&dir, name))
}

/// The path of the data file that a patch writes to.
pub fn get_dat_path(data_dir: &str, platform: Platform, main_id: u16, sub_id: u16, file_id: u32) -> (r:
    String)
    ensures
        r@ == patch_file_path(data_dir@, sub_id, dat_file_name(platform, main_id, sub_id, file_id)),
{
    let mut name: Vec<char> = Vec::new();
    push_file_stem(&mut name, platform, main_id, sub_id);
    push_str(&mut name, ".dat");
    push_nat(&mut name, file_id as u64);
    assert(name@ =~= dat_file_name(platform, main_id, sub_id, file_id));
    file_path(data_dir, sub_id, &name)
}

/// The path of the index file that a patch writes to.
pub fn get_index_path(data_dir: &str, platform: Platform, main_id: u16, sub_id: u16, file_id: u32) -> (r:
    String)
    ensures
        r@ == patch_file_path(data_dir@, sub_id, index_file_name(platform, main_id, sub_id, file_id)),
{
    let mut name: Vec<char> = Vec::new();
    push_file_stem(&mut name, platform, main_id, sub_id);
    push_str(&mut name, ".index");
    if file_id != 0 {
        push_nat(&mut name, file_id as u64);
    }
    proof {
        reveal_strlit("");
    }
    assert(name@ =~= index_file_name(platform, main_id, sub_id, file_id));
    file_path(data_dir, sub_id, &name)
}

/// The header of an empty block run of `block_number` blocks of 128 bytes, as a patch writes
/// it where data was deleted: the block size, two zeros, the number of blocks after the
/// first, and a zero, each as a little-endian 32-bit number.
pub open spec fn empty_block_header(block_number: u64) -> Seq<u8> {
    crate::bytes::u32_le_bytes(128) + crate::bytes::u32_le_bytes(0) + crate::bytes::u32_le_bytes(0)
        + crate::bytes::u32_le_bytes((block_number - 1) as u32) + crate::bytes::u32_le_bytes(0)
}

/// The header of an empty block run; the run itself, `block_number` times 128 bytes, is
/// zeroed first.
pub fn empty_file_block_header(block_number: u64) -> (r: Vec<u8>)
    requires
        1 <= block_number <= i32::MAX + 1,
    ensures
        r@ == empty_block_header(block_number),
{
    let mut out: Vec<u8> = Vec::new();
    push_u32_le(&mut out, 128);
    push_u32_le(&mut out, 0);
    push_u32_le(&mut out, 0);
    push_u32_le(&mut out, (block_number - 1) as u32);
    push_u32_le(&mut out, 0);
    assert(out@ =~= empty_block_header(block_number));
    out
}


// ---------------------------------------------------------------------------
// The chunks of a patch file.
// ---------------------------------------------------------------------------

/// The size of the header of a patch file.
pub const PATCH_HEADER_SIZE: usize = 12;

/// The option an apply option chunk sets.
#[derive(Debug, PartialEq, Eq, Structural, Clone, Copy)]
pub enum ApplyOption {
    /// Missing files are ignored.
    IgnoreMissing,
    /// Mismatches with old files are ignored.
    IgnoreOldMismatch,
}

/// An apply option chunk.
#[derive(Debug, PartialEq, Eq, Structural, Clone, Copy)]
pub struct ApplyOptionChunk {
    /// The option.
    pub option: ApplyOption,
    /// Its value.
    pub value: u32,
}

/// A file header chunk, of either version; its name is the four bytes at `name_offset` in the
/// patch file.
#[derive(Debug, PartialEq, Eq, Structural, Clone, Copy)]
pub enum FileHeaderChunk {
    /// The second version.
    Version2 { name_offset: usize, depot_hash: u32 },
    /// The third version.
    Version3 {
        name_offset: usize,
        entry_files: u32,
        add_directories: u32,
        delete_directories: u32,
        delete_data_size: u32,
        delete_data_size_2: u32,
        minor_version: u32,
        repository_name: u32,
        commands: u32,
        sqpk_add_commands: u32,
        sqpk_delete_commands: u32,
        sqpk_expand_commands: u32,
        sqpk_header_commands: u32,
        sqpk_file_commands: u32,
    },
}

/// A directory chunk; its name is the `name_length` bytes at `name_offset` in the patch file.
#[derive(Debug, PartialEq, Eq, Structural, Clone, Copy)]
pub struct DirectoryChunk {
    /// Where the name is.
    pub name_offset: usize,
    /// How long it is.
    pub name_length: u32,
}

/// Data to add to a data file; the data are the `block_number` bytes at `data_offset` in the
/// patch file.
#[derive(Debug, PartialEq, Eq, Structural, Clone, Copy)]
pub struct SqpkAddData {
    /// The main ID of the data file.
    pub main_id: u16,
    /// Its sub ID.
    pub sub_id: u16,
    /// Its file ID.
    pub file_id: u32,
    /// Where the data go in the file, in bytes.
    pub block_offset: u64,
    /// How many bytes the data take.
    pub block_number: u64,
    /// How many zero bytes follow them.
    pub block_delete_number: u64,
    /// Where the data are in the patch file.
    pub data_offset: usize,
}

/// Blocks of a data file to empty.
#[derive(Debug, PartialEq, Eq, Structural, Clone, Copy)]
pub struct SqpkDeleteData {
    /// The main ID of the data file.
    pub main_id: u16,
    /// Its sub ID.
    pub sub_id: u16,
    /// Its file ID.
    pub file_id: u32,
    /// Where the blocks start in the file, in bytes.
    pub block_offset: u64,
    /// How many blocks of 128 bytes there are.
    pub block_number: u32,
}

/// An operation on a whole file.
#[derive(Debug, PartialEq, Eq, Structural, Clone, Copy)]
pub enum SqpkFileOperation {
    /// Add a file, from the data blocks that follow.
    AddFile,
    /// Remove the folder of an expansion.
    RemoveAll,
    /// Delete a file.
    DeleteFile,
    /// Make the directories of a path.
    MakeDirTree,
}

/// An operation on a file; its path is the `path_length` bytes at `path_offset` in the patch
/// file, of which the last ends it.
#[derive(Debug, PartialEq, Eq, Structural, Clone, Copy)]
pub struct SqpkFileOperationData {
    /// The operation.
    pub operation: SqpkFileOperation,
    /// Where in the file an added file's data go.
    pub offset: u64,
    /// The size of an added file.
    pub file_size: u64,
    /// The expansion whose folder is removed.
    pub expansion_id: u16,
    /// Where the path is in the patch file.
    pub path_offset: usize,
    /// How many bytes it takes, with the one that ends it.
    pub path_length: u32,
}

/// The kind of file whose header is updated.
#[derive(Debug, PartialEq, Eq, Structural, Clone, Copy)]
pub enum TargetFileKind {
    /// A data file.
    Dat,
    /// An index file.
    Index,
}

/// The header that is updated.
#[derive(Debug, PartialEq, Eq, Structural, Clone, Copy)]
pub enum TargetHeaderKind {
    /// The version header.
    Version,
    /// The index header.
    Index,
    /// The data header.
    Data,
}

/// A header to write; it is the 1024 bytes at `header_offset` in the patch file.
#[derive(Debug, PartialEq, Eq, Structural, Clone, Copy)]
pub struct SqpkHeaderUpdateData {
    /// The kind of file.
    pub file_kind: TargetFileKind,
    /// The header to write.
    pub header_kind: TargetHeaderKind,
    /// The main ID of the file.
    pub main_id: u16,
    /// Its sub ID.
    pub sub_id: u16,
    /// Its file ID.
    pub file_id: u32,
    /// Where the header is in the patch file.
    pub header_offset: usize,
}

/// Information on the patch.
#[derive(Debug, PartialEq, Eq, Structural, Clone, Copy)]
pub struct SqpkPatchInfo {
    /// The status.
    pub status: u8,
    /// The version.
    pub version: u8,
    /// The size of the installation.
    pub install_size: u64,
}

/// What the patch is for; its region is kept as the two bytes that store it.
#[derive(Debug, PartialEq, Eq, Structural, Clone, Copy)]
pub struct SqpkTargetInfo {
    /// The platform of the files the patch touches.
    pub platform: Platform,
    /// The region.
    pub region: u16,
    /// Whether the patch is for a debug build.
    pub is_debug: bool,
    /// The version.
    pub version: u16,
    /// The size of the data deleted.
    pub deleted_data_size: u64,
    /// The number of seeks.
    pub seek_count: u64,
}

/// A command on an index.
#[derive(Debug, PartialEq, Eq, Structural, Clone, Copy)]
pub enum SqpkIndexCommand {
    /// Add an entry.
    Add,
    /// Delete an entry.
    Delete,
}

/// An index command.
#[derive(Debug, PartialEq, Eq, Structural, Clone, Copy)]
pub struct SqpkIndex {
    /// The command.
    pub command: SqpkIndexCommand,
    /// Whether the entry is a synonym.
    pub is_synonym: bool,
    /// The hash of the file.
    pub file_hash: u64,
    /// Where its blocks start.
    pub block_offset: u32,
    /// How many blocks it has.
    pub block_number: u32,
}

/// The operation of a SQPK chunk.
#[derive(Debug, PartialEq, Eq, Structural, Clone, Copy)]
pub enum SqpkOperation {
    /// Data to add to a data file (`A`).
    AddData(SqpkAddData),
    /// Blocks of a data file to empty (`D`).
    DeleteData(SqpkDeleteData),
    /// Blocks of a data file to add, empty (`E`).
    ExpandData(SqpkDeleteData),
    /// An operation on a file (`F`).
    FileOperation(SqpkFileOperationData),
    /// A header to write (`H`).
    HeaderUpdate(SqpkHeaderUpdateData),
    /// Information on the patch (`X`).
    PatchInfo(SqpkPatchInfo),
    /// What the patch is for (`T`).
    TargetInfo(SqpkTargetInfo),
    /// An index command (`I`).
    Index(SqpkIndex),
}

/// A SQPK chunk.
#[derive(Debug, PartialEq, Eq, Structural, Clone, Copy)]
pub struct SqpkChunk {
    /// Its size.
    pub size: u32,
    /// Its operation.
    pub operation: SqpkOperation,
}

/// The kind of a chunk, with its contents.
#[derive(Debug, PartialEq, Eq, Structural, Clone, Copy)]
pub enum ChunkType {
    /// The header of the patch file (`FHDR`).
    FileHeader(FileHeaderChunk),
    /// An option for applying the patch (`APLY`).
    ApplyOption(ApplyOptionChunk),
    /// A directory to add (`ADIR`).
    AddDirectory(DirectoryChunk),
    /// A directory to delete (`DELD`).
    DeleteDirectory(DirectoryChunk),
    /// An operation on the game's files (`SQPK`).
    Sqpk(SqpkChunk),
    /// The end of the patch file (`EOF_`).
    EndOfFile,
}

/// A chunk of a patch file.
#[derive(Debug, PartialEq, Eq, Structural, Clone, Copy)]
pub struct PatchChunk {
    /// Its size.
    pub size: u32,
    /// Its kind and contents.
    pub chunk_type: ChunkType,
    /// Its checksum; zero for the chunk that ends the file, which has none.
    pub crc32: u32,
}

/// Whether `b` starts as a patch file does: a byte, then `ZIPATCH`. Four more bytes are
/// skipped; the chunks start at `PATCH_HEADER_SIZE`.
pub open spec fn patch_header_valid(b: Seq<u8>) -> bool {
    b.len() >= 8 && b.subrange(1, 8) == seq![0x5Au8, 0x49u8, 0x50u8, 0x41u8, 0x54u8, 0x43u8, 0x48u8]
}

/// The file header chunk whose version byte is at `p`, with the position after it.
pub open spec fn file_header_at(b: Seq<u8>, p: int) -> Option<(FileHeaderChunk, int)> {
    if p < 0 || p + 1 > b.len() {
        None
    } else if b[p] == 2 {
        if p + 17 > b.len() {
            None
        } else {
            Some((FileHeaderChunk::Version2 { name_offset: (p + 1) as usize, depot_hash: u32_be(b, p + 13) }, p + 17))
        }
    } else if b[p] == 3 {
        if p + 57 > b.len() {
            None
        } else {
            Some(
                (
                    FileHeaderChunk::Version3 {
                        name_offset: (p + 1) as usize,
                        entry_files: u32_be(b, p + 5),
                        add_directories: u32_be(b, p + 9),
                        delete_directories: u32_be(b, p + 13),
                        delete_data_size: u32_be(b, p + 17),
                        delete_data_size_2: u32_be(b, p + 21),
                        minor_version: u32_be(b, p + 25),
                        repository_name: u32_be(b, p + 29),
                        commands: u32_be(b, p + 33),
                        sqpk_add_commands: u32_be(b, p + 37),
                        sqpk_delete_commands: u32_be(b, p + 41),
                        sqpk_expand_commands: u32_be(b, p + 45),
                        sqpk_header_commands: u32_be(b, p + 49),
                        sqpk_file_commands: u32_be(b, p + 53),
                    },
                    p + 57 + 0xB8,
                ),
            )
        }
    } else {
        None
    }
}

/// The apply option chunk at `p`, with the position after it.
pub open spec fn apply_option_at(b: Seq<u8>, p: int) -> Option<(ApplyOptionChunk, int)> {
    if p < 0 || p + 12 > b.len() {
        None
    } else {
        let o = u32_be(b, p);
        if o == 1 {
            Some((ApplyOptionChunk { option: ApplyOption::IgnoreMissing, value: u32_be(b, p + 8) }, p + 12))
        } else if o == 2 {
            Some((ApplyOptionChunk { option: ApplyOption::IgnoreOldMismatch, value: u32_be(b, p + 8) }, p + 12))
        } else {
            None
        }
    }
}

/// The directory chunk at `p`, with the position after it: the little-endian length of the
/// name, then the name.
pub open spec fn directory_at(b: Seq<u8>, p: int) -> Option<(DirectoryChunk, int)> {
    if p < 0 || p + 4 > b.len() || p + 4 + u32_le(b, p) > b.len() {
        None
    } else {
        Some((DirectoryChunk { name_offset: (p + 4) as usize, name_length: u32_le(b, p) }, p + 4 + u32_le(b, p)))
    }
}

/// The data to add at `p`, with the position after them.
pub open spec fn add_data_at(b: Seq<u8>, p: int) -> Option<(SqpkAddData, int)> {
    if p < 0 || p + 23 > b.len() || p + 23 + (u32_be(b, p + 15) as int) * 128 > b.len() {
        None
    } else {
        Some(
            (
                SqpkAddData {
                    main_id: u16_be(b, p + 3),
                    sub_id: u16_be(b, p + 5),
                    file_id: u32_be(b, p + 7),
                    block_offset: (u32_be(b, p + 11) * 128) as u64,
                    block_number: (u32_be(b, p + 15) * 128) as u64,
                    block_delete_number: (u32_be(b, p + 19) * 128) as u64,
                    data_offset: (p + 23) as usize,
                },
                p + 23 + (u32_be(b, p + 15) as int) * 128,
            ),
        )
    }
}

/// The blocks to empty at `p`, with the position after them.
pub open spec fn delete_data_at(b: Seq<u8>, p: int) -> Option<(SqpkDeleteData, int)> {
    if p < 0 || p + 19 > b.len() {
        None
    } else {
        Some(
            (
                SqpkDeleteData {
                    main_id: u16_be(b, p + 3),
                    sub_id: u16_be(b, p + 5),
                    file_id: u32_be(b, p + 7),
                    block_offset: (u32_be(b, p + 11) * 128) as u64,
                    block_number: u32_be(b, p + 15),
                },
                p + 23,
            ),
        )
    }
}

/// The file operation whose letter is `c`, if any.
pub open spec fn file_operation_of(c: u8) -> Option<SqpkFileOperation> {
    if c == 0x41 {
        Some(SqpkFileOperation::AddFile)
    } else if c == 0x52 {
        Some(SqpkFileOperation::RemoveAll)
    } else if c == 0x44 {
        Some(SqpkFileOperation::DeleteFile)
    } else if c == 0x4D {
        Some(SqpkFileOperation::MakeDirTree)
    } else {
        None
    }
}

/// The file operation at `p`, with the position after it.
pub open spec fn file_operation_at(b: Seq<u8>, p: int) -> Option<(SqpkFileOperationData, int)> {
    if p < 0 || p + 25 > b.len() || p + 27 + u32_be(b, p + 19) > b.len() {
        None
    } else {
        match file_operation_of(b[p]) {
            Some(operation) => Some(
                (
                    SqpkFileOperationData {
                        operation,
                        offset: u64_be(b, p + 3),
                        file_size: u64_be(b, p + 11),
                        expansion_id: u16_be(b, p + 23),
                        path_offset: (p + 27) as usize,
                        path_length: u32_be(b, p + 19),
                    },
                    p + 27 + u32_be(b, p + 19),
                ),
            ),
            None => None,
        }
    }
}

/// The kind of file whose letter is `c`, if any.
pub open spec fn target_file_kind_of(c: u8) -> Option<TargetFileKind> {
    if c == 0x44 {
        Some(TargetFileKind::Dat)
    } else if c == 0x49 {
        Some(TargetFileKind::Index)
    } else {
        None
    }
}

/// The kind of header whose letter is `c`, if any.
pub open spec fn target_header_kind_of(c: u8) -> Option<TargetHeaderKind> {
    if c == 0x56 {
        Some(TargetHeaderKind::Version)
    } else if c == 0x49 {
        Some(TargetHeaderKind::Index)
    } else if c == 0x44 {
        Some(TargetHeaderKind::Data)
    } else {
        None
    }
}

/// The header update at `p`, with the position after it.
pub open spec fn header_update_at(b: Seq<u8>, p: int) -> Option<(SqpkHeaderUpdateData, int)> {
    if p < 0 || p + 1035 > b.len() {
        None
    } else {
        match (target_file_kind_of(b[p]), target_header_kind_of(b[p + 1])) {
            (Some(file_kind), Some(header_kind)) => Some(
                (
                    SqpkHeaderUpdateData {
                        file_kind,
                        header_kind,
                        main_id: u16_be(b, p + 3),
                        sub_id: u16_be(b, p + 5),
                        file_id: u32_be(b, p + 7),
                        header_offset: (p + 11) as usize,
                    },
                    p + 1035,
                ),
            ),
            _ => None,
        }
    }
}

/// The patch information at `p`, with the position after it.
pub open spec fn patch_info_at(b: Seq<u8>, p: int) -> Option<(SqpkPatchInfo, int)> {
    if p < 0 || p + 11 > b.len() {
        None
    } else {
        Some((SqpkPatchInfo { status: b[p], version: b[p + 1], install_size: u64_be(b, p + 3) }, p + 11))
    }
}

/// The platform whose number is `n`, if any.
pub open spec fn platform_of(n: u8) -> Option<Platform> {
    if n == 0 {
        Some(Platform::Win32)
    } else if n == 1 {
        Some(Platform::PS3)
    } else if n == 2 {
        Some(Platform::PS4)
    } else if n == 3 {
        Some(Platform::PS5)
    } else if n == 4 {
        Some(Platform::Xbox)
    } else {
        None
    }
}

/// The target information at `p`, with the position after it: three bytes skipped, the
/// platform in a byte and another skipped, the region, whether it is a debug build, the
/// version, then two little-endian sizes and 96 bytes skipped.
pub open spec fn target_info_at(b: Seq<u8>, p: int) -> Option<(SqpkTargetInfo, int)> {
    if p < 0 || p + 27 > b.len() {
        None
    } else {
        match platform_of(b[p + 3]) {
            Some(platform) => Some(
                (
                    SqpkTargetInfo {
                        platform,
                        region: u16_be(b, p + 5),
                        is_debug: u16_be(b, p + 7) != 0,
                        version: u16_be(b, p + 9),
                        deleted_data_size: u64_le(b, p + 11),
                        seek_count: u64_le(b, p + 19),
                    },
                    p + 27 + 96,
                ),
            ),
            None => None,
        }
    }
}

/// The index command at `p`, with the position after it.
pub open spec fn index_at(b: Seq<u8>, p: int) -> Option<(SqpkIndex, int)> {
    if p < 0 || p + 19 > b.len() {
        None
    } else {
        let command = if b[p] == 0x41 {
            Some(SqpkIndexCommand::Add)
        } else if b[p] == 0x44 {
            Some(SqpkIndexCommand::Delete)
        } else {
            None
        };
        match command {
            Some(command) => Some(
                (
                    SqpkIndex {
                        command,
                        is_synonym: b[p + 1] != 0,
                        file_hash: u64_be(b, p + 3),
                        block_offset: u32_be(b, p + 11),
                        block_number: u32_be(b, p + 15),
                    },
                    p + 27,
                ),
            ),
            None => None,
        }
    }
}

/// The SQPK chunk at `p`, with the position after it: its size, then its operation, a letter
/// and what follows it.
pub open spec fn sqpk_chunk_at(b: Seq<u8>, p: int) -> Option<(SqpkChunk, int)> {
    if p < 0 || p + 5 > b.len() {
        None
    } else {
        let size = u32_be(b, p);
        let c = b[p + 4];
        let q = p + 5;
        let op: Option<(SqpkOperation, int)> = if c == 0x41 {
            match add_data_at(b, q) {
                Some((x, r)) => Some((SqpkOperation::AddData(x), r)),
                None => None,
            }
        } else if c == 0x44 {
            match delete_data_at(b, q) {
                Some((x, r)) => Some((SqpkOperation::DeleteData(x), r)),
                None => None,
            }
        } else if c == 0x45 {
            match delete_data_at(b, q) {
                Some((x, r)) => Some((SqpkOperation::ExpandData(x), r)),
                None => None,
            }
        } else if c == 0x46 {
            match file_operation_at(b, q) {
                Some((x, r)) => Some((SqpkOperation::FileOperation(x), r)),
                None => None,
            }
        } else if c == 0x48 {
            match header_update_at(b, q) {
                Some((x, r)) => Some((SqpkOperation::HeaderUpdate(x), r)),
                None => None,
            }
        } else if c == 0x58 {
            match patch_info_at(b, q) {
                Some((x, r)) => Some((SqpkOperation::PatchInfo(x), r)),
                None => None,
            }
        } else if c == 0x54 {
            match target_info_at(b, q) {
                Some((x, r)) => Some((SqpkOperation::TargetInfo(x), r)),
                None => None,
            }
        } else if c == 0x49 {
            match index_at(b, q) {
                Some((x, r)) => Some((SqpkOperation::Index(x), r)),
                None => None,
            }
        } else {
            None
        };
        match op {
            Some((operation, r)) => Some((SqpkChunk { size, operation }, r)),
            None => None,
        }
    }
}

/// `FHDR`.
pub const FHDR: u32 = 0x4648_4452;
/// `APLY`.
pub const APLY: u32 = 0x4150_4C59;
/// `ADIR`.
pub const ADIR: u32 = 0x4144_4952;
/// `DELD`.
pub const DELD: u32 = 0x4445_4C44;
/// `SQPK`.
pub const SQPK: u32 = 0x5351_504B;
/// `EOF_`.
pub const EOF_MARK: u32 = 0x454F_465F;

/// The kind and contents of the chunk at `p`, with the position after them: four letters,
/// then what follows them. A file header skips two bytes before its version and one after.
pub open spec fn chunk_type_at(b: Seq<u8>, p: int) -> Option<(ChunkType, int)> {
    if p < 0 || p + 4 > b.len() {
        None
    } else {
        let m = u32_be(b, p);
        let q = p + 4;
        if m == FHDR {
            match file_header_at(b, q + 2) {
                Some((x, r)) => Some((ChunkType::FileHeader(x), r + 1)),
                None => None,
            }
        } else if m == APLY {
            match apply_option_at(b, q) {
                Some((x, r)) => Some((ChunkType::ApplyOption(x), r)),
                None => None,
            }
        } else if m == ADIR {
            match directory_at(b, q) {
                Some((x, r)) => Some((ChunkType::AddDirectory(x), r)),
                None => None,
            }
        } else if m == DELD {
            match directory_at(b, q) {
                Some((x, r)) => Some((ChunkType::DeleteDirectory(x), r)),
                None => None,
            }
        } else if m == SQPK {
            match sqpk_chunk_at(b, q) {
                Some((x, r)) => Some((ChunkType::Sqpk(x), r)),
                None => None,
            }
        } else if m == EOF_MARK {
            Some((ChunkType::EndOfFile, q))
        } else {
            None
        }
    }
}

/// The chunk at `p`, with the position after it: its big-endian size, its kind and contents,
/// then, but for the chunk that ends the file, its little-endian checksum.
pub open spec fn patch_chunk_at(b: Seq<u8>, p: int) -> Option<(PatchChunk, int)> {
    if p < 0 || p + 4 > b.len() {
        None
    } else {
        match chunk_type_at(b, p + 4) {
            None => None,
            Some((chunk_type, r)) => if chunk_type == ChunkType::EndOfFile {
                Some((PatchChunk { size: u32_be(b, p), chunk_type, crc32: 0 }, r))
            } else if r + 4 > b.len() {
                None
            } else {
                Some((PatchChunk { size: u32_be(b, p), chunk_type, crc32: u32_le(b, r) }, r + 4))
            },
        }
    }
}


/// Whether `b` starts as a patch file does; see `patch_header_valid`.
pub fn check_patch_header(b: &[u8]) -> (r: bool)
    ensures
        r == patch_header_valid(b@),
{
    if b.len() < 8 {
        return false;
    }
    let ok = b[1] == 0x5A && b[2] == 0x49 && b[3] == 0x50 && b[4] == 0x41 && b[5] == 0x54 && b[6]
        == 0x43 && b[7] == 0x48;
    proof {
        let want = seq![0x5Au8, 0x49u8, 0x50u8, 0x41u8, 0x54u8, 0x43u8, 0x48u8];
        if ok {
            assert(b@.subrange(1, 8) =~= want);
        } else {
            assert(b@.subrange(1, 8) != want) by {
                if b@.subrange(1, 8) == want {
                    assert(b@.subrange(1, 8)[0] == b@[1]);
                    assert(b@.subrange(1, 8)[1] == b@[2]);
                    assert(b@.subrange(1, 8)[2] == b@[3]);
                    assert(b@.subrange(1, 8)[3] == b@[4]);
                    assert(b@.subrange(1, 8)[4] == b@[5]);
                    assert(b@.subrange(1, 8)[5] == b@[6]);
                    assert(b@.subrange(1, 8)[6] == b@[7]);
                }
            }
        }
    }
    ok
}

/// Reads the file header chunk whose version byte is at `p`; see `file_header_at`.
fn read_file_header(b: &[u8], p: usize) -> (r: Option<(FileHeaderChunk, usize)>)
    requires
        b@.len() <= isize::MAX,
    ensures
        match r {
            Some((x, q)) => file_header_at(b@, p as int) == Some((x, q as int)),
            None => file_header_at(b@, p as int) is None,
        },
{
    if p >= b.len() {
        return None;
    }
    if b[p] == 2 {
        if b.len() - p < 17 {
            return None;
        }
        Some((FileHeaderChunk::Version2 { name_offset: p + 1, depot_hash: read_u32_be(b, p + 13) }, p + 17))
    } else if b[p] == 3 {
        if b.len() - p < 57 {
            return None;
        }
        Some(
            (
                FileHeaderChunk::Version3 {
                    name_offset: p + 1,
                    entry_files: read_u32_be(b, p + 5),
                    add_directories: read_u32_be(b, p + 9),
                    delete_directories: read_u32_be(b, p + 13),
                    delete_data_size: read_u32_be(b, p + 17),
                    delete_data_size_2: read_u32_be(b, p + 21),
                    minor_version: read_u32_be(b, p + 25),
                    repository_name: read_u32_be(b, p + 29),
                    commands: read_u32_be(b, p + 33),
                    sqpk_add_commands: read_u32_be(b, p + 37),
                    sqpk_delete_commands: read_u32_be(b, p + 41),
                    sqpk_expand_commands: read_u32_be(b, p + 45),
                    sqpk_header_commands: read_u32_be(b, p + 49),
                    sqpk_file_commands: read_u32_be(b, p + 53),
                },
                p + 57 + 0xB8,
            ),
        )
    } else {
        None
    }
}

/// Reads the apply option chunk at `p`; see `apply_option_at`.
fn read_apply_option(b: &[u8], p: usize) -> (r: Option<(ApplyOptionChunk, usize)>)
    ensures
        match r {
            Some((x, q)) => apply_option_at(b@, p as int) == Some((x, q as int)),
            None => apply_option_at(b@, p as int) is None,
        },
{
    if p > b.len() || b.len() - p < 12 {
        return None;
    }
    let o = read_u32_be(b, p);
    let option = if o == 1 {
        ApplyOption::IgnoreMissing
    } else if o == 2 {
        ApplyOption::IgnoreOldMismatch
    } else {
        return None;
    };
    Some((ApplyOptionChunk { option, value: read_u32_be(b, p + 8) }, p + 12))
}

/// Reads the directory chunk at `p`; see `directory_at`.
fn read_directory(b: &[u8], p: usize) -> (r: Option<(DirectoryChunk, usize)>)
    ensures
        match r {
            Some((x, q)) => directory_at(b@, p as int) == Some((x, q as int)),
            None => directory_at(b@, p as int) is None,
        },
{
    if p > b.len() || b.len() - p < 4 {
        return None;
    }
    let len = read_u32_le(b, p);
    if ((b.len() - p - 4) as u64) < len as u64 {
        return None;
    }
    Some((DirectoryChunk { name_offset: p + 4, name_length: len }, p + 4 + len as usize))
}

/// Reads the data to add at `p`; see `add_data_at`.
fn read_add_data(b: &[u8], p: usize) -> (r: Option<(SqpkAddData, usize)>)
    ensures
        match r {
            Some((x, q)) => add_data_at(b@, p as int) == Some((x, q as int)),
            None => add_data_at(b@, p as int) is None,
        },
{
    if p > b.len() || b.len() - p < 23 {
        return None;
    }
    let block_number = (read_u32_be(b, p + 15) as u64) * 128;
    if ((b.len() - p - 23) as u64) < block_number {
        return None;
    }
    Some(
        (
            SqpkAddData {
                main_id: read_u16_be(b, p + 3),
                sub_id: read_u16_be(b, p + 5),
                file_id: read_u32_be(b, p + 7),
                block_offset: (read_u32_be(b, p + 11) as u64) * 128,
                block_number,
                block_delete_number: (read_u32_be(b, p + 19) as u64) * 128,
                data_offset: p + 23,
            },
            p + 23 + block_number as usize,
        ),
    )
}

/// Reads the blocks to empty at `p`; see `delete_data_at`.
fn read_delete_data(b: &[u8], p: usize) -> (r: Option<(SqpkDeleteData, usize)>)
    requires
        b@.len() <= isize::MAX,
    ensures
        match r {
            Some((x, q)) => delete_data_at(b@, p as int) == Some((x, q as int)),
            None => delete_data_at(b@, p as int) is None,
        },
{
    if p > b.len() || b.len() - p < 19 {
        return None;
    }
    Some(
        (
            SqpkDeleteData {
                main_id: read_u16_be(b, p + 3),
                sub_id: read_u16_be(b, p + 5),
                file_id: read_u32_be(b, p + 7),
                block_offset: (read_u32_be(b, p + 11) as u64) * 128,
                block_number: read_u32_be(b, p + 15),
            },
            p + 23,
        ),
    )
}

/// Reads the file operation at `p`; see `file_operation_at`.
fn read_file_operation(b: &[u8], p: usize) -> (r: Option<(SqpkFileOperationData, usize)>)
    ensures
        match r {
            Some((x, q)) => file_operation_at(b@, p as int) == Some((x, q as int)),
            None => file_operation_at(b@, p as int) is None,
        },
{
    if p > b.len() || b.len() - p < 27 {
        proof {
            if p <= b@.len() && b@.len() - p >= 25 {
                assert(p + 27 + u32_be(b@, p + 19) > b@.len());
            }
        }
        return None;
    }
    let path_length = read_u32_be(b, p + 19);
    if ((b.len() - p - 27) as u64) < path_length as u64 {
        return None;
    }
    let operation = if b[p] == 0x41 {
        SqpkFileOperation::AddFile
    } else if b[p] == 0x52 {
        SqpkFileOperation::RemoveAll
    } else if b[p] == 0x44 {
        SqpkFileOperation::DeleteFile
    } else if b[p] == 0x4D {
        SqpkFileOperation::MakeDirTree
    } else {
        return None;
    };
    Some(
        (
            SqpkFileOperationData {
                operation,
                offset: read_u64_be(b, p + 3),
                file_size: read_u64_be(b, p + 11),
                expansion_id: read_u16_be(b, p + 23),
                path_offset: p + 27,
                path_length,
            },
            p + 27 + path_length as usize,
        ),
    )
}

/// Reads the header update at `p`; see `header_update_at`.
fn read_header_update(b: &[u8], p: usize) -> (r: Option<(SqpkHeaderUpdateData, usize)>)
    ensures
        match r {
            Some((x, q)) => header_update_at(b@, p as int) == Some((x, q as int)),
            None => header_update_at(b@, p as int) is None,
        },
{
    if p > b.len() || b.len() - p < 1035 {
        return None;
    }
    let file_kind = if b[p] == 0x44 {
        TargetFileKind::Dat
    } else if b[p] == 0x49 {
        TargetFileKind::Index
    } else {
        return None;
    };
    let header_kind = if b[p + 1] == 0x56 {
        TargetHeaderKind::Version
    } else if b[p + 1] == 0x49 {
        TargetHeaderKind::Index
    } else if b[p + 1] == 0x44 {
        TargetHeaderKind::Data
    } else {
        return None;
    };
    Some(
        (
            SqpkHeaderUpdateData {
                file_kind,
                header_kind,
                main_id: read_u16_be(b, p + 3),
                sub_id: read_u16_be(b, p + 5),
                file_id: read_u32_be(b, p + 7),
                header_offset: p + 11,
            },
            p + 1035,
        ),
    )
}

/// Reads the patch information at `p`; see `patch_info_at`.
fn read_patch_info(b: &[u8], p: usize) -> (r: Option<(SqpkPatchInfo, usize)>)
    ensures
        match r {
            Some((x, q)) => patch_info_at(b@, p as int) == Some((x, q as int)),
            None => patch_info_at(b@, p as int) is None,
        },
{
    if p > b.len() || b.len() - p < 11 {
        return None;
    }
    Some((SqpkPatchInfo { status: b[p], version: b[p + 1], install_size: read_u64_be(b, p + 3) }, p + 11))
}

/// Reads the target information at `p`; see `target_info_at`.
fn read_target_info(b: &[u8], p: usize) -> (r: Option<(SqpkTargetInfo, usize)>)
    requires
        b@.len() <= isize::MAX,
    ensures
        match r {
            Some((x, q)) => target_info_at(b@, p as int) == Some((x, q as int)),
            None => target_info_at(b@, p as int) is None,
        },
{
    if p > b.len() || b.len() - p < 27 {
        return None;
    }
    let platform = match b[p + 3] {
        0 => Platform::Win32,
        1 => Platform::PS3,
        2 => Platform::PS4,
        3 => Platform::PS5,
        4 => Platform::Xbox,
        _ => return None,
    };
    Some(
        (
            SqpkTargetInfo {
                platform,
                region: read_u16_be(b, p + 5),
                is_debug: read_u16_be(b, p + 7) != 0,
                version: read_u16_be(b, p + 9),
                deleted_data_size: read_u64_le(b, p + 11),
                seek_count: read_u64_le(b, p + 19),
            },
            p + 27 + 96,
        ),
    )
}

/// Reads the index command at `p`; see `index_at`.
fn read_index(b: &[u8], p: usize) -> (r: Option<(SqpkIndex, usize)>)
    requires
        b@.len() <= isize::MAX,
    ensures
        match r {
            Some((x, q)) => index_at(b@, p as int) == Some((x, q as int)),
            None => index_at(b@, p as int) is None,
        },
{
    if p > b.len() || b.len() - p < 19 {
        return None;
    }
    let command = if b[p] == 0x41 {
        SqpkIndexCommand::Add
    } else if b[p] == 0x44 {
        SqpkIndexCommand::Delete
    } else {
        return None;
    };
    Some(
        (
            SqpkIndex {
                command,
                is_synonym: b[p + 1] != 0,
                file_hash: read_u64_be(b, p + 3),
                block_offset: read_u32_be(b, p + 11),
                block_number: read_u32_be(b, p + 15),
            },
            p + 27,
        ),
    )
}

/// Reads the SQPK chunk at `p`; see `sqpk_chunk_at`.
fn read_sqpk_chunk(b: &[u8], p: usize) -> (r: Option<(SqpkChunk, usize)>)
    requires
        b@.len() <= isize::MAX,
    ensures
        match r {
            Some((x, q)) => sqpk_chunk_at(b@, p as int) == Some((x, q as int)),
            None => sqpk_chunk_at(b@, p as int) is None,
        },
{
    if p > b.len() || b.len() - p < 5 {
        return None;
    }
    let size = read_u32_be(b, p);
    let c = b[p + 4];
    let q = p + 5;
    let (operation, r) = if c == 0x41 {
        match read_add_data(b, q) {
            Some((x, r)) => (SqpkOperation::AddData(x), r),
            None => return None,
        }
    } else if c == 0x44 {
        match read_delete_data(b, q) {
            Some((x, r)) => (SqpkOperation::DeleteData(x), r),
            None => return None,
        }
    } else if c == 0x45 {
        match read_delete_data(b, q) {
            Some((x, r)) => (SqpkOperation::ExpandData(x), r),
            None => return None,
        }
    } else if c == 0x46 {
        match read_file_operation(b, q) {
            Some((x, r)) => (SqpkOperation::FileOperation(x), r),
            None => return None,
        }
    } else if c == 0x48 {
        match read_header_update(b, q) {
            Some((x, r)) => (SqpkOperation::HeaderUpdate(x), r),
            None => return None,
        }
    } else if c == 0x58 {
        match read_patch_info(b, q) {
            Some((x, r)) => (SqpkOperation::PatchInfo(x), r),
            None => return None,
        }
    } else if c == 0x54 {
        match read_target_info(b, q) {
            Some((x, r)) => (SqpkOperation::TargetInfo(x), r),
            None => return None,
        }
    } else if c == 0x49 {
        match read_index(b, q) {
            Some((x, r)) => (SqpkOperation::Index(x), r),
            None => return None,
        }
    } else {
        return None;
    };
    Some((SqpkChunk { size, operation }, r))
}

/// Reads the kind and contents of the chunk at `p`; see `chunk_type_at`.
fn read_chunk_type(b: &[u8], p: usize) -> (r: Option<(ChunkType, usize)>)
    requires
        b@.len() <= isize::MAX,
    ensures
        match r {
            Some((x, q)) => chunk_type_at(b@, p as int) == Some((x, q as int)),
            None => chunk_type_at(b@, p as int) is None,
        },
{
    if p > b.len() || b.len() - p < 4 {
        return None;
    }
    let m = read_u32_be(b, p);
    let q = p + 4;
    if m == FHDR {
        match read_file_header(b, q + 2) {
            Some((x, r)) => Some((ChunkType::FileHeader(x), r + 1)),
            None => None,
        }
    } else if m == APLY {
        match read_apply_option(b, q) {
            Some((x, r)) => Some((ChunkType::ApplyOption(x), r)),
            None => None,
        }
    } else if m == ADIR {
        match read_directory(b, q) {
            Some((x, r)) => Some((ChunkType::AddDirectory(x), r)),
            None => None,
        }
    } else if m == DELD {
        match read_directory(b, q) {
            Some((x, r)) => Some((ChunkType::DeleteDirectory(x), r)),
            None => None,
        }
    } else if m == SQPK {
        match read_sqpk_chunk(b, q) {
            Some((x, r)) => Some((ChunkType::Sqpk(x), r)),
            None => None,
        }
    } else if m == EOF_MARK {
        Some((ChunkType::EndOfFile, q))
    } else {
        None
    }
}

/// Reads the chunk of a patch file at `p`, and gives it with the position of the next;
/// see `patch_chunk_at`.
pub fn read_patch_chunk(b: &[u8], p: usize) -> (r: Option<(PatchChunk, usize)>)
    requires
        b@.len() <= isize::MAX,
    ensures
        match r {
            Some((x, q)) => patch_chunk_at(b@, p as int) == Some((x, q as int)),
            None => patch_chunk_at(b@, p as int) is None,
        },
        r matches Some((x, _)) ==> chunk_within(b@, x),
{
    if p > b.len() || b.len() - p < 4 {
        return None;
    }
    let size = read_u32_be(b, p);
    match read_chunk_type(b, p + 4) {
        None => None,
        Some((chunk_type, r)) => {
            if chunk_type == ChunkType::EndOfFile {
                Some((PatchChunk { size, chunk_type, crc32: 0 }, r))
            } else if r > b.len() || b.len() - r < 4 {
                None
            } else {
                Some((PatchChunk { size, chunk_type, crc32: read_u32_le(b, r) }, r + 4))
            }
        },
    }
}


// ---------------------------------------------------------------------------
// What applying a chunk does.
// ---------------------------------------------------------------------------

/// What applying a chunk asks of the file system.
#[derive(Debug)]
pub enum PatchStep {
    /// Nothing.
    Skip,
    /// The chunk says what the patch is for; the chunks after it are applied to that.
    SetTarget(SqpkTargetInfo),
    /// Make the directory `dir`, open the file at `path` (created if missing, not truncated),
    /// write `data` at `offset`, then `wipe` zero bytes after it.
    WriteData { dir: String, path: String, offset: u64, data: Vec<u8>, wipe: u64 },
    /// Make the directory `dir` where there is one, open the file at `path` (created if
    /// missing, not truncated), write `wipe` zero bytes at `offset`, then `header` at
    /// `offset`. Where `header` is `None` its number of blocks does not fit: only the first
    /// three words of it are written before the patch stops.
    EmptyBlocks {
        dir: Option<String>,
        path: String,
        offset: u64,
        wipe: u64,
        header: Option<Vec<u8>>,
    },
    /// Make the directory `dir`, open the file at `path` (created if missing, not truncated),
    /// and write `data` at `offset`.
    WriteHeader { dir: String, path: String, offset: u64, data: Vec<u8> },
    /// Make the directory `dir`, then write the `file_size` bytes of the data blocks that
    /// follow the chunk in the patch to the file at `path`, from `offset` on (emptied first
    /// where `offset` is zero).
    AddFile { dir: String, path: String, offset: u64, file_size: u64 },
    /// Remove the file at `path`.
    DeleteFile { path: String },
    /// Remove the directory at `path`, where it can be read.
    RemoveAll { path: String },
    /// Make the directory `dir`.
    MakeDirTree { dir: String },
    /// The patch is applied.
    End,
}

/// Why a chunk cannot be applied.
#[derive(Debug, PartialEq, Eq, Structural, Clone, Copy)]
pub enum StepError {
    /// A data or index file is touched before any chunk said what the patch is for.
    NoTarget,
    /// The path of a file operation is empty, or not valid UTF-8 without its last byte.
    InvalidPath,
    /// A path holds no `/`.
    NoParent,
    /// Applying the patch fails.
    Failed(PatchError),
}

/// The contents of a [PatchStep].
pub enum PatchStepView {
    Skip,
    SetTarget(SqpkTargetInfo),
    WriteData { dir: Seq<char>, path: Seq<char>, offset: u64, data: Seq<u8>, wipe: u64 },
    EmptyBlocks {
        dir: Option<Seq<char>>,
        path: Seq<char>,
        offset: u64,
        wipe: u64,
        header: Option<Seq<u8>>,
    },
    WriteHeader { dir: Seq<char>, path: Seq<char>, offset: u64, data: Seq<u8> },
    AddFile { dir: Seq<char>, path: Seq<char>, offset: u64, file_size: u64 },
    DeleteFile { path: Seq<char> },
    RemoveAll { path: Seq<char> },
    MakeDirTree { dir: Seq<char> },
    End,
}

impl View for PatchStep {
    type V = PatchStepView;

    open spec fn view(&self) -> PatchStepView {
        match self {
            PatchStep::Skip => PatchStepView::Skip,
            PatchStep::SetTarget(t) => PatchStepView::SetTarget(*t),
            PatchStep::WriteData { dir, path, offset, data, wipe } => PatchStepView::WriteData {
                dir: dir@,
                path: path@,
                offset: *offset,
                data: data@,
                wipe: *wipe,
            },
            PatchStep::EmptyBlocks { dir, path, offset, wipe, header } => PatchStepView::EmptyBlocks {
                dir: match dir {
                    Some(d) => Some(d@),
                    None => None,
                },
                path: path@,
                offset: *offset,
                wipe: *wipe,
                header: match header {
                    Some(h) => Some(h@),
                    None => None,
                },
            },
            PatchStep::WriteHeader { dir, path, offset, data } => PatchStepView::WriteHeader {
                dir: dir@,
                path: path@,
                offset: *offset,
                data: data@,
            },
            PatchStep::AddFile { dir, path, offset, file_size } => PatchStepView::AddFile {
                dir: dir@,
                path: path@,
                offset: *offset,
                file_size: *file_size,
            },
            PatchStep::DeleteFile { path } => PatchStepView::DeleteFile { path: path@ },
            PatchStep::RemoveAll { path } => PatchStepView::RemoveAll { path: path@ },
            PatchStep::MakeDirTree { dir } => PatchStepView::MakeDirTree { dir: dir@ },
            PatchStep::End => PatchStepView::End,
        }
    }
}

/// The index of the last `c` in `s`, if any.
pub open spec fn last_index_of(s: Seq<char>, c: char) -> Option<int>
    decreases s.len(),
{
    if s.len() == 0 {
        None
    } else if s.last() == c {
        Some(s.len() - 1)
    } else {
        last_index_of(s.drop_last(), c)
    }
}

/// What comes before the last `/` of a path, as `str::rsplit_once` gives it; `None` where the
/// path holds none.
pub open spec fn parent_dir(path: Seq<char>) -> Option<Seq<char>> {
    match last_index_of(path, '/') {
        Some(j) => Some(path.subrange(0, j)),
        None => None,
    }
}

/// The header of an empty block run of `block_number` blocks, where the number of blocks after
/// the first fits an `i32`.
pub open spec fn empty_header_of(block_number: u32) -> Option<Seq<u8>> {
    if 1 <= block_number && block_number - 1 <= i32::MAX {
        Some(empty_block_header(block_number as u64))
    } else {
        None
    }
}

/// The path of a file operation: its bytes but the last, as UTF-8; `None` where there are
/// none, or they are not valid UTF-8.
pub open spec fn file_operation_path(b: Seq<u8>, f: SqpkFileOperationData) -> Option<Seq<char>> {
    if f.path_length == 0 {
        None
    } else {
        let bytes = b.subrange(f.path_offset as int, f.path_offset + f.path_length - 1);
        if valid_utf8(bytes) {
            Some(decode_utf8(bytes))
        } else {
            None
        }
    }
}

/// Whether the data a chunk refers to lie within `b`.
pub open spec fn chunk_within(b: Seq<u8>, c: PatchChunk) -> bool {
    match c.chunk_type {
        ChunkType::Sqpk(s) => match s.operation {
            SqpkOperation::AddData(a) => a.data_offset + a.block_number <= b.len(),
            SqpkOperation::HeaderUpdate(h) => h.header_offset + 1024 <= b.len(),
            SqpkOperation::FileOperation(f) => f.path_offset + f.path_length <= b.len(),
            _ => true,
        },
        _ => true,
    }
}

/// An empty block header is twenty bytes that read back, as little-endian 32-bit numbers, as
/// the block size 128, two zeros, the number of blocks after the first, and a zero.
pub proof fn law_empty_block_header(n: u64)
    requires
        1 <= n <= i32::MAX + 1,
    ensures
        empty_block_header(n).len() == 20,
        crate::bytes::u32_le(empty_block_header(n), 0) == 128,
        crate::bytes::u32_le(empty_block_header(n), 4) == 0,
        crate::bytes::u32_le(empty_block_header(n), 8) == 0,
        crate::bytes::u32_le(empty_block_header(n), 12) == n - 1,
        crate::bytes::u32_le(empty_block_header(n), 16) == 0,
{
    let h = empty_block_header(n);
    let m = (n - 1) as u32;
    crate::bytes::lemma_u32_le(128);
    crate::bytes::lemma_u32_le(0);
    crate::bytes::lemma_u32_le(m);
    assert(h.subrange(0, 4) =~= crate::bytes::u32_le_bytes(128));
    assert(h.subrange(4, 8) =~= crate::bytes::u32_le_bytes(0));
    assert(h.subrange(8, 12) =~= crate::bytes::u32_le_bytes(0));
    assert(h.subrange(12, 16) =~= crate::bytes::u32_le_bytes(m));
    assert(h.subrange(16, 20) =~= crate::bytes::u32_le_bytes(0));
    crate::bytes::lemma_read_at(h, 0, crate::bytes::u32_le_bytes(128));
    crate::bytes::lemma_read_at(h, 4, crate::bytes::u32_le_bytes(0));
    crate::bytes::lemma_read_at(h, 8, crate::bytes::u32_le_bytes(0));
    crate::bytes::lemma_read_at(h, 12, crate::bytes::u32_le_bytes(m));
    crate::bytes::lemma_read_at(h, 16, crate::bytes::u32_le_bytes(0));
}

/// Deleting or expanding data empties a run of blocks of 128 bytes: at the chunk's offset it
/// zeroes 128 bytes for each block and writes the header of an empty run of that many blocks
/// (none where there are no blocks, or where the number of blocks after the first does not
/// fit a signed 32-bit number). Adding data writes the chunk's bytes at its offset and
/// zeroes the bytes that follow them as the chunk says. Each needs a target first.
pub proof fn law_data_steps(
    data_dir: Seq<char>,
    target: Option<SqpkTargetInfo>,
    c: PatchChunk,
    s: SqpkChunk,
    b: Seq<u8>,
)
    requires
        c.chunk_type == ChunkType::Sqpk(s),
    ensures
        (s.operation is DeleteData || s.operation is ExpandData || s.operation is AddData)
            && target is None ==> patch_step_of(data_dir, target, c, b) == Err::<PatchStepView, StepError>(
            StepError::NoTarget,
        ),
        s.operation matches SqpkOperation::DeleteData(d) ==> (patch_step_of(data_dir, target, c, b) matches Ok(
            PatchStepView::EmptyBlocks { offset, wipe, header, .. },
        ) ==> offset == d.block_offset && wipe == 128 * d.block_number && (header is Some <==> 1
            <= d.block_number <= i32::MAX + 1) && (header matches Some(bytes) ==> bytes == empty_block_header(
            d.block_number as u64,
        ))),
        s.operation matches SqpkOperation::ExpandData(d) ==> (patch_step_of(data_dir, target, c, b) matches Ok(
            PatchStepView::EmptyBlocks { offset, wipe, header, .. },
        ) ==> offset == d.block_offset && wipe == 128 * d.block_number && (header is Some <==> 1
            <= d.block_number <= i32::MAX + 1) && (header matches Some(bytes) ==> bytes == empty_block_header(
            d.block_number as u64,
        ))),
        s.operation matches SqpkOperation::AddData(a) ==> (patch_step_of(data_dir, target, c, b) matches Ok(
            PatchStepView::WriteData { offset, data, wipe, .. },
        ) ==> offset == a.block_offset && wipe == a.block_delete_number && data == b.subrange(
            a.data_offset as int,
            a.data_offset + a.block_number,
        )),
        s.operation is DeleteData && target is Some ==> patch_step_of(data_dir, target, c, b) is Ok,
{
}

/// A header update writes the 1024 bytes of the header that the chunk carries into its
/// target file: the version header at the start of the file, the index and data headers after
/// it, at 1024. Without a target there is nothing to write.
pub proof fn law_header_update_offset(
    data_dir: Seq<char>,
    target: Option<SqpkTargetInfo>,
    c: PatchChunk,
    s: SqpkChunk,
    h: SqpkHeaderUpdateData,
    b: Seq<u8>,
)
    requires
        c.chunk_type == ChunkType::Sqpk(s),
        s.operation == SqpkOperation::HeaderUpdate(h),
    ensures
        target is None ==> patch_step_of(data_dir, target, c, b) == Err::<PatchStepView, StepError>(
            StepError::NoTarget,
        ),
        target is Some ==> patch_step_of(data_dir, target, c, b) is Ok || patch_step_of(
            data_dir,
            target,
            c,
            b,
        ) == Err::<PatchStepView, StepError>(StepError::Failed(PatchError::ParseError)),
        patch_step_of(data_dir, target, c, b) matches Ok(step) ==> step is WriteHeader,
        patch_step_of(data_dir, target, c, b) matches Ok(PatchStepView::WriteHeader { offset, data, .. })
            ==> (offset == 0 <==> h.header_kind == TargetHeaderKind::Version) && (h.header_kind
            != TargetHeaderKind::Version ==> offset == 1024) && data == b.subrange(
            h.header_offset as int,
            h.header_offset + 1024,
        ),
{
}

/// What applying a chunk of the patch `b` does, in the data directory `data_dir`, where
/// `target` is what the last target information chunk said, if any: the data and index files
/// it touches are those of the target's platform, under `sqpack` and the expansion's folder;
/// a file operation's path is under the data directory.
pub open spec fn patch_step_of(
    data_dir: Seq<char>,
    target: Option<SqpkTargetInfo>,
    c: PatchChunk,
    b: Seq<u8>,
) -> Result<PatchStepView, StepError> {
    match c.chunk_type {
        ChunkType::EndOfFile => Ok(PatchStepView::End),
        ChunkType::Sqpk(s) => match s.operation {
            SqpkOperation::AddData(a) => match target {
                None => Err(StepError::NoTarget),
                Some(t) => {
                    let path = patch_file_path(
                        data_dir,
                        a.sub_id,
                        dat_file_name(t.platform, a.main_id, a.sub_id, a.file_id),
                    );
                    match parent_dir(path) {
                        None => Err(StepError::NoParent),
                        Some(dir) => Ok(
                            PatchStepView::WriteData {
                                dir,
                                path,
                                offset: a.block_offset,
                                data: b.subrange(
                                    a.data_offset as int,
                                    a.data_offset + a.block_number,
                                ),
                                wipe: a.block_delete_number,
                            },
                        ),
                    }
                },
            },
            SqpkOperation::DeleteData(d) => match target {
                None => Err(StepError::NoTarget),
                Some(t) => Ok(
                    PatchStepView::EmptyBlocks {
                        dir: None,
                        path: patch_file_path(
                            data_dir,
                            d.sub_id,
                            dat_file_name(t.platform, d.main_id, d.sub_id, d.file_id),
                        ),
                        offset: d.block_offset,
                        wipe: (d.block_number * 128) as u64,
                        header: empty_header_of(d.block_number),
                    },
                ),
            },
            SqpkOperation::ExpandData(d) => match target {
                None => Err(StepError::NoTarget),
                Some(t) => {
                    let path = patch_file_path(
                        data_dir,
                        d.sub_id,
                        dat_file_name(t.platform, d.main_id, d.sub_id, d.file_id),
                    );
                    match parent_dir(path) {
                        None => Err(StepError::NoParent),
                        Some(dir) => Ok(
                            PatchStepView::EmptyBlocks {
                                dir: Some(dir),
                                path,
                                offset: d.block_offset,
                                wipe: (d.block_number * 128) as u64,
                                header: empty_header_of(d.block_number),
                            },
                        ),
                    }
                },
            },
            SqpkOperation::HeaderUpdate(h) => match target {
                None => Err(StepError::NoTarget),
                Some(t) => {
                    let path = match h.file_kind {
                        TargetFileKind::Dat => patch_file_path(
                            data_dir,
                            h.sub_id,
                            dat_file_name(t.platform, h.main_id, h.sub_id, h.file_id),
                        ),
                        TargetFileKind::Index => patch_file_path(
                            data_dir,
                            h.sub_id,
                            index_file_name(t.platform, h.main_id, h.sub_id, h.file_id),
                        ),
                    };
                    match parent_dir(path) {
                        None => Err(StepError::Failed(PatchError::ParseError)),
                        Some(dir) => Ok(
                            PatchStepView::WriteHeader {
                                dir,
                                path,
                                offset: if h.header_kind != TargetHeaderKind::Version {
                                    1024
                                } else {
                                    0
                                },
                                data: b.subrange(h.header_offset as int, h.header_offset + 1024),
                            },
                        ),
                    }
                },
            },
            SqpkOperation::FileOperation(f) => match file_operation_path(b, f) {
                None => Err(StepError::InvalidPath),
                Some(p) => {
                    let path = data_dir + "/"@ + p;
                    match parent_dir(path) {
                        None => Err(StepError::NoParent),
                        Some(dir) => match f.operation {
                            SqpkFileOperation::AddFile => Ok(
                                PatchStepView::AddFile {
                                    dir,
                                    path,
                                    offset: f.offset,
                                    file_size: f.file_size,
                                },
                            ),
                            SqpkFileOperation::DeleteFile => Ok(PatchStepView::DeleteFile { path }),
                            SqpkFileOperation::RemoveAll => Ok(
                                PatchStepView::RemoveAll {
                                    path: join_path(
                                        join_path(data_dir, "sqpack"@),
                                        expansion_folder(f.expansion_id),
                                    ),
                                },
                            ),
                            SqpkFileOperation::MakeDirTree => Ok(PatchStepView::MakeDirTree { dir }),
                        },
                    }
                },
            },
            SqpkOperation::TargetInfo(t) => Ok(PatchStepView::SetTarget(t)),
            SqpkOperation::PatchInfo(_) => Ok(PatchStepView::Skip),
            SqpkOperation::Index(_) => Ok(PatchStepView::Skip),
        },
        _ => Ok(PatchStepView::Skip),
    }
}


/// What comes before the last `/` of a path; see `parent_dir`.
fn parent_of(path: &Vec<char>) -> (r: Option<Vec<char>>)
    ensures
        match r {
            Some(d) => parent_dir(path@) == Some(d@),
            None => parent_dir(path@) is None,
        },
{
    let mut j: usize = path.len();
    assert(path@.take(j as int) =~= path@);
    while j > 0 && path[j - 1] != '/'
        invariant
            j <= path@.len(),
            last_index_of(path@, '/') == last_index_of(path@.take(j as int), '/'),
        decreases j,
    {
        assert(path@.take(j as int).drop_last() =~= path@.take(j - 1));
        j = j - 1;
    }
    if j == 0 {
        assert(path@.take(0) =~= Seq::<char>::empty());
        None
    } else {
        Some(crate::split::sub_chars(path, 0, j - 1))
    }
}

/// The bytes of `b` from `a` on, `n` of them.
fn bytes_from(b: &[u8], a: usize, n: u64) -> (r: Vec<u8>)
    requires
        a + n <= b@.len(),
    ensures
        r@ == b@.subrange(a as int, a + n),
{
    let len = b.len();
    assert(n <= len);
    let k = n as usize;
    crate::bytes::bytes_in(b, a, a + k)
}

/// What applying a chunk of the patch `b` does; see `patch_step_of`.
pub fn patch_step(data_dir: &str, target: Option<SqpkTargetInfo>, chunk: PatchChunk, b: &[u8]) -> (r:
    Result<PatchStep, StepError>)
    requires
        chunk_within(b@, chunk),
    ensures
        match r {
            Ok(step) => patch_step_of(data_dir@, target, chunk, b@) == Ok::<PatchStepView, StepError>(step@),
            Err(e) => patch_step_of(data_dir@, target, chunk, b@) == Err::<PatchStepView, StepError>(e),
        },
{
    match chunk.chunk_type {
        ChunkType::EndOfFile => Ok(PatchStep::End),
        ChunkType::Sqpk(s) => match s.operation {
            SqpkOperation::AddData(a) => match target {
                None => Err(StepError::NoTarget),
                Some(t) => {
                    let path = get_dat_path(data_dir, t.platform, a.main_id, a.sub_id, a.file_id);
                    match parent_of(&chars_of(path.as_str())) {
                        None => Err(StepError::NoParent),
                        Some(dir) => Ok(
                            PatchStep::WriteData {
                                dir: string_from_chars(&dir),
                                path,
                                offset: a.block_offset,
                                data: bytes_from(b, a.data_offset, a.block_number),
                                wipe: a.block_delete_number,
                            },
                        ),
                    }
                },
            },
            SqpkOperation::DeleteData(d) => match target {
                None => Err(StepError::NoTarget),
                Some(t) => {
                    let path = get_dat_path(data_dir, t.platform, d.main_id, d.sub_id, d.file_id);
                    Ok(
                        PatchStep::EmptyBlocks {
                            dir: None,
                            path,
                            offset: d.block_offset,
                            wipe: (d.block_number as u64) * 128,
                            header: empty_header(d.block_number),
                        },
                    )
                },
            },
            SqpkOperation::ExpandData(d) => match target {
                None => Err(StepError::NoTarget),
                Some(t) => {
                    let path = get_dat_path(data_dir, t.platform, d.main_id, d.sub_id, d.file_id);
                    match parent_of(&chars_of(path.as_str())) {
                        None => Err(StepError::NoParent),
                        Some(dir) => Ok(
                            PatchStep::EmptyBlocks {
                                dir: Some(string_from_chars(&dir)),
                                path,
                                offset: d.block_offset,
                                wipe: (d.block_number as u64) * 128,
                                header: empty_header(d.block_number),
                            },
                        ),
                    }
                },
            },
            SqpkOperation::HeaderUpdate(h) => match target {
                None => Err(StepError::NoTarget),
                Some(t) => {
                    let path = match h.file_kind {
                        TargetFileKind::Dat => get_dat_path(
                            data_dir,
                            t.platform,
                            h.main_id,
                            h.sub_id,
                            h.file_id,
                        ),
                        TargetFileKind::Index => get_index_path(
                            data_dir,
                            t.platform,
                            h.main_id,
                            h.sub_id,
                            h.file_id,
                        ),
                    };
                    match parent_of(&chars_of(path.as_str())) {
                        None => Err(StepError::Failed(PatchError::ParseError)),
                        Some(dir) => {
                            let offset: u64 = if h.header_kind != TargetHeaderKind::Version {
                                1024
                            } else {
                                0
                            };
                            Ok(
                                PatchStep::WriteHeader {
                                    dir: string_from_chars(&dir),
                                    path,
                                    offset,
                                    data: bytes_from(b, h.header_offset, 1024),
                                },
                            )
                        },
                    }
                },
            },
            SqpkOperation::FileOperation(f) => {
                if f.path_length == 0 {
                    return Err(StepError::InvalidPath);
                }
                let bytes = bytes_from(b, f.path_offset, (f.path_length - 1) as u64);
                let p = match text_from_utf8(bytes) {
                    Some(p) => p,
                    None => return Err(StepError::InvalidPath),
                };
                let mut full = chars_of(data_dir);
                push_str(&mut full, "/");
                push_str(&mut full, p.as_str());
                let path = string_from_chars(&full);
                let dir = match parent_of(&full) {
                    Some(d) => string_from_chars(&d),
                    None => return Err(StepError::NoParent),
                };
                match f.operation {
                    SqpkFileOperation::AddFile => Ok(
                        PatchStep::AddFile { dir, path, offset: f.offset, file_size: f.file_size },
                    ),
                    SqpkFileOperation::DeleteFile => Ok(PatchStep::DeleteFile { path }),
                    SqpkFileOperation::RemoveAll => {
                        let folder = get_expansion_folder(f.expansion_id);
                        let sqpack = join(&chars_of(data_dir), &chars_of("sqpack"));
                        let all = join(&sqpack, &chars_of(folder.as_str()));
                        Ok(PatchStep::RemoveAll { path: string_from_chars(&all) })
                    },
                    SqpkFileOperation::MakeDirTree => Ok(PatchStep::MakeDirTree { dir }),
                }
            },
            SqpkOperation::TargetInfo(t) => Ok(PatchStep::SetTarget(t)),
            SqpkOperation::PatchInfo(_) => Ok(PatchStep::Skip),
            SqpkOperation::Index(_) => Ok(PatchStep::Skip),
        },
        _ => Ok(PatchStep::Skip),
    }
}

/// The header of an empty block run, where its number of blocks fits; see `empty_header_of`.
fn empty_header(block_number: u32) -> (r: Option<Vec<u8>>)
    ensures
        match r {
            Some(h) => empty_header_of(block_number) == Some(h@),
            None => empty_header_of(block_number) is None,
        },
{
    if 1 <= block_number && block_number - 1 <= 0x7FFF_FFFF {
        Some(empty_file_block_header(block_number as u64))
    } else {
        None
    }
}


/// Reads the chunk of the patch `b` at `p` and tells what applying it does, with the position
/// of the next chunk; a chunk that cannot be read fails the patch with a parse error.
pub fn next_patch_step(data_dir: &str, target: Option<SqpkTargetInfo>, b: &[u8], p: usize) -> (r:
    Result<(PatchStep, usize), StepError>)
    requires
        b@.len() <= isize::MAX,
    ensures
        match patch_chunk_at(b@, p as int) {
            None => r matches Err(StepError::Failed(PatchError::ParseError)),
            Some((c, q)) => match r {
                Ok((step, next)) => next == q && patch_step_of(data_dir@, target, c, b@) == Ok::<
                    PatchStepView,
                    StepError,
                >(step@),
                Err(e) => patch_step_of(data_dir@, target, c, b@) == Err::<PatchStepView, StepError>(
                    e,
                ),
            },
        },
{
    match read_patch_chunk(b, p) {
        None => Err(StepError::Failed(PatchError::ParseError)),
        Some((chunk, next)) => match patch_step(data_dir, target, chunk, b) {
            Ok(step) => Ok((step, next)),
            Err(e) => Err(e),
        },
    }
}


/// What a new patch holds: the header of a patch file (a byte, `ZIPATCH`, and four bytes of
/// line endings), then the chunk that ends the file, with a size of zero.
pub open spec fn new_patch_bytes() -> Seq<u8> {
    seq![0x91u8, 0x5Au8, 0x49u8, 0x50u8, 0x41u8, 0x54u8, 0x43u8, 0x48u8, 0x0Du8, 0x0Au8, 0x1Au8, 0x0Au8]
        + seq![0u8, 0u8, 0u8, 0u8] + seq![0x45u8, 0x4Fu8, 0x46u8, 0x5Fu8]
}

/// Creates a new ZiPatch for going from `base_directory` to `new_directory`. Only the empty
/// difference is written: whatever the two directories hold, the patch holds no chunk but the
/// one that ends the file, so applying it changes nothing, and it describes the difference only
/// where the directories have the same contents. Its header is one that `check_patch_header`
/// accepts, and its first chunk reads as the end of the file, right at its end.
pub fn create_patch(base_directory: &str, new_directory: &str) -> (r: Option<Vec<u8>>)
    ensures
        r matches Some(b) && b@ == new_patch_bytes() && patch_header_valid(b@) && patch_chunk_at(
            b@,
            PATCH_HEADER_SIZE as int,
        ) == Some(
            (
                PatchChunk { size: 0, chunk_type: ChunkType::EndOfFile, crc32: 0 },
                b@.len() as int,
            ),
        ),
{
    let mut buffer: Vec<u8> = Vec::new();
    buffer.push(0x91);
    buffer.push(0x5A);
    buffer.push(0x49);
    buffer.push(0x50);
    buffer.push(0x41);
    buffer.push(0x54);
    buffer.push(0x43);
    buffer.push(0x48);
    buffer.push(0x0D);
    buffer.push(0x0A);
    buffer.push(0x1A);
    buffer.push(0x0A);
    buffer.push(0);
    buffer.push(0);
    buffer.push(0);
    buffer.push(0);
    buffer.push(0x45);
    buffer.push(0x4F);
    buffer.push(0x46);
    buffer.push(0x5F);
    let ghost b = buffer@;
    assert(b =~= new_patch_bytes());
    assert(b.subrange(1, 8) =~= seq![0x5Au8, 0x49u8, 0x50u8, 0x41u8, 0x54u8, 0x43u8, 0x48u8]);
    assert(b[12] == 0 && b[13] == 0 && b[14] == 0 && b[15] == 0);
    assert(b[16] == 0x45 && b[17] == 0x4F && b[18] == 0x46 && b[19] == 0x5F);
    let ghost (z0, z1, z2, z3) = (b[12], b[13], b[14], b[15]);
    let ghost (e0, e1, e2, e3) = (b[16], b[17], b[18], b[19]);
    assert(((z0 as u32) << 24u32) | ((z1 as u32) << 16u32) | ((z2 as u32) << 8u32) | (z3 as u32)
        == 0u32) by (bit_vector)
        requires
            z0 == 0u8 && z1 == 0u8 && z2 == 0u8 && z3 == 0u8,
    ;
    assert(((e0 as u32) << 24u32) | ((e1 as u32) << 16u32) | ((e2 as u32) << 8u32) | (e3 as u32)
        == 0x454F_465Fu32) by (bit_vector)
        requires
            e0 == 0x45u8 && e1 == 0x4Fu8 && e2 == 0x46u8 && e3 == 0x5Fu8,
    ;
    assert(crate::bytes::u32_be(b, 12) == 0);
    assert(crate::bytes::u32_be(b, 16) == EOF_MARK);
    Some(buffer)
}

} // verus!
