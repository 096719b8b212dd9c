//! Catalog leaf records: the key in front, the tag behind it, and the
//! folder, file or thread payload that the tag announces.

use vstd::prelude::*;
use vstd::slice::{slice_subrange, slice_to_vec};
use crate::bytes::{
    be_i16, be_i32, be_u16, be_u32, lemma_u16_be_round_trip, lemma_u32_be_round_trip, push_be_u16,
    push_be_u32, read_be_i16, read_be_i32, read_be_u16, read_be_u32, u16_be_bytes, u32_be_bytes,
};
use crate::error::HfsError;
use crate::text::{string_from_utf16_lossy, utf16_lossy};
use crate::volume::{CatalogNodeId, Date, ForkData};

verus! {

/// The raw bytes of a B-tree key.
pub type BTreeKey = Vec<u8>;

/// The four kinds of record that a catalog leaf node holds, as told by the
/// 16-bit tag at the start of the record's payload.
#[allow(non_camel_case_types)]
#[derive(Debug, Clone, Copy, PartialEq, Eq, Structural)]
pub enum CatalogFileDataType {
    kHFSPlusFolderRecord,
    kHFSPlusFileRecord,
    kHFSPlusFolderThreadRecord,
    kHFSPlusFileThreadRecord,
}

impl CatalogFileDataType {
    /// The tag that stands on disk for this kind of record.
    pub open spec fn tag_of(self) -> u16 {
        match self {
            CatalogFileDataType::kHFSPlusFolderRecord => 0x0001,
            CatalogFileDataType::kHFSPlusFileRecord => 0x0002,
            CatalogFileDataType::kHFSPlusFolderThreadRecord => 0x0003,
            CatalogFileDataType::kHFSPlusFileThreadRecord => 0x0004,
        }
    }

    /// The kind of record that `tag` announces, if it announces one.
    pub open spec fn of_tag(tag: u16) -> Option<CatalogFileDataType> {
        if tag == 0x0001 {
            Some(CatalogFileDataType::kHFSPlusFolderRecord)
        } else if tag == 0x0002 {
            Some(CatalogFileDataType::kHFSPlusFileRecord)
        } else if tag == 0x0003 {
            Some(CatalogFileDataType::kHFSPlusFolderThreadRecord)
        } else if tag == 0x0004 {
            Some(CatalogFileDataType::kHFSPlusFileThreadRecord)
        } else {
            None
        }
    }

    /// The tag that stands on disk for this kind of record.
    pub fn tag(self) -> (t: u16)
        ensures
            t == self.tag_of(),
    {
        match self {
            CatalogFileDataType::kHFSPlusFolderRecord => 0x0001,
            CatalogFileDataType::kHFSPlusFileRecord => 0x0002,
            CatalogFileDataType::kHFSPlusFolderThreadRecord => 0x0003,
            CatalogFileDataType::kHFSPlusFileThreadRecord => 0x0004,
        }
    }

    /// The kind of record that `tag` announces; `None` for any tag but the
    /// four defined ones.
    pub fn from_tag(tag: u16) -> (kind: Option<CatalogFileDataType>)
        ensures
            kind == CatalogFileDataType::of_tag(tag),
    {
        if tag == 0x0001 {
            Some(CatalogFileDataType::kHFSPlusFolderRecord)
        } else if tag == 0x0002 {
            Some(CatalogFileDataType::kHFSPlusFileRecord)
        } else if tag == 0x0003 {
            Some(CatalogFileDataType::kHFSPlusFolderThreadRecord)
        } else if tag == 0x0004 {
            Some(CatalogFileDataType::kHFSPlusFileThreadRecord)
        } else {
            None
        }
    }
}

/// The last word of the BSD permissions. What it counts depends on the kind
/// of file: it is read through the accessor that fits.
#[derive(Debug, Clone, Copy, PartialEq, Eq, Structural)]
pub struct BsdInfoSpecial {
    pub special: u32,
}

impl BsdInfoSpecial {
    /// The word as the inode number of a hard link.
    pub fn inode_number(&self) -> (n: u32)
        ensures
            n == self.special,
    {
        self.special
    }

    /// The word as the number of links to an indirect node.
    pub fn link_count(&self) -> (n: u32)
        ensures
            n == self.special,
    {
        self.special
    }

    /// The word as the device number of a block or character special file.
    pub fn raw_device(&self) -> (n: u32)
        ensures
            n == self.special,
    {
        self.special
    }
}

/// Owner, group, flags and mode of a file or folder.
#[derive(Debug, Clone, Copy, PartialEq, Eq, Structural)]
pub struct BsdInfo {
    pub owner_id: u32,
    pub group_id: u32,
    pub admin_flags: u8,
    pub owner_flags: u8,
    pub file_mode: u16,
    pub special: BsdInfoSpecial,
}

/// A position on screen.
#[derive(Debug, Clone, Copy, PartialEq, Eq, Structural)]
pub struct Point {
    pub v: i16,
    pub h: i16,
}

/// A rectangle on screen.
#[derive(Debug, Clone, Copy, PartialEq, Eq, Structural)]
pub struct Rect {
    pub top: i16,
    pub left: i16,
    pub bottom: i16,
    pub right: i16,
}

/// What the Finder keeps of a file.
#[derive(Debug, Clone, Copy, PartialEq, Eq, Structural)]
pub struct FileInfo {
    pub file_type: u32,
    pub file_creator: u32,
    pub finder_flags: u16,
    pub location: Point,
    pub reserved: u16,
}

/// What more the Finder keeps of a file.
#[derive(Debug, Clone, Copy)]
pub struct ExtendedFileInfo {
    pub reserved_1: [i16; 4],
    pub extended_finder_flags: u16,
    pub reserved_2: i16,
    pub put_away_folder_id: i32,
}

/// What the Finder keeps of a folder.
#[derive(Debug, Clone, Copy, PartialEq, Eq, Structural)]
pub struct FolderInfo {
    pub window_bounds: Rect,
    pub finder_flags: u16,
    pub location: Point,
    pub reserved: u16,
}

/// What more the Finder keeps of a folder.
#[derive(Debug, Clone, Copy, PartialEq, Eq, Structural)]
pub struct ExtendedFolderInfo {
    pub scroll_position: Point,
    pub reserved_1: i32,
    pub extended_finder_flags: u16,
    pub reserved_2: i16,
    pub put_away_folder_id: i32,
}

/// The payload of a folder record.
#[derive(Debug, Clone, Copy)]
pub struct CatalogFolder {
    pub record_type: CatalogFileDataType,
    pub flags: u16,
    /// Number of files and folders directly inside this folder.
    pub valence: u32,
    pub folder_id: CatalogNodeId,
    pub create_date: Date,
    pub content_mod_date: Date,
    pub attribute_mod_date: Date,
    pub access_date: Date,
    pub backup_date: Date,
    pub permissions: BsdInfo,
    pub user_info: FolderInfo,
    pub finder_info: ExtendedFolderInfo,
    pub text_encoding: u32,
    pub reserved: u32,
}

/// The payload of a file record.
#[derive(Debug, Clone, Copy)]
pub struct CatalogFile {
    pub record_type: CatalogFileDataType,
    pub flags: u16,
    pub reserved_1: u32,
    pub file_id: CatalogNodeId,
    pub create_date: Date,
    pub content_mod_date: Date,
    pub attribute_mod_date: Date,
    pub access_date: Date,
    pub backup_date: Date,
    pub permissions: BsdInfo,
    pub user_info: FileInfo,
    pub finder_info: ExtendedFileInfo,
    pub text_encoding: u32,
    pub reserved_2: u32,
    pub data_fork: ForkData,
    pub resource_fork: ForkData,
}

/// A name of up to 255 UTF-16 code units, stored fully decomposed.
#[derive(Debug, Clone)]
pub struct HFSUniStr255 {
    /// Number of code units in the name.
    pub length: u16,
    pub unicode: Vec<u16>,
}

/// The payload of a thread record: the way back from a node to its parent.
#[derive(Debug, Clone)]
pub struct CatalogThread {
    pub record_type: CatalogFileDataType,
    pub reserved: i16,
    pub parent_id: CatalogNodeId,
    pub node_name: HFSUniStr255,
}

/// A decoded catalog leaf record.
#[derive(Debug, Clone)]
pub enum CatalogLeafRecord {
    Folder(CatalogFolder),
    File(CatalogFile),
    FolderThread(CatalogThread),
    FileThread(CatalogThread),
}

/// A catalog key: the parent's node ID and the node's name.
#[derive(Debug, Clone)]
pub struct CatalogFileKey {
    /// Bytes that the key takes, its own length field left out.
    pub length: u16,
    pub parent: CatalogNodeId,
    pub name: HFSUniStr255,
}

/// A catalog key under its shorter name.
pub type CatalogKey = CatalogFileKey;

/// What a thread record says, with its name as a sequence of code units.
pub struct ThreadModel {
    pub record_type: CatalogFileDataType,
    pub reserved: i16,
    pub parent_id: CatalogNodeId,
    /// The length field of the name.
    pub name_length: u16,
    pub node_name: Seq<u16>,
}

/// What a leaf record says.
pub enum LeafRecordModel {
    Folder(CatalogFolder),
    File(CatalogFile),
    FolderThread(ThreadModel),
    FileThread(ThreadModel),
}

/// What a catalog key says.
pub struct KeyModel {
    pub length: u16,
    pub parent: CatalogNodeId,
    pub name: Seq<u16>,
}

impl View for HFSUniStr255 {
    type V = Seq<u16>;

    open spec fn view(&self) -> Seq<u16> {
        self.unicode@
    }
}

impl View for CatalogThread {
    type V = ThreadModel;

    open spec fn view(&self) -> ThreadModel {
        ThreadModel {
            record_type: self.record_type,
            reserved: self.reserved,
            parent_id: self.parent_id,
            name_length: self.node_name.length,
            node_name: self.node_name@,
        }
    }
}

impl View for CatalogLeafRecord {
    type V = LeafRecordModel;

    open spec fn view(&self) -> LeafRecordModel {
        match self {
            CatalogLeafRecord::Folder(f) => LeafRecordModel::Folder(*f),
            CatalogLeafRecord::File(f) => LeafRecordModel::File(*f),
            CatalogLeafRecord::FolderThread(t) => LeafRecordModel::FolderThread(t@),
            CatalogLeafRecord::FileThread(t) => LeafRecordModel::FileThread(t@),
        }
    }
}

impl View for CatalogFileKey {
    type V = KeyModel;

    open spec fn view(&self) -> KeyModel {
        KeyModel { length: self.length, parent: self.parent, name: self.name@ }
    }
}

/// The `count` UTF-16 code units stored big-endian from `s[at]` on.
pub open spec fn be_u16_run(s: Seq<u8>, at: int, count: int) -> Seq<u16> {
    Seq::new(count as nat, |i: int| be_u16(s, at + 2 * i))
}

/// Reads `count` big-endian UTF-16 code units from `b[at]` on.
pub fn read_be_u16_run(b: &[u8], at: usize, count: usize) -> (units: Vec<u16>)
    requires
        at + 2 * count <= b.len(),
    ensures
        units@ == be_u16_run(b@, at as int, count as int),
{
    let mut units: Vec<u16> = Vec::with_capacity(count);
    let mut i: usize = 0;
    while i < count
        invariant
            i <= count,
            at + 2 * count <= b.len(),
            units@ == be_u16_run(b@, at as int, i as int),
        decreases count - i,
    {
        units.push(read_be_u16(b, at + 2 * i));
        i += 1;
    }
    units
}

impl HFSUniStr255 {
    /// Whether the length field counts the code units that the name holds.
    pub open spec fn well_formed(&self) -> bool {
        self.length as int == self.unicode@.len()
    }

    /// The name as text. A surrogate without its partner comes out as
    /// U+FFFD.
    pub fn into(self) -> (text: String)
        ensures
            text@ == utf16_lossy(self@),
    {
        string_from_utf16_lossy(self.unicode.as_slice())
    }
}

impl BsdInfo {
    /// The permissions stored at `s[at] .. s[at + 16]`.
    pub open spec fn decoded(s: Seq<u8>, at: int) -> BsdInfo {
        BsdInfo {
            owner_id: be_u32(s, at),
            group_id: be_u32(s, at + 4),
            admin_flags: s[at + 8],
            owner_flags: s[at + 9],
            file_mode: be_u16(s, at + 10),
            special: BsdInfoSpecial { special: be_u32(s, at + 12) },
        }
    }

    /// Decodes the permissions at `b[at] .. b[at + 16]`.
    pub fn decode(b: &[u8], at: usize) -> (p: BsdInfo)
        requires
            at + 16 <= b.len(),
        ensures
            p == BsdInfo::decoded(b@, at as int),
    {
        BsdInfo {
            owner_id: read_be_u32(b, at),
            group_id: read_be_u32(b, at + 4),
            admin_flags: b[at + 8],
            owner_flags: b[at + 9],
            file_mode: read_be_u16(b, at + 10),
            special: BsdInfoSpecial { special: read_be_u32(b, at + 12) },
        }
    }
}

impl Point {
    /// The point stored at `s[at] .. s[at + 4]`.
    pub open spec fn decoded(s: Seq<u8>, at: int) -> Point {
        Point { v: be_i16(s, at), h: be_i16(s, at + 2) }
    }

    /// Decodes the point at `b[at] .. b[at + 4]`.
    pub fn decode(b: &[u8], at: usize) -> (p: Point)
        requires
            at + 4 <= b.len(),
        ensures
            p == Point::decoded(b@, at as int),
    {
        Point { v: read_be_i16(b, at), h: read_be_i16(b, at + 2) }
    }
}

impl Rect {
    /// The rectangle stored at `s[at] .. s[at + 8]`.
    pub open spec fn decoded(s: Seq<u8>, at: int) -> Rect {
        Rect {
            top: be_i16(s, at),
            left: be_i16(s, at + 2),
            bottom: be_i16(s, at + 4),
            right: be_i16(s, at + 6),
        }
    }

    /// Decodes the rectangle at `b[at] .. b[at + 8]`.
    pub fn decode(b: &[u8], at: usize) -> (r: Rect)
        requires
            at + 8 <= b.len(),
        ensures
            r == Rect::decoded(b@, at as int),
    {
        Rect {
            top: read_be_i16(b, at),
            left: read_be_i16(b, at + 2),
            bottom: read_be_i16(b, at + 4),
            right: read_be_i16(b, at + 6),
        }
    }
}

impl FileInfo {
    /// The Finder information stored at `s[at] .. s[at + 16]`.
    pub open spec fn decoded(s: Seq<u8>, at: int) -> FileInfo {
        FileInfo {
            file_type: be_u32(s, at),
            file_creator: be_u32(s, at + 4),
            finder_flags: be_u16(s, at + 8),
            location: Point::decoded(s, at + 10),
            reserved: be_u16(s, at + 14),
        }
    }

    /// Decodes the Finder information at `b[at] .. b[at + 16]`.
    pub fn decode(b: &[u8], at: usize) -> (f: FileInfo)
        requires
            at + 16 <= b.len(),
        ensures
            f == FileInfo::decoded(b@, at as int),
    {
        FileInfo {
            file_type: read_be_u32(b, at),
            file_creator: read_be_u32(b, at + 4),
            finder_flags: read_be_u16(b, at + 8),
            location: Point::decode(b, at + 10),
            reserved: read_be_u16(b, at + 14),
        }
    }
}

impl ExtendedFileInfo {
    /// The extended Finder information stored at `s[at] .. s[at + 16]`.
    pub open spec fn decoded(s: Seq<u8>, at: int) -> ExtendedFileInfo {
        ExtendedFileInfo {
            reserved_1: [be_i16(s, at), be_i16(s, at + 2), be_i16(s, at + 4), be_i16(s, at + 6)],
            extended_finder_flags: be_u16(s, at + 8),
            reserved_2: be_i16(s, at + 10),
            put_away_folder_id: be_i32(s, at + 12),
        }
    }

    /// Decodes the extended Finder information at `b[at] .. b[at + 16]`.
    pub fn decode(b: &[u8], at: usize) -> (f: ExtendedFileInfo)
        requires
            at + 16 <= b.len(),
        ensures
            f == ExtendedFileInfo::decoded(b@, at as int),
    {
        let reserved_1: [i16; 4] = [
            read_be_i16(b, at),
            read_be_i16(b, at + 2),
            read_be_i16(b, at + 4),
            read_be_i16(b, at + 6),
        ];
        assert(reserved_1 =~= ExtendedFileInfo::decoded(b@, at as int).reserved_1);
        ExtendedFileInfo {
            reserved_1,
            extended_finder_flags: read_be_u16(b, at + 8),
            reserved_2: read_be_i16(b, at + 10),
            put_away_folder_id: read_be_i32(b, at + 12),
        }
    }
}

impl FolderInfo {
    /// The Finder information stored at `s[at] .. s[at + 16]`.
    pub open spec fn decoded(s: Seq<u8>, at: int) -> FolderInfo {
        FolderInfo {
            window_bounds: Rect::decoded(s, at),
            finder_flags: be_u16(s, at + 8),
            location: Point::decoded(s, at + 10),
            reserved: be_u16(s, at + 14),
        }
    }

    /// Decodes the Finder information at `b[at] .. b[at + 16]`.
    pub fn decode(b: &[u8], at: usize) -> (f: FolderInfo)
        requires
            at + 16 <= b.len(),
        ensures
            f == FolderInfo::decoded(b@, at as int),
    {
        FolderInfo {
            window_bounds: Rect::decode(b, at),
            finder_flags: read_be_u16(b, at + 8),
            location: Point::decode(b, at + 10),
            reserved: read_be_u16(b, at + 14),
        }
    }
}

impl ExtendedFolderInfo {
    /// The extended Finder information stored at `s[at] .. s[at + 16]`.
    pub open spec fn decoded(s: Seq<u8>, at: int) -> ExtendedFolderInfo {
        ExtendedFolderInfo {
            scroll_position: Point::decoded(s, at),
            reserved_1: be_i32(s, at + 4),
            extended_finder_flags: be_u16(s, at + 8),
            reserved_2: be_i16(s, at + 10),
            put_away_folder_id: be_i32(s, at + 12),
        }
    }

    /// Decodes the extended Finder information at `b[at] .. b[at + 16]`.
    pub fn decode(b: &[u8], at: usize) -> (f: ExtendedFolderInfo)
        requires
            at + 16 <= b.len(),
        ensures
            f == ExtendedFolderInfo::decoded(b@, at as int),
    {
        ExtendedFolderInfo {
            scroll_position: Point::decode(b, at),
            reserved_1: read_be_i32(b, at + 4),
            extended_finder_flags: read_be_u16(b, at + 8),
            reserved_2: read_be_i16(b, at + 10),
            put_away_folder_id: read_be_i32(b, at + 12),
        }
    }
}

impl CatalogFolder {
    /// Bytes that a folder record's payload takes on disk.
    pub const SIZE: usize = 88;

    /// The folder payload stored at `s[at] .. s[at + 88]`, read as a record
    /// of kind `kind`.
    pub open spec fn decoded(s: Seq<u8>, at: int, kind: CatalogFileDataType) -> CatalogFolder {
        CatalogFolder {
            record_type: kind,
            flags: be_u16(s, at + 2),
            valence: be_u32(s, at + 4),
            folder_id: be_u32(s, at + 8),
            create_date: be_u32(s, at + 12),
            content_mod_date: be_u32(s, at + 16),
            attribute_mod_date: be_u32(s, at + 20),
            access_date: be_u32(s, at + 24),
            backup_date: be_u32(s, at + 28),
            permissions: BsdInfo::decoded(s, at + 32),
            user_info: FolderInfo::decoded(s, at + 48),
            finder_info: ExtendedFolderInfo::decoded(s, at + 64),
            text_encoding: be_u32(s, at + 80),
            reserved: be_u32(s, at + 84),
        }
    }

    /// Decodes the folder payload at `b[at] .. b[at + 88]`, whose tag has been
    /// read as `kind`.
    pub fn decode(b: &[u8], at: usize, kind: CatalogFileDataType) -> (f: CatalogFolder)
        requires
            at + 88 <= b.len(),
        ensures
            f == CatalogFolder::decoded(b@, at as int, kind),
    {
        CatalogFolder {
            record_type: kind,
            flags: read_be_u16(b, at + 2),
            valence: read_be_u32(b, at + 4),
            folder_id: read_be_u32(b, at + 8),
            create_date: read_be_u32(b, at + 12),
            content_mod_date: read_be_u32(b, at + 16),
            attribute_mod_date: read_be_u32(b, at + 20),
            access_date: read_be_u32(b, at + 24),
            backup_date: read_be_u32(b, at + 28),
            permissions: BsdInfo::decode(b, at + 32),
            user_info: FolderInfo::decode(b, at + 48),
            finder_info: ExtendedFolderInfo::decode(b, at + 64),
            text_encoding: read_be_u32(b, at + 80),
            reserved: read_be_u32(b, at + 84),
        }
    }
}

impl CatalogFile {
    /// Bytes that a file record's payload takes on disk.
    pub const SIZE: usize = 248;

    /// The file payload stored at `s[at] .. s[at + 248]`, read as a record of
    /// kind `kind`.
    pub open spec fn decoded(s: Seq<u8>, at: int, kind: CatalogFileDataType) -> CatalogFile {
        CatalogFile {
            record_type: kind,
            flags: be_u16(s, at + 2),
            reserved_1: be_u32(s, at + 4),
            file_id: be_u32(s, at + 8),
            create_date: be_u32(s, at + 12),
            content_mod_date: be_u32(s, at + 16),
            attribute_mod_date: be_u32(s, at + 20),
            access_date: be_u32(s, at + 24),
            backup_date: be_u32(s, at + 28),
            permissions: BsdInfo::decoded(s, at + 32),
            user_info: FileInfo::decoded(s, at + 48),
            finder_info: ExtendedFileInfo::decoded(s, at + 64),
            text_encoding: be_u32(s, at + 80),
            reserved_2: be_u32(s, at + 84),
            data_fork: ForkData::decoded(s, at + 88),
            resource_fork: ForkData::decoded(s, at + 168),
        }
    }

    /// Decodes the file payload at `b[at] .. b[at + 248]`, whose tag has been
    /// read as `kind`.
    pub fn decode(b: &[u8], at: usize, kind: CatalogFileDataType) -> (f: CatalogFile)
        requires
            at + 248 <= b.len(),
        ensures
            f == CatalogFile::decoded(b@, at as int, kind),
    {
        CatalogFile {
            record_type: kind,
            flags: read_be_u16(b, at + 2),
            reserved_1: read_be_u32(b, at + 4),
            file_id: read_be_u32(b, at + 8),
            create_date: read_be_u32(b, at + 12),
            content_mod_date: read_be_u32(b, at + 16),
            attribute_mod_date: read_be_u32(b, at + 20),
            access_date: read_be_u32(b, at + 24),
            backup_date: read_be_u32(b, at + 28),
            permissions: BsdInfo::decode(b, at + 32),
            user_info: FileInfo::decode(b, at + 48),
            finder_info: ExtendedFileInfo::decode(b, at + 64),
            text_encoding: read_be_u32(b, at + 80),
            reserved_2: read_be_u32(b, at + 84),
            data_fork: ForkData::decode(b, at + 88),
            resource_fork: ForkData::decode(b, at + 168),
        }
    }
}

impl CatalogThread {
    /// Bytes that a thread record's payload takes in front of its name.
    pub const FIXED_SIZE: usize = 10;

    /// Number of code units in the name of the thread payload at `s[at]`.
    pub open spec fn name_length(s: Seq<u8>, at: int) -> int {
        be_u16(s, at + 8) as int
    }

    /// Bytes that the thread payload at `s[at]` takes, its name included.
    pub open spec fn size_at(s: Seq<u8>, at: int) -> int {
        10 + 2 * CatalogThread::name_length(s, at)
    }

    /// The thread payload stored from `s[at]` on, read as a record of kind
    /// `kind`.
    pub open spec fn decoded(s: Seq<u8>, at: int, kind: CatalogFileDataType) -> ThreadModel {
        ThreadModel {
            record_type: kind,
            reserved: be_i16(s, at + 2),
            parent_id: be_u32(s, at + 4),
            name_length: be_u16(s, at + 8),
            node_name: be_u16_run(s, at + 10, CatalogThread::name_length(s, at)),
        }
    }

    /// Decodes the thread payload that starts at `b[at]`, whose tag has been
    /// read as `kind`.
    pub fn decode(b: &[u8], at: usize, kind: CatalogFileDataType) -> (t: CatalogThread)
        requires
            at + 10 <= b.len(),
            at + CatalogThread::size_at(b@, at as int) <= b.len(),
        ensures
            t@ == CatalogThread::decoded(b@, at as int, kind),
            t.node_name.well_formed(),
    {
        let length: u16 = read_be_u16(b, at + 8);
        let unicode = read_be_u16_run(b, at + 10, length as usize);
        CatalogThread {
            record_type: kind,
            reserved: read_be_i16(b, at + 2),
            parent_id: read_be_u32(b, at + 4),
            node_name: HFSUniStr255 { length, unicode },
        }
    }
}

/// The big-endian encoding of a run of UTF-16 code units.
pub open spec fn u16_run_be_bytes(units: Seq<u16>) -> Seq<u8>
    decreases units.len(),
{
    if units.len() == 0 {
        Seq::empty()
    } else {
        u16_run_be_bytes(units.drop_last()) + u16_be_bytes(units.last())
    }
}

/// The key under which the thread record of the node `cnid` is filed: the
/// node ID, big-endian, and an empty name.
pub open spec fn cnid_key(cnid: CatalogNodeId) -> Seq<u8> {
    u32_be_bytes(cnid) + seq![0u8, 0u8]
}

/// The key under which the thread record of the node `cnid` is filed.
pub fn cnid_to_key(cnid: CatalogNodeId) -> (key: Vec<u8>)
    ensures
        key@ == cnid_key(cnid),
{
    let mut key: Vec<u8> = Vec::with_capacity(6);
    push_be_u32(&mut key, cnid);
    key.push(0u8);
    key.push(0u8);
    key
}

impl CatalogFileKey {
    /// The most code units that a node name may hold.
    pub const MAX_NAME_LENGTH: u16 = 255;

    /// What `try_from` returns for the key bytes `value`.
    pub open spec fn parsed(value: Seq<u8>) -> Result<KeyModel, HfsError> {
        if value.len() < 6 || value.len() > 0xFFFF {
            Err(HfsError::MalformedRecord)
        } else if be_u16(value, 4) > CatalogFileKey::MAX_NAME_LENGTH || value.len() < 6 + 2
            * be_u16(value, 4) {
            Err(HfsError::MalformedRecord)
        } else {
            Ok(
                KeyModel {
                    length: value.len() as u16,
                    parent: be_u32(value, 0),
                    name: be_u16_run(value, 6, be_u16(value, 4) as int),
                },
            )
        }
    }

    /// The bytes that a key with this parent and this name takes on disk,
    /// its length field left out.
    pub open spec fn encoded(key: KeyModel) -> Seq<u8> {
        u32_be_bytes(key.parent) + u16_be_bytes(key.name.len() as u16) + u16_run_be_bytes(
            key.name,
        )
    }

    /// Reads a key from its bytes, as they follow the key length in a
    /// record: four bytes of parent ID, two of name length, then the name.
    ///
    /// Fails with `MalformedRecord` when the bytes end before the name does,
    /// when the name is longer than 255 code units, and when there are more
    /// bytes than a 16-bit key length can count.
    pub fn try_from(value: Vec<u8>) -> (r: Result<CatalogFileKey, HfsError>)
        ensures
            match r {
                Ok(key) => CatalogFileKey::parsed(value@) == Ok::<KeyModel, HfsError>(key@)
                    && key.name.well_formed(),
                Err(e) => CatalogFileKey::parsed(value@) == Err::<KeyModel, HfsError>(e),
            },
    {
        let b = value.as_slice();
        if b.len() < 6 || b.len() > 0xFFFF {
            return Err(HfsError::MalformedRecord);
        }
        let char_count: u16 = read_be_u16(b, 4);
        if char_count > CatalogFileKey::MAX_NAME_LENGTH || b.len() < 6 + 2 * (char_count as usize) {
            return Err(HfsError::MalformedRecord);
        }
        let unicode = read_be_u16_run(b, 6, char_count as usize);
        Ok(
            CatalogFileKey {
                length: b.len() as u16,
                parent: read_be_u32(b, 0),
                name: HFSUniStr255 { length: char_count, unicode },
            },
        )
    }

    /// The bytes of the key as they stand on disk behind the key length.
    pub fn into(self) -> (bytes: Vec<u8>)
        requires
            self.name@.len() <= 0xFFFF,
        ensures
            bytes@ == CatalogFileKey::encoded(self@),
    {
        let count: usize = self.name.unicode.len();
        let mut out: Vec<u8> = Vec::new();
        push_be_u32(&mut out, self.parent);
        push_be_u16(&mut out, count as u16);
        let ghost head = out@;
        let mut i: usize = 0;
        while i < count
            invariant
                i <= count,
                count == self.name.unicode@.len(),
                out@ == head + u16_run_be_bytes(self.name.unicode@.take(i as int)),
            decreases count - i,
        {
            proof {
                let next = self.name.unicode@.take(i + 1);
                assert(next.drop_last() == self.name.unicode@.take(i as int));
                assert(next.last() == self.name.unicode@[i as int]);
            }
            push_be_u16(&mut out, self.name.unicode[i]);
            i += 1;
        }
        assert(self.name.unicode@.take(count as int) == self.name.unicode@);
        out
    }
}

/// The encoding of a run of code units has two bytes to a unit, and unit `k`
/// is read back from the bytes `2 * k` and `2 * k + 1`.
pub proof fn lemma_u16_run_round_trip(units: Seq<u16>)
    ensures
        u16_run_be_bytes(units).len() == 2 * units.len(),
        forall|k: int|
            0 <= k < units.len() ==> be_u16(u16_run_be_bytes(units), 2 * k) == #[trigger] units[k],
    decreases units.len(),
{
    if units.len() > 0 {
        let front = units.drop_last();
        lemma_u16_run_round_trip(front);
        lemma_u16_be_round_trip(units.last());
        let bytes = u16_run_be_bytes(units);
        let tail = u16_be_bytes(units.last());
        assert(bytes == u16_run_be_bytes(front) + tail);
        assert forall|k: int| 0 <= k < units.len() implies be_u16(bytes, 2 * k)
            == #[trigger] units[k] by {
            if k < front.len() {
                assert(front[k] == units[k]);
                assert(bytes[2 * k] == u16_run_be_bytes(front)[2 * k]);
                assert(bytes[2 * k + 1] == u16_run_be_bytes(front)[2 * k + 1]);
            } else {
                assert(bytes[2 * k] == tail[0]);
                assert(bytes[2 * k + 1] == tail[1]);
            }
        }
    }
}

/// A key that is written out and read back is the key that was written: the
/// same parent and the same name, and as length the number of bytes written.
pub proof fn lemma_key_round_trip(key: KeyModel)
    requires
        key.name.len() <= 255,
    ensures
        CatalogFileKey::encoded(key).len() == 6 + 2 * key.name.len(),
        CatalogFileKey::parsed(CatalogFileKey::encoded(key)) == Ok::<KeyModel, HfsError>(
            KeyModel {
                length: (6 + 2 * key.name.len()) as u16,
                parent: key.parent,
                name: key.name,
            },
        ),
{
    let count = key.name.len() as u16;
    let head = u32_be_bytes(key.parent) + u16_be_bytes(count);
    let run = u16_run_be_bytes(key.name);
    let bytes = CatalogFileKey::encoded(key);
    lemma_u32_be_round_trip(key.parent);
    lemma_u16_be_round_trip(count);
    lemma_u16_run_round_trip(key.name);
    assert(bytes == head + run);
    assert(head.len() == 6);
    assert(bytes[0] == u32_be_bytes(key.parent)[0]);
    assert(bytes[1] == u32_be_bytes(key.parent)[1]);
    assert(bytes[2] == u32_be_bytes(key.parent)[2]);
    assert(bytes[3] == u32_be_bytes(key.parent)[3]);
    assert(bytes[4] == u16_be_bytes(count)[0]);
    assert(bytes[5] == u16_be_bytes(count)[1]);
    assert(be_u32(bytes, 0) == key.parent);
    assert(be_u16(bytes, 4) == count);
    assert forall|k: int| 0 <= k < key.name.len() implies be_u16(bytes, 6 + 2 * k)
        == key.name[k] by {
        assert(bytes[6 + 2 * k] == run[2 * k]);
        assert(bytes[6 + 2 * k + 1] == run[2 * k + 1]);
        assert(be_u16(run, 2 * k) == key.name[k]);
    }
    assert(be_u16_run(bytes, 6, count as int) =~= key.name);
}

/// The key under which a thread record is filed is the catalog key with the
/// node's ID in the place of the parent and with the empty name.
pub proof fn lemma_cnid_key_is_key_with_empty_name(cnid: CatalogNodeId)
    ensures
        cnid_key(cnid) == CatalogFileKey::encoded(
            KeyModel { length: 6, parent: cnid, name: Seq::empty() },
        ),
        cnid_key(cnid).len() == 6,
{
    lemma_u32_be_round_trip(cnid);
    assert(u16_be_bytes(0) =~= seq![0u8, 0u8]);
    assert(u16_run_be_bytes(Seq::<u16>::empty()) =~= Seq::<u8>::empty());
    assert(cnid_key(cnid) =~= CatalogFileKey::encoded(
        KeyModel { length: 6, parent: cnid, name: Seq::empty() },
    ));
}

/// Number of key bytes that the leaf record `rec` announces.
pub open spec fn leaf_key_length(rec: Seq<u8>) -> int {
    be_u16(rec, 0) as int
}

/// Where the payload of the leaf record `rec` starts: behind the key length,
/// the key, and one pad byte if the key length is odd.
pub open spec fn leaf_payload_start(rec: Seq<u8>) -> int {
    2 + leaf_key_length(rec) + leaf_key_length(rec) % 2
}

/// The key bytes of the leaf record `rec`.
pub open spec fn leaf_key(rec: Seq<u8>) -> Seq<u8> {
    rec.subrange(2, 2 + leaf_key_length(rec))
}

/// What `parse_catalog_leaf` returns for the record bytes `rec`.
pub open spec fn parsed_leaf(rec: Seq<u8>) -> Result<(Seq<u8>, LeafRecordModel), HfsError> {
    if rec.len() < 2 || rec.len() < leaf_payload_start(rec) + 2 {
        Err(HfsError::MalformedRecord)
    } else {
        let at = leaf_payload_start(rec);
        match CatalogFileDataType::of_tag(be_u16(rec, at)) {
            None => Err(HfsError::UnknownRecordType),
            Some(kind) => match kind {
                CatalogFileDataType::kHFSPlusFolderRecord => if rec.len() < at
                    + CatalogFolder::SIZE {
                    Err(HfsError::MalformedRecord)
                } else {
                    Ok((leaf_key(rec), LeafRecordModel::Folder(CatalogFolder::decoded(rec, at, kind))))
                },
                CatalogFileDataType::kHFSPlusFileRecord => if rec.len() < at + CatalogFile::SIZE {
                    Err(HfsError::MalformedRecord)
                } else {
                    Ok((leaf_key(rec), LeafRecordModel::File(CatalogFile::decoded(rec, at, kind))))
                },
                CatalogFileDataType::kHFSPlusFolderThreadRecord => if rec.len() < at
                    + CatalogThread::FIXED_SIZE || rec.len() < at + CatalogThread::size_at(
                    rec,
                    at,
                ) {
                    Err(HfsError::MalformedRecord)
                } else {
                    Ok(
                        (
                            leaf_key(rec),
                            LeafRecordModel::FolderThread(CatalogThread::decoded(rec, at, kind)),
                        ),
                    )
                },
                CatalogFileDataType::kHFSPlusFileThreadRecord => if rec.len() < at
                    + CatalogThread::FIXED_SIZE || rec.len() < at + CatalogThread::size_at(
                    rec,
                    at,
                ) {
                    Err(HfsError::MalformedRecord)
                } else {
                    Ok(
                        (
                            leaf_key(rec),
                            LeafRecordModel::FileThread(CatalogThread::decoded(rec, at, kind)),
                        ),
                    )
                },
            },
        }
    }
}

/// Whether `r` is what `parsed_leaf` gives for `rec`, the key and the record
/// taken by their views.
pub open spec fn is_parsed_leaf(
    rec: Seq<u8>,
    r: Result<(Vec<u8>, CatalogLeafRecord), HfsError>,
) -> bool {
    match r {
        Ok((key, leaf)) => parsed_leaf(rec) == Ok::<(Seq<u8>, LeafRecordModel), HfsError>(
            (key@, leaf@),
        ),
        Err(e) => parsed_leaf(rec) == Err::<(Seq<u8>, LeafRecordModel), HfsError>(e),
    }
}

/// Decodes one raw leaf record of the catalog: a 16-bit key length, the key,
/// a pad byte behind a key of odd length, and the payload, whose first 16
/// bits tell its kind.
///
/// Fails with `UnknownRecordType` when the tag is none of the four defined
/// ones, and with `MalformedRecord` when the record ends before the tag or
/// before the end of the payload that the tag announces.
pub fn parse_catalog_leaf(record: &Vec<u8>) -> (r: Result<
    (Vec<u8>, CatalogLeafRecord),
    HfsError,
>)
    ensures
        is_parsed_leaf(record@, r),
{
    let b = record.as_slice();
    if b.len() < 2 {
        return Err(HfsError::MalformedRecord);
    }
    let key_length: usize = read_be_u16(b, 0) as usize;
    let at: usize = 2 + key_length + key_length % 2;
    if b.len() < at + 2 {
        return Err(HfsError::MalformedRecord);
    }
    let tag: u16 = read_be_u16(b, at);
    match CatalogFileDataType::from_tag(tag) {
        None => Err(HfsError::UnknownRecordType),
        Some(kind) => {
            let key: Vec<u8> = slice_to_vec(slice_subrange(b, 2, 2 + key_length));
            match kind {
                CatalogFileDataType::kHFSPlusFolderRecord => {
                    if b.len() < at + CatalogFolder::SIZE {
                        return Err(HfsError::MalformedRecord);
                    }
                    Ok((key, CatalogLeafRecord::Folder(CatalogFolder::decode(b, at, kind))))
                },
                CatalogFileDataType::kHFSPlusFileRecord => {
                    if b.len() < at + CatalogFile::SIZE {
                        return Err(HfsError::MalformedRecord);
                    }
                    Ok((key, CatalogLeafRecord::File(CatalogFile::decode(b, at, kind))))
                },
                CatalogFileDataType::kHFSPlusFolderThreadRecord => {
                    if b.len() < at + CatalogThread::FIXED_SIZE {
                        return Err(HfsError::MalformedRecord);
                    }
                    let units: usize = read_be_u16(b, at + 8) as usize;
                    if b.len() < at + CatalogThread::FIXED_SIZE + 2 * units {
                        return Err(HfsError::MalformedRecord);
                    }
                    Ok((key, CatalogLeafRecord::FolderThread(CatalogThread::decode(b, at, kind))))
                },
                CatalogFileDataType::kHFSPlusFileThreadRecord => {
                    if b.len() < at + CatalogThread::FIXED_SIZE {
                        return Err(HfsError::MalformedRecord);
                    }
                    let units: usize = read_be_u16(b, at + 8) as usize;
                    if b.len() < at + CatalogThread::FIXED_SIZE + 2 * units {
                        return Err(HfsError::MalformedRecord);
                    }
                    Ok((key, CatalogLeafRecord::FileThread(CatalogThread::decode(b, at, kind))))
                },
            }
        },
    }
}

} // verus!
