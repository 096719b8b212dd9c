//! The structures of the volume format as the technical note declares
//! them, under its names and with every field a plain integer. Nothing here
//! has been checked against the values that a field may take: these types
//! hold what is on disk, sound or not.

#![allow(non_camel_case_types, non_snake_case, non_upper_case_globals)]

use vstd::prelude::*;
use crate::allocation::{bitmap_covers, block_is_used, read_block_bit};

verus! {

/// A selector of text encodings.
pub type TextEncoding = u32;

/// Seconds since midnight, January 1, 1904, GMT.
pub type Date = u32;

pub type HFSCatalogNodeID = u32;

pub type FourCharCode = u32;

pub type OSType = FourCharCode;

pub type HFSPlusExtentRecord = [HFSPlusExtentDescriptor; 8];

pub type VolumeAttributeBit = HFSPlusVolumeAttributeBit;

pub type BTreeHeaderRecAttribute = BTHeaderRec_attributes;

pub const kHFSPlusSigWord: u16 = 0x482B;

pub const kHFSXSigWord: u16 = 0x4858;

pub const kHFSPlusCatalogMinNodeSize: u32 = 4096;

pub const kHFSPlusAttrMinNodeSize: u32 = 4096;

pub const kHFSPlusCatalogKeyMinimumLength: u32 = 6;

pub const kHFSPlusCatalogKeyMaximumLength: u32 = 516;

/// `hlnk`
pub const kHardLinkFileType: OSType = 0x686C_6E6B;

/// `hfs+`
pub const kHFSPlusCreator: OSType = 0x6866_732B;

/// `slnk`
pub const kSymLinkFileType: OSType = 0x736C_6E6B;

/// `rhap`
pub const kSymLinkCreator: OSType = 0x7268_6170;

pub const JOURNAL_HEADER_MAGIC: u32 = 0x4a4e_4c78;

pub const ENDIAN_MAGIC: u32 = 0x1234_5678;

pub const HFC_MAGIC: u32 = 0xFF28_FF26;

pub const HFC_VERSION: u32 = 1;

pub const HFC_DEFAULT_DURATION: u32 = 216_000;

pub const HFC_MINIMUM_TEMPERATURE: u32 = 16;

pub const HFC_MAXIMUM_FILESIZE: u32 = 10_485_760;

/// A name: its length and its UTF-16 code units.
#[derive(Debug, Clone)]
pub struct HFSUniStr255 {
    pub length: u16,
    pub unicode: Vec<u16>,
}

/// BSD permissions.
#[derive(Debug, Clone, Copy, PartialEq, Eq, Structural)]
pub struct HFSPlusBSDInfo {
    pub ownerID: u32,
    pub groupID: u32,
    pub adminFlags: u8,
    pub ownerFlags: u8,
    pub fileMode: u16,
    /// An inode number, a link count or a raw device, as the kind of file has it.
    pub special: u32,
}

/// One extent.
#[derive(Debug, Clone, Copy, PartialEq, Eq, Structural)]
pub struct HFSPlusExtentDescriptor {
    pub startBlock: u32,
    pub blockCount: u32,
}

/// Size and first extents of a fork.
#[derive(Debug, Clone, Copy)]
pub struct HFSPlusForkData {
    pub logicalSize: u64,
    pub clumpSize: u32,
    pub totalBlocks: u32,
    pub extents: HFSPlusExtentRecord,
}

/// The volume header.
#[derive(Debug, Clone, Copy)]
pub struct HFSPlusVolumeHeader {
    pub signature: u16,
    pub version: u16,
    pub attributes: u32,
    pub lastMountedVersion: u32,
    pub journalInfoBlock: u32,
    pub createDate: u32,
    pub modifyDate: u32,
    pub backupDate: u32,
    pub checkedDate: u32,
    pub fileCount: u32,
    pub folderCount: u32,
    pub blockSize: u32,
    pub totalBlocks: u32,
    pub freeBlocks: u32,
    pub nextAllocation: u32,
    pub rsrcClumpSize: u32,
    pub dataClumpSize: u32,
    pub nextCatalogID: HFSCatalogNodeID,
    pub writeCount: u32,
    pub encodingsBitmap: u64,
    pub finderInfo: [u32; 8],
    pub allocationFile: HFSPlusForkData,
    pub extentsFile: HFSPlusForkData,
    pub catalogFile: HFSPlusForkData,
    pub attributesFile: HFSPlusForkData,
    pub startupFile: HFSPlusForkData,
}

/// The descriptor at the start of every B-tree node.
#[derive(Debug, Clone, Copy, PartialEq, Eq, Structural)]
pub struct BTNodeDescriptor {
    pub fLink: u32,
    pub bLink: u32,
    pub kind: i8,
    pub height: u8,
    pub numRecords: u16,
    pub reserved: u16,
}

/// The header record of a B-tree.
#[derive(Debug, Clone, Copy)]
pub struct BTHeaderRec {
    pub treeDepth: u16,
    pub rootNode: u32,
    pub leafRecords: u32,
    pub firstLeafNode: u32,
    pub lastLeafNode: u32,
    pub nodeSize: u16,
    pub maxKeyLength: u16,
    pub totalNodes: u32,
    pub freeNodes: u32,
    pub reserved1: u16,
    pub clumpSize: u32,
    pub btreeType: u8,
    pub keyCompareType: u8,
    pub attributes: u32,
    pub reserved3: [u32; 16],
}

/// The second record of a header node: 128 reserved bytes.
#[derive(Debug, Clone, Copy)]
pub struct BTreeUserDataRecord {
    pub reserved: [u8; 128],
}

/// A catalog key.
#[derive(Debug, Clone)]
pub struct HFSPlusCatalogKey {
    pub keyLength: u16,
    pub parentID: HFSCatalogNodeID,
    pub nodeName: HFSUniStr255,
}

/// A position on screen.
#[derive(Debug, Clone, Copy, PartialEq, Eq, Structural)]
pub struct Point {
    pub v: i16,
    pub h: i16,
}

/// A rectangle on screen.
#[derive(Debug, Clone, Copy, PartialEq, Eq, Structural)]
pub struct Rect {
    pub top: i16,
    pub left: i16,
    pub bottom: i16,
    pub right: i16,
}

/// Finder information of a file.
#[derive(Debug, Clone, Copy, PartialEq, Eq, Structural)]
pub struct FileInfo {
    pub fileType: OSType,
    pub fileCreator: OSType,
    pub finderFlags: u16,
    pub location: Point,
    pub reservedField: u16,
}

/// Extended Finder information of a file.
#[derive(Debug, Clone, Copy)]
pub struct ExtendedFileInfo {
    pub reserved1: [i16; 4],
    pub extendedFinderFlags: u16,
    pub reserved2: i16,
    pub putAwayFolderID: i32,
}

/// Finder information of a folder.
#[derive(Debug, Clone, Copy, PartialEq, Eq, Structural)]
pub struct FolderInfo {
    pub windowBounds: Rect,
    pub finderFlags: u16,
    pub location: Point,
    pub reservedField: u16,
}

/// Extended Finder information of a folder.
#[derive(Debug, Clone, Copy, PartialEq, Eq, Structural)]
pub struct ExtendedFolderInfo {
    pub scrollPosition: Point,
    pub reserved1: i32,
    pub extendedFinderFlags: u16,
    pub reserved2: i16,
    pub putAwayFolderID: i32,
}

/// A folder record.
#[derive(Debug, Clone, Copy, PartialEq, Eq, Structural)]
pub struct HFSPlusCatalogFolder {
    pub recordType: i16,
    pub flags: u16,
    pub valence: u32,
    pub folderID: HFSCatalogNodeID,
    pub createDate: u32,
    pub contentModDate: u32,
    pub attributeModDate: u32,
    pub accessDate: u32,
    pub backupDate: u32,
    pub permissions: HFSPlusBSDInfo,
    pub userInfo: FolderInfo,
    pub finderInfo: ExtendedFolderInfo,
    pub textEncoding: u32,
    pub reserved: u32,
}

/// A file record.
#[derive(Debug, Clone, Copy)]
pub struct HFSPlusCatalogFile {
    pub recordType: i16,
    pub flags: u16,
    pub reserved1: u32,
    pub fileID: HFSCatalogNodeID,
    pub createDate: u32,
    pub contentModDate: u32,
    pub attributeModDate: u32,
    pub accessDate: u32,
    pub backupDate: u32,
    pub permissions: HFSPlusBSDInfo,
    pub userInfo: FileInfo,
    pub finderInfo: ExtendedFileInfo,
    pub textEncoding: u32,
    pub reserved2: u32,
    pub dataFork: HFSPlusForkData,
    pub resourceFork: HFSPlusForkData,
}

/// A thread record.
#[derive(Debug, Clone)]
pub struct HFSPlusCatalogThread {
    pub recordType: i16,
    pub reserved: i16,
    pub parentID: HFSCatalogNodeID,
    pub nodeName: HFSUniStr255,
}

/// A key of the extents overflow file.
#[derive(Debug, Clone, Copy, PartialEq, Eq, Structural)]
pub struct HFSPlusExtentKey {
    pub keyLength: u16,
    /// 0x00 for the data fork, 0xFF for the resource fork.
    pub forkType: u8,
    pub pad: u8,
    pub fileID: HFSCatalogNodeID,
    pub startBlock: u32,
}

/// A fork data attribute.
#[derive(Debug, Clone, Copy)]
pub struct HFSPlusAttrForkData {
    pub recordType: u32,
    pub reserved: u32,
    pub theFork: HFSPlusForkData,
}

/// An extension attribute.
#[derive(Debug, Clone, Copy)]
pub struct HFSPlusAttrExtents {
    pub recordType: u32,
    pub reserved: u32,
    pub extents: HFSPlusExtentRecord,
}

/// Where the journal is.
#[derive(Debug, Clone, Copy)]
pub struct JournalInfoBlock {
    pub flags: u32,
    pub device_signature: [u32; 8],
    pub offset: u64,
    pub size: u64,
    pub reserved: [u32; 32],
}

/// The header of the journal.
#[derive(Debug, Clone, Copy, PartialEq, Eq, Structural)]
pub struct journal_header {
    pub magic: u32,
    pub endian: u32,
    pub start: u64,
    pub end: u64,
    pub size: u64,
    pub blhdr_size: u32,
    pub checksum: u32,
    pub jhdr_size: u32,
}

/// One block of a transaction.
#[derive(Debug, Clone, Copy, PartialEq, Eq, Structural)]
pub struct block_info {
    pub bnum: u64,
    pub bsize: u32,
    pub next: u32,
}

/// The header of a list of blocks in the journal.
#[derive(Debug, Clone)]
pub struct block_list_header {
    pub max_blocks: u16,
    pub num_blocks: u16,
    pub bytes_used: u32,
    pub checksum: u32,
    pub pad: u32,
    pub binfo: Vec<block_info>,
}

/// A key of the hot file B-tree.
#[derive(Debug, Clone, Copy, PartialEq, Eq, Structural)]
pub struct HotFileKey {
    pub keyLength: u16,
    pub forkType: u8,
    pub pad: u8,
    pub temperature: u32,
    pub fileID: u32,
}

/// The bits of the BSD file mode.
#[derive(Debug, Clone, Copy, PartialEq, Eq, Structural)]
pub enum FileMode {
    S_ISUID,
    S_ISGID,
    S_ISTXT,
    S_IRWXU,
    S_IRUSR,
    S_IWUSR,
    S_IXUSR,
    S_IRWXG,
    S_IRGRP,
    S_IWGRP,
    S_IXGRP,
    S_IRWXO,
    S_IROTH,
    S_IWOTH,
    S_IXOTH,
    S_IFMT,
    S_IFIFO,
    S_IFCHR,
    S_IFDIR,
    S_IFBLK,
    S_IFREG,
    S_IFLNK,
    S_IFSOCK,
    S_IFWHT,
}

impl FileMode {
    /// The mask of this flag.
    pub open spec fn value_of(self) -> u32 {
        match self {
            FileMode::S_ISUID => 0o004000,
            FileMode::S_ISGID => 0o002000,
            FileMode::S_ISTXT => 0o001000,
            FileMode::S_IRWXU => 0o000700,
            FileMode::S_IRUSR => 0o000400,
            FileMode::S_IWUSR => 0o000200,
            FileMode::S_IXUSR => 0o000100,
            FileMode::S_IRWXG => 0o000070,
            FileMode::S_IRGRP => 0o000040,
            FileMode::S_IWGRP => 0o000020,
            FileMode::S_IXGRP => 0o000010,
            FileMode::S_IRWXO => 0o000007,
            FileMode::S_IROTH => 0o000004,
            FileMode::S_IWOTH => 0o000002,
            FileMode::S_IXOTH => 0o000001,
            FileMode::S_IFMT => 0o170000,
            FileMode::S_IFIFO => 0o010000,
            FileMode::S_IFCHR => 0o020000,
            FileMode::S_IFDIR => 0o040000,
            FileMode::S_IFBLK => 0o060000,
            FileMode::S_IFREG => 0o100000,
            FileMode::S_IFLNK => 0o120000,
            FileMode::S_IFSOCK => 0o140000,
            FileMode::S_IFWHT => 0o160000,
        }
    }

    /// The mask of this flag.
    pub fn value(self) -> (v: u32)
        ensures
            v == self.value_of(),
    {
        match self {
            FileMode::S_ISUID => 0o004000,
            FileMode::S_ISGID => 0o002000,
            FileMode::S_ISTXT => 0o001000,
            FileMode::S_IRWXU => 0o000700,
            FileMode::S_IRUSR => 0o000400,
            FileMode::S_IWUSR => 0o000200,
            FileMode::S_IXUSR => 0o000100,
            FileMode::S_IRWXG => 0o000070,
            FileMode::S_IRGRP => 0o000040,
            FileMode::S_IWGRP => 0o000020,
            FileMode::S_IXGRP => 0o000010,
            FileMode::S_IRWXO => 0o000007,
            FileMode::S_IROTH => 0o000004,
            FileMode::S_IWOTH => 0o000002,
            FileMode::S_IXOTH => 0o000001,
            FileMode::S_IFMT => 0o170000,
            FileMode::S_IFIFO => 0o010000,
            FileMode::S_IFCHR => 0o020000,
            FileMode::S_IFDIR => 0o040000,
            FileMode::S_IFBLK => 0o060000,
            FileMode::S_IFREG => 0o100000,
            FileMode::S_IFLNK => 0o120000,
            FileMode::S_IFSOCK => 0o140000,
            FileMode::S_IFWHT => 0o160000,
        }
    }
}

/// The bits of the volume header's attributes.
#[derive(Debug, Clone, Copy, PartialEq, Eq, Structural)]
pub enum HFSPlusVolumeAttributeBit {
    kHFSVolumeHardwareLockBit,
    kHFSVolumeUnmountedBit,
    kHFSVolumeSparedBlocksBit,
    kHFSVolumeNoCacheRequiredBit,
    kHFSBootVolumeInconsistentBit,
    kHFSCatalogNodeIDsReusedBit,
    kHFSVolumeJournaledBit,
    kHFSVolumeSoftwareLockBit,
}

impl HFSPlusVolumeAttributeBit {
    /// The number of this bit, counted from the least significant.
    pub open spec fn value_of(self) -> u32 {
        match self {
            HFSPlusVolumeAttributeBit::kHFSVolumeHardwareLockBit => 7,
            HFSPlusVolumeAttributeBit::kHFSVolumeUnmountedBit => 8,
            HFSPlusVolumeAttributeBit::kHFSVolumeSparedBlocksBit => 9,
            HFSPlusVolumeAttributeBit::kHFSVolumeNoCacheRequiredBit => 10,
            HFSPlusVolumeAttributeBit::kHFSBootVolumeInconsistentBit => 11,
            HFSPlusVolumeAttributeBit::kHFSCatalogNodeIDsReusedBit => 12,
            HFSPlusVolumeAttributeBit::kHFSVolumeJournaledBit => 13,
            HFSPlusVolumeAttributeBit::kHFSVolumeSoftwareLockBit => 15,
        }
    }

    /// The number of this bit, counted from the least significant.
    pub fn value(self) -> (v: u32)
        ensures
            v == self.value_of(),
    {
        match self {
            HFSPlusVolumeAttributeBit::kHFSVolumeHardwareLockBit => 7,
            HFSPlusVolumeAttributeBit::kHFSVolumeUnmountedBit => 8,
            HFSPlusVolumeAttributeBit::kHFSVolumeSparedBlocksBit => 9,
            HFSPlusVolumeAttributeBit::kHFSVolumeNoCacheRequiredBit => 10,
            HFSPlusVolumeAttributeBit::kHFSBootVolumeInconsistentBit => 11,
            HFSPlusVolumeAttributeBit::kHFSCatalogNodeIDsReusedBit => 12,
            HFSPlusVolumeAttributeBit::kHFSVolumeJournaledBit => 13,
            HFSPlusVolumeAttributeBit::kHFSVolumeSoftwareLockBit => 15,
        }
    }
}

/// The kinds of B-tree node.
#[derive(Debug, Clone, Copy, PartialEq, Eq, Structural)]
pub enum BTNodeType {
    kBTLeafNode,
    kBTIndexNode,
    kBTHeaderNode,
    kBTMapNode,
}

impl BTNodeType {
    /// The number that stands for this name on disk.
    pub open spec fn value_of(self) -> i8 {
        match self {
            BTNodeType::kBTLeafNode => -1i8,
            BTNodeType::kBTIndexNode => 0,
            BTNodeType::kBTHeaderNode => 1,
            BTNodeType::kBTMapNode => 2,
        }
    }

    /// The number that stands for this name on disk.
    pub fn value(self) -> (v: i8)
        ensures
            v == self.value_of(),
    {
        match self {
            BTNodeType::kBTLeafNode => -1i8,
            BTNodeType::kBTIndexNode => 0,
            BTNodeType::kBTHeaderNode => 1,
            BTNodeType::kBTMapNode => 2,
        }
    }

    /// The name that `v` stands for; `None` where it stands for none.
    pub fn from_value(v: i8) -> (name: Option<BTNodeType>)
        ensures
            match name {
                Some(n) => n.value_of() == v,
                None => forall|n: BTNodeType| n.value_of() != v,
            },
    {
        if v == -1i8 {
            Some(BTNodeType::kBTLeafNode)
        } else if v == 0 {
            Some(BTNodeType::kBTIndexNode)
        } else if v == 1 {
            Some(BTNodeType::kBTHeaderNode)
        } else if v == 2 {
            Some(BTNodeType::kBTMapNode)
        } else {
            None
        }
    }
}

/// The types of B-tree.
#[derive(Debug, Clone, Copy, PartialEq, Eq, Structural)]
pub enum BTreeTypes {
    /// Catalog, extents and attributes trees.
    kHFSBTreeType,
    /// The types from here on are open to users.
    kUserBTreeType,
    kReservedBTreeType,
}

impl BTreeTypes {
    /// The number that stands for this name on disk.
    pub open spec fn value_of(self) -> u8 {
        match self {
            BTreeTypes::kHFSBTreeType => 0,
            BTreeTypes::kUserBTreeType => 128,
            BTreeTypes::kReservedBTreeType => 255,
        }
    }

    /// The number that stands for this name on disk.
    pub fn value(self) -> (v: u8)
        ensures
            v == self.value_of(),
    {
        match self {
            BTreeTypes::kHFSBTreeType => 0,
            BTreeTypes::kUserBTreeType => 128,
            BTreeTypes::kReservedBTreeType => 255,
        }
    }

    /// The name that `v` stands for; `None` where it stands for none.
    pub fn from_value(v: u8) -> (name: Option<BTreeTypes>)
        ensures
            match name {
                Some(n) => n.value_of() == v,
                None => forall|n: BTreeTypes| n.value_of() != v,
            },
    {
        if v == 0 {
            Some(BTreeTypes::kHFSBTreeType)
        } else if v == 128 {
            Some(BTreeTypes::kUserBTreeType)
        } else if v == 255 {
            Some(BTreeTypes::kReservedBTreeType)
        } else {
            None
        }
    }
}

/// The bits of a B-tree header's attributes.
#[derive(Debug, Clone, Copy, PartialEq, Eq, Structural)]
pub enum BTHeaderRec_attributes {
    kBTBadCloseMask,
    kBTBigKeysMask,
    kBTVariableIndexKeysMask,
}

impl BTHeaderRec_attributes {
    /// The mask of this flag.
    pub open spec fn value_of(self) -> u32 {
        match self {
            BTHeaderRec_attributes::kBTBadCloseMask => 0x0000_0001,
            BTHeaderRec_attributes::kBTBigKeysMask => 0x0000_0002,
            BTHeaderRec_attributes::kBTVariableIndexKeysMask => 0x0000_0004,
        }
    }

    /// The mask of this flag.
    pub fn value(self) -> (v: u32)
        ensures
            v == self.value_of(),
    {
        match self {
            BTHeaderRec_attributes::kBTBadCloseMask => 0x0000_0001,
            BTHeaderRec_attributes::kBTBigKeysMask => 0x0000_0002,
            BTHeaderRec_attributes::kBTVariableIndexKeysMask => 0x0000_0004,
        }
    }
}

/// The catalog node IDs that the format reserves.
#[derive(Debug, Clone, Copy, PartialEq, Eq, Structural)]
pub enum WellKnownCnid {
    kHFSRootParentID,
    kHFSRootFolderID,
    kHFSExtentsFileID,
    kHFSCatalogFileID,
    kHFSBadBlockFileID,
    kHFSAllocationFileID,
    kHFSStartupFileID,
    kHFSAttributesFileID,
    kHFSRepairCatalogFileID,
    kHFSBogusExtentFileID,
    kHFSFirstUserCatalogNodeID,
}

impl WellKnownCnid {
    /// The number that stands for this name on disk.
    pub open spec fn value_of(self) -> u32 {
        match self {
            WellKnownCnid::kHFSRootParentID => 1,
            WellKnownCnid::kHFSRootFolderID => 2,
            WellKnownCnid::kHFSExtentsFileID => 3,
            WellKnownCnid::kHFSCatalogFileID => 4,
            WellKnownCnid::kHFSBadBlockFileID => 5,
            WellKnownCnid::kHFSAllocationFileID => 6,
            WellKnownCnid::kHFSStartupFileID => 7,
            WellKnownCnid::kHFSAttributesFileID => 8,
            WellKnownCnid::kHFSRepairCatalogFileID => 14,
            WellKnownCnid::kHFSBogusExtentFileID => 15,
            WellKnownCnid::kHFSFirstUserCatalogNodeID => 16,
        }
    }

    /// The number that stands for this name on disk.
    pub fn value(self) -> (v: u32)
        ensures
            v == self.value_of(),
    {
        match self {
            WellKnownCnid::kHFSRootParentID => 1,
            WellKnownCnid::kHFSRootFolderID => 2,
            WellKnownCnid::kHFSExtentsFileID => 3,
            WellKnownCnid::kHFSCatalogFileID => 4,
            WellKnownCnid::kHFSBadBlockFileID => 5,
            WellKnownCnid::kHFSAllocationFileID => 6,
            WellKnownCnid::kHFSStartupFileID => 7,
            WellKnownCnid::kHFSAttributesFileID => 8,
            WellKnownCnid::kHFSRepairCatalogFileID => 14,
            WellKnownCnid::kHFSBogusExtentFileID => 15,
            WellKnownCnid::kHFSFirstUserCatalogNodeID => 16,
        }
    }

    /// The name that `v` stands for; `None` where it stands for none.
    pub fn from_value(v: u32) -> (name: Option<WellKnownCnid>)
        ensures
            match name {
                Some(n) => n.value_of() == v,
                None => forall|n: WellKnownCnid| n.value_of() != v,
            },
    {
        if v == 1 {
            Some(WellKnownCnid::kHFSRootParentID)
        } else if v == 2 {
            Some(WellKnownCnid::kHFSRootFolderID)
        } else if v == 3 {
            Some(WellKnownCnid::kHFSExtentsFileID)
        } else if v == 4 {
            Some(WellKnownCnid::kHFSCatalogFileID)
        } else if v == 5 {
            Some(WellKnownCnid::kHFSBadBlockFileID)
        } else if v == 6 {
            Some(WellKnownCnid::kHFSAllocationFileID)
        } else if v == 7 {
            Some(WellKnownCnid::kHFSStartupFileID)
        } else if v == 8 {
            Some(WellKnownCnid::kHFSAttributesFileID)
        } else if v == 14 {
            Some(WellKnownCnid::kHFSRepairCatalogFileID)
        } else if v == 15 {
            Some(WellKnownCnid::kHFSBogusExtentFileID)
        } else if v == 16 {
            Some(WellKnownCnid::kHFSFirstUserCatalogNodeID)
        } else {
            None
        }
    }
}

/// The types of catalog record.
#[derive(Debug, Clone, Copy, PartialEq, Eq, Structural)]
pub enum BTNodeDescriptor_kind {
    kHFSPlusFolderRecord,
    kHFSPlusFileRecord,
    kHFSPlusFolderThreadRecord,
    kHFSPlusFileThreadRecord,
}

impl BTNodeDescriptor_kind {
    /// The number that stands for this name on disk.
    pub open spec fn value_of(self) -> u16 {
        match self {
            BTNodeDescriptor_kind::kHFSPlusFolderRecord => 0x0001,
            BTNodeDescriptor_kind::kHFSPlusFileRecord => 0x0002,
            BTNodeDescriptor_kind::kHFSPlusFolderThreadRecord => 0x0003,
            BTNodeDescriptor_kind::kHFSPlusFileThreadRecord => 0x0004,
        }
    }

    /// The number that stands for this name on disk.
    pub fn value(self) -> (v: u16)
        ensures
            v == self.value_of(),
    {
        match self {
            BTNodeDescriptor_kind::kHFSPlusFolderRecord => 0x0001,
            BTNodeDescriptor_kind::kHFSPlusFileRecord => 0x0002,
            BTNodeDescriptor_kind::kHFSPlusFolderThreadRecord => 0x0003,
            BTNodeDescriptor_kind::kHFSPlusFileThreadRecord => 0x0004,
        }
    }

    /// The name that `v` stands for; `None` where it stands for none.
    pub fn from_value(v: u16) -> (name: Option<BTNodeDescriptor_kind>)
        ensures
            match name {
                Some(n) => n.value_of() == v,
                None => forall|n: BTNodeDescriptor_kind| n.value_of() != v,
            },
    {
        if v == 0x0001 {
            Some(BTNodeDescriptor_kind::kHFSPlusFolderRecord)
        } else if v == 0x0002 {
            Some(BTNodeDescriptor_kind::kHFSPlusFileRecord)
        } else if v == 0x0003 {
            Some(BTNodeDescriptor_kind::kHFSPlusFolderThreadRecord)
        } else if v == 0x0004 {
            Some(BTNodeDescriptor_kind::kHFSPlusFileThreadRecord)
        } else {
            None
        }
    }
}

/// The bits of a file record's flags.
#[derive(Debug, Clone, Copy, PartialEq, Eq, Structural)]
pub enum HFSPlusCatalog_fields {
    kHFSFileLockedBit,
    kHFSThreadExistsBit,
}

impl HFSPlusCatalog_fields {
    /// The number of this bit, counted from the least significant.
    pub open spec fn value_of(self) -> u16 {
        match self {
            HFSPlusCatalog_fields::kHFSFileLockedBit => 0x0000,
            HFSPlusCatalog_fields::kHFSThreadExistsBit => 0x0001,
        }
    }

    /// The number of this bit, counted from the least significant.
    pub fn value(self) -> (v: u16)
        ensures
            v == self.value_of(),
    {
        match self {
            HFSPlusCatalog_fields::kHFSFileLockedBit => 0x0000,
            HFSPlusCatalog_fields::kHFSThreadExistsBit => 0x0001,
        }
    }
}

/// The bits of a file record's flags, as masks.
#[derive(Debug, Clone, Copy, PartialEq, Eq, Structural)]
pub enum HFSPlusCatalog_masks {
    kHFSFileLockedMask,
    kHFSThreadExistsMask,
}

impl HFSPlusCatalog_masks {
    /// The mask of this flag.
    pub open spec fn value_of(self) -> u16 {
        match self {
            HFSPlusCatalog_masks::kHFSFileLockedMask => 0x0001,
            HFSPlusCatalog_masks::kHFSThreadExistsMask => 0x0002,
        }
    }

    /// The mask of this flag.
    pub fn value(self) -> (v: u16)
        ensures
            v == self.value_of(),
    {
        match self {
            HFSPlusCatalog_masks::kHFSFileLockedMask => 0x0001,
            HFSPlusCatalog_masks::kHFSThreadExistsMask => 0x0002,
        }
    }
}

/// The bits of the Finder flags.
#[derive(Debug, Clone, Copy, PartialEq, Eq, Structural)]
pub enum FinderFlags {
    kIsOnDesk,
    kColor,
    kIsShared,
    kHasNoINITs,
    kHasBeenInited,
    kHasCustomIcon,
    kIsStationery,
    kNameLocked,
    kHasBundle,
    kIsInvisible,
    kIsAlias,
}

impl FinderFlags {
    /// The mask of this flag.
    pub open spec fn value_of(self) -> u16 {
        match self {
            FinderFlags::kIsOnDesk => 0x0001,
            FinderFlags::kColor => 0x000E,
            FinderFlags::kIsShared => 0x0040,
            FinderFlags::kHasNoINITs => 0x0080,
            FinderFlags::kHasBeenInited => 0x0100,
            FinderFlags::kHasCustomIcon => 0x0400,
            FinderFlags::kIsStationery => 0x0800,
            FinderFlags::kNameLocked => 0x1000,
            FinderFlags::kHasBundle => 0x2000,
            FinderFlags::kIsInvisible => 0x4000,
            FinderFlags::kIsAlias => 0x8000,
        }
    }

    /// The mask of this flag.
    pub fn value(self) -> (v: u16)
        ensures
            v == self.value_of(),
    {
        match self {
            FinderFlags::kIsOnDesk => 0x0001,
            FinderFlags::kColor => 0x000E,
            FinderFlags::kIsShared => 0x0040,
            FinderFlags::kHasNoINITs => 0x0080,
            FinderFlags::kHasBeenInited => 0x0100,
            FinderFlags::kHasCustomIcon => 0x0400,
            FinderFlags::kIsStationery => 0x0800,
            FinderFlags::kNameLocked => 0x1000,
            FinderFlags::kHasBundle => 0x2000,
            FinderFlags::kIsInvisible => 0x4000,
            FinderFlags::kIsAlias => 0x8000,
        }
    }
}

/// The bits of the extended Finder flags.
#[derive(Debug, Clone, Copy, PartialEq, Eq, Structural)]
pub enum ExtendedFinderFlags {
    kExtendedFlagsAreInvalid,
    kExtendedFlagHasCustomBadge,
    kExtendedFlagHasRoutingInfo,
}

impl ExtendedFinderFlags {
    /// The mask of this flag.
    pub open spec fn value_of(self) -> u16 {
        match self {
            ExtendedFinderFlags::kExtendedFlagsAreInvalid => 0x8000,
            ExtendedFinderFlags::kExtendedFlagHasCustomBadge => 0x0100,
            ExtendedFinderFlags::kExtendedFlagHasRoutingInfo => 0x0004,
        }
    }

    /// The mask of this flag.
    pub fn value(self) -> (v: u16)
        ensures
            v == self.value_of(),
    {
        match self {
            ExtendedFinderFlags::kExtendedFlagsAreInvalid => 0x8000,
            ExtendedFinderFlags::kExtendedFlagHasCustomBadge => 0x0100,
            ExtendedFinderFlags::kExtendedFlagHasRoutingInfo => 0x0004,
        }
    }
}

/// The types of record in the attributes file.
#[derive(Debug, Clone, Copy, PartialEq, Eq, Structural)]
pub enum HFSPlusAttrForkData_recordType {
    kHFSPlusAttrInlineData,
    kHFSPlusAttrForkData,
    kHFSPlusAttrExtents,
}

impl HFSPlusAttrForkData_recordType {
    /// The number that stands for this name on disk.
    pub open spec fn value_of(self) -> u32 {
        match self {
            HFSPlusAttrForkData_recordType::kHFSPlusAttrInlineData => 0x10,
            HFSPlusAttrForkData_recordType::kHFSPlusAttrForkData => 0x20,
            HFSPlusAttrForkData_recordType::kHFSPlusAttrExtents => 0x30,
        }
    }

    /// The number that stands for this name on disk.
    pub fn value(self) -> (v: u32)
        ensures
            v == self.value_of(),
    {
        match self {
            HFSPlusAttrForkData_recordType::kHFSPlusAttrInlineData => 0x10,
            HFSPlusAttrForkData_recordType::kHFSPlusAttrForkData => 0x20,
            HFSPlusAttrForkData_recordType::kHFSPlusAttrExtents => 0x30,
        }
    }

    /// The name that `v` stands for; `None` where it stands for none.
    pub fn from_value(v: u32) -> (name: Option<HFSPlusAttrForkData_recordType>)
        ensures
            match name {
                Some(n) => n.value_of() == v,
                None => forall|n: HFSPlusAttrForkData_recordType| n.value_of() != v,
            },
    {
        if v == 0x10 {
            Some(HFSPlusAttrForkData_recordType::kHFSPlusAttrInlineData)
        } else if v == 0x20 {
            Some(HFSPlusAttrForkData_recordType::kHFSPlusAttrForkData)
        } else if v == 0x30 {
            Some(HFSPlusAttrForkData_recordType::kHFSPlusAttrExtents)
        } else {
            None
        }
    }
}

/// The bits of the journal info block's flags.
#[derive(Debug, Clone, Copy, PartialEq, Eq, Structural)]
pub enum JournalInfoBlock_flags {
    kJIJournalInFSMask,
    kJIJournalOnOtherDeviceMask,
    kJIJournalNeedInitMask,
}

impl JournalInfoBlock_flags {
    /// The mask of this flag.
    pub open spec fn value_of(self) -> u32 {
        match self {
            JournalInfoBlock_flags::kJIJournalInFSMask => 0x0000_0001,
            JournalInfoBlock_flags::kJIJournalOnOtherDeviceMask => 0x0000_0002,
            JournalInfoBlock_flags::kJIJournalNeedInitMask => 0x0000_0004,
        }
    }

    /// The mask of this flag.
    pub fn value(self) -> (v: u32)
        ensures
            v == self.value_of(),
    {
        match self {
            JournalInfoBlock_flags::kJIJournalInFSMask => 0x0000_0001,
            JournalInfoBlock_flags::kJIJournalOnOtherDeviceMask => 0x0000_0002,
            JournalInfoBlock_flags::kJIJournalNeedInitMask => 0x0000_0004,
        }
    }
}

/// Whether the allocation file marks `thisAllocationBlock` as in use.
pub fn IsAllocationBlockUsed(thisAllocationBlock: u32, allocationFileContents: &[u8]) -> (used:
    bool)
    requires
        bitmap_covers(allocationFileContents@, thisAllocationBlock),
    ensures
        used == block_is_used(allocationFileContents@, thisAllocationBlock),
{
    read_block_bit(allocationFileContents, thisAllocationBlock)
}

/// One step of the journal's checksum: the sum so far, shifted left by a
/// byte, exclusive-or the sum so far plus the next byte, in 32 bits.
pub open spec fn checksum_step(sum: u32, byte: u8) -> u32 {
    (sum << 8) ^ (((sum + byte) % 0x1_0000_0000) as u32)
}

/// The steps of the journal's checksum over `data`, from zero.
pub open spec fn checksum_fold(data: Seq<u8>) -> u32
    decreases data.len(),
{
    if data.len() == 0 {
        0
    } else {
        checksum_step(checksum_fold(data.drop_last()), data.last())
    }
}

/// The 32 bits of `word` read as a two's-complement number.
pub open spec fn as_signed(word: u32) -> i32 {
    if word < 0x8000_0000 {
        word as i32
    } else {
        (word - 0x1_0000_0000) as i32
    }
}

/// The checksum that the journal keeps of its headers: the complement of the
/// folded sum, read as a signed number.
pub open spec fn checksum_of(data: Seq<u8>) -> i32 {
    as_signed(!checksum_fold(data))
}

/// The journal's checksum of `ptr`.
pub fn calc_checksum(ptr: &[u8]) -> (cksum: i32)
    ensures
        cksum == checksum_of(ptr@),
{
    let mut sum: u32 = 0;
    let mut i: usize = 0;
    while i < ptr.len()
        invariant
            i <= ptr.len(),
            sum == checksum_fold(ptr@.take(i as int)),
        decreases ptr.len() - i,
    {
        proof {
            let next = ptr@.take(i + 1);
            assert(next.drop_last() == ptr@.take(i as int));
            assert(next.last() == ptr@[i as int]);
        }
        sum = (sum << 8) ^ sum.wrapping_add(ptr[i] as u32);
        i += 1;
    }
    assert(ptr@.take(i as int) == ptr@);
    let word: u32 = !sum;
    if word < 0x8000_0000 {
        word as i32
    } else {
        (word as i64 - 0x1_0000_0000) as i32
    }
}

} // verus!
