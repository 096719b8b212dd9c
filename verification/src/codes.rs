//! The well-known numbers of the volume format under the names by which
//! they are spoken of: signatures, reserved node IDs, flag masks, record
//! types and type codes.

use vstd::prelude::*;

verus! {

/// The signature at the start of a volume header.
#[derive(Debug, Clone, Copy, PartialEq, Eq, Structural)]
pub enum VolumeSignature {
    /// `H+`: an HFS Plus volume.
    HfsPlus,
    /// `HX`: an HFSX volume, whose names may be case-sensitive.
    HfsX,
}

impl VolumeSignature {
    /// The number that stands for this name on disk.
    pub open spec fn value_of(self) -> u16 {
        match self {
            VolumeSignature::HfsPlus => 0x482B,
            VolumeSignature::HfsX => 0x4858,
        }
    }

    /// The number that stands for this name on disk.
    pub fn value(self) -> (v: u16)
        ensures
            v == self.value_of(),
    {
        match self {
            VolumeSignature::HfsPlus => 0x482B,
            VolumeSignature::HfsX => 0x4858,
        }
    }

    /// The name that `v` stands for; `None` where it stands for none.
    pub fn from_value(v: u16) -> (name: Option<VolumeSignature>)
        ensures
            match name {
                Some(n) => n.value_of() == v,
                None => forall|n: VolumeSignature| n.value_of() != v,
            },
    {
        if v == 0x482B {
            Some(VolumeSignature::HfsPlus)
        } else if v == 0x4858 {
            Some(VolumeSignature::HfsX)
        } else {
            None
        }
    }
}

/// The version of the volume format.
#[derive(Debug, Clone, Copy, PartialEq, Eq, Structural)]
pub enum VolumeVersion {
    HfsPlus,
    HfsX,
}

impl VolumeVersion {
    /// The number that stands for this name on disk.
    pub open spec fn value_of(self) -> u16 {
        match self {
            VolumeVersion::HfsPlus => 4,
            VolumeVersion::HfsX => 5,
        }
    }

    /// The number that stands for this name on disk.
    pub fn value(self) -> (v: u16)
        ensures
            v == self.value_of(),
    {
        match self {
            VolumeVersion::HfsPlus => 4,
            VolumeVersion::HfsX => 5,
        }
    }

    /// The name that `v` stands for; `None` where it stands for none.
    pub fn from_value(v: u16) -> (name: Option<VolumeVersion>)
        ensures
            match name {
                Some(n) => n.value_of() == v,
                None => forall|n: VolumeVersion| n.value_of() != v,
            },
    {
        if v == 4 {
            Some(VolumeVersion::HfsPlus)
        } else if v == 5 {
            Some(VolumeVersion::HfsX)
        } else {
            None
        }
    }
}

/// The catalog node IDs that the format reserves.
#[derive(Debug, Clone, Copy, PartialEq, Eq, Structural)]
pub enum SpecialFileCatalogNodeId {
    /// Parent of the root folder.
    RootParent,
    /// The root folder.
    RootFolder,
    /// The extents overflow file.
    ExtentsFile,
    /// The catalog file.
    CatalogFile,
    /// The bad block file.
    BadBlockFile,
    /// The allocation file.
    AllocationFile,
    /// The startup file.
    StartupFile,
    /// The attributes file.
    AttributesFile,
    /// Used while the catalog is being repaired.
    RepairCatalogFile,
    /// Used while extents are being exchanged.
    BogusExtentFile,
    /// The first node ID open to the user's files and folders.
    FirstUserCatalogNode,
}

impl SpecialFileCatalogNodeId {
    /// The number that stands for this name on disk.
    pub open spec fn value_of(self) -> u32 {
        match self {
            SpecialFileCatalogNodeId::RootParent => 1,
            SpecialFileCatalogNodeId::RootFolder => 2,
            SpecialFileCatalogNodeId::ExtentsFile => 3,
            SpecialFileCatalogNodeId::CatalogFile => 4,
            SpecialFileCatalogNodeId::BadBlockFile => 5,
            SpecialFileCatalogNodeId::AllocationFile => 6,
            SpecialFileCatalogNodeId::StartupFile => 7,
            SpecialFileCatalogNodeId::AttributesFile => 8,
            SpecialFileCatalogNodeId::RepairCatalogFile => 14,
            SpecialFileCatalogNodeId::BogusExtentFile => 15,
            SpecialFileCatalogNodeId::FirstUserCatalogNode => 16,
        }
    }

    /// The number that stands for this name on disk.
    pub fn value(self) -> (v: u32)
        ensures
            v == self.value_of(),
    {
        match self {
            SpecialFileCatalogNodeId::RootParent => 1,
            SpecialFileCatalogNodeId::RootFolder => 2,
            SpecialFileCatalogNodeId::ExtentsFile => 3,
            SpecialFileCatalogNodeId::CatalogFile => 4,
            SpecialFileCatalogNodeId::BadBlockFile => 5,
            SpecialFileCatalogNodeId::AllocationFile => 6,
            SpecialFileCatalogNodeId::StartupFile => 7,
            SpecialFileCatalogNodeId::AttributesFile => 8,
            SpecialFileCatalogNodeId::RepairCatalogFile => 14,
            SpecialFileCatalogNodeId::BogusExtentFile => 15,
            SpecialFileCatalogNodeId::FirstUserCatalogNode => 16,
        }
    }

    /// The name that `v` stands for; `None` where it stands for none.
    pub fn from_value(v: u32) -> (name: Option<SpecialFileCatalogNodeId>)
        ensures
            match name {
                Some(n) => n.value_of() == v,
                None => forall|n: SpecialFileCatalogNodeId| n.value_of() != v,
            },
    {
        if v == 1 {
            Some(SpecialFileCatalogNodeId::RootParent)
        } else if v == 2 {
            Some(SpecialFileCatalogNodeId::RootFolder)
        } else if v == 3 {
            Some(SpecialFileCatalogNodeId::ExtentsFile)
        } else if v == 4 {
            Some(SpecialFileCatalogNodeId::CatalogFile)
        } else if v == 5 {
            Some(SpecialFileCatalogNodeId::BadBlockFile)
        } else if v == 6 {
            Some(SpecialFileCatalogNodeId::AllocationFile)
        } else if v == 7 {
            Some(SpecialFileCatalogNodeId::StartupFile)
        } else if v == 8 {
            Some(SpecialFileCatalogNodeId::AttributesFile)
        } else if v == 14 {
            Some(SpecialFileCatalogNodeId::RepairCatalogFile)
        } else if v == 15 {
            Some(SpecialFileCatalogNodeId::BogusExtentFile)
        } else if v == 16 {
            Some(SpecialFileCatalogNodeId::FirstUserCatalogNode)
        } else {
            None
        }
    }
}

/// Four-character codes of the implementations that are known to mount
/// volumes.
#[derive(Debug, Clone, Copy, PartialEq, Eq, Structural)]
pub enum KnownCreatorCodes {
    /// `8.10`: Mac OS 8.1 to 9.2.2.
    MacOs81,
    /// `10.0`: Mac OS X.
    MacOsX,
    /// `HFSJ`: Mac OS X on a journaled volume.
    MacOsXJournaled,
    /// `fsck`: the tool that verifies and repairs volumes.
    FsckHfs,
}

impl KnownCreatorCodes {
    /// The number that stands for this name on disk.
    pub open spec fn value_of(self) -> u32 {
        match self {
            KnownCreatorCodes::MacOs81 => 0x382E3130,
            KnownCreatorCodes::MacOsX => 0x31302E30,
            KnownCreatorCodes::MacOsXJournaled => 0x4846534A,
            KnownCreatorCodes::FsckHfs => 0x6673636B,
        }
    }

    /// The number that stands for this name on disk.
    pub fn value(self) -> (v: u32)
        ensures
            v == self.value_of(),
    {
        match self {
            KnownCreatorCodes::MacOs81 => 0x382E3130,
            KnownCreatorCodes::MacOsX => 0x31302E30,
            KnownCreatorCodes::MacOsXJournaled => 0x4846534A,
            KnownCreatorCodes::FsckHfs => 0x6673636B,
        }
    }

    /// The name that `v` stands for; `None` where it stands for none.
    pub fn from_value(v: u32) -> (name: Option<KnownCreatorCodes>)
        ensures
            match name {
                Some(n) => n.value_of() == v,
                None => forall|n: KnownCreatorCodes| n.value_of() != v,
            },
    {
        if v == 0x382E3130 {
            Some(KnownCreatorCodes::MacOs81)
        } else if v == 0x31302E30 {
            Some(KnownCreatorCodes::MacOsX)
        } else if v == 0x4846534A {
            Some(KnownCreatorCodes::MacOsXJournaled)
        } else if v == 0x6673636B {
            Some(KnownCreatorCodes::FsckHfs)
        } else {
            None
        }
    }
}

/// The bits of the volume header's attributes.
#[derive(Debug, Clone, Copy, PartialEq, Eq, Structural)]
pub enum VolumeAttributeMask {
    /// The hardware keeps the volume from being written.
    HardwareLock,
    /// The volume was flushed when it was last unmounted.
    Unmounted,
    /// The extents overflow file lists bad blocks.
    SparedBlocks,
    /// Blocks of this volume should not be cached.
    NoCacheRequired,
    /// The volume is mounted for writing, or was not unmounted cleanly.
    VolumeInconsistent,
    /// The next catalog node ID has wrapped around.
    CatalogNodeIdsReused,
    /// The volume has a journal.
    VolumeJournaled,
    /// Software keeps the volume from being written.
    SoftwareLock,
}

impl VolumeAttributeMask {
    /// The mask of this flag.
    pub open spec fn value_of(self) -> u32 {
        match self {
            VolumeAttributeMask::HardwareLock => 0x0000_0080,
            VolumeAttributeMask::Unmounted => 0x0000_0100,
            VolumeAttributeMask::SparedBlocks => 0x0000_0200,
            VolumeAttributeMask::NoCacheRequired => 0x0000_0400,
            VolumeAttributeMask::VolumeInconsistent => 0x0000_0800,
            VolumeAttributeMask::CatalogNodeIdsReused => 0x0000_1000,
            VolumeAttributeMask::VolumeJournaled => 0x0000_2000,
            VolumeAttributeMask::SoftwareLock => 0x0000_8000,
        }
    }

    /// The mask of this flag.
    pub fn value(self) -> (v: u32)
        ensures
            v == self.value_of(),
    {
        match self {
            VolumeAttributeMask::HardwareLock => 0x0000_0080,
            VolumeAttributeMask::Unmounted => 0x0000_0100,
            VolumeAttributeMask::SparedBlocks => 0x0000_0200,
            VolumeAttributeMask::NoCacheRequired => 0x0000_0400,
            VolumeAttributeMask::VolumeInconsistent => 0x0000_0800,
            VolumeAttributeMask::CatalogNodeIdsReused => 0x0000_1000,
            VolumeAttributeMask::VolumeJournaled => 0x0000_2000,
            VolumeAttributeMask::SoftwareLock => 0x0000_8000,
        }
    }
}

/// Flags that only the super-user may change.
#[derive(Debug, Clone, Copy, PartialEq, Eq, Structural)]
pub enum BsdInfoAdminFlags {
    Archived,
    Immutable,
    AppendOnly,
}

impl BsdInfoAdminFlags {
    /// The mask of this flag.
    pub open spec fn value_of(self) -> u8 {
        match self {
            BsdInfoAdminFlags::Archived => 1,
            BsdInfoAdminFlags::Immutable => 2,
            BsdInfoAdminFlags::AppendOnly => 4,
        }
    }

    /// The mask of this flag.
    pub fn value(self) -> (v: u8)
        ensures
            v == self.value_of(),
    {
        match self {
            BsdInfoAdminFlags::Archived => 1,
            BsdInfoAdminFlags::Immutable => 2,
            BsdInfoAdminFlags::AppendOnly => 4,
        }
    }
}

/// Flags that the owner may change.
#[derive(Debug, Clone, Copy, PartialEq, Eq, Structural)]
pub enum BsdInfoOwnerFlags {
    NoDump,
    Immutable,
    AppendOnly,
    Opaque,
}

impl BsdInfoOwnerFlags {
    /// The mask of this flag.
    pub open spec fn value_of(self) -> u8 {
        match self {
            BsdInfoOwnerFlags::NoDump => 1,
            BsdInfoOwnerFlags::Immutable => 2,
            BsdInfoOwnerFlags::AppendOnly => 4,
            BsdInfoOwnerFlags::Opaque => 8,
        }
    }

    /// The mask of this flag.
    pub fn value(self) -> (v: u8)
        ensures
            v == self.value_of(),
    {
        match self {
            BsdInfoOwnerFlags::NoDump => 1,
            BsdInfoOwnerFlags::Immutable => 2,
            BsdInfoOwnerFlags::AppendOnly => 4,
            BsdInfoOwnerFlags::Opaque => 8,
        }
    }
}

/// The bits of the BSD file mode.
#[derive(Debug, Clone, Copy, PartialEq, Eq, Structural)]
pub enum BsdInfoFileModeFlag {
    /// Set user ID on execution.
    SetUid,
    /// Set group ID on execution.
    SetGid,
    /// Sticky bit.
    Sticky,
    /// Read, write and execute for the owner, together.
    OwnerRwxMask,
    OwnerRead,
    OwnerWrite,
    OwnerExecute,
    /// Read, write and execute for the group, together.
    GroupRwxMask,
    GroupRead,
    GroupWrite,
    GroupExecute,
    /// Read, write and execute for all others, together.
    OtherRwxMask,
    OtherRead,
    OtherWrite,
    OtherExecute,
    /// The bits that tell the type of file.
    FileTypeMask,
    NamedPipe,
    CharacterSpecial,
    Directory,
    BlockSpecial,
    Regular,
    SymbolicLink,
    Socket,
    Whiteout,
}

impl BsdInfoFileModeFlag {
    /// The mask of this flag.
    pub open spec fn value_of(self) -> u16 {
        match self {
            BsdInfoFileModeFlag::SetUid => 0o004000,
            BsdInfoFileModeFlag::SetGid => 0o002000,
            BsdInfoFileModeFlag::Sticky => 0o001000,
            BsdInfoFileModeFlag::OwnerRwxMask => 0o000700,
            BsdInfoFileModeFlag::OwnerRead => 0o000400,
            BsdInfoFileModeFlag::OwnerWrite => 0o000200,
            BsdInfoFileModeFlag::OwnerExecute => 0o000100,
            BsdInfoFileModeFlag::GroupRwxMask => 0o000070,
            BsdInfoFileModeFlag::GroupRead => 0o000040,
            BsdInfoFileModeFlag::GroupWrite => 0o000020,
            BsdInfoFileModeFlag::GroupExecute => 0o000010,
            BsdInfoFileModeFlag::OtherRwxMask => 0o000007,
            BsdInfoFileModeFlag::OtherRead => 0o000004,
            BsdInfoFileModeFlag::OtherWrite => 0o000002,
            BsdInfoFileModeFlag::OtherExecute => 0o000001,
            BsdInfoFileModeFlag::FileTypeMask => 0o170000,
            BsdInfoFileModeFlag::NamedPipe => 0o010000,
            BsdInfoFileModeFlag::CharacterSpecial => 0o020000,
            BsdInfoFileModeFlag::Directory => 0o040000,
            BsdInfoFileModeFlag::BlockSpecial => 0o060000,
            BsdInfoFileModeFlag::Regular => 0o100000,
            BsdInfoFileModeFlag::SymbolicLink => 0o120000,
            BsdInfoFileModeFlag::Socket => 0o140000,
            BsdInfoFileModeFlag::Whiteout => 0o160000,
        }
    }

    /// The mask of this flag.
    pub fn value(self) -> (v: u16)
        ensures
            v == self.value_of(),
    {
        match self {
            BsdInfoFileModeFlag::SetUid => 0o004000,
            BsdInfoFileModeFlag::SetGid => 0o002000,
            BsdInfoFileModeFlag::Sticky => 0o001000,
            BsdInfoFileModeFlag::OwnerRwxMask => 0o000700,
            BsdInfoFileModeFlag::OwnerRead => 0o000400,
            BsdInfoFileModeFlag::OwnerWrite => 0o000200,
            BsdInfoFileModeFlag::OwnerExecute => 0o000100,
            BsdInfoFileModeFlag::GroupRwxMask => 0o000070,
            BsdInfoFileModeFlag::GroupRead => 0o000040,
            BsdInfoFileModeFlag::GroupWrite => 0o000020,
            BsdInfoFileModeFlag::GroupExecute => 0o000010,
            BsdInfoFileModeFlag::OtherRwxMask => 0o000007,
            BsdInfoFileModeFlag::OtherRead => 0o000004,
            BsdInfoFileModeFlag::OtherWrite => 0o000002,
            BsdInfoFileModeFlag::OtherExecute => 0o000001,
            BsdInfoFileModeFlag::FileTypeMask => 0o170000,
            BsdInfoFileModeFlag::NamedPipe => 0o010000,
            BsdInfoFileModeFlag::CharacterSpecial => 0o020000,
            BsdInfoFileModeFlag::Directory => 0o040000,
            BsdInfoFileModeFlag::BlockSpecial => 0o060000,
            BsdInfoFileModeFlag::Regular => 0o100000,
            BsdInfoFileModeFlag::SymbolicLink => 0o120000,
            BsdInfoFileModeFlag::Socket => 0o140000,
            BsdInfoFileModeFlag::Whiteout => 0o160000,
        }
    }
}

/// The kinds of B-tree node.
#[derive(Debug, Clone, Copy, PartialEq, Eq, Structural)]
pub enum BTreeNodeType {
    /// Holds data records.
    Leaf,
    /// Holds pointer records.
    Index,
    /// Holds the header record.
    Header,
    /// Holds more of the allocation map.
    MapNode,
}

impl BTreeNodeType {
    /// The number that stands for this name on disk.
    pub open spec fn value_of(self) -> i8 {
        match self {
            BTreeNodeType::Leaf => -1i8,
            BTreeNodeType::Index => 0,
            BTreeNodeType::Header => 1,
            BTreeNodeType::MapNode => 2,
        }
    }

    /// The number that stands for this name on disk.
    pub fn value(self) -> (v: i8)
        ensures
            v == self.value_of(),
    {
        match self {
            BTreeNodeType::Leaf => -1i8,
            BTreeNodeType::Index => 0,
            BTreeNodeType::Header => 1,
            BTreeNodeType::MapNode => 2,
        }
    }

    /// The name that `v` stands for; `None` where it stands for none.
    pub fn from_value(v: i8) -> (name: Option<BTreeNodeType>)
        ensures
            match name {
                Some(n) => n.value_of() == v,
                None => forall|n: BTreeNodeType| n.value_of() != v,
            },
    {
        if v == -1i8 {
            Some(BTreeNodeType::Leaf)
        } else if v == 0 {
            Some(BTreeNodeType::Index)
        } else if v == 1 {
            Some(BTreeNodeType::Header)
        } else if v == 2 {
            Some(BTreeNodeType::MapNode)
        } else {
            None
        }
    }
}

/// The bits of a B-tree header's attributes.
#[derive(Debug, Clone, Copy, PartialEq, Eq, Structural)]
pub enum BTreeAttributeMask {
    /// The tree was not closed properly.
    BadClose,
    /// Key lengths take 16 bits.
    BigKeys,
    /// Keys in index nodes take as many bytes as their length says.
    VariableIndexKeys,
}

impl BTreeAttributeMask {
    /// The mask of this flag.
    pub open spec fn value_of(self) -> u32 {
        match self {
            BTreeAttributeMask::BadClose => 1,
            BTreeAttributeMask::BigKeys => 2,
            BTreeAttributeMask::VariableIndexKeys => 4,
        }
    }

    /// The mask of this flag.
    pub fn value(self) -> (v: u32)
        ensures
            v == self.value_of(),
    {
        match self {
            BTreeAttributeMask::BadClose => 1,
            BTreeAttributeMask::BigKeys => 2,
            BTreeAttributeMask::VariableIndexKeys => 4,
        }
    }
}

/// The types of catalog record.
#[derive(Debug, Clone, Copy, PartialEq, Eq, Structural)]
pub enum CatalogFileDataRecordType {
    Folder,
    File,
    FolderThread,
    FileThread,
}

impl CatalogFileDataRecordType {
    /// The number that stands for this name on disk.
    pub open spec fn value_of(self) -> i16 {
        match self {
            CatalogFileDataRecordType::Folder => 0x0001,
            CatalogFileDataRecordType::File => 0x0002,
            CatalogFileDataRecordType::FolderThread => 0x0003,
            CatalogFileDataRecordType::FileThread => 0x0004,
        }
    }

    /// The number that stands for this name on disk.
    pub fn value(self) -> (v: i16)
        ensures
            v == self.value_of(),
    {
        match self {
            CatalogFileDataRecordType::Folder => 0x0001,
            CatalogFileDataRecordType::File => 0x0002,
            CatalogFileDataRecordType::FolderThread => 0x0003,
            CatalogFileDataRecordType::FileThread => 0x0004,
        }
    }

    /// The name that `v` stands for; `None` where it stands for none.
    pub fn from_value(v: i16) -> (name: Option<CatalogFileDataRecordType>)
        ensures
            match name {
                Some(n) => n.value_of() == v,
                None => forall|n: CatalogFileDataRecordType| n.value_of() != v,
            },
    {
        if v == 0x0001 {
            Some(CatalogFileDataRecordType::Folder)
        } else if v == 0x0002 {
            Some(CatalogFileDataRecordType::File)
        } else if v == 0x0003 {
            Some(CatalogFileDataRecordType::FolderThread)
        } else if v == 0x0004 {
            Some(CatalogFileDataRecordType::FileThread)
        } else {
            None
        }
    }
}

/// The types of catalog record on a volume of the older HFS format, which
/// kept the type in the high byte.
#[derive(Debug, Clone, Copy, PartialEq, Eq, Structural)]
pub enum CatalogFileDataThreadRecordType {
    Folder,
    File,
    FolderThread,
    FileThread,
}

impl CatalogFileDataThreadRecordType {
    /// The number that stands for this name on disk.
    pub open spec fn value_of(self) -> u16 {
        match self {
            CatalogFileDataThreadRecordType::Folder => 0x0100,
            CatalogFileDataThreadRecordType::File => 0x0200,
            CatalogFileDataThreadRecordType::FolderThread => 0x0300,
            CatalogFileDataThreadRecordType::FileThread => 0x0400,
        }
    }

    /// The number that stands for this name on disk.
    pub fn value(self) -> (v: u16)
        ensures
            v == self.value_of(),
    {
        match self {
            CatalogFileDataThreadRecordType::Folder => 0x0100,
            CatalogFileDataThreadRecordType::File => 0x0200,
            CatalogFileDataThreadRecordType::FolderThread => 0x0300,
            CatalogFileDataThreadRecordType::FileThread => 0x0400,
        }
    }

    /// The name that `v` stands for; `None` where it stands for none.
    pub fn from_value(v: u16) -> (name: Option<CatalogFileDataThreadRecordType>)
        ensures
            match name {
                Some(n) => n.value_of() == v,
                None => forall|n: CatalogFileDataThreadRecordType| n.value_of() != v,
            },
    {
        if v == 0x0100 {
            Some(CatalogFileDataThreadRecordType::Folder)
        } else if v == 0x0200 {
            Some(CatalogFileDataThreadRecordType::File)
        } else if v == 0x0300 {
            Some(CatalogFileDataThreadRecordType::FolderThread)
        } else if v == 0x0400 {
            Some(CatalogFileDataThreadRecordType::FileThread)
        } else {
            None
        }
    }
}

/// The bits of a file record's flags.
#[derive(Debug, Clone, Copy, PartialEq, Eq, Structural)]
pub enum CatalogFileFlag {
    /// The forks may be read, not written.
    FileLocked,
    /// The file has a thread record.
    ThreadExists,
}

impl CatalogFileFlag {
    /// The mask of this flag.
    pub open spec fn value_of(self) -> u16 {
        match self {
            CatalogFileFlag::FileLocked => 1,
            CatalogFileFlag::ThreadExists => 2,
        }
    }

    /// The mask of this flag.
    pub fn value(self) -> (v: u16)
        ensures
            v == self.value_of(),
    {
        match self {
            CatalogFileFlag::FileLocked => 1,
            CatalogFileFlag::ThreadExists => 2,
        }
    }
}

/// File types with a meaning to the file system.
#[derive(Debug, Clone, Copy, PartialEq, Eq, Structural)]
pub enum WellKnownFileTypeCode {
    /// `hlnk`: a hard link.
    HardLink,
    /// `slnk`: a symbolic link.
    SymbolicLink,
}

impl WellKnownFileTypeCode {
    /// The number that stands for this name on disk.
    pub open spec fn value_of(self) -> u32 {
        match self {
            WellKnownFileTypeCode::HardLink => 0x686C6E6B,
            WellKnownFileTypeCode::SymbolicLink => 0x736C6E6B,
        }
    }

    /// The number that stands for this name on disk.
    pub fn value(self) -> (v: u32)
        ensures
            v == self.value_of(),
    {
        match self {
            WellKnownFileTypeCode::HardLink => 0x686C6E6B,
            WellKnownFileTypeCode::SymbolicLink => 0x736C6E6B,
        }
    }

    /// The name that `v` stands for; `None` where it stands for none.
    pub fn from_value(v: u32) -> (name: Option<WellKnownFileTypeCode>)
        ensures
            match name {
                Some(n) => n.value_of() == v,
                None => forall|n: WellKnownFileTypeCode| n.value_of() != v,
            },
    {
        if v == 0x686C6E6B {
            Some(WellKnownFileTypeCode::HardLink)
        } else if v == 0x736C6E6B {
            Some(WellKnownFileTypeCode::SymbolicLink)
        } else {
            None
        }
    }
}

/// Creator codes with a meaning to the file system.
#[derive(Debug, Clone, Copy, PartialEq, Eq, Structural)]
pub enum WellKnownFileCreatorCode {
    /// `hfs+`: creator of a hard link.
    HardLink,
    /// `rhap`: creator of a symbolic link.
    SymbolicLink,
}

impl WellKnownFileCreatorCode {
    /// The number that stands for this name on disk.
    pub open spec fn value_of(self) -> u32 {
        match self {
            WellKnownFileCreatorCode::HardLink => 0x6866732B,
            WellKnownFileCreatorCode::SymbolicLink => 0x72686170,
        }
    }

    /// The number that stands for this name on disk.
    pub fn value(self) -> (v: u32)
        ensures
            v == self.value_of(),
    {
        match self {
            WellKnownFileCreatorCode::HardLink => 0x6866732B,
            WellKnownFileCreatorCode::SymbolicLink => 0x72686170,
        }
    }

    /// The name that `v` stands for; `None` where it stands for none.
    pub fn from_value(v: u32) -> (name: Option<WellKnownFileCreatorCode>)
        ensures
            match name {
                Some(n) => n.value_of() == v,
                None => forall|n: WellKnownFileCreatorCode| n.value_of() != v,
            },
    {
        if v == 0x6866732B {
            Some(WellKnownFileCreatorCode::HardLink)
        } else if v == 0x72686170 {
            Some(WellKnownFileCreatorCode::SymbolicLink)
        } else {
            None
        }
    }
}

/// The bits of the Finder flags.
#[derive(Debug, Clone, Copy, PartialEq, Eq, Structural)]
pub enum FinderFlags {
    /// Files and folders (System 6).
    IsOnDesk,
    /// Files and folders.
    Color,
    /// Applications only: several users may open the file at once.
    IsShared,
    /// Extensions and control panels only: the file holds no INIT resource.
    HasNoInits,
    /// Files only: the Finder has recorded the file's desktop resources.
    HasBeenInited,
    /// Files and folders.
    HasCustomIcon,
    /// Files only.
    IsStationery,
    /// Files and folders.
    NameLocked,
    /// Files only.
    HasBundle,
    /// Files and folders.
    IsInvisible,
    /// Files only.
    IsAlias,
}

impl FinderFlags {
    /// The mask of this flag.
    pub open spec fn value_of(self) -> u16 {
        match self {
            FinderFlags::IsOnDesk => 0x0001,
            FinderFlags::Color => 0x000E,
            FinderFlags::IsShared => 0x0040,
            FinderFlags::HasNoInits => 0x0080,
            FinderFlags::HasBeenInited => 0x0100,
            FinderFlags::HasCustomIcon => 0x0400,
            FinderFlags::IsStationery => 0x0800,
            FinderFlags::NameLocked => 0x1000,
            FinderFlags::HasBundle => 0x2000,
            FinderFlags::IsInvisible => 0x4000,
            FinderFlags::IsAlias => 0x8000,
        }
    }

    /// The mask of this flag.
    pub fn value(self) -> (v: u16)
        ensures
            v == self.value_of(),
    {
        match self {
            FinderFlags::IsOnDesk => 0x0001,
            FinderFlags::Color => 0x000E,
            FinderFlags::IsShared => 0x0040,
            FinderFlags::HasNoInits => 0x0080,
            FinderFlags::HasBeenInited => 0x0100,
            FinderFlags::HasCustomIcon => 0x0400,
            FinderFlags::IsStationery => 0x0800,
            FinderFlags::NameLocked => 0x1000,
            FinderFlags::HasBundle => 0x2000,
            FinderFlags::IsInvisible => 0x4000,
            FinderFlags::IsAlias => 0x8000,
        }
    }
}

/// The bits of the extended Finder flags.
#[derive(Debug, Clone, Copy, PartialEq, Eq, Structural)]
pub enum ExtendedFinderFlags {
    /// The other extended flags are to be ignored.
    FlagsAreInvalid,
    /// The file or folder has a badge resource.
    HasCustomBadge,
    /// The file holds a routing info resource.
    HasRoutingInfo,
}

impl ExtendedFinderFlags {
    /// The mask of this flag.
    pub open spec fn value_of(self) -> u16 {
        match self {
            ExtendedFinderFlags::FlagsAreInvalid => 0x8000,
            ExtendedFinderFlags::HasCustomBadge => 0x0100,
            ExtendedFinderFlags::HasRoutingInfo => 0x0004,
        }
    }

    /// The mask of this flag.
    pub fn value(self) -> (v: u16)
        ensures
            v == self.value_of(),
    {
        match self {
            ExtendedFinderFlags::FlagsAreInvalid => 0x8000,
            ExtendedFinderFlags::HasCustomBadge => 0x0100,
            ExtendedFinderFlags::HasRoutingInfo => 0x0004,
        }
    }
}

/// The types of record in the attributes file.
#[derive(Debug, Clone, Copy, PartialEq, Eq, Structural)]
pub enum AttributeForkDataRecordType {
    /// Reserved.
    InlineData,
    /// A fork data attribute.
    ForkData,
    /// An extension attribute.
    Extents,
}

impl AttributeForkDataRecordType {
    /// The number that stands for this name on disk.
    pub open spec fn value_of(self) -> u32 {
        match self {
            AttributeForkDataRecordType::InlineData => 0x10,
            AttributeForkDataRecordType::ForkData => 0x20,
            AttributeForkDataRecordType::Extents => 0x30,
        }
    }

    /// The number that stands for this name on disk.
    pub fn value(self) -> (v: u32)
        ensures
            v == self.value_of(),
    {
        match self {
            AttributeForkDataRecordType::InlineData => 0x10,
            AttributeForkDataRecordType::ForkData => 0x20,
            AttributeForkDataRecordType::Extents => 0x30,
        }
    }

    /// The name that `v` stands for; `None` where it stands for none.
    pub fn from_value(v: u32) -> (name: Option<AttributeForkDataRecordType>)
        ensures
            match name {
                Some(n) => n.value_of() == v,
                None => forall|n: AttributeForkDataRecordType| n.value_of() != v,
            },
    {
        if v == 0x10 {
            Some(AttributeForkDataRecordType::InlineData)
        } else if v == 0x20 {
            Some(AttributeForkDataRecordType::ForkData)
        } else if v == 0x30 {
            Some(AttributeForkDataRecordType::Extents)
        } else {
            None
        }
    }
}

/// Which fork a key of the extents overflow file speaks of.
#[derive(Debug, Clone, Copy, PartialEq, Eq, Structural)]
pub enum ExtentKeyForkType {
    Data,
    Resource,
}

impl ExtentKeyForkType {
    /// The number that stands for this name on disk.
    pub open spec fn value_of(self) -> u8 {
        match self {
            ExtentKeyForkType::Data => 0x00,
            ExtentKeyForkType::Resource => 0xFF,
        }
    }

    /// The number that stands for this name on disk.
    pub fn value(self) -> (v: u8)
        ensures
            v == self.value_of(),
    {
        match self {
            ExtentKeyForkType::Data => 0x00,
            ExtentKeyForkType::Resource => 0xFF,
        }
    }

    /// The name that `v` stands for; `None` where it stands for none.
    pub fn from_value(v: u8) -> (name: Option<ExtentKeyForkType>)
        ensures
            match name {
                Some(n) => n.value_of() == v,
                None => forall|n: ExtentKeyForkType| n.value_of() != v,
            },
    {
        if v == 0x00 {
            Some(ExtentKeyForkType::Data)
        } else if v == 0xFF {
            Some(ExtentKeyForkType::Resource)
        } else {
            None
        }
    }
}

/// The text encodings that the encodings bitmap of a volume header and the
/// text encoding of a catalog record speak of.
#[derive(Debug, Clone, Copy, PartialEq, Eq, Structural)]
pub enum TextEncoding {
    MacRoman,
    MacJapanese,
    MacChineseTriad,
    MacKorean,
    MacArabic,
    MacHebrew,
    MacGreek,
    MacCyrillic,
    MacDevanagari,
    MacGurmukhi,
    MacGujarati,
    MacOriya,
    MacBengali,
    MacTamil,
    MacTelugu,
    MacKannada,
    MacMalayalam,
    MacSinhalese,
    MacBurmese,
    MacKhmer,
    MacThai,
    MacLaotian,
    MacGeorgian,
    MacArmenian,
    MacChineseSimp,
    MacTibetan,
    MacMongolian,
    MacEthiopic,
    MacCentralEurRoman,
    MacVietnamese,
    MacExtArabic,
    MacSymbol,
    MacDingbats,
    MacTurkish,
    MacCroatian,
    MacIcelandic,
    MacRomanian,
    MacFarsi,
    MacFarsi2,
    MacUkrainian,
    MacUkrainian2,
}

impl TextEncoding {
    /// The number that stands for this name on disk.
    pub open spec fn value_of(self) -> u32 {
        match self {
            TextEncoding::MacRoman => 0,
            TextEncoding::MacJapanese => 1,
            TextEncoding::MacChineseTriad => 2,
            TextEncoding::MacKorean => 3,
            TextEncoding::MacArabic => 4,
            TextEncoding::MacHebrew => 5,
            TextEncoding::MacGreek => 6,
            TextEncoding::MacCyrillic => 7,
            TextEncoding::MacDevanagari => 8,
            TextEncoding::MacGurmukhi => 10,
            TextEncoding::MacGujarati => 11,
            TextEncoding::MacOriya => 12,
            TextEncoding::MacBengali => 13,
            TextEncoding::MacTamil => 14,
            TextEncoding::MacTelugu => 15,
            TextEncoding::MacKannada => 16,
            TextEncoding::MacMalayalam => 17,
            TextEncoding::MacSinhalese => 18,
            TextEncoding::MacBurmese => 19,
            TextEncoding::MacKhmer => 20,
            TextEncoding::MacThai => 21,
            TextEncoding::MacLaotian => 22,
            TextEncoding::MacGeorgian => 23,
            TextEncoding::MacArmenian => 24,
            TextEncoding::MacChineseSimp => 25,
            TextEncoding::MacTibetan => 26,
            TextEncoding::MacMongolian => 27,
            TextEncoding::MacEthiopic => 28,
            TextEncoding::MacCentralEurRoman => 29,
            TextEncoding::MacVietnamese => 30,
            TextEncoding::MacExtArabic => 31,
            TextEncoding::MacSymbol => 33,
            TextEncoding::MacDingbats => 34,
            TextEncoding::MacTurkish => 35,
            TextEncoding::MacCroatian => 36,
            TextEncoding::MacIcelandic => 37,
            TextEncoding::MacRomanian => 38,
            TextEncoding::MacFarsi => 49,
            TextEncoding::MacFarsi2 => 140,
            TextEncoding::MacUkrainian => 48,
            TextEncoding::MacUkrainian2 => 152,
        }
    }

    /// The number that stands for this name on disk.
    pub fn value(self) -> (v: u32)
        ensures
            v == self.value_of(),
    {
        match self {
            TextEncoding::MacRoman => 0,
            TextEncoding::MacJapanese => 1,
            TextEncoding::MacChineseTriad => 2,
            TextEncoding::MacKorean => 3,
            TextEncoding::MacArabic => 4,
            TextEncoding::MacHebrew => 5,
            TextEncoding::MacGreek => 6,
            TextEncoding::MacCyrillic => 7,
            TextEncoding::MacDevanagari => 8,
            TextEncoding::MacGurmukhi => 10,
            TextEncoding::MacGujarati => 11,
            TextEncoding::MacOriya => 12,
            TextEncoding::MacBengali => 13,
            TextEncoding::MacTamil => 14,
            TextEncoding::MacTelugu => 15,
            TextEncoding::MacKannada => 16,
            TextEncoding::MacMalayalam => 17,
            TextEncoding::MacSinhalese => 18,
            TextEncoding::MacBurmese => 19,
            TextEncoding::MacKhmer => 20,
            TextEncoding::MacThai => 21,
            TextEncoding::MacLaotian => 22,
            TextEncoding::MacGeorgian => 23,
            TextEncoding::MacArmenian => 24,
            TextEncoding::MacChineseSimp => 25,
            TextEncoding::MacTibetan => 26,
            TextEncoding::MacMongolian => 27,
            TextEncoding::MacEthiopic => 28,
            TextEncoding::MacCentralEurRoman => 29,
            TextEncoding::MacVietnamese => 30,
            TextEncoding::MacExtArabic => 31,
            TextEncoding::MacSymbol => 33,
            TextEncoding::MacDingbats => 34,
            TextEncoding::MacTurkish => 35,
            TextEncoding::MacCroatian => 36,
            TextEncoding::MacIcelandic => 37,
            TextEncoding::MacRomanian => 38,
            TextEncoding::MacFarsi => 49,
            TextEncoding::MacFarsi2 => 140,
            TextEncoding::MacUkrainian => 48,
            TextEncoding::MacUkrainian2 => 152,
        }
    }

    /// The name that `v` stands for; `None` where it stands for none.
    pub fn from_value(v: u32) -> (name: Option<TextEncoding>)
        ensures
            match name {
                Some(n) => n.value_of() == v,
                None => forall|n: TextEncoding| n.value_of() != v,
            },
    {
        if v == 0 {
            Some(TextEncoding::MacRoman)
        } else if v == 1 {
            Some(TextEncoding::MacJapanese)
        } else if v == 2 {
            Some(TextEncoding::MacChineseTriad)
        } else if v == 3 {
            Some(TextEncoding::MacKorean)
        } else if v == 4 {
            Some(TextEncoding::MacArabic)
        } else if v == 5 {
            Some(TextEncoding::MacHebrew)
        } else if v == 6 {
            Some(TextEncoding::MacGreek)
        } else if v == 7 {
            Some(TextEncoding::MacCyrillic)
        } else if v == 8 {
            Some(TextEncoding::MacDevanagari)
        } else if v == 10 {
            Some(TextEncoding::MacGurmukhi)
        } else if v == 11 {
            Some(TextEncoding::MacGujarati)
        } else if v == 12 {
            Some(TextEncoding::MacOriya)
        } else if v == 13 {
            Some(TextEncoding::MacBengali)
        } else if v == 14 {
            Some(TextEncoding::MacTamil)
        } else if v == 15 {
            Some(TextEncoding::MacTelugu)
        } else if v == 16 {
            Some(TextEncoding::MacKannada)
        } else if v == 17 {
            Some(TextEncoding::MacMalayalam)
        } else if v == 18 {
            Some(TextEncoding::MacSinhalese)
        } else if v == 19 {
            Some(TextEncoding::MacBurmese)
        } else if v == 20 {
            Some(TextEncoding::MacKhmer)
        } else if v == 21 {
            Some(TextEncoding::MacThai)
        } else if v == 22 {
            Some(TextEncoding::MacLaotian)
        } else if v == 23 {
            Some(TextEncoding::MacGeorgian)
        } else if v == 24 {
            Some(TextEncoding::MacArmenian)
        } else if v == 25 {
            Some(TextEncoding::MacChineseSimp)
        } else if v == 26 {
            Some(TextEncoding::MacTibetan)
        } else if v == 27 {
            Some(TextEncoding::MacMongolian)
        } else if v == 28 {
            Some(TextEncoding::MacEthiopic)
        } else if v == 29 {
            Some(TextEncoding::MacCentralEurRoman)
        } else if v == 30 {
            Some(TextEncoding::MacVietnamese)
        } else if v == 31 {
            Some(TextEncoding::MacExtArabic)
        } else if v == 33 {
            Some(TextEncoding::MacSymbol)
        } else if v == 34 {
            Some(TextEncoding::MacDingbats)
        } else if v == 35 {
            Some(TextEncoding::MacTurkish)
        } else if v == 36 {
            Some(TextEncoding::MacCroatian)
        } else if v == 37 {
            Some(TextEncoding::MacIcelandic)
        } else if v == 38 {
            Some(TextEncoding::MacRomanian)
        } else if v == 49 {
            Some(TextEncoding::MacFarsi)
        } else if v == 140 {
            Some(TextEncoding::MacFarsi2)
        } else if v == 48 {
            Some(TextEncoding::MacUkrainian)
        } else if v == 152 {
            Some(TextEncoding::MacUkrainian2)
        } else {
            None
        }
    }
}

/// The catalog node IDs that the format reserves, under the names that the
/// technical note gives them.
#[allow(non_camel_case_types)]
#[derive(Debug, Clone, Copy, PartialEq, Eq, Structural)]
pub enum StandardCnid {
    /// Parent of the root folder.
    kHFSRootParentID,
    /// The root folder.
    kHFSRootFolderID,
    /// The extents overflow file.
    kHFSExtentsFileID,
    /// The catalog file.
    kHFSCatalogFileID,
    /// The bad block file.
    kHFSBadBlockFileID,
    /// The allocation file.
    kHFSAllocationFileID,
    /// The startup file.
    kHFSStartupFileID,
    /// The attributes file.
    kHFSAttributesFileID,
    /// Used while the catalog is being repaired.
    kHFSRepairCatalogFileID,
    /// Used while extents are being exchanged.
    kHFSBogusExtentFileID,
    /// The first node ID open to the user's files and folders.
    kHFSFirstUserCatalogNodeID,
}

impl StandardCnid {
    /// The number that stands for this name on disk.
    pub open spec fn value_of(self) -> u32 {
        match self {
            StandardCnid::kHFSRootParentID => 1,
            StandardCnid::kHFSRootFolderID => 2,
            StandardCnid::kHFSExtentsFileID => 3,
            StandardCnid::kHFSCatalogFileID => 4,
            StandardCnid::kHFSBadBlockFileID => 5,
            StandardCnid::kHFSAllocationFileID => 6,
            StandardCnid::kHFSStartupFileID => 7,
            StandardCnid::kHFSAttributesFileID => 8,
            StandardCnid::kHFSRepairCatalogFileID => 14,
            StandardCnid::kHFSBogusExtentFileID => 15,
            StandardCnid::kHFSFirstUserCatalogNodeID => 16,
        }
    }

    /// The number that stands for this name on disk.
    pub fn value(self) -> (v: u32)
        ensures
            v == self.value_of(),
    {
        match self {
            StandardCnid::kHFSRootParentID => 1,
            StandardCnid::kHFSRootFolderID => 2,
            StandardCnid::kHFSExtentsFileID => 3,
            StandardCnid::kHFSCatalogFileID => 4,
            StandardCnid::kHFSBadBlockFileID => 5,
            StandardCnid::kHFSAllocationFileID => 6,
            StandardCnid::kHFSStartupFileID => 7,
            StandardCnid::kHFSAttributesFileID => 8,
            StandardCnid::kHFSRepairCatalogFileID => 14,
            StandardCnid::kHFSBogusExtentFileID => 15,
            StandardCnid::kHFSFirstUserCatalogNodeID => 16,
        }
    }

    /// The name that `v` stands for; `None` where it stands for none.
    pub fn from_value(v: u32) -> (name: Option<StandardCnid>)
        ensures
            match name {
                Some(n) => n.value_of() == v,
                None => forall|n: StandardCnid| n.value_of() != v,
            },
    {
        if v == 1 {
            Some(StandardCnid::kHFSRootParentID)
        } else if v == 2 {
            Some(StandardCnid::kHFSRootFolderID)
        } else if v == 3 {
            Some(StandardCnid::kHFSExtentsFileID)
        } else if v == 4 {
            Some(StandardCnid::kHFSCatalogFileID)
        } else if v == 5 {
            Some(StandardCnid::kHFSBadBlockFileID)
        } else if v == 6 {
            Some(StandardCnid::kHFSAllocationFileID)
        } else if v == 7 {
            Some(StandardCnid::kHFSStartupFileID)
        } else if v == 8 {
            Some(StandardCnid::kHFSAttributesFileID)
        } else if v == 14 {
            Some(StandardCnid::kHFSRepairCatalogFileID)
        } else if v == 15 {
            Some(StandardCnid::kHFSBogusExtentFileID)
        } else if v == 16 {
            Some(StandardCnid::kHFSFirstUserCatalogNodeID)
        } else {
            None
        }
    }
}

} // verus!
