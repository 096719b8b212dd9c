use hfsprust::allocation::{read_block_bit, AllocationMapRecord, BTreeAllocationMapRecord};
use hfsprust::codes::{
    AttributeForkDataRecordType, BTreeAttributeMask, BTreeNodeType, BsdInfoAdminFlags,
    BsdInfoFileModeFlag, BsdInfoOwnerFlags, CatalogFileDataRecordType,
    CatalogFileDataThreadRecordType, CatalogFileFlag, ExtendedFinderFlags, ExtentKeyForkType,
    FinderFlags, KnownCreatorCodes, SpecialFileCatalogNodeId, TextEncoding, VolumeAttributeMask,
    VolumeSignature, VolumeVersion, WellKnownFileCreatorCode, WellKnownFileTypeCode,
};
use hfsprust::btree::{BTreeUserDataRecord, UserDataRecord};
use hfsprust::catalog::CatalogKey;
use hfsprust::codes::StandardCnid;
use hfsprust::error::HfsError;
use hfsprust::journal::{JournalInfoBlock, JournalInfoBlockFlags};
use hfsprust::overflow::{AttributeExtents, AttributeForkData, ExtentKey, ExtentOverflowRecord};
use hfsprust::raw;
use hfsprust::text::UnicodeString255;
use hfsprust::volume::{ExtentDescriptor, ForkData};

#[test]
fn volume_signatures_and_versions() {
    assert_eq!(VolumeSignature::HfsPlus.value(), u16::from_be_bytes(*b"H+"));
    assert_eq!(VolumeSignature::HfsX.value(), u16::from_be_bytes(*b"HX"));
    assert_eq!(VolumeSignature::from_value(0x482B), Some(VolumeSignature::HfsPlus));
    assert_eq!(VolumeSignature::from_value(0x4858), Some(VolumeSignature::HfsX));
    assert_eq!(VolumeSignature::from_value(0x4244), None);
    assert_eq!(VolumeVersion::HfsPlus.value(), 4);
    assert_eq!(VolumeVersion::HfsX.value(), 5);
    assert_eq!(VolumeVersion::from_value(5), Some(VolumeVersion::HfsX));
    assert_eq!(VolumeVersion::from_value(6), None);
    assert_eq!(raw::kHFSPlusSigWord, VolumeSignature::HfsPlus.value());
    assert_eq!(raw::kHFSXSigWord, VolumeSignature::HfsX.value());
}

#[test]
fn reserved_catalog_node_ids() {
    let all = [
        (SpecialFileCatalogNodeId::RootParent, 1u32),
        (SpecialFileCatalogNodeId::RootFolder, 2),
        (SpecialFileCatalogNodeId::ExtentsFile, 3),
        (SpecialFileCatalogNodeId::CatalogFile, 4),
        (SpecialFileCatalogNodeId::BadBlockFile, 5),
        (SpecialFileCatalogNodeId::AllocationFile, 6),
        (SpecialFileCatalogNodeId::StartupFile, 7),
        (SpecialFileCatalogNodeId::AttributesFile, 8),
        (SpecialFileCatalogNodeId::RepairCatalogFile, 14),
        (SpecialFileCatalogNodeId::BogusExtentFile, 15),
        (SpecialFileCatalogNodeId::FirstUserCatalogNode, 16),
    ];
    for (name, value) in all {
        assert_eq!(name.value(), value);
        assert_eq!(SpecialFileCatalogNodeId::from_value(value), Some(name));
    }
    for value in [0u32, 9, 10, 11, 12, 13, 17, u32::MAX] {
        assert_eq!(SpecialFileCatalogNodeId::from_value(value), None);
    }
    assert_eq!(raw::WellKnownCnid::kHFSRootFolderID.value(), 2);
    assert_eq!(raw::WellKnownCnid::kHFSFirstUserCatalogNodeID.value(), 16);
    assert_eq!(raw::WellKnownCnid::from_value(14), Some(raw::WellKnownCnid::kHFSRepairCatalogFileID));
    assert_eq!(raw::WellKnownCnid::from_value(13), None);
}

#[test]
fn four_character_codes() {
    assert_eq!(KnownCreatorCodes::MacOs81.value(), u32::from_be_bytes(*b"8.10"));
    assert_eq!(KnownCreatorCodes::MacOsX.value(), u32::from_be_bytes(*b"10.0"));
    assert_eq!(KnownCreatorCodes::MacOsXJournaled.value(), u32::from_be_bytes(*b"HFSJ"));
    assert_eq!(KnownCreatorCodes::FsckHfs.value(), u32::from_be_bytes(*b"fsck"));
    assert_eq!(
        KnownCreatorCodes::from_value(u32::from_be_bytes(*b"HFSJ")),
        Some(KnownCreatorCodes::MacOsXJournaled)
    );
    assert_eq!(KnownCreatorCodes::from_value(0), None);
    assert_eq!(WellKnownFileTypeCode::HardLink.value(), u32::from_be_bytes(*b"hlnk"));
    assert_eq!(WellKnownFileTypeCode::SymbolicLink.value(), u32::from_be_bytes(*b"slnk"));
    assert_eq!(WellKnownFileCreatorCode::HardLink.value(), u32::from_be_bytes(*b"hfs+"));
    assert_eq!(WellKnownFileCreatorCode::SymbolicLink.value(), u32::from_be_bytes(*b"rhap"));
    assert_eq!(raw::kHardLinkFileType, u32::from_be_bytes(*b"hlnk"));
    assert_eq!(raw::kHFSPlusCreator, u32::from_be_bytes(*b"hfs+"));
    assert_eq!(raw::kSymLinkFileType, u32::from_be_bytes(*b"slnk"));
    assert_eq!(raw::kSymLinkCreator, u32::from_be_bytes(*b"rhap"));
}

#[test]
fn volume_attribute_masks_are_the_bits_of_the_same_name() {
    let pairs = [
        (VolumeAttributeMask::HardwareLock, raw::HFSPlusVolumeAttributeBit::kHFSVolumeHardwareLockBit, 7u32),
        (VolumeAttributeMask::Unmounted, raw::HFSPlusVolumeAttributeBit::kHFSVolumeUnmountedBit, 8),
        (VolumeAttributeMask::SparedBlocks, raw::HFSPlusVolumeAttributeBit::kHFSVolumeSparedBlocksBit, 9),
        (VolumeAttributeMask::NoCacheRequired, raw::HFSPlusVolumeAttributeBit::kHFSVolumeNoCacheRequiredBit, 10),
        (VolumeAttributeMask::VolumeInconsistent, raw::HFSPlusVolumeAttributeBit::kHFSBootVolumeInconsistentBit, 11),
        (VolumeAttributeMask::CatalogNodeIdsReused, raw::HFSPlusVolumeAttributeBit::kHFSCatalogNodeIDsReusedBit, 12),
        (VolumeAttributeMask::VolumeJournaled, raw::HFSPlusVolumeAttributeBit::kHFSVolumeJournaledBit, 13),
        (VolumeAttributeMask::SoftwareLock, raw::HFSPlusVolumeAttributeBit::kHFSVolumeSoftwareLockBit, 15),
    ];
    for (mask, bit, number) in pairs {
        assert_eq!(bit.value(), number);
        assert_eq!(mask.value(), 1u32 << number);
    }
}

#[test]
fn permission_flags_and_file_modes() {
    assert_eq!(BsdInfoAdminFlags::Archived.value(), 1);
    assert_eq!(BsdInfoAdminFlags::Immutable.value(), 2);
    assert_eq!(BsdInfoAdminFlags::AppendOnly.value(), 4);
    assert_eq!(BsdInfoOwnerFlags::NoDump.value(), 1);
    assert_eq!(BsdInfoOwnerFlags::Immutable.value(), 2);
    assert_eq!(BsdInfoOwnerFlags::AppendOnly.value(), 4);
    assert_eq!(BsdInfoOwnerFlags::Opaque.value(), 8);
    assert_eq!(BsdInfoFileModeFlag::SetUid.value(), 0o4000);
    assert_eq!(BsdInfoFileModeFlag::SetGid.value(), 0o2000);
    assert_eq!(BsdInfoFileModeFlag::Sticky.value(), 0o1000);
    assert_eq!(BsdInfoFileModeFlag::OwnerRwxMask.value(), 0o700);
    assert_eq!(
        BsdInfoFileModeFlag::OwnerRead.value()
            | BsdInfoFileModeFlag::OwnerWrite.value()
            | BsdInfoFileModeFlag::OwnerExecute.value(),
        BsdInfoFileModeFlag::OwnerRwxMask.value()
    );
    assert_eq!(
        BsdInfoFileModeFlag::GroupRead.value()
            | BsdInfoFileModeFlag::GroupWrite.value()
            | BsdInfoFileModeFlag::GroupExecute.value(),
        BsdInfoFileModeFlag::GroupRwxMask.value()
    );
    assert_eq!(
        BsdInfoFileModeFlag::OtherRead.value()
            | BsdInfoFileModeFlag::OtherWrite.value()
            | BsdInfoFileModeFlag::OtherExecute.value(),
        BsdInfoFileModeFlag::OtherRwxMask.value()
    );
    assert_eq!(BsdInfoFileModeFlag::FileTypeMask.value(), 0o170000);
    assert_eq!(BsdInfoFileModeFlag::NamedPipe.value(), 0o010000);
    assert_eq!(BsdInfoFileModeFlag::CharacterSpecial.value(), 0o020000);
    assert_eq!(BsdInfoFileModeFlag::Directory.value(), 0o040000);
    assert_eq!(BsdInfoFileModeFlag::BlockSpecial.value(), 0o060000);
    assert_eq!(BsdInfoFileModeFlag::Regular.value(), 0o100000);
    assert_eq!(BsdInfoFileModeFlag::SymbolicLink.value(), 0o120000);
    assert_eq!(BsdInfoFileModeFlag::Socket.value(), 0o140000);
    assert_eq!(BsdInfoFileModeFlag::Whiteout.value(), 0o160000);
    assert_eq!(raw::FileMode::S_IFREG.value(), 0o100000);
    assert_eq!(raw::FileMode::S_IFLNK.value(), 0o120000);
    assert_eq!(raw::FileMode::S_ISUID.value(), 0o4000);
    assert_eq!(raw::FileMode::S_IRWXO.value(), 0o7);
    assert_eq!(raw::FileMode::S_IFMT.value(), 0o170000);
}

#[test]
fn node_types_and_tree_attributes() {
    assert_eq!(BTreeNodeType::Leaf.value(), -1);
    assert_eq!(BTreeNodeType::Index.value(), 0);
    assert_eq!(BTreeNodeType::Header.value(), 1);
    assert_eq!(BTreeNodeType::MapNode.value(), 2);
    assert_eq!(BTreeNodeType::from_value(-1), Some(BTreeNodeType::Leaf));
    assert_eq!(BTreeNodeType::from_value(2), Some(BTreeNodeType::MapNode));
    assert_eq!(BTreeNodeType::from_value(3), None);
    assert_eq!(BTreeNodeType::from_value(i8::MIN), None);
    assert_eq!(raw::BTNodeType::kBTLeafNode.value(), -1);
    assert_eq!(raw::BTNodeType::from_value(1), Some(raw::BTNodeType::kBTHeaderNode));
    assert_eq!(raw::BTNodeType::from_value(-2), None);
    assert_eq!(BTreeAttributeMask::BadClose.value(), 1);
    assert_eq!(BTreeAttributeMask::BigKeys.value(), 2);
    assert_eq!(BTreeAttributeMask::VariableIndexKeys.value(), 4);
    assert_eq!(raw::BTHeaderRec_attributes::kBTBadCloseMask.value(), 1);
    assert_eq!(raw::BTHeaderRec_attributes::kBTBigKeysMask.value(), 2);
    assert_eq!(raw::BTHeaderRec_attributes::kBTVariableIndexKeysMask.value(), 4);
    assert_eq!(raw::BTreeTypes::kHFSBTreeType.value(), 0);
    assert_eq!(raw::BTreeTypes::kUserBTreeType.value(), 128);
    assert_eq!(raw::BTreeTypes::kReservedBTreeType.value(), 255);
    assert_eq!(raw::BTreeTypes::from_value(128), Some(raw::BTreeTypes::kUserBTreeType));
    assert_eq!(raw::BTreeTypes::from_value(127), None);
    assert_eq!(raw::kHFSPlusCatalogMinNodeSize, 4096);
    assert_eq!(raw::kHFSPlusAttrMinNodeSize, 4096);
    assert_eq!(raw::kHFSPlusCatalogKeyMinimumLength, 6);
    assert_eq!(raw::kHFSPlusCatalogKeyMaximumLength, 516);
}

#[test]
fn catalog_record_types_and_flags() {
    assert_eq!(CatalogFileDataRecordType::Folder.value(), 1);
    assert_eq!(CatalogFileDataRecordType::File.value(), 2);
    assert_eq!(CatalogFileDataRecordType::FolderThread.value(), 3);
    assert_eq!(CatalogFileDataRecordType::FileThread.value(), 4);
    assert_eq!(CatalogFileDataRecordType::from_value(3), Some(CatalogFileDataRecordType::FolderThread));
    assert_eq!(CatalogFileDataRecordType::from_value(0), None);
    assert_eq!(CatalogFileDataRecordType::from_value(-1), None);
    assert_eq!(CatalogFileDataThreadRecordType::Folder.value(), 0x0100);
    assert_eq!(CatalogFileDataThreadRecordType::File.value(), 0x0200);
    assert_eq!(CatalogFileDataThreadRecordType::FolderThread.value(), 0x0300);
    assert_eq!(CatalogFileDataThreadRecordType::FileThread.value(), 0x0400);
    assert_eq!(
        CatalogFileDataThreadRecordType::from_value(0x0400),
        Some(CatalogFileDataThreadRecordType::FileThread)
    );
    assert_eq!(CatalogFileDataThreadRecordType::from_value(4), None);
    assert_eq!(raw::BTNodeDescriptor_kind::kHFSPlusFolderRecord.value(), 1);
    assert_eq!(raw::BTNodeDescriptor_kind::kHFSPlusFileThreadRecord.value(), 4);
    assert_eq!(
        raw::BTNodeDescriptor_kind::from_value(2),
        Some(raw::BTNodeDescriptor_kind::kHFSPlusFileRecord)
    );
    assert_eq!(raw::BTNodeDescriptor_kind::from_value(5), None);
    assert_eq!(CatalogFileFlag::FileLocked.value(), 1);
    assert_eq!(CatalogFileFlag::ThreadExists.value(), 2);
    assert_eq!(raw::HFSPlusCatalog_fields::kHFSFileLockedBit.value(), 0);
    assert_eq!(raw::HFSPlusCatalog_fields::kHFSThreadExistsBit.value(), 1);
    assert_eq!(raw::HFSPlusCatalog_masks::kHFSFileLockedMask.value(), 1);
    assert_eq!(raw::HFSPlusCatalog_masks::kHFSThreadExistsMask.value(), 2);
}

#[test]
fn finder_flags() {
    assert_eq!(FinderFlags::IsOnDesk.value(), 0x0001);
    assert_eq!(FinderFlags::Color.value(), 0x000E);
    assert_eq!(FinderFlags::IsShared.value(), 0x0040);
    assert_eq!(FinderFlags::HasNoInits.value(), 0x0080);
    assert_eq!(FinderFlags::HasBeenInited.value(), 0x0100);
    assert_eq!(FinderFlags::HasCustomIcon.value(), 0x0400);
    assert_eq!(FinderFlags::IsStationery.value(), 0x0800);
    assert_eq!(FinderFlags::NameLocked.value(), 0x1000);
    assert_eq!(FinderFlags::HasBundle.value(), 0x2000);
    assert_eq!(FinderFlags::IsInvisible.value(), 0x4000);
    assert_eq!(FinderFlags::IsAlias.value(), 0x8000);
    assert_eq!(raw::FinderFlags::kIsOnDesk.value(), 0x0001);
    assert_eq!(raw::FinderFlags::kColor.value(), 0x000E);
    assert_eq!(raw::FinderFlags::kHasNoINITs.value(), 0x0080);
    assert_eq!(raw::FinderFlags::kIsAlias.value(), 0x8000);
    assert_eq!(ExtendedFinderFlags::FlagsAreInvalid.value(), 0x8000);
    assert_eq!(ExtendedFinderFlags::HasCustomBadge.value(), 0x0100);
    assert_eq!(ExtendedFinderFlags::HasRoutingInfo.value(), 0x0004);
    assert_eq!(raw::ExtendedFinderFlags::kExtendedFlagsAreInvalid.value(), 0x8000);
    assert_eq!(raw::ExtendedFinderFlags::kExtendedFlagHasCustomBadge.value(), 0x0100);
    assert_eq!(raw::ExtendedFinderFlags::kExtendedFlagHasRoutingInfo.value(), 0x0004);
}

#[test]
fn attribute_record_types_and_fork_types() {
    assert_eq!(AttributeForkDataRecordType::InlineData.value(), 0x10);
    assert_eq!(AttributeForkDataRecordType::ForkData.value(), 0x20);
    assert_eq!(AttributeForkDataRecordType::Extents.value(), 0x30);
    assert_eq!(
        AttributeForkDataRecordType::from_value(0x20),
        Some(AttributeForkDataRecordType::ForkData)
    );
    assert_eq!(AttributeForkDataRecordType::from_value(0x40), None);
    assert_eq!(raw::HFSPlusAttrForkData_recordType::kHFSPlusAttrInlineData.value(), 0x10);
    assert_eq!(raw::HFSPlusAttrForkData_recordType::kHFSPlusAttrForkData.value(), 0x20);
    assert_eq!(raw::HFSPlusAttrForkData_recordType::kHFSPlusAttrExtents.value(), 0x30);
    assert_eq!(ExtentKeyForkType::Data.value(), 0x00);
    assert_eq!(ExtentKeyForkType::Resource.value(), 0xFF);
    assert_eq!(ExtentKeyForkType::from_value(0xFF), Some(ExtentKeyForkType::Resource));
    assert_eq!(ExtentKeyForkType::from_value(1), None);
}

#[test]
fn text_encodings() {
    assert_eq!(TextEncoding::MacRoman.value(), 0);
    assert_eq!(TextEncoding::MacJapanese.value(), 1);
    assert_eq!(TextEncoding::MacDevanagari.value(), 8);
    assert_eq!(TextEncoding::MacGurmukhi.value(), 10);
    assert_eq!(TextEncoding::MacExtArabic.value(), 31);
    assert_eq!(TextEncoding::MacSymbol.value(), 33);
    assert_eq!(TextEncoding::MacRomanian.value(), 38);
    assert_eq!(TextEncoding::MacUkrainian.value(), 48);
    assert_eq!(TextEncoding::MacFarsi.value(), 49);
    assert_eq!(TextEncoding::MacFarsi2.value(), 140);
    assert_eq!(TextEncoding::MacUkrainian2.value(), 152);
    assert_eq!(TextEncoding::from_value(25), Some(TextEncoding::MacChineseSimp));
    assert_eq!(TextEncoding::from_value(9), None);
    assert_eq!(TextEncoding::from_value(32), None);
    assert_eq!(TextEncoding::from_value(39), None);
}

#[test]
fn journal_constants() {
    assert_eq!(raw::JournalInfoBlock_flags::kJIJournalInFSMask.value(), 1);
    assert_eq!(raw::JournalInfoBlock_flags::kJIJournalOnOtherDeviceMask.value(), 2);
    assert_eq!(raw::JournalInfoBlock_flags::kJIJournalNeedInitMask.value(), 4);
    assert_eq!(raw::JOURNAL_HEADER_MAGIC, u32::from_be_bytes(*b"JNLx"));
    assert_eq!(raw::ENDIAN_MAGIC, 0x1234_5678);
    assert_eq!(raw::HFC_MAGIC, 0xFF28_FF26);
    assert_eq!(raw::HFC_VERSION, 1);
    assert_eq!(raw::HFC_DEFAULT_DURATION, 3600 * 60);
    assert_eq!(raw::HFC_MINIMUM_TEMPERATURE, 16);
    assert_eq!(raw::HFC_MAXIMUM_FILESIZE, 10 * 1024 * 1024);
}

#[test]
fn raw_structures_hold_plain_integers() {
    let extent = raw::HFSPlusExtentDescriptor { startBlock: 3, blockCount: 4 };
    let fork = raw::HFSPlusForkData {
        logicalSize: 2048,
        clumpSize: 0,
        totalBlocks: 4,
        extents: [extent; 8],
    };
    assert_eq!(fork.extents[7], raw::HFSPlusExtentDescriptor { startBlock: 3, blockCount: 4 });
    let descriptor =
        raw::BTNodeDescriptor { fLink: 1, bLink: 0, kind: 77, height: 1, numRecords: 2, reserved: 0 };
    assert_eq!(raw::BTNodeType::from_value(descriptor.kind), None);
    let key = raw::HFSPlusExtentKey { keyLength: 10, forkType: 0xFF, pad: 0, fileID: 20, startBlock: 8 };
    assert_eq!(ExtentKeyForkType::from_value(key.forkType), Some(ExtentKeyForkType::Resource));
    let info = raw::block_info { bnum: 1, bsize: 512, next: 0 };
    let list = raw::block_list_header {
        max_blocks: 8,
        num_blocks: 1,
        bytes_used: 512,
        checksum: 0,
        pad: 0,
        binfo: vec![info],
    };
    assert_eq!(list.binfo[0].bsize, 512);
    let hot = raw::HotFileKey { keyLength: 10, forkType: 0, pad: 0, temperature: 16, fileID: 99 };
    assert_eq!(hot.temperature, raw::HFC_MINIMUM_TEMPERATURE);
}

#[test]
fn allocation_bits_are_counted_from_the_most_significant() {
    let bitmap = [0b1000_0000u8, 0b0000_0001, 0b0101_0000, 0xFF, 0x00];
    let used: Vec<u32> = (0..40).filter(|b| read_block_bit(&bitmap, *b)).collect();
    assert_eq!(used, vec![0, 15, 17, 19, 24, 25, 26, 27, 28, 29, 30, 31]);
    for block in 0..40u32 {
        let byte = bitmap[(block / 8) as usize];
        let expected = (byte >> (7 - block % 8)) & 1 == 1;
        assert_eq!(raw::IsAllocationBlockUsed(block, &bitmap), expected);
    }
}

#[test]
fn allocation_map_record_answers_within_its_bitmap_only() {
    let record = AllocationMapRecord(vec![0b0100_0000, 0b0000_0010]);
    assert_eq!(record.is_block_used(0), Ok(false));
    assert_eq!(record.is_block_used(1), Ok(true));
    assert_eq!(record.is_block_used(7), Ok(false));
    assert_eq!(record.is_block_used(14), Ok(true));
    assert_eq!(record.is_block_used(15), Ok(false));
    assert_eq!(record.is_block_used(16), Err(()));
    assert_eq!(record.is_block_used(u32::MAX), Err(()));
    assert_eq!(AllocationMapRecord(vec![]).is_block_used(0), Err(()));
}

#[test]
fn map_record_of_a_tree_tells_the_nodes_in_use() {
    let record = BTreeAllocationMapRecord { bitmap: vec![0b1110_0000, 0b0000_1000] };
    assert!(record.is_block_used(0));
    assert!(record.is_block_used(1));
    assert!(record.is_block_used(2));
    assert!(!record.is_block_used(3));
    assert!(!record.is_block_used(8));
    assert!(record.is_block_used(12));
    assert!(!record.is_block_used(15));
}

#[test]
fn journal_checksum_of_known_inputs() {
    assert_eq!(raw::calc_checksum(&[]), -1);
    assert_eq!(raw::calc_checksum(&[1]), -2);
    assert_eq!(raw::calc_checksum(&[1, 2, 3]), -66055);
    assert_eq!(raw::calc_checksum(b"JNLx"), -1251489629);
    let run: Vec<u8> = (0..32).collect();
    assert_eq!(raw::calc_checksum(&run), -1879053297);
    assert_eq!(raw::calc_checksum(&[0xFF; 8]), 101185543);
}

#[test]
fn reserved_node_ids_under_the_names_of_the_technical_note() {
    assert_eq!(StandardCnid::kHFSRootParentID.value(), 1);
    assert_eq!(StandardCnid::kHFSRootFolderID.value(), 2);
    assert_eq!(StandardCnid::kHFSExtentsFileID.value(), 3);
    assert_eq!(StandardCnid::kHFSCatalogFileID.value(), 4);
    assert_eq!(StandardCnid::kHFSBadBlockFileID.value(), 5);
    assert_eq!(StandardCnid::kHFSAllocationFileID.value(), 6);
    assert_eq!(StandardCnid::kHFSStartupFileID.value(), 7);
    assert_eq!(StandardCnid::kHFSAttributesFileID.value(), 8);
    assert_eq!(StandardCnid::kHFSRepairCatalogFileID.value(), 14);
    assert_eq!(StandardCnid::kHFSBogusExtentFileID.value(), 15);
    assert_eq!(StandardCnid::kHFSFirstUserCatalogNodeID.value(), 16);
    assert_eq!(StandardCnid::from_value(2), Some(StandardCnid::kHFSRootFolderID));
    assert_eq!(StandardCnid::from_value(9), None);
    let bit: raw::VolumeAttributeBit = raw::VolumeAttributeBit::kHFSVolumeJournaledBit;
    assert_eq!(bit.value(), 13);
}

#[test]
fn name_in_a_field_of_fixed_size() {
    let mut unicode = [0u16; 255];
    for (i, unit) in "Macintosh HD".encode_utf16().enumerate() {
        unicode[i] = unit;
    }
    let name = UnicodeString255 { length: 12, unicode };
    assert_eq!(name.units(), "Macintosh HD".encode_utf16().collect::<Vec<u16>>());
    assert_eq!(name.to_text(), "Macintosh HD");
    let short = UnicodeString255 { length: 9, unicode };
    assert_eq!(short.to_text(), "Macintosh");
    let empty = UnicodeString255 { length: 0, unicode };
    assert!(empty.units().is_empty());
    assert_eq!(empty.to_text(), "");
    let full = UnicodeString255 { length: 255, unicode: [0x61; 255] };
    assert_eq!(full.units().len(), 255);
    // a length beyond the field gives the whole field
    let beyond = UnicodeString255 { length: 300, unicode: [0x62; 255] };
    assert_eq!(beyond.units(), vec![0x62u16; 255]);
    assert_eq!(beyond.to_text(), "b".repeat(255));
}

#[test]
fn journal_flags_are_the_three_lowest_bits() {
    let none = JournalInfoBlockFlags::from_word(0);
    assert_eq!(
        none,
        JournalInfoBlockFlags { in_fs: false, on_other_device: false, needs_init: false, reserved: 0 }
    );
    let flags = JournalInfoBlockFlags::from_word(0b101);
    assert!(flags.in_fs);
    assert!(!flags.on_other_device);
    assert!(flags.needs_init);
    assert_eq!(flags.reserved, 0);
    let flags = JournalInfoBlockFlags::from_word(0b010);
    assert!(!flags.in_fs && flags.on_other_device && !flags.needs_init);
    let flags = JournalInfoBlockFlags::from_word(0xFFFF_FFF8);
    assert!(!flags.in_fs && !flags.on_other_device && !flags.needs_init);
    assert_eq!(flags.reserved, 0x1FFF_FFFF);
    assert_eq!(JournalInfoBlockFlags::from_word(8).reserved, 1);
    assert_eq!(JournalInfoBlockFlags::PACKED_SIZE, 4);
}

fn journal_info_bytes(flags: u32) -> Vec<u8> {
    let mut out = flags.to_be_bytes().to_vec();
    for i in 0..8u32 {
        out.extend_from_slice(&(0x100 + i).to_be_bytes());
    }
    out.extend_from_slice(&0x0000_0000_0012_3000u64.to_be_bytes());
    out.extend_from_slice(&0x0000_0000_0080_0000u64.to_be_bytes());
    for i in 0..32u32 {
        out.extend_from_slice(&(0x200 + i).to_be_bytes());
    }
    out
}

#[test]
fn journal_info_block_is_decoded() {
    let bytes = journal_info_bytes(1);
    assert_eq!(bytes.len(), JournalInfoBlock::PACKED_SIZE);
    assert_eq!(JournalInfoBlock::PACKED_SIZE, 180);
    let block = JournalInfoBlock::parse(&bytes).unwrap();
    assert!(block.flags.in_fs);
    assert!(!block.flags.on_other_device);
    assert!(!block.flags.needs_init);
    assert_eq!(block.device_signature, [0x100, 0x101, 0x102, 0x103, 0x104, 0x105, 0x106, 0x107]);
    assert_eq!(block.offset, 0x12_3000);
    assert_eq!(block.size, 0x80_0000);
    assert_eq!(block.reserved[0], 0x200);
    assert_eq!(block.reserved[31], 0x21F);
    let mut longer = bytes.clone();
    longer.extend_from_slice(&[0xFF; 332]);
    assert_eq!(JournalInfoBlock::parse(&longer).unwrap().size, 0x80_0000);
}

#[test]
fn journal_info_block_that_is_short_or_has_reserved_bits_is_malformed() {
    let bytes = journal_info_bytes(7);
    assert!(JournalInfoBlock::parse(&bytes).is_ok());
    assert_eq!(JournalInfoBlock::parse(&bytes[..179]).err(), Some(HfsError::MalformedHeader));
    assert_eq!(JournalInfoBlock::parse(&[]).err(), Some(HfsError::MalformedHeader));
    assert_eq!(
        JournalInfoBlock::parse(&journal_info_bytes(8)).err(),
        Some(HfsError::MalformedHeader)
    );
    assert_eq!(
        JournalInfoBlock::parse(&journal_info_bytes(0x8000_0001)).err(),
        Some(HfsError::MalformedHeader)
    );
}

#[test]
fn key_of_the_extents_overflow_file() {
    let bytes = [0u8, 10, 0xFF, 0, 0, 0, 0, 99, 0, 0, 1, 0, 0xAA];
    let key = ExtentKey::decode(&bytes).unwrap();
    assert_eq!(key.key_length, 10);
    assert_eq!(key.fork_type, ExtentKeyForkType::Resource);
    assert_eq!(key.pad, 0);
    assert_eq!(key.file_id, 99);
    assert_eq!(key.start_block, 256);
    let data = [0u8, 10, 0, 7, 0, 0, 0, 1, 0, 0, 0, 8];
    assert_eq!(
        ExtentKey::decode(&data),
        Some(ExtentKey {
            key_length: 10,
            fork_type: ExtentKeyForkType::Data,
            pad: 7,
            file_id: 1,
            start_block: 8,
        })
    );
    assert_eq!(ExtentKey::decode(&data[..11]), None);
    assert_eq!(ExtentKey::decode(&[]), None);
    let mut unknown = data;
    unknown[2] = 1;
    assert_eq!(ExtentKey::decode(&unknown), None);
    assert_eq!(ExtentKey::SIZE, 12);
}

#[test]
fn records_of_the_attributes_file_hold_forks_and_extents() {
    let extent = ExtentDescriptor { start_block: 5, block_count: 6 };
    let fork = ForkData { logical_size: 3000, clump_size: 0, total_blocks: 6, extents: [extent; 8] };
    let attribute = AttributeForkData {
        record_type: AttributeForkDataRecordType::ForkData.value(),
        reserved: 0,
        fork,
    };
    assert_eq!(attribute.record_type, 0x20);
    assert_eq!(attribute.fork.extents[3], extent);
    let more = AttributeExtents {
        record_type: AttributeForkDataRecordType::Extents.value(),
        reserved: 0,
        extents: [extent; 8],
    };
    assert_eq!(more.record_type, 0x30);
    assert_eq!(more.extents[7].block_count, 6);
}

#[test]
fn user_data_record_is_128_reserved_bytes() {
    assert_eq!(BTreeUserDataRecord::SIZE, 128);
    let record = BTreeUserDataRecord { reserved: [0; 128] };
    assert_eq!(record.reserved.len(), BTreeUserDataRecord::SIZE);
    let record = UserDataRecord([7; 128]);
    assert_eq!(record.0[127], 7);
}

#[test]
fn catalog_key_under_its_shorter_name() {
    let key = CatalogKey::try_from(vec![0, 0, 0, 2, 0, 1, 0, 0x41]).unwrap();
    assert_eq!(key.parent, 2);
    assert_eq!(key.name.unicode, vec![0x41]);
}

#[test]
fn leaf_record_of_the_extents_overflow_file() {
    let mut bytes = vec![0u8, 10, 0, 0, 0, 0, 0, 33, 0, 0, 0, 64];
    for i in 0..8u32 {
        bytes.extend_from_slice(&(100 + i).to_be_bytes());
        bytes.extend_from_slice(&(i + 1).to_be_bytes());
    }
    assert_eq!(bytes.len(), ExtentOverflowRecord::SIZE);
    let record = ExtentOverflowRecord::decode(&bytes).unwrap();
    assert_eq!(record.key.file_id, 33);
    assert_eq!(record.key.fork_type, ExtentKeyForkType::Data);
    assert_eq!(record.key.start_block, 64);
    for i in 0..8u32 {
        assert_eq!(
            record.extents[i as usize],
            ExtentDescriptor { start_block: 100 + i, block_count: i + 1 }
        );
    }
    assert!(ExtentOverflowRecord::decode(&bytes[..75]).is_none());
    let mut unknown = bytes.clone();
    unknown[2] = 0x80;
    assert!(ExtentOverflowRecord::decode(&unknown).is_none());
}
