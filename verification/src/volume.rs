//! The volume header and the fork descriptors it carries.

use vstd::prelude::*;
use crate::bytes::{be_u16, be_u32, be_u64, read_be_u16, read_be_u32, read_be_u64};
use crate::error::HfsError;

verus! {

/// Catalog node ID: the number by which the catalog knows a file or folder.
pub type CatalogNodeId = u32;

/// Seconds since midnight, January 1, 1904.
pub type Date = u32;

/// A contiguous run of allocation blocks. A count of zero marks an unused
/// slot, which holds no bytes.
#[derive(Debug, Clone, Copy, PartialEq, Eq, Structural)]
pub struct ExtentDescriptor {
    pub start_block: u32,
    pub block_count: u32,
}

/// The eight extents that a fork descriptor holds inline.
pub type ExtentRecord = [ExtentDescriptor; 8];

/// Size and location of one fork.
#[derive(Debug, Clone, Copy)]
pub struct ForkData {
    /// Length of the fork's content in bytes.
    pub logical_size: u64,
    pub clump_size: u32,
    /// Blocks allocated to the fork, inline extents and overflow together.
    pub total_blocks: u32,
    pub extents: ExtentRecord,
}

/// The volume header: 512 bytes that start 1024 bytes into the volume.
#[derive(Debug, Clone, Copy)]
pub struct VolumeHeader {
    pub signature: [u8; 2],
    pub version: u16,
    pub attributes: u32,
    pub last_mounted_version: u32,
    pub journal_info_block: u32,
    pub create_date: Date,
    pub modify_date: Date,
    pub backup_date: Date,
    pub checked_date: Date,
    pub file_count: u32,
    pub folder_count: u32,
    /// Bytes per allocation block.
    pub block_size: u32,
    pub total_blocks: u32,
    pub free_blocks: u32,
    pub next_allocation: u32,
    pub rsrc_clump_size: u32,
    pub data_clump_size: u32,
    pub next_catalog_id: CatalogNodeId,
    pub write_count: u32,
    pub encodings_bitmap: u64,
    pub finder_info: [u32; 8],
    pub allocation_file: ForkData,
    pub extents_file: ForkData,
    pub catalog_file: ForkData,
    pub attributes_file: ForkData,
    pub startup_file: ForkData,
}

impl ExtentDescriptor {
    /// The descriptor stored at `s[at] .. s[at + 8]`.
    pub open spec fn decoded(s: Seq<u8>, at: int) -> ExtentDescriptor {
        ExtentDescriptor { start_block: be_u32(s, at), block_count: be_u32(s, at + 4) }
    }

    /// Whether the slot is in use.
    pub open spec fn is_active(&self) -> bool {
        self.block_count != 0
    }

    /// Decodes the descriptor at `b[at] .. b[at + 8]`.
    pub fn decode(b: &[u8], at: usize) -> (e: ExtentDescriptor)
        requires
            at + 8 <= b.len(),
        ensures
            e == ExtentDescriptor::decoded(b@, at as int),
    {
        ExtentDescriptor { start_block: read_be_u32(b, at), block_count: read_be_u32(b, at + 4) }
    }
}

impl ForkData {
    /// The fork descriptor stored at `s[at] .. s[at + 80]`.
    pub open spec fn decoded(s: Seq<u8>, at: int) -> ForkData {
        ForkData {
            logical_size: be_u64(s, at),
            clump_size: be_u32(s, at + 8),
            total_blocks: be_u32(s, at + 12),
            extents: [
                ExtentDescriptor::decoded(s, at + 16),
                ExtentDescriptor::decoded(s, at + 24),
                ExtentDescriptor::decoded(s, at + 32),
                ExtentDescriptor::decoded(s, at + 40),
                ExtentDescriptor::decoded(s, at + 48),
                ExtentDescriptor::decoded(s, at + 56),
                ExtentDescriptor::decoded(s, at + 64),
                ExtentDescriptor::decoded(s, at + 72),
            ],
        }
    }

    /// Decodes the fork descriptor at `b[at] .. b[at + 80]`.
    pub fn decode(b: &[u8], at: usize) -> (f: ForkData)
        requires
            at + 80 <= b.len(),
        ensures
            f == ForkData::decoded(b@, at as int),
    {
        let extents: ExtentRecord = [
            ExtentDescriptor::decode(b, at + 16),
            ExtentDescriptor::decode(b, at + 24),
            ExtentDescriptor::decode(b, at + 32),
            ExtentDescriptor::decode(b, at + 40),
            ExtentDescriptor::decode(b, at + 48),
            ExtentDescriptor::decode(b, at + 56),
            ExtentDescriptor::decode(b, at + 64),
            ExtentDescriptor::decode(b, at + 72),
        ];
        assert(extents =~= ForkData::decoded(b@, at as int).extents);
        ForkData {
            logical_size: read_be_u64(b, at),
            clump_size: read_be_u32(b, at + 8),
            total_blocks: read_be_u32(b, at + 12),
            extents,
        }
    }
}

/// Whether the two bytes at `s[at], s[at + 1]` are the signature of an HFS
/// Plus volume (`H+`) or of its case-sensitive variant (`HX`).
pub open spec fn is_volume_signature(s: Seq<u8>, at: int) -> bool {
    s[at] == 0x48 && (s[at + 1] == 0x2B || s[at + 1] == 0x58)
}

impl VolumeHeader {
    /// Bytes that the volume header takes on disk.
    pub const PACKED_SIZE: usize = 512;

    /// Where the volume header starts in the image.
    pub const OFFSET: usize = 1024;

    /// The volume header stored at `s[at] .. s[at + 512]`.
    pub open spec fn decoded(s: Seq<u8>, at: int) -> VolumeHeader {
        VolumeHeader {
            signature: [s[at], s[at + 1]],
            version: be_u16(s, at + 2),
            attributes: be_u32(s, at + 4),
            last_mounted_version: be_u32(s, at + 8),
            journal_info_block: be_u32(s, at + 12),
            create_date: be_u32(s, at + 16),
            modify_date: be_u32(s, at + 20),
            backup_date: be_u32(s, at + 24),
            checked_date: be_u32(s, at + 28),
            file_count: be_u32(s, at + 32),
            folder_count: be_u32(s, at + 36),
            block_size: be_u32(s, at + 40),
            total_blocks: be_u32(s, at + 44),
            free_blocks: be_u32(s, at + 48),
            next_allocation: be_u32(s, at + 52),
            rsrc_clump_size: be_u32(s, at + 56),
            data_clump_size: be_u32(s, at + 60),
            next_catalog_id: be_u32(s, at + 64),
            write_count: be_u32(s, at + 68),
            encodings_bitmap: be_u64(s, at + 72),
            finder_info: [
                be_u32(s, at + 80),
                be_u32(s, at + 84),
                be_u32(s, at + 88),
                be_u32(s, at + 92),
                be_u32(s, at + 96),
                be_u32(s, at + 100),
                be_u32(s, at + 104),
                be_u32(s, at + 108),
            ],
            allocation_file: ForkData::decoded(s, at + 112),
            extents_file: ForkData::decoded(s, at + 192),
            catalog_file: ForkData::decoded(s, at + 272),
            attributes_file: ForkData::decoded(s, at + 352),
            startup_file: ForkData::decoded(s, at + 432),
        }
    }

    /// What `parse` returns for the bytes `s`.
    pub open spec fn parsed(s: Seq<u8>) -> Result<VolumeHeader, HfsError> {
        if s.len() < VolumeHeader::PACKED_SIZE || !is_volume_signature(s, 0) {
            Err(HfsError::MalformedHeader)
        } else {
            Ok(VolumeHeader::decoded(s, 0))
        }
    }

    /// What `read_from_image` returns for the image `image`.
    pub open spec fn parsed_from_image(image: Seq<u8>) -> Result<VolumeHeader, HfsError> {
        if image.len() < VolumeHeader::OFFSET + VolumeHeader::PACKED_SIZE || !is_volume_signature(
            image,
            VolumeHeader::OFFSET as int,
        ) {
            Err(HfsError::MalformedHeader)
        } else {
            Ok(VolumeHeader::decoded(image, VolumeHeader::OFFSET as int))
        }
    }

    fn decode(b: &[u8], at: usize) -> (h: VolumeHeader)
        requires
            at + 512 <= b.len(),
        ensures
            h == VolumeHeader::decoded(b@, at as int),
    {
        let signature: [u8; 2] = [b[at], b[at + 1]];
        let finder_info: [u32; 8] = [
            read_be_u32(b, at + 80),
            read_be_u32(b, at + 84),
            read_be_u32(b, at + 88),
            read_be_u32(b, at + 92),
            read_be_u32(b, at + 96),
            read_be_u32(b, at + 100),
            read_be_u32(b, at + 104),
            read_be_u32(b, at + 108),
        ];
        assert(signature =~= VolumeHeader::decoded(b@, at as int).signature);
        assert(finder_info =~= VolumeHeader::decoded(b@, at as int).finder_info);
        VolumeHeader {
            signature,
            version: read_be_u16(b, at + 2),
            attributes: read_be_u32(b, at + 4),
            last_mounted_version: read_be_u32(b, at + 8),
            journal_info_block: read_be_u32(b, at + 12),
            create_date: read_be_u32(b, at + 16),
            modify_date: read_be_u32(b, at + 20),
            backup_date: read_be_u32(b, at + 24),
            checked_date: read_be_u32(b, at + 28),
            file_count: read_be_u32(b, at + 32),
            folder_count: read_be_u32(b, at + 36),
            block_size: read_be_u32(b, at + 40),
            total_blocks: read_be_u32(b, at + 44),
            free_blocks: read_be_u32(b, at + 48),
            next_allocation: read_be_u32(b, at + 52),
            rsrc_clump_size: read_be_u32(b, at + 56),
            data_clump_size: read_be_u32(b, at + 60),
            next_catalog_id: read_be_u32(b, at + 64),
            write_count: read_be_u32(b, at + 68),
            encodings_bitmap: read_be_u64(b, at + 72),
            finder_info,
            allocation_file: ForkData::decode(b, at + 112),
            extents_file: ForkData::decode(b, at + 192),
            catalog_file: ForkData::decode(b, at + 272),
            attributes_file: ForkData::decode(b, at + 352),
            startup_file: ForkData::decode(b, at + 432),
        }
    }

    /// Decodes a volume header from the bytes that were read at offset 1024
    /// of the volume.
    ///
    /// Fails with `MalformedHeader` when fewer than 512 bytes are given or the
    /// signature is neither `H+` nor `HX`.
    pub fn parse(bytes: &[u8]) -> (r: Result<VolumeHeader, HfsError>)
        ensures
            r == VolumeHeader::parsed(bytes@),
    {
        if bytes.len() < VolumeHeader::PACKED_SIZE {
            return Err(HfsError::MalformedHeader);
        }
        if bytes[0] != 0x48 || (bytes[1] != 0x2B && bytes[1] != 0x58) {
            return Err(HfsError::MalformedHeader);
        }
        Ok(VolumeHeader::decode(bytes, 0))
    }

    /// Decodes the volume header of a whole image held in memory.
    pub fn read_from_image(image: &[u8]) -> (r: Result<VolumeHeader, HfsError>)
        ensures
            r == VolumeHeader::parsed_from_image(image@),
    {
        let at: usize = VolumeHeader::OFFSET;
        if image.len() < at + VolumeHeader::PACKED_SIZE {
            return Err(HfsError::MalformedHeader);
        }
        if image[at] != 0x48 || (image[at + 1] != 0x2B && image[at + 1] != 0x58) {
            return Err(HfsError::MalformedHeader);
        }
        Ok(VolumeHeader::decode(image, at))
    }
}

/// Whether the reserved 1024 bytes in front of the volume header, as far as
/// the image holds them, are all zero. A preamble that is not is worth a
/// warning: it does not make the volume unreadable.
pub fn preamble_is_zero(image: &[u8]) -> (zero: bool)
    ensures
        zero <==> forall|i: int| 0 <= i < 1024 && i < image@.len() ==> image@[i] == 0,
{
    let mut i: usize = 0;
    while i < 1024 && i < image.len()
        invariant
            i <= 1024,
            i <= image.len(),
            forall|j: int| 0 <= j < i ==> image@[j] == 0,
        decreases 1024 - i,
    {
        if image[i] != 0 {
            return false;
        }
        i += 1;
    }
    true
}

} // verus!
