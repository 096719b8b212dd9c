//! What lies beyond the catalog: the keys of the extents overflow file and
//! the fork records of the attributes file.
//!
//! Neither tree is walked here. Their nodes have the layout of the catalog's
//! nodes, so `read_btree_node` reads them too; `ExtentOverflowRecord::decode`
//! decodes a leaf record of the extents overflow file, and the extents of
//! such records are what `copy_file_data_from_extents` and `extract_file`
//! take as overflow extents.

use vstd::prelude::*;
use crate::bytes::{be_u16, be_u32, read_be_u16, read_be_u32};
use crate::codes::ExtentKeyForkType;
use crate::volume::{CatalogNodeId, ExtentDescriptor, ExtentRecord, ForkData};

verus! {

/// A key of the extents overflow file: the fork of a file, and the block of
/// the fork with which the extents of the record start.
#[derive(Debug, Clone, Copy, PartialEq, Eq, Structural)]
pub struct ExtentKey {
    pub key_length: u16,
    pub fork_type: ExtentKeyForkType,
    pub pad: u8,
    pub file_id: CatalogNodeId,
    pub start_block: u32,
}

/// A fork data attribute: a named fork of a file.
#[derive(Debug, Clone, Copy)]
pub struct AttributeForkData {
    pub record_type: u32,
    pub reserved: u32,
    pub fork: ForkData,
}

/// An extension attribute: more extents of a named fork.
#[derive(Debug, Clone, Copy)]
pub struct AttributeExtents {
    pub record_type: u32,
    pub reserved: u32,
    pub extents: ExtentRecord,
}

impl ExtentKey {
    /// Bytes that the key takes on disk, its length field included.
    pub const SIZE: usize = 12;

    /// The fork that the byte `v` stands for, if it stands for one.
    pub open spec fn fork_of(v: u8) -> Option<ExtentKeyForkType> {
        if v == 0x00 {
            Some(ExtentKeyForkType::Data)
        } else if v == 0xFF {
            Some(ExtentKeyForkType::Resource)
        } else {
            None
        }
    }

    /// The key stored at `s[0] .. s[12]`; `None` where the bytes end before
    /// the key does or the fork type is neither of the two defined.
    pub open spec fn decoded(s: Seq<u8>) -> Option<ExtentKey> {
        if s.len() < ExtentKey::SIZE {
            None
        } else {
            match ExtentKey::fork_of(s[2]) {
                None => None,
                Some(fork_type) => Some(
                    ExtentKey {
                        key_length: be_u16(s, 0),
                        fork_type,
                        pad: s[3],
                        file_id: be_u32(s, 4),
                        start_block: be_u32(s, 8),
                    },
                ),
            }
        }
    }

    /// Decodes the key at the start of `b`.
    pub fn decode(b: &[u8]) -> (key: Option<ExtentKey>)
        ensures
            key == ExtentKey::decoded(b@),
    {
        if b.len() < ExtentKey::SIZE {
            return None;
        }
        let fork_type = if b[2] == 0x00 {
            ExtentKeyForkType::Data
        } else if b[2] == 0xFF {
            ExtentKeyForkType::Resource
        } else {
            return None;
        };
        Some(
            ExtentKey {
                key_length: read_be_u16(b, 0),
                fork_type,
                pad: b[3],
                file_id: read_be_u32(b, 4),
                start_block: read_be_u32(b, 8),
            },
        )
    }
}

/// A leaf record of the extents overflow file: the key, and eight more
/// extents of the fork that the key names.
#[derive(Debug, Clone, Copy)]
pub struct ExtentOverflowRecord {
    pub key: ExtentKey,
    pub extents: ExtentRecord,
}

impl ExtentOverflowRecord {
    /// Bytes that the record takes: the key and eight extent descriptors.
    pub const SIZE: usize = 76;

    /// The eight extents stored at `s[at] .. s[at + 64]`.
    pub open spec fn extents_at(s: Seq<u8>, at: int) -> Seq<ExtentDescriptor> {
        Seq::new(8, |i: int| ExtentDescriptor::decoded(s, at + 8 * i))
    }

    /// Whether `r` is what `decode` returns for the bytes `s`: `None` where
    /// the bytes end before the record does or the key is none, and else the
    /// key and the extents behind it.
    pub open spec fn is_decoded_from(r: Option<ExtentOverflowRecord>, s: Seq<u8>) -> bool {
        match r {
            None => s.len() < ExtentOverflowRecord::SIZE || ExtentKey::decoded(s) is None,
            Some(record) => {
                &&& s.len() >= ExtentOverflowRecord::SIZE
                &&& ExtentKey::decoded(s) == Some(record.key)
                &&& record.extents@ == ExtentOverflowRecord::extents_at(s, 12)
            },
        }
    }

    /// Decodes a leaf record of the extents overflow file from the start of
    /// `b`. The extents of such records, in ascending order of the keys'
    /// start blocks, are the overflow extents of the fork.
    pub fn decode(b: &[u8]) -> (r: Option<ExtentOverflowRecord>)
        ensures
            ExtentOverflowRecord::is_decoded_from(r, b@),
    {
        if b.len() < ExtentOverflowRecord::SIZE {
            return None;
        }
        let key = match ExtentKey::decode(b) {
            None => {
                return None;
            },
            Some(key) => key,
        };
        let extents: ExtentRecord = [
            ExtentDescriptor::decode(b, 12),
            ExtentDescriptor::decode(b, 20),
            ExtentDescriptor::decode(b, 28),
            ExtentDescriptor::decode(b, 36),
            ExtentDescriptor::decode(b, 44),
            ExtentDescriptor::decode(b, 52),
            ExtentDescriptor::decode(b, 60),
            ExtentDescriptor::decode(b, 68),
        ];
        assert(extents@ =~= ExtentOverflowRecord::extents_at(b@, 12));
        Some(ExtentOverflowRecord { key, extents })
    }
}

} // verus!
