//! B-tree nodes: the header node, which tells the size and number of the
//! nodes, and the records of any other node.

use vstd::prelude::*;
use vstd::slice::{slice_subrange, slice_to_vec};
use itertools::Itertools;
use crate::bytes::{be_i8, be_u16, be_u32, read_be_i8, read_be_u16, read_be_u32};
use crate::error::HfsError;

verus! {

/// The kinds of B-tree node.
#[allow(non_camel_case_types)]
#[derive(Debug, Clone, Copy, PartialEq, Eq, Structural)]
pub enum BTreeNodeKind {
    /// Holds data records.
    kBTLeafNode,
    /// Holds pointer records.
    kBTIndexNode,
    /// Holds the header record.
    kBTHeaderNode,
    /// Holds more of the allocation map.
    kBTMapNode,
}

impl BTreeNodeKind {
    /// The number that stands for this kind on disk.
    pub open spec fn value_of(self) -> i8 {
        match self {
            BTreeNodeKind::kBTLeafNode => -1i8,
            BTreeNodeKind::kBTIndexNode => 0,
            BTreeNodeKind::kBTHeaderNode => 1,
            BTreeNodeKind::kBTMapNode => 2,
        }
    }

    /// The kind that `v` stands for, if it stands for one.
    pub open spec fn of_value(v: i8) -> Option<BTreeNodeKind> {
        if v == -1 {
            Some(BTreeNodeKind::kBTLeafNode)
        } else if v == 0 {
            Some(BTreeNodeKind::kBTIndexNode)
        } else if v == 1 {
            Some(BTreeNodeKind::kBTHeaderNode)
        } else if v == 2 {
            Some(BTreeNodeKind::kBTMapNode)
        } else {
            None
        }
    }

    /// The kind that `v` stands for; `None` where it stands for none.
    pub fn from_value(v: i8) -> (kind: Option<BTreeNodeKind>)
        ensures
            kind == BTreeNodeKind::of_value(v),
    {
        if v == -1 {
            Some(BTreeNodeKind::kBTLeafNode)
        } else if v == 0 {
            Some(BTreeNodeKind::kBTIndexNode)
        } else if v == 1 {
            Some(BTreeNodeKind::kBTHeaderNode)
        } else if v == 2 {
            Some(BTreeNodeKind::kBTMapNode)
        } else {
            None
        }
    }
}

/// The types of B-tree.
#[allow(non_camel_case_types)]
#[derive(Debug, Clone, Copy, PartialEq, Eq, Structural)]
pub enum BTreeType {
    /// Catalog, extents and attributes trees.
    kHFSBTreeType,
    /// The first of the types that are open to users.
    kUserBTreeType,
    kReservedBTreeType,
}

impl BTreeType {
    /// The type that `v` stands for, if it stands for one.
    pub open spec fn of_value(v: u8) -> Option<BTreeType> {
        if v == 0 {
            Some(BTreeType::kHFSBTreeType)
        } else if v == 128 {
            Some(BTreeType::kUserBTreeType)
        } else if v == 255 {
            Some(BTreeType::kReservedBTreeType)
        } else {
            None
        }
    }

    /// The type that `v` stands for; `None` where it stands for none.
    pub fn from_value(v: u8) -> (t: Option<BTreeType>)
        ensures
            t == BTreeType::of_value(v),
    {
        if v == 0 {
            Some(BTreeType::kHFSBTreeType)
        } else if v == 128 {
            Some(BTreeType::kUserBTreeType)
        } else if v == 255 {
            Some(BTreeType::kReservedBTreeType)
        } else {
            None
        }
    }
}

/// How the keys of a B-tree are compared.
#[allow(non_camel_case_types)]
#[derive(Debug, Clone, Copy, PartialEq, Eq, Structural)]
pub enum BTreeKeyCompareType {
    /// Zero: what a volume that is not HFSX holds here.
    reserved_hfsx_only,
    /// Case folding: names that differ in case only are the same name.
    kHFSCaseFolding,
    /// Binary comparison: names are compared unit by unit.
    kHFSBinaryCompare,
}

impl BTreeKeyCompareType {
    /// The way of comparing that `v` stands for, if it stands for one.
    pub open spec fn of_value(v: u8) -> Option<BTreeKeyCompareType> {
        if v == 0x00 {
            Some(BTreeKeyCompareType::reserved_hfsx_only)
        } else if v == 0xCF {
            Some(BTreeKeyCompareType::kHFSCaseFolding)
        } else if v == 0xBC {
            Some(BTreeKeyCompareType::kHFSBinaryCompare)
        } else {
            None
        }
    }

    /// The way of comparing that `v` stands for; `None` where it stands for
    /// none.
    pub fn from_value(v: u8) -> (t: Option<BTreeKeyCompareType>)
        ensures
            t == BTreeKeyCompareType::of_value(v),
    {
        if v == 0x00 {
            Some(BTreeKeyCompareType::reserved_hfsx_only)
        } else if v == 0xCF {
            Some(BTreeKeyCompareType::kHFSCaseFolding)
        } else if v == 0xBC {
            Some(BTreeKeyCompareType::kHFSBinaryCompare)
        } else {
            None
        }
    }
}

/// The descriptor at the start of every node.
#[derive(Debug, Clone, Copy, PartialEq, Eq, Structural)]
pub struct BTreeNodeDescriptor {
    /// Number of the next node of this kind; zero where there is none.
    pub forward_link: u32,
    /// Number of the node of this kind before this one; zero where there is
    /// none.
    pub backward_link: u32,
    pub kind: BTreeNodeKind,
    pub height: u8,
    pub num_records: u16,
    pub reserved: u16,
}

/// The header record: the first record of node 0.
#[derive(Debug, Clone, Copy)]
pub struct BTreeHeaderRecord {
    pub tree_depth: u16,
    pub root_node: u32,
    pub leaf_records: u32,
    pub first_leaf_node: u32,
    pub last_leaf_node: u32,
    /// Bytes to a node: a power of two from 512 to 32768.
    pub node_size: u16,
    pub max_key_length: u16,
    /// Number of nodes in the tree, free ones included.
    pub total_nodes: u32,
    pub free_nodes: u32,
    pub reserved_1: u16,
    pub clump_size: u32,
    pub btree_type: BTreeType,
    pub key_compare_type: BTreeKeyCompareType,
    pub attributes: u32,
    pub reserved_3: [u32; 16],
}

/// The second record of a header node: 128 reserved bytes.
#[derive(Debug, Clone, Copy)]
pub struct BTreeUserDataRecord {
    pub reserved: [u8; 128],
}

/// The user data record of a header node, as its 128 bytes.
#[derive(Debug, Clone, Copy)]
pub struct UserDataRecord(pub [u8; 128]);

impl BTreeUserDataRecord {
    /// Bytes that the record takes on disk.
    pub const SIZE: usize = 128;
}

impl BTreeNodeDescriptor {
    /// Bytes that a node descriptor takes on disk.
    pub const SIZE: usize = 14;

    /// The kind of the node whose descriptor starts at `s[at]`, if the byte
    /// that tells it stands for a kind.
    pub open spec fn kind_at(s: Seq<u8>, at: int) -> Option<BTreeNodeKind> {
        BTreeNodeKind::of_value(be_i8(s, at + 8))
    }

    /// The descriptor stored at `s[at] .. s[at + 14]`, for a node of kind
    /// `kind`.
    pub open spec fn decoded(s: Seq<u8>, at: int, kind: BTreeNodeKind) -> BTreeNodeDescriptor {
        BTreeNodeDescriptor {
            forward_link: be_u32(s, at),
            backward_link: be_u32(s, at + 4),
            kind,
            height: s[at + 9],
            num_records: be_u16(s, at + 10),
            reserved: be_u16(s, at + 12),
        }
    }

    /// Decodes the descriptor at `b[at] .. b[at + 14]`; `None` where the kind
    /// is none of the four that are defined.
    pub fn decode(b: &[u8], at: usize) -> (d: Option<BTreeNodeDescriptor>)
        requires
            at + 14 <= b.len(),
        ensures
            d == match BTreeNodeDescriptor::kind_at(b@, at as int) {
                Some(kind) => Some(BTreeNodeDescriptor::decoded(b@, at as int, kind)),
                None => None,
            },
    {
        match BTreeNodeKind::from_value(read_be_i8(b, at + 8)) {
            None => None,
            Some(kind) => Some(
                BTreeNodeDescriptor {
                    forward_link: read_be_u32(b, at),
                    backward_link: read_be_u32(b, at + 4),
                    kind,
                    height: b[at + 9],
                    num_records: read_be_u16(b, at + 10),
                    reserved: read_be_u16(b, at + 12),
                },
            ),
        }
    }
}

impl BTreeHeaderRecord {
    /// Bytes that a header record takes on disk.
    pub const SIZE: usize = 106;

    /// The header record stored at `s[at] .. s[at + 106]`, for a tree of
    /// this type and this way of comparing keys.
    pub open spec fn decoded(
        s: Seq<u8>,
        at: int,
        btree_type: BTreeType,
        key_compare_type: BTreeKeyCompareType,
    ) -> BTreeHeaderRecord {
        BTreeHeaderRecord {
            tree_depth: be_u16(s, at),
            root_node: be_u32(s, at + 2),
            leaf_records: be_u32(s, at + 6),
            first_leaf_node: be_u32(s, at + 10),
            last_leaf_node: be_u32(s, at + 14),
            node_size: be_u16(s, at + 18),
            max_key_length: be_u16(s, at + 20),
            total_nodes: be_u32(s, at + 22),
            free_nodes: be_u32(s, at + 26),
            reserved_1: be_u16(s, at + 30),
            clump_size: be_u32(s, at + 32),
            btree_type,
            key_compare_type,
            attributes: be_u32(s, at + 38),
            reserved_3: [
                be_u32(s, at + 42),
                be_u32(s, at + 46),
                be_u32(s, at + 50),
                be_u32(s, at + 54),
                be_u32(s, at + 58),
                be_u32(s, at + 62),
                be_u32(s, at + 66),
                be_u32(s, at + 70),
                be_u32(s, at + 74),
                be_u32(s, at + 78),
                be_u32(s, at + 82),
                be_u32(s, at + 86),
                be_u32(s, at + 90),
                be_u32(s, at + 94),
                be_u32(s, at + 98),
                be_u32(s, at + 102),
            ],
        }
    }

    /// The header record stored at `s[at] .. s[at + 106]`, if its tree type
    /// and its way of comparing keys are among those that are defined.
    pub open spec fn decoded_at(s: Seq<u8>, at: int) -> Option<BTreeHeaderRecord> {
        match (BTreeType::of_value(s[at + 36]), BTreeKeyCompareType::of_value(s[at + 37])) {
            (Some(t), Some(k)) => Some(BTreeHeaderRecord::decoded(s, at, t, k)),
            _ => None,
        }
    }

    /// Decodes the header record at `b[at] .. b[at + 106]`; `None` where the
    /// tree type or the way of comparing keys is none of those defined.
    pub fn decode(b: &[u8], at: usize) -> (h: Option<BTreeHeaderRecord>)
        requires
            at + 106 <= b.len(),
        ensures
            h == BTreeHeaderRecord::decoded_at(b@, at as int),
    {
        let btree_type = match BTreeType::from_value(b[at + 36]) {
            None => {
                return None;
            },
            Some(t) => t,
        };
        let key_compare_type = match BTreeKeyCompareType::from_value(b[at + 37]) {
            None => {
                return None;
            },
            Some(k) => k,
        };
        let reserved_3: [u32; 16] = [
            read_be_u32(b, at + 42),
            read_be_u32(b, at + 46),
            read_be_u32(b, at + 50),
            read_be_u32(b, at + 54),
            read_be_u32(b, at + 58),
            read_be_u32(b, at + 62),
            read_be_u32(b, at + 66),
            read_be_u32(b, at + 70),
            read_be_u32(b, at + 74),
            read_be_u32(b, at + 78),
            read_be_u32(b, at + 82),
            read_be_u32(b, at + 86),
            read_be_u32(b, at + 90),
            read_be_u32(b, at + 94),
            read_be_u32(b, at + 98),
            read_be_u32(b, at + 102),
        ];
        assert(reserved_3 =~= BTreeHeaderRecord::decoded(
            b@,
            at as int,
            btree_type,
            key_compare_type,
        ).reserved_3);
        Some(
            BTreeHeaderRecord {
                tree_depth: read_be_u16(b, at),
                root_node: read_be_u32(b, at + 2),
                leaf_records: read_be_u32(b, at + 6),
                first_leaf_node: read_be_u32(b, at + 10),
                last_leaf_node: read_be_u32(b, at + 14),
                node_size: read_be_u16(b, at + 18),
                max_key_length: read_be_u16(b, at + 20),
                total_nodes: read_be_u32(b, at + 22),
                free_nodes: read_be_u32(b, at + 26),
                reserved_1: read_be_u16(b, at + 30),
                clump_size: read_be_u32(b, at + 32),
                btree_type,
                key_compare_type,
                attributes: read_be_u32(b, at + 38),
                reserved_3,
            },
        )
    }
}

/// Bytes of a header node in front of its map record: the node descriptor,
/// the header record and the user data record.
pub const HEADER_RECORDS_SIZE: usize = 248;

/// Bytes that the node descriptor and the header record take together.
pub const HEADER_START_SIZE: usize = 120;

/// What a header node holds besides its map record: the three structures in
/// front of it and the four offsets at its end.
pub const MAP_STRUCTURE_SIZE: u16 = 256;

/// The number of bytes that reading the header node takes from the stream:
/// descriptor, header record and user data, the map record, and an offset
/// for each record and one for the free space.
pub open spec fn header_node_extent(s: Seq<u8>) -> int {
    HEADER_RECORDS_SIZE + (be_u16(s, 32) - MAP_STRUCTURE_SIZE) + 2 * (be_u16(s, 10) + 1)
}

/// What `read_btree_header` returns for a stream that holds the bytes `s`.
pub open spec fn parsed_header(s: Seq<u8>) -> Result<
    (BTreeNodeDescriptor, BTreeHeaderRecord),
    HfsError,
> {
    if s.len() < HEADER_START_SIZE {
        Err(HfsError::MalformedHeader)
    } else {
        match (BTreeNodeDescriptor::kind_at(s, 0), BTreeHeaderRecord::decoded_at(s, 14)) {
            (Some(kind), Some(header)) => if header.node_size < MAP_STRUCTURE_SIZE || s.len()
                < header_node_extent(s) {
                Err(HfsError::MalformedHeader)
            } else {
                Ok((BTreeNodeDescriptor::decoded(s, 0, kind), header))
            },
            _ => Err(HfsError::MalformedHeader),
        }
    }
}

/// Reads the header node from the start of the catalog file: the node
/// descriptor, the header record, 128 bytes of user data, the map record,
/// which fills the node but for 256 bytes, and the offsets at the end of the
/// node. The user data, the map and the offsets are passed over.
///
/// Fails with `MalformedHeader` where the stream ends before the node does,
/// where the node size is below 256, and where the node kind, the tree type
/// or the way of comparing keys is not among the defined values.
pub fn read_btree_header(stream: &[u8], _block_size: usize) -> (r: Result<
    (BTreeNodeDescriptor, BTreeHeaderRecord),
    HfsError,
>)
    ensures
        r == parsed_header(stream@),
{
    if stream.len() < HEADER_START_SIZE {
        return Err(HfsError::MalformedHeader);
    }
    let node_descriptor = match BTreeNodeDescriptor::decode(stream, 0) {
        None => {
            return Err(HfsError::MalformedHeader);
        },
        Some(d) => d,
    };
    let btree_header = match BTreeHeaderRecord::decode(stream, BTreeNodeDescriptor::SIZE) {
        None => {
            return Err(HfsError::MalformedHeader);
        },
        Some(h) => h,
    };
    if btree_header.node_size < MAP_STRUCTURE_SIZE {
        return Err(HfsError::MalformedHeader);
    }
    let map_record_size: usize = (btree_header.node_size - MAP_STRUCTURE_SIZE) as usize;
    let offsets_size: usize = 2 * (node_descriptor.num_records as usize + 1);
    if stream.len() < HEADER_RECORDS_SIZE + map_record_size + offsets_size {
        return Err(HfsError::MalformedHeader);
    }
    Ok((node_descriptor, btree_header))
}

/// Every pair of neighbours in `s`, in order.
pub open spec fn adjacent_pairs_of(s: Seq<u16>) -> Seq<(u16, u16)> {
    Seq::new(
        if s.len() == 0 {
            0nat
        } else {
            (s.len() - 1) as nat
        },
        |i: int| (s[i], s[i + 1]),
    )
}

/// Every pair of neighbours in `offsets`, in order, as `itertools` collects
/// them with `tuple_windows`.
///
/// Trusted: `tuple_windows` yields the windows of two elements from the first
/// to the last, and none where there are fewer than two elements.
#[verifier::external_body]
fn adjacent_pairs(offsets: Vec<u16>) -> (pairs: Vec<(u16, u16)>)
    ensures
        pairs@ == adjacent_pairs_of(offsets@),
{
    offsets.into_iter().tuple_windows().collect()
}

/// The offset at which record `k` of the node starts, or, for `k` the number
/// of records, at which the free space starts. The offsets stand at the end
/// of the node, that of the first record last.
pub open spec fn record_offset(node: Seq<u8>, node_size: int, k: int) -> int {
    be_u16(node, node_size - 2 * (k + 1)) as int
}

/// The offsets of a node with `count` records in ascending order of record:
/// one for each record, then the offset of the free space.
pub open spec fn record_offsets(node: Seq<u8>, node_size: int, count: int) -> Seq<u16> {
    Seq::new((count + 1) as nat, |k: int| be_u16(node, node_size - 2 * (k + 1)))
}

/// The bytes of record `k` of the node.
pub open spec fn node_record(node: Seq<u8>, node_size: int, k: int) -> Seq<u8> {
    node.subrange(record_offset(node, node_size, k), record_offset(node, node_size, k + 1))
}

/// Whether record `k` fits the node: it does not end before it starts, nor
/// behind the end of the node.
pub open spec fn record_fits(node: Seq<u8>, node_size: int, k: int) -> bool {
    record_offset(node, node_size, k) <= record_offset(node, node_size, k + 1) <= node_size
}

/// Whether the offsets of a node with `count` records fit the node.
pub open spec fn offsets_consistent(node: Seq<u8>, node_size: int, count: int) -> bool {
    forall|k: int| 0 <= k < count ==> #[trigger] record_fits(node, node_size, k)
}

/// What `read_btree_node` returns for a stream that holds the bytes `s` and a
/// node size of `node_size`.
pub open spec fn parsed_node(s: Seq<u8>, node_size: int) -> Result<
    (BTreeNodeDescriptor, Seq<Seq<u8>>),
    HfsError,
> {
    if node_size < BTreeNodeDescriptor::SIZE || s.len() < node_size {
        Err(HfsError::NodeReadFailure)
    } else {
        match BTreeNodeDescriptor::kind_at(s, 0) {
            None => Err(HfsError::NodeReadFailure),
            Some(kind) => {
                let descriptor = BTreeNodeDescriptor::decoded(s, 0, kind);
                let count = descriptor.num_records as int;
                if node_size < BTreeNodeDescriptor::SIZE + 2 * (count + 1) || !offsets_consistent(
                    s,
                    node_size,
                    count,
                ) {
                    Err(HfsError::NodeReadFailure)
                } else {
                    Ok((descriptor, Seq::new(count as nat, |k: int| node_record(s, node_size, k))))
                }
            },
        }
    }
}

/// The byte sequences that the vectors hold.
pub open spec fn views_of(records: Seq<Vec<u8>>) -> Seq<Seq<u8>> {
    Seq::new(records.len(), |k: int| records[k]@)
}

/// Whether `r` is what `parsed_node` gives, the records taken by their
/// views.
pub open spec fn is_parsed_node(
    s: Seq<u8>,
    node_size: int,
    r: Result<(BTreeNodeDescriptor, Vec<Vec<u8>>), HfsError>,
) -> bool {
    match r {
        Ok((descriptor, records)) => parsed_node(s, node_size) == Ok::<
            (BTreeNodeDescriptor, Seq<Seq<u8>>),
            HfsError,
        >((descriptor, views_of(records@))),
        Err(e) => parsed_node(s, node_size) == Err::<
            (BTreeNodeDescriptor, Seq<Seq<u8>>),
            HfsError,
        >(e),
    }
}

/// Reads one node of `record_size` bytes from the start of the stream: its
/// descriptor and its records.
///
/// The offsets of the records stand at the end of the node, one for each
/// record and one for the free space, that of the first record last. Record
/// `k` is the bytes from its offset to the next one.
///
/// Fails with `NodeReadFailure` where the stream ends before the node does,
/// where the node kind is not among the defined values, where the node has no
/// room for its descriptor and as many offsets as it claims records, and
/// where a record would end before it starts or behind the end of the node.
pub fn read_btree_node(stream: &[u8], _block_size: usize, record_size: usize) -> (r: Result<
    (BTreeNodeDescriptor, Vec<Vec<u8>>),
    HfsError,
>)
    ensures
        is_parsed_node(stream@, record_size as int, r),
{
    if record_size < BTreeNodeDescriptor::SIZE || stream.len() < record_size {
        return Err(HfsError::NodeReadFailure);
    }
    let node_descriptor = match BTreeNodeDescriptor::decode(stream, 0) {
        None => {
            return Err(HfsError::NodeReadFailure);
        },
        Some(d) => d,
    };
    let count: usize = node_descriptor.num_records as usize;
    let offset_count: usize = count + 1;
    if record_size - BTreeNodeDescriptor::SIZE < 2 * offset_count {
        return Err(HfsError::NodeReadFailure);
    }
    let mut offsets: Vec<u16> = Vec::with_capacity(offset_count);
    let mut k: usize = 0;
    while k < offset_count
        invariant
            k <= offset_count,
            offset_count == count + 1,
            count <= 0xFFFF,
            14 + 2 * offset_count <= record_size <= stream.len(),
            offsets@ == record_offsets(stream@, record_size as int, k as int - 1),
        decreases offset_count - k,
    {
        offsets.push(read_be_u16(stream, record_size - 2 * (k + 1)));
        k += 1;
    }
    let ghost table = offsets@;
    let pairs = adjacent_pairs(offsets);
    let mut records: Vec<Vec<u8>> = Vec::with_capacity(count);
    let mut i: usize = 0;
    while i < pairs.len()
        invariant
            i <= pairs.len(),
            pairs@ == adjacent_pairs_of(table),
            table == record_offsets(stream@, record_size as int, count as int),
            14 <= record_size <= stream.len(),
            BTreeNodeDescriptor::kind_at(stream@, 0) is Some,
            count == be_u16(stream@, 10),
            records.len() == i,
            forall|j: int| 0 <= j < i ==> #[trigger] record_fits(stream@, record_size as int, j),
            forall|j: int|
                0 <= j < i ==> (#[trigger] records@[j])@ == node_record(
                    stream@,
                    record_size as int,
                    j,
                ),
        decreases pairs.len() - i,
    {
        let (start, end) = pairs[i];
        assert(pairs@[i as int] == (table[i as int], table[i + 1]));
        assert(start == record_offset(stream@, record_size as int, i as int));
        assert(end == record_offset(stream@, record_size as int, i + 1));
        if start > end || end as usize > record_size {
            assert(!record_fits(stream@, record_size as int, i as int));
            return Err(HfsError::NodeReadFailure);
        }
        assert(record_fits(stream@, record_size as int, i as int));
        records.push(slice_to_vec(slice_subrange(stream, start as usize, end as usize)));
        i += 1;
    }
    assert(views_of(records@) =~= Seq::new(
        count as nat,
        |k: int| node_record(stream@, record_size as int, k),
    ));
    Ok((node_descriptor, records))
}

} // verus!
