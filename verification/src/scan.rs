//! The walk over the catalog file: every node by its number, every record
//! of every leaf node into the index.
//!
//! The walk does not follow the links between the nodes. It reads node 1,
//! node 2 and so on up to the number of nodes that the header gives, so
//! that it comes by every node even where the links are broken. A node
//! that cannot be read and a record that cannot be decoded are noted and
//! passed over: the walk goes on behind them.

use vstd::prelude::*;
use vstd::slice::slice_subrange;
use crate::btree::{
    parsed_header, parsed_node, read_btree_header, read_btree_node, views_of, BTreeHeaderRecord,
    BTreeNodeDescriptor, BTreeNodeKind,
};
use crate::catalog::{parse_catalog_leaf, parsed_leaf, LeafRecordModel};
use crate::error::HfsError;
use crate::index::CatalogIndex;

verus! {

/// A key and the record filed under it, each by its view.
pub type Entry = (Seq<u8>, LeafRecordModel);

/// A leaf record that could not be decoded.
#[derive(Debug, Clone, Copy, PartialEq, Eq, Structural)]
pub struct RecordFailure {
    /// Number of the node that holds the record.
    pub node: u32,
    /// Place of the record in its node, counted from zero.
    pub record: u16,
    pub error: HfsError,
}

/// What the walk over a catalog file has found.
pub struct CatalogScan {
    /// Every record that was decoded, under its key.
    pub index: CatalogIndex,
    /// The header record of the tree.
    pub header: BTreeHeaderRecord,
    /// Number of records that were decoded and filed.
    pub records_decoded: u64,
    /// Numbers of the nodes that could not be read, in ascending order.
    pub failed_nodes: Vec<u32>,
    /// The records that could not be decoded, in the order of the walk.
    pub failed_records: Vec<RecordFailure>,
}

/// The bytes of the catalog file from the start of node `n` on; nothing
/// where the file ends before that node.
pub open spec fn node_bytes(s: Seq<u8>, node_size: int, n: int) -> Seq<u8> {
    if 0 <= n * node_size <= s.len() {
        s.skip(n * node_size)
    } else {
        Seq::empty()
    }
}

/// Whether node `n` cannot be read.
pub open spec fn node_is_damaged(s: Seq<u8>, node_size: int, n: int) -> bool {
    parsed_node(node_bytes(s, node_size, n), node_size) is Err
}

/// The raw records of node `n`, if it is a leaf node that can be read;
/// otherwise none.
pub open spec fn leaf_records(s: Seq<u8>, node_size: int, n: int) -> Seq<Seq<u8>> {
    match parsed_node(node_bytes(s, node_size, n), node_size) {
        Ok((descriptor, records)) => if descriptor.kind == BTreeNodeKind::kBTLeafNode {
            records
        } else {
            Seq::empty()
        },
        Err(_) => Seq::empty(),
    }
}

/// The entries that the raw records decode to, in order, the records that
/// cannot be decoded left out.
pub open spec fn decoded_entries(records: Seq<Seq<u8>>) -> Seq<Entry>
    decreases records.len(),
{
    if records.len() == 0 {
        Seq::empty()
    } else {
        let front = decoded_entries(records.drop_last());
        match parsed_leaf(records.last()) {
            Ok(entry) => front.push(entry),
            Err(_) => front,
        }
    }
}

/// The raw records of node `node` that cannot be decoded, in order, each
/// with its place and the reason.
pub open spec fn undecoded_records(records: Seq<Seq<u8>>, node: u32) -> Seq<RecordFailure>
    decreases records.len(),
{
    if records.len() == 0 {
        Seq::empty()
    } else {
        let front = undecoded_records(records.drop_last(), node);
        match parsed_leaf(records.last()) {
            Ok(_) => front,
            Err(error) => front.push(
                RecordFailure { node, record: (records.len() - 1) as u16, error },
            ),
        }
    }
}

/// The entries of the nodes from number `from` up to, not including, number
/// `to`, in the order of the walk.
pub open spec fn entries_of_nodes(s: Seq<u8>, node_size: int, from: int, to: int) -> Seq<Entry>
    decreases to - from,
{
    if to <= from {
        Seq::empty()
    } else {
        entries_of_nodes(s, node_size, from, to - 1) + decoded_entries(
            leaf_records(s, node_size, to - 1),
        )
    }
}

/// The records of the nodes from `from` up to `to` that cannot be decoded.
pub open spec fn record_failures_of_nodes(
    s: Seq<u8>,
    node_size: int,
    from: int,
    to: int,
) -> Seq<RecordFailure>
    decreases to - from,
{
    if to <= from {
        Seq::empty()
    } else {
        record_failures_of_nodes(s, node_size, from, to - 1) + undecoded_records(
            leaf_records(s, node_size, to - 1),
            (to - 1) as u32,
        )
    }
}

/// The numbers of the nodes from `from` up to `to` that cannot be read.
pub open spec fn damaged_nodes(s: Seq<u8>, node_size: int, from: int, to: int) -> Seq<u32>
    decreases to - from,
{
    if to <= from {
        Seq::empty()
    } else if node_is_damaged(s, node_size, to - 1) {
        damaged_nodes(s, node_size, from, to - 1).push((to - 1) as u32)
    } else {
        damaged_nodes(s, node_size, from, to - 1)
    }
}

/// The number of raw records in the leaf nodes from `from` up to `to` that
/// can be read.
pub open spec fn leaf_record_count(s: Seq<u8>, node_size: int, from: int, to: int) -> int
    decreases to - from,
{
    if to <= from {
        0
    } else {
        leaf_record_count(s, node_size, from, to - 1) + leaf_records(s, node_size, to - 1).len()
    }
}

/// The map that filing the entries one after the other gives: under each
/// key the record of the last entry with that key.
pub open spec fn map_from_entries(entries: Seq<Entry>) -> Map<Seq<u8>, LeafRecordModel>
    decreases entries.len(),
{
    if entries.len() == 0 {
        Map::empty()
    } else {
        map_from_entries(entries.drop_last()).insert(entries.last().0, entries.last().1)
    }
}

/// Whether every raw record of the sequence can be decoded.
pub open spec fn all_decode(records: Seq<Seq<u8>>) -> bool {
    forall|k: int| 0 <= k < records.len() ==> parsed_leaf(#[trigger] records[k]) is Ok
}

/// Where every record can be decoded, there are as many entries as records.
pub proof fn lemma_decoded_entries_len(records: Seq<Seq<u8>>)
    ensures
        decoded_entries(records).len() <= records.len(),
        all_decode(records) ==> decoded_entries(records).len() == records.len(),
    decreases records.len(),
{
    if records.len() > 0 {
        lemma_decoded_entries_len(records.drop_last());
        if all_decode(records) {
            assert forall|k: int| 0 <= k < records.drop_last().len() implies parsed_leaf(
                #[trigger] records.drop_last()[k],
            ) is Ok by {
                assert(records.drop_last()[k] == records[k]);
            }
            assert(parsed_leaf(records[records.len() - 1]) is Ok);
        }
    }
}

/// A tree of leaf nodes whose records can all be decoded yields as many
/// entries as its nodes hold records, however the records are divided among
/// the nodes.
pub proof fn lemma_walk_yields_every_record(s: Seq<u8>, node_size: int, from: int, to: int)
    requires
        forall|n: int| from <= n < to ==> all_decode(#[trigger] leaf_records(s, node_size, n)),
    ensures
        entries_of_nodes(s, node_size, from, to).len() == leaf_record_count(
            s,
            node_size,
            from,
            to,
        ),
    decreases to - from,
{
    if from < to {
        lemma_walk_yields_every_record(s, node_size, from, to - 1);
        assert(all_decode(leaf_records(s, node_size, to - 1)));
        lemma_decoded_entries_len(leaf_records(s, node_size, to - 1));
    }
}

/// The entries of a range of nodes are those of its lower part followed by
/// those of its upper part.
#[verifier::rlimit(40)]
pub proof fn lemma_entries_of_nodes_split(
    s: Seq<u8>,
    node_size: int,
    from: int,
    mid: int,
    to: int,
)
    requires
        from <= mid <= to,
    ensures
        entries_of_nodes(s, node_size, from, to) == entries_of_nodes(s, node_size, from, mid)
            + entries_of_nodes(s, node_size, mid, to),
    decreases to - mid,
{
    let lower = entries_of_nodes(s, node_size, from, mid);
    if mid < to {
        lemma_entries_of_nodes_split(s, node_size, from, mid, to - 1);
        let last = decoded_entries(leaf_records(s, node_size, to - 1));
        let upper_front = entries_of_nodes(s, node_size, mid, to - 1);
        assert(entries_of_nodes(s, node_size, from, to) == entries_of_nodes(
            s,
            node_size,
            from,
            to - 1,
        ) + last);
        assert(entries_of_nodes(s, node_size, mid, to) == upper_front + last);
        assert((lower + upper_front) + last =~= lower + (upper_front + last));
    } else {
        assert(entries_of_nodes(s, node_size, mid, to) == Seq::<Entry>::empty());
        assert(lower + Seq::<Entry>::empty() =~= lower);
    }
}

/// A node that cannot be read is passed over: the walk yields the entries of
/// the nodes in front of it, then those of the nodes behind it, and the node
/// is among the damaged ones.
#[verifier::rlimit(40)]
pub proof fn lemma_damaged_node_is_passed_over(
    s: Seq<u8>,
    node_size: int,
    from: int,
    n: int,
    to: int,
)
    requires
        0 <= from <= n < to <= 0x1_0000_0000,
        node_is_damaged(s, node_size, n),
    ensures
        entries_of_nodes(s, node_size, from, to) == entries_of_nodes(s, node_size, from, n)
            + entries_of_nodes(s, node_size, n + 1, to),
        damaged_nodes(s, node_size, from, n + 1).last() == n,
{
    lemma_entries_of_nodes_split(s, node_size, from, n + 1, to);
    let none = Seq::<Seq<u8>>::empty();
    assert(leaf_records(s, node_size, n) == none);
    assert(decoded_entries(none) == Seq::<Entry>::empty());
    assert(entries_of_nodes(s, node_size, from, n + 1) == entries_of_nodes(
        s,
        node_size,
        from,
        n,
    ) + decoded_entries(none));
    assert(entries_of_nodes(s, node_size, from, n) + Seq::<Entry>::empty() =~= entries_of_nodes(
        s,
        node_size,
        from,
        n,
    ));
}

/// What `read_btree_leaves` makes of a catalog file with the bytes `s`: the
/// map from key to record, or the failure of reading the header node.
pub open spec fn scanned_catalog(s: Seq<u8>) -> Result<Map<Seq<u8>, LeafRecordModel>, HfsError> {
    match parsed_header(s) {
        Err(e) => Err(e),
        Ok((_, header)) => Ok(
            map_from_entries(
                entries_of_nodes(s, header.node_size as int, 1, header.total_nodes as int),
            ),
        ),
    }
}

impl CatalogScan {
    /// Whether the scan is what the walk over the catalog file `s` finds.
    pub open spec fn is_scan_of(&self, s: Seq<u8>) -> bool {
        match parsed_header(s) {
            Err(_) => false,
            Ok((_, header)) => {
                let node_size = header.node_size as int;
                let upto = header.total_nodes as int;
                &&& self.header == header
                &&& self.index@ == map_from_entries(entries_of_nodes(s, node_size, 1, upto))
                &&& self.records_decoded == entries_of_nodes(s, node_size, 1, upto).len()
                &&& self.failed_nodes@ == damaged_nodes(s, node_size, 1, upto)
                &&& self.failed_records@ == record_failures_of_nodes(s, node_size, 1, upto)
            },
        }
    }
}

/// Files the records of one leaf node in the index and notes those that
/// cannot be decoded.
#[verifier::rlimit(40)]
fn file_leaf_records(
    records: &Vec<Vec<u8>>,
    node: u32,
    index: &mut CatalogIndex,
    records_decoded: &mut u64,
    failed_records: &mut Vec<RecordFailure>,
    Ghost(seen): Ghost<Seq<Entry>>,
)
    requires
        records@.len() <= 0xFFFF,
        old(index)@ == map_from_entries(seen),
        *old(records_decoded) == seen.len(),
        *old(records_decoded) + 0xFFFF <= u64::MAX,
    ensures
        final(index)@ == map_from_entries(seen + decoded_entries(views_of(records@))),
        *final(records_decoded) == seen.len() + decoded_entries(views_of(records@)).len(),
        final(failed_records)@ == old(failed_records)@ + undecoded_records(
            views_of(records@),
            node,
        ),
{
    let ghost raw = views_of(records@);
    let mut i: usize = 0;
    assert(raw.take(0) =~= Seq::<Seq<u8>>::empty());
    assert(seen + decoded_entries(raw.take(0)) =~= seen);
    assert(old(failed_records)@ + undecoded_records(raw.take(0), node) =~= old(
        failed_records,
    )@);
    while i < records.len()
        invariant
            i <= records.len(),
            records@.len() <= 0xFFFF,
            raw == views_of(records@),
            index@ == map_from_entries(seen + decoded_entries(raw.take(i as int))),
            *records_decoded == seen.len() + decoded_entries(raw.take(i as int)).len(),
            decoded_entries(raw.take(i as int)).len() <= i,
            seen.len() + 0xFFFF <= u64::MAX,
            failed_records@ == old(failed_records)@ + undecoded_records(raw.take(i as int), node),
        decreases records.len() - i,
    {
        let ghost front = raw.take(i as int);
        let ghost next = raw.take(i + 1);
        proof {
            assert(next.drop_last() =~= front);
            assert(next.last() == records@[i as int]@);
        }
        let parsed = parse_catalog_leaf(&records[i]);
        match parsed {
            Ok((key, record)) => {
                proof {
                    let entry = (key@, record@);
                    assert(decoded_entries(next) == decoded_entries(front).push(entry));
                    assert(seen + decoded_entries(next) =~= (seen + decoded_entries(front)).push(
                        entry,
                    ));
                    assert((seen + decoded_entries(next)).drop_last() =~= seen + decoded_entries(
                        front,
                    ));
                    assert(undecoded_records(next, node) == undecoded_records(front, node));
                }
                index.insert(key, record);
                *records_decoded = *records_decoded + 1;
            },
            Err(error) => {
                proof {
                    assert(decoded_entries(next) == decoded_entries(front));
                    assert(undecoded_records(next, node) == undecoded_records(front, node).push(
                        RecordFailure { node, record: i as u16, error },
                    ));
                }
                failed_records.push(RecordFailure { node, record: i as u16, error });
            },
        }
        i += 1;
    }
    assert(raw.take(i as int) =~= raw);
}

/// Reads node `n` of the catalog file. A leaf node has its records filed in
/// the index; a node that cannot be read is noted by its number; any other
/// node is passed over.
#[verifier::rlimit(40)]
fn scan_node(
    stream: &[u8],
    block_size: usize,
    node_size: usize,
    n: u32,
    index: &mut CatalogIndex,
    records_decoded: &mut u64,
    failed_nodes: &mut Vec<u32>,
    failed_records: &mut Vec<RecordFailure>,
    Ghost(seen): Ghost<Seq<Entry>>,
)
    requires
        node_size <= 0xFFFF,
        old(index)@ == map_from_entries(seen),
        *old(records_decoded) == seen.len(),
        *old(records_decoded) + 0xFFFF <= u64::MAX,
    ensures
        final(index)@ == map_from_entries(
            seen + decoded_entries(leaf_records(stream@, node_size as int, n as int)),
        ),
        *final(records_decoded) == seen.len() + decoded_entries(
            leaf_records(stream@, node_size as int, n as int),
        ).len(),
        final(failed_nodes)@ == if node_is_damaged(stream@, node_size as int, n as int) {
            old(failed_nodes)@.push(n)
        } else {
            old(failed_nodes)@
        },
        final(failed_records)@ == old(failed_records)@ + undecoded_records(
            leaf_records(stream@, node_size as int, n as int),
            n,
        ),
{
    let stream_len: usize = stream.len();
    assert(n * node_size <= 0xFFFF_FFFF * 0xFFFF) by (nonlinear_arith)
        requires
            0 <= n <= 0xFFFF_FFFF,
            0 <= node_size <= 0xFFFF,
    ;
    let offset: u64 = n as u64 * node_size as u64;
    let node: &[u8] = if offset <= stream_len as u64 {
        slice_subrange(stream, offset as usize, stream_len)
    } else {
        slice_subrange(stream, 0, 0)
    };
    assert(node@ =~= node_bytes(stream@, node_size as int, n as int));
    let ghost none = Seq::<Seq<u8>>::empty();
    proof {
        assert(decoded_entries(none) =~= Seq::<Entry>::empty());
        assert(undecoded_records(none, n) =~= Seq::<RecordFailure>::empty());
        assert(seen + Seq::<Entry>::empty() =~= seen);
        assert(old(failed_records)@ + Seq::<RecordFailure>::empty() =~= old(failed_records)@);
    }
    match read_btree_node(node, block_size, node_size) {
        Err(_) => {
            assert(leaf_records(stream@, node_size as int, n as int) == none);
            failed_nodes.push(n);
        },
        Ok((node_header, records)) => {
            let is_leaf = match node_header.kind {
                BTreeNodeKind::kBTLeafNode => true,
                _ => false,
            };
            if node_header.num_records != 0 && is_leaf {
                assert(views_of(records@) == leaf_records(stream@, node_size as int, n as int));
                file_leaf_records(
                    &records,
                    n,
                    index,
                    records_decoded,
                    failed_records,
                    Ghost(seen),
                );
            } else {
                assert(leaf_records(stream@, node_size as int, n as int) =~= none);
            }
        },
    }
}

/// Walks the catalog file and files the records of its leaf nodes in an
/// index.
///
/// The header node gives the node size and the number of nodes. The nodes
/// from number 1 up to that number are read one by one, node `n` at byte `n`
/// times the node size. Of a node that can be read and is a leaf node, every
/// record is decoded and filed under its key; where a key comes twice, the
/// later record stays. A node that cannot be read is noted by its number,
/// and a record that cannot be decoded by its node, its place and the
/// reason; neither ends the walk.
///
/// Fails, with `MalformedHeader`, if and only if the header node cannot be
/// read.
#[verifier::rlimit(40)]
pub fn read_btree_leaves(stream: &[u8], block_size: usize) -> (r: Result<CatalogScan, HfsError>)
    ensures
        match r {
            Ok(scan) => scan.is_scan_of(stream@) && scanned_catalog(stream@) == Ok::<
                Map<Seq<u8>, LeafRecordModel>,
                HfsError,
            >(scan.index@),
            Err(e) => parsed_header(stream@) == Err::<
                (BTreeNodeDescriptor, BTreeHeaderRecord),
                HfsError,
            >(e) && scanned_catalog(stream@) == Err::<Map<Seq<u8>, LeafRecordModel>, HfsError>(e),
        },
{
    let header = match read_btree_header(stream, block_size) {
        Err(e) => {
            return Err(e);
        },
        Ok((_, header)) => header,
    };
    let node_size: usize = header.node_size as usize;
    let total_nodes: u32 = header.total_nodes;
    let mut index = CatalogIndex::new();
    let mut records_decoded: u64 = 0;
    let mut failed_nodes: Vec<u32> = Vec::new();
    let mut failed_records: Vec<RecordFailure> = Vec::new();
    let mut n: u32 = 1;
    while n < total_nodes
        invariant
            1 <= n,
            n <= total_nodes || n == 1,
            parsed_header(stream@) is Ok,
            parsed_header(stream@)->Ok_0.1 == header,
            total_nodes == header.total_nodes,
            node_size == header.node_size,
            index@ == map_from_entries(entries_of_nodes(stream@, node_size as int, 1, n as int)),
            records_decoded == entries_of_nodes(stream@, node_size as int, 1, n as int).len(),
            records_decoded <= (n - 1) * 0xFFFF,
            failed_nodes@ == damaged_nodes(stream@, node_size as int, 1, n as int),
            failed_records@ == record_failures_of_nodes(stream@, node_size as int, 1, n as int),
        decreases total_nodes - n,
    {
        let ghost seen = entries_of_nodes(stream@, node_size as int, 1, n as int);
        scan_node(
            stream,
            block_size,
            node_size,
            n,
            &mut index,
            &mut records_decoded,
            &mut failed_nodes,
            &mut failed_records,
            Ghost(seen),
        );
        proof {
            lemma_decoded_entries_len(leaf_records(stream@, node_size as int, n as int));
        }
        n += 1;
    }
    proof {
        let s = stream@;
        let size = node_size as int;
        if total_nodes == 0 {
            assert(n == 1);
            assert(entries_of_nodes(s, size, 1, 1) == entries_of_nodes(s, size, 1, 0));
            assert(damaged_nodes(s, size, 1, 1) == damaged_nodes(s, size, 1, 0));
            assert(record_failures_of_nodes(s, size, 1, 1) == record_failures_of_nodes(
                s,
                size,
                1,
                0,
            ));
        } else {
            assert(n == total_nodes);
        }
    }
    Ok(CatalogScan { index, header, records_decoded, failed_nodes, failed_records })
}

} // verus!
