use hfsprust::catalog::{
    cnid_to_key, parse_catalog_leaf, CatalogFile, CatalogFileDataType, CatalogLeafRecord,
    CatalogThread, HFSUniStr255,
};
use hfsprust::digest::sha256_hex;
use hfsprust::error::HfsError;
use hfsprust::extents::{assemble_extents, copy_file_data_from_extents, plan_ranges, ByteRange};
use hfsprust::extract::{
    default_exclusions, extract_file, extract_files, extract_volume, is_excluded, is_overflow_file,
    overflow_files, read_catalog, FileOutcome,
};
use hfsprust::index::{order_keys, CatalogIndex, KeyOrder};
use hfsprust::path::path_for_key;
use hfsprust::scan::{read_btree_leaves, RecordFailure};
use hfsprust::volume::{ExtentDescriptor, ForkData};
use sha2::{Digest, Sha256};

const EMPTY_DIGEST: &str = "e3b0c44298fc1c149afbf4c8996fb92427ae41e4649b934ca495991b7852b855";
const ABC_DIGEST: &str = "ba7816bf8f01cfea414140de5dae2223b00361a396177a9cb410ff61f20015ad";
const DIGITS_DIGEST: &str = "84d89877f0d4041efb6bf91a16f0248f2fd573e6af05c19f96bedb9f882f7882";

fn be16(v: u16) -> Vec<u8> {
    v.to_be_bytes().to_vec()
}

fn be32(v: u32) -> Vec<u8> {
    v.to_be_bytes().to_vec()
}

fn be64(v: u64) -> Vec<u8> {
    v.to_be_bytes().to_vec()
}

fn utf16(text: &str) -> Vec<u16> {
    text.encode_utf16().collect()
}

fn fork_bytes(logical_size: u64, total_blocks: u32, extents: &[(u32, u32)]) -> Vec<u8> {
    let mut out = be64(logical_size);
    out.extend(be32(0));
    out.extend(be32(total_blocks));
    for i in 0..8 {
        let (start, count) = if i < extents.len() { extents[i] } else { (0, 0) };
        out.extend(be32(start));
        out.extend(be32(count));
    }
    out
}

fn fork(logical_size: u64, total_blocks: u32, extents: &[(u32, u32)]) -> ForkData {
    ForkData::decode(&fork_bytes(logical_size, total_blocks, extents), 0)
}

fn key_bytes(parent: u32, name: &str) -> Vec<u8> {
    let units = utf16(name);
    let mut out = be32(parent);
    out.extend(be16(units.len() as u16));
    for unit in units {
        out.extend(be16(unit));
    }
    out
}

fn leaf_record(key: &[u8], payload: &[u8]) -> Vec<u8> {
    let mut out = be16(key.len() as u16);
    out.extend_from_slice(key);
    if key.len() % 2 == 1 {
        out.push(0);
    }
    out.extend_from_slice(payload);
    out
}

fn folder_record(parent: u32, name: &str, folder_id: u32) -> Vec<u8> {
    let mut payload = be16(1);
    payload.extend(be16(0));
    payload.extend(be32(0));
    payload.extend(be32(folder_id));
    payload.extend(vec![0u8; 88 - 12]);
    leaf_record(&key_bytes(parent, name), &payload)
}

fn file_record_bytes(parent: u32, name: &str, file_id: u32, data_fork: &[u8]) -> Vec<u8> {
    let mut payload = be16(2);
    payload.extend(be16(0));
    payload.extend(be32(0));
    payload.extend(be32(file_id));
    payload.extend(vec![0u8; 88 - 12]);
    payload.extend_from_slice(data_fork);
    payload.extend(fork_bytes(0, 0, &[]));
    leaf_record(&key_bytes(parent, name), &payload)
}

fn thread_record(tag: u16, cnid: u32, parent: u32, name: &str) -> Vec<u8> {
    let units = utf16(name);
    let mut payload = be16(tag);
    payload.extend(be16(0));
    payload.extend(be32(parent));
    payload.extend(be16(units.len() as u16));
    for unit in units {
        payload.extend(be16(unit));
    }
    leaf_record(&cnid_to_key(cnid), &payload)
}

fn catalog_file(file_id: u32, logical_size: u64, total_blocks: u32, extents: &[(u32, u32)]) -> CatalogFile {
    let record = file_record_bytes(2, "f", file_id, &fork_bytes(logical_size, total_blocks, extents));
    match parse_catalog_leaf(&record).unwrap().1 {
        CatalogLeafRecord::File(file) => file,
        other => panic!("not a file record: {:?}", other),
    }
}

fn thread(parent: u32, name: &str, of_file: bool) -> CatalogLeafRecord {
    let unicode = utf16(name);
    let record_type = if of_file {
        CatalogFileDataType::kHFSPlusFileThreadRecord
    } else {
        CatalogFileDataType::kHFSPlusFolderThreadRecord
    };
    let thread = CatalogThread {
        record_type,
        reserved: 0,
        parent_id: parent,
        node_name: HFSUniStr255 { length: unicode.len() as u16, unicode },
    };
    if of_file {
        CatalogLeafRecord::FileThread(thread)
    } else {
        CatalogLeafRecord::FolderThread(thread)
    }
}

fn node_bytes(node_size: usize, kind: i8, records: &[Vec<u8>]) -> Vec<u8> {
    let mut node = vec![0u8; node_size];
    node[8] = kind as u8;
    node[9] = 1;
    node[10..12].copy_from_slice(&(records.len() as u16).to_be_bytes());
    let mut at = 14usize;
    let mut offsets = Vec::new();
    for record in records {
        offsets.push(at as u16);
        node[at..at + record.len()].copy_from_slice(record);
        at += record.len();
    }
    offsets.push(at as u16);
    for (k, offset) in offsets.iter().enumerate() {
        let place = node_size - 2 * (k + 1);
        node[place..place + 2].copy_from_slice(&offset.to_be_bytes());
    }
    node
}

fn header_node(node_size: u16, total_nodes: u32) -> Vec<u8> {
    let mut node = vec![0u8; node_size as usize];
    node[8] = 1;
    node[10..12].copy_from_slice(&3u16.to_be_bytes());
    let h = 14;
    node[h + 18..h + 20].copy_from_slice(&node_size.to_be_bytes());
    node[h + 22..h + 26].copy_from_slice(&total_nodes.to_be_bytes());
    node[h + 37] = 0xCF;
    let size = node_size as usize;
    node[size - 2..size].copy_from_slice(&14u16.to_be_bytes());
    node[size - 4..size - 2].copy_from_slice(&120u16.to_be_bytes());
    node[size - 6..size - 4].copy_from_slice(&248u16.to_be_bytes());
    node[size - 8..size - 6].copy_from_slice(&(node_size - 8).to_be_bytes());
    node
}

fn catalog_bytes(node_size: u16, nodes: &[Vec<u8>]) -> Vec<u8> {
    let mut out = header_node(node_size, nodes.len() as u32 + 1);
    for node in nodes {
        assert_eq!(node.len(), node_size as usize);
        out.extend_from_slice(node);
    }
    out
}

fn volume_header_bytes(block_size: u32, catalog_fork: &[u8]) -> Vec<u8> {
    let mut out = b"H+".to_vec();
    out.extend(be16(4));
    out.extend(vec![0u8; 36]);
    out.extend(be32(block_size));
    out.extend(vec![0u8; 112 - 44]);
    out.extend(fork_bytes(0, 0, &[]));
    out.extend(fork_bytes(0, 0, &[]));
    out.extend_from_slice(catalog_fork);
    out.extend(fork_bytes(0, 0, &[]));
    out.extend(fork_bytes(0, 0, &[]));
    assert_eq!(out.len(), 512);
    out
}

/// A 64 KiB image with blocks of 512 bytes, the catalog at block 8 and
/// whatever the caller puts at other offsets.
fn image_with_catalog(catalog: &[u8], content: &[(usize, Vec<u8>)]) -> Vec<u8> {
    let mut image = vec![0u8; 65536];
    let blocks = (catalog.len() / 512) as u32;
    let header = volume_header_bytes(512, &fork_bytes(catalog.len() as u64, blocks, &[(8, blocks)]));
    image[1024..1536].copy_from_slice(&header);
    image[4096..4096 + catalog.len()].copy_from_slice(catalog);
    for (offset, bytes) in content {
        image[*offset..*offset + bytes.len()].copy_from_slice(bytes);
    }
    image
}

fn patterned_image(len: usize) -> Vec<u8> {
    (0..len).map(|i| (i * 7 + i / 256) as u8).collect()
}

fn digest_of(bytes: &[u8]) -> String {
    format!("{:x}", Sha256::digest(bytes))
}

fn extents_of(list: &[(u32, u32)]) -> Vec<ExtentDescriptor> {
    list.iter().map(|(s, c)| ExtentDescriptor { start_block: *s, block_count: *c }).collect()
}

#[test]
fn digest_of_known_inputs() {
    assert_eq!(sha256_hex(b""), EMPTY_DIGEST);
    assert_eq!(sha256_hex(b"abc"), ABC_DIGEST);
    assert_eq!(sha256_hex(b"0123456789"), DIGITS_DIGEST);
    assert_eq!(sha256_hex(&[0u8; 1000]), digest_of(&[0u8; 1000]));
}

#[test]
fn plan_clips_the_last_range_at_the_logical_size() {
    let extents = extents_of(&[(2, 1), (0, 0), (5, 2), (9, 1)]);
    let (ranges, covered) = plan_ranges(8192, &extents, 512, 700).unwrap();
    assert_eq!(covered, 700);
    assert_eq!(ranges.len(), 4);
    assert_eq!(ranges[0], ByteRange { start: 1024, length: 512 });
    assert_eq!(ranges[1].length, 0);
    assert_eq!(ranges[2], ByteRange { start: 2560, length: 188 });
    assert_eq!(ranges[3].length, 0);
}

#[test]
fn plan_tells_how_much_the_extents_cover() {
    let extents = extents_of(&[(2, 1), (5, 2)]);
    let (ranges, covered) = plan_ranges(8192, &extents, 512, 5000).unwrap();
    assert_eq!(covered, 1536);
    assert_eq!(ranges[0], ByteRange { start: 1024, length: 512 });
    assert_eq!(ranges[1], ByteRange { start: 2560, length: 1024 });
    let (ranges, covered) = plan_ranges(8192, &extents, 512, 1536).unwrap();
    assert_eq!(covered, 1536);
    assert_eq!(ranges[1].length, 1024);
    let (_, covered) = plan_ranges(8192, &[].to_vec(), 512, 9).unwrap();
    assert_eq!(covered, 0);
}

#[test]
fn plan_fails_on_an_extent_behind_the_image() {
    let extents = extents_of(&[(2, 1), (15, 2)]);
    assert_eq!(plan_ranges(8192, &extents, 512, 10).err(), Some(HfsError::ExtentOutOfBounds));
    let extents = extents_of(&[(2, 1), (14, 2)]);
    assert!(plan_ranges(8192, &extents, 512, 10).is_ok());
    let extents = extents_of(&[(u32::MAX, u32::MAX)]);
    assert_eq!(plan_ranges(8192, &extents, u32::MAX, 10).err(), Some(HfsError::ExtentOutOfBounds));
}

#[test]
fn streams_exactly_the_logical_size() {
    let image = patterned_image(16384);
    let file = catalog_file(20, 1300, 3, &[(4, 1), (10, 2)]);
    let mut output = Vec::new();
    let (written, digest) = copy_file_data_from_extents(&image, 512, &file, vec![], &mut output).unwrap();
    assert_eq!(written, 1300);
    assert_eq!(output.len(), 1300);
    let mut expected = image[2048..2560].to_vec();
    expected.extend_from_slice(&image[5120..5120 + 788]);
    assert_eq!(output, expected);
    assert_eq!(digest, digest_of(&expected));
}

#[test]
fn streams_whole_blocks_when_the_size_is_a_multiple() {
    let image = patterned_image(16384);
    let file = catalog_file(20, 1024, 2, &[(3, 2)]);
    let mut output = Vec::new();
    let (written, digest) = copy_file_data_from_extents(&image, 512, &file, vec![], &mut output).unwrap();
    assert_eq!(written, 1024);
    assert_eq!(output, image[1536..2560].to_vec());
    assert_eq!(digest, digest_of(&image[1536..2560]));
}

#[test]
fn streaming_appends_to_what_the_sink_holds() {
    let mut image = vec![0u8; 4096];
    image[1024..1027].copy_from_slice(b"abc");
    let file = catalog_file(20, 3, 1, &[(2, 1)]);
    let mut output = b"before".to_vec();
    let (written, digest) = copy_file_data_from_extents(&image, 512, &file, vec![], &mut output).unwrap();
    assert_eq!(written, 3);
    assert_eq!(output, b"beforeabc".to_vec());
    assert_eq!(digest, ABC_DIGEST);
}

#[test]
fn streaming_an_empty_file_gives_the_digest_of_nothing() {
    let image = patterned_image(4096);
    let file = catalog_file(20, 0, 0, &[]);
    let mut output = Vec::new();
    let (written, digest) = copy_file_data_from_extents(&image, 512, &file, vec![], &mut output).unwrap();
    assert_eq!(written, 0);
    assert!(output.is_empty());
    assert_eq!(digest, EMPTY_DIGEST);
    // allocated blocks behind a logical size of zero are not written
    let file = catalog_file(20, 0, 1, &[(1, 1)]);
    let (written, digest) = copy_file_data_from_extents(&image, 512, &file, vec![], &mut output).unwrap();
    assert_eq!(written, 0);
    assert!(output.is_empty());
    assert_eq!(digest, EMPTY_DIGEST);
}

#[test]
fn extents_behind_the_logical_size_are_not_read() {
    let image = patterned_image(8192);
    let file = catalog_file(20, 100, 3, &[(1, 1), (2, 1), (3, 1)]);
    let mut output = Vec::new();
    let (written, _) = copy_file_data_from_extents(&image, 512, &file, vec![], &mut output).unwrap();
    assert_eq!(written, 100);
    assert_eq!(output, image[512..612].to_vec());
}

#[test]
fn unused_slots_between_extents_hold_nothing() {
    let image = patterned_image(8192);
    let file = catalog_file(20, 600, 2, &[(0, 0), (1, 1), (0, 0), (9999, 0), (3, 1)]);
    let mut output = Vec::new();
    let (written, _) = copy_file_data_from_extents(&image, 512, &file, vec![], &mut output).unwrap();
    assert_eq!(written, 600);
    let mut expected = image[512..1024].to_vec();
    expected.extend_from_slice(&image[1536..1536 + 88]);
    assert_eq!(output, expected);
}

#[test]
fn overflow_extents_follow_the_inline_ones() {
    let image = patterned_image(16384);
    let inline: Vec<(u32, u32)> = (1..=8).map(|i| (i, 1)).collect();
    let file = catalog_file(20, 4096 + 700, 10, &inline);
    let mut output = Vec::new();
    assert_eq!(
        copy_file_data_from_extents(&image, 512, &file, vec![], &mut output).err(),
        Some(HfsError::IncompleteCopy)
    );
    assert!(output.is_empty());
    let overflow = extents_of(&[(20, 2)]);
    let (written, digest) = copy_file_data_from_extents(&image, 512, &file, overflow, &mut output).unwrap();
    assert_eq!(written, 4796);
    let mut expected = image[512..4608].to_vec();
    expected.extend_from_slice(&image[10240..10240 + 700]);
    assert_eq!(output, expected);
    assert_eq!(digest, digest_of(&expected));
}

#[test]
fn too_few_extents_are_an_incomplete_copy() {
    let image = patterned_image(8192);
    let file = catalog_file(20, 513, 2, &[(1, 1)]);
    let mut output = b"kept".to_vec();
    assert_eq!(
        copy_file_data_from_extents(&image, 512, &file, vec![], &mut output).err(),
        Some(HfsError::IncompleteCopy)
    );
    assert_eq!(output, b"kept".to_vec());
    let exact = catalog_file(20, 512, 1, &[(1, 1)]);
    assert!(copy_file_data_from_extents(&image, 512, &exact, vec![], &mut output).is_ok());
    let none = catalog_file(20, 1, 0, &[]);
    assert_eq!(
        copy_file_data_from_extents(&image, 512, &none, vec![], &mut output).err(),
        Some(HfsError::IncompleteCopy)
    );
}

#[test]
fn an_extent_behind_the_image_is_out_of_bounds() {
    let image = patterned_image(8192);
    let file = catalog_file(20, 100, 2, &[(1, 1), (16, 1)]);
    let mut output = b"kept".to_vec();
    assert_eq!(
        copy_file_data_from_extents(&image, 512, &file, vec![], &mut output).err(),
        Some(HfsError::ExtentOutOfBounds)
    );
    assert_eq!(output, b"kept".to_vec());
    // the end of the extent is the end of the image: within bounds
    let last = catalog_file(20, 512, 1, &[(15, 1)]);
    let (written, _) = copy_file_data_from_extents(&image, 512, &last, vec![], &mut output).unwrap();
    assert_eq!(written, 512);
    // one byte short of the last block
    let short = &image[..8191];
    assert_eq!(
        copy_file_data_from_extents(short, 512, &last, vec![], &mut Vec::new()).err(),
        Some(HfsError::ExtentOutOfBounds)
    );
}

#[test]
fn out_of_bounds_comes_before_incomplete() {
    let image = patterned_image(4096);
    let file = catalog_file(20, 1_000_000, 2000, &[(1, 1), (100, 1)]);
    assert_eq!(
        copy_file_data_from_extents(&image, 512, &file, vec![], &mut Vec::new()).err(),
        Some(HfsError::ExtentOutOfBounds)
    );
    let overflow = extents_of(&[(4_000_000_000, 4_000_000_000)]);
    let inside = catalog_file(20, 10, 1, &[(1, 1)]);
    assert_eq!(
        copy_file_data_from_extents(&image, u32::MAX, &inside, overflow, &mut Vec::new()).err(),
        Some(HfsError::ExtentOutOfBounds)
    );
}

#[test]
fn blocks_of_no_bytes_hold_nothing() {
    let image = patterned_image(4096);
    let empty = catalog_file(20, 0, 1, &[(1, 1)]);
    let (written, digest) = copy_file_data_from_extents(&image, 0, &empty, vec![], &mut Vec::new()).unwrap();
    assert_eq!(written, 0);
    assert_eq!(digest, EMPTY_DIGEST);
    let file = catalog_file(20, 1, 1, &[(1, 1)]);
    assert_eq!(
        copy_file_data_from_extents(&image, 0, &file, vec![], &mut Vec::new()).err(),
        Some(HfsError::IncompleteCopy)
    );
}

#[test]
fn materializes_a_fork_into_one_buffer() {
    let image = patterned_image(16384);
    let catalog = fork(1536, 3, &[(4, 1), (10, 2)]);
    let data = assemble_extents(&image, &catalog, 512).unwrap();
    let mut expected = image[2048..2560].to_vec();
    expected.extend_from_slice(&image[5120..6144]);
    assert_eq!(data, expected);
}

#[test]
fn materialized_buffer_has_exactly_the_logical_size() {
    let image = patterned_image(16384);
    // the extents hold more: the buffer ends at the logical size
    let long = fork(700, 2, &[(4, 1), (10, 1)]);
    let data = assemble_extents(&image, &long, 512).unwrap();
    let mut expected = image[2048..2560].to_vec();
    expected.extend_from_slice(&image[5120..5120 + 188]);
    assert_eq!(data, expected);
    // the extents hold less: the rest of the buffer is zero
    let short = fork(600, 2, &[(4, 1)]);
    let data = assemble_extents(&image, &short, 512).unwrap();
    assert_eq!(data.len(), 600);
    assert_eq!(&data[..512], &image[2048..2560]);
    assert_eq!(&data[512..], &[0u8; 88][..]);
    let empty = fork(0, 0, &[]);
    assert!(assemble_extents(&image, &empty, 512).unwrap().is_empty());
}

#[test]
fn materializing_fails_on_an_extent_behind_the_image() {
    let image = patterned_image(4096);
    let beyond = fork(512, 1, &[(8, 1)]);
    assert_eq!(assemble_extents(&image, &beyond, 512).err(), Some(HfsError::ExtentOutOfBounds));
    let last = fork(512, 1, &[(7, 1)]);
    assert_eq!(assemble_extents(&image, &last, 512).unwrap(), image[3584..].to_vec());
}

#[test]
fn stream_and_materialization_agree_on_a_fork_that_fits() {
    let image = patterned_image(32768);
    let cases: Vec<(u64, Vec<(u32, u32)>)> = vec![
        (0, vec![]),
        (1, vec![(3, 1)]),
        (512, vec![(3, 1)]),
        (513, vec![(3, 1), (40, 1)]),
        (3000, vec![(3, 1), (0, 0), (9, 2), (1, 1), (30, 4)]),
        (4096, (10..18).map(|i| (i, 1)).collect()),
    ];
    for (logical_size, extents) in cases {
        let file = catalog_file(20, logical_size, 0, &extents);
        let mut streamed = Vec::new();
        let (written, digest) =
            copy_file_data_from_extents(&image, 512, &file, vec![], &mut streamed).unwrap();
        let materialized = assemble_extents(&image, &file.data_fork, 512).unwrap();
        assert_eq!(written, logical_size);
        assert_eq!(streamed.len() as u64, logical_size);
        assert_eq!(streamed, materialized);
        assert_eq!(digest, sha256_hex(&materialized));
        assert_eq!(digest, digest_of(&materialized));
    }
}

#[test]
fn keys_are_ordered_byte_by_byte() {
    assert_eq!(order_keys(&[], &[]), KeyOrder::Same);
    assert_eq!(order_keys(&[], &[0]), KeyOrder::Before);
    assert_eq!(order_keys(&[0], &[]), KeyOrder::After);
    assert_eq!(order_keys(&[1, 2, 3], &[1, 2, 3]), KeyOrder::Same);
    assert_eq!(order_keys(&[1, 2], &[1, 2, 0]), KeyOrder::Before);
    assert_eq!(order_keys(&[1, 2, 0], &[1, 2]), KeyOrder::After);
    assert_eq!(order_keys(&[1, 2, 3], &[1, 3]), KeyOrder::Before);
    assert_eq!(order_keys(&[2], &[1, 255, 255]), KeyOrder::After);
    assert_eq!(order_keys(&[0, 0, 1, 0], &[0, 0, 0, 255]), KeyOrder::After);
    assert_eq!(order_keys(&[127], &[128]), KeyOrder::Before);
}

#[test]
fn index_files_and_finds_records() {
    let mut index = CatalogIndex::new();
    assert!(index.is_empty());
    assert_eq!(index.len(), 0);
    assert!(index.get(&cnid_to_key(5)).is_none());
    index.insert(cnid_to_key(5), thread(2, "five", false));
    index.insert(cnid_to_key(3), thread(2, "three", true));
    index.insert(cnid_to_key(9), thread(5, "nine", true));
    index.insert(key_bytes(2, "five"), thread(0, "not looked at", false));
    assert_eq!(index.len(), 4);
    assert!(!index.is_empty());
    assert!(index.contains_key(&cnid_to_key(3)));
    assert!(!index.contains_key(&cnid_to_key(4)));
    assert!(!index.contains_key(&[0, 0, 0, 3]));
    match index.get(&cnid_to_key(9)) {
        Some(CatalogLeafRecord::FileThread(t)) => {
            assert_eq!(t.parent_id, 5);
            assert_eq!(t.node_name.unicode, utf16("nine"));
        }
        other => panic!("unexpected: {:?}", other),
    }
    match index.get(&cnid_to_key(5)) {
        Some(CatalogLeafRecord::FolderThread(t)) => assert_eq!(t.node_name.unicode, utf16("five")),
        other => panic!("unexpected: {:?}", other),
    }
}

#[test]
fn index_keeps_the_record_that_was_filed_last() {
    let mut index = CatalogIndex::new();
    index.insert(cnid_to_key(5), thread(2, "old", false));
    index.insert(cnid_to_key(6), thread(2, "other", false));
    index.insert(cnid_to_key(5), thread(7, "new", true));
    assert_eq!(index.len(), 2);
    match index.get(&cnid_to_key(5)) {
        Some(CatalogLeafRecord::FileThread(t)) => {
            assert_eq!(t.parent_id, 7);
            assert_eq!(t.node_name.unicode, utf16("new"));
        }
        other => panic!("unexpected: {:?}", other),
    }
    match index.get(&cnid_to_key(6)) {
        Some(CatalogLeafRecord::FolderThread(t)) => assert_eq!(t.node_name.unicode, utf16("other")),
        other => panic!("unexpected: {:?}", other),
    }
}

#[test]
fn index_lists_its_entries_in_ascending_order_of_key() {
    let mut index = CatalogIndex::new();
    let keys: Vec<Vec<u8>> = vec![
        vec![0, 0, 0, 9, 0, 0],
        vec![0, 0, 0, 2, 0, 1, 0, 65],
        vec![],
        vec![0, 0, 0, 2, 0, 0],
        vec![255],
        vec![0, 0, 0, 2],
        vec![0, 0, 1, 0, 0, 0],
    ];
    for (i, key) in keys.iter().enumerate() {
        index.insert(key.clone(), thread(i as u32, "x", false));
    }
    let mut sorted = keys.clone();
    sorted.sort();
    assert_eq!(index.len(), sorted.len());
    for (i, key) in sorted.iter().enumerate() {
        let entry = index.entry(i);
        assert_eq!(&entry.key, key);
        let filed_as = keys.iter().position(|k| k == key).unwrap() as u32;
        match &entry.record {
            CatalogLeafRecord::FolderThread(t) => assert_eq!(t.parent_id, filed_as),
            other => panic!("unexpected: {:?}", other),
        }
    }
}

#[test]
fn path_follows_the_thread_records_to_the_root() {
    let mut index = CatalogIndex::new();
    index.insert(cnid_to_key(2), thread(1, "Volume", false));
    index.insert(cnid_to_key(17), thread(2, "Documents", false));
    index.insert(cnid_to_key(18), thread(17, "Letters", false));
    index.insert(cnid_to_key(40), thread(18, "draft.txt", true));
    assert_eq!(
        path_for_key(&index, cnid_to_key(40)).unwrap(),
        vec!["Volume", "Documents", "Letters", "draft.txt"]
    );
    assert_eq!(path_for_key(&index, cnid_to_key(18)).unwrap(), vec!["Volume", "Documents", "Letters"]);
    assert_eq!(path_for_key(&index, cnid_to_key(17)).unwrap(), vec!["Volume", "Documents"]);
    assert_eq!(path_for_key(&index, cnid_to_key(2)).unwrap(), vec!["Volume"]);
}

#[test]
fn path_length_is_the_depth_of_the_node() {
    let mut index = CatalogIndex::new();
    let depth = 40u32;
    for level in 0..depth {
        index.insert(cnid_to_key(100 + level), thread(99 + level, &format!("d{}", level), false));
    }
    for level in 0..depth {
        let path = path_for_key(&index, cnid_to_key(100 + level)).unwrap();
        assert_eq!(path.len() as u32, level + 1);
        assert_eq!(path[0], "d0");
        assert_eq!(path[level as usize], format!("d{}", level));
    }
}

#[test]
fn path_is_the_same_on_every_call() {
    let mut index = CatalogIndex::new();
    index.insert(cnid_to_key(17), thread(2, "a", false));
    index.insert(cnid_to_key(18), thread(17, "b", true));
    let first = path_for_key(&index, cnid_to_key(18));
    let second = path_for_key(&index, cnid_to_key(18));
    let third = path_for_key(&index, cnid_to_key(18));
    assert_eq!(first, Ok(vec!["a".to_string(), "b".to_string()]));
    assert_eq!(first, second);
    assert_eq!(second, third);
}

#[test]
fn node_without_a_thread_record_has_the_empty_path() {
    let mut index = CatalogIndex::new();
    assert_eq!(path_for_key(&index, cnid_to_key(16)).unwrap(), Vec::<String>::new());
    index.insert(cnid_to_key(2), thread(1, "Volume", false));
    match parse_catalog_leaf(&file_record_bytes(2, "orphan", 16, &fork_bytes(0, 0, &[]))) {
        Ok((key, record)) => index.insert(key, record),
        Err(e) => panic!("{:?}", e),
    }
    assert_eq!(path_for_key(&index, cnid_to_key(16)).unwrap(), Vec::<String>::new());
    assert_eq!(path_for_key(&index, vec![]).unwrap(), Vec::<String>::new());
}

#[test]
fn path_names_are_decoded_from_utf16() {
    let mut index = CatalogIndex::new();
    let unicode = vec![0xD834u16, 0xDD1E, 0xDC00];
    index.insert(
        cnid_to_key(30),
        CatalogLeafRecord::FileThread(CatalogThread {
            record_type: CatalogFileDataType::kHFSPlusFileThreadRecord,
            reserved: 0,
            parent_id: 2,
            node_name: HFSUniStr255 { length: 3, unicode },
        }),
    );
    assert_eq!(path_for_key(&index, cnid_to_key(30)).unwrap(), vec!["\u{1D11E}\u{FFFD}"]);
}

#[test]
fn folder_or_file_record_on_the_way_is_an_unexpected_record_kind() {
    let mut index = CatalogIndex::new();
    index.insert(cnid_to_key(18), thread(17, "leaf", true));
    let (_, folder) = parse_catalog_leaf(&folder_record(2, "dir", 17)).unwrap();
    index.insert(cnid_to_key(17), folder);
    assert_eq!(path_for_key(&index, cnid_to_key(18)).err(), Some(HfsError::UnexpectedRecordKind));
    assert_eq!(path_for_key(&index, cnid_to_key(17)).err(), Some(HfsError::UnexpectedRecordKind));
    let (_, file) = parse_catalog_leaf(&file_record_bytes(2, "f", 19, &fork_bytes(0, 0, &[]))).unwrap();
    index.insert(cnid_to_key(19), file);
    assert_eq!(path_for_key(&index, cnid_to_key(19)).err(), Some(HfsError::UnexpectedRecordKind));
}

#[test]
fn cycle_of_thread_records_is_detected() {
    let mut index = CatalogIndex::new();
    index.insert(cnid_to_key(5), thread(6, "five", false));
    index.insert(cnid_to_key(6), thread(5, "six", false));
    assert_eq!(path_for_key(&index, cnid_to_key(5)).err(), Some(HfsError::PathCycleDetected));
    assert_eq!(path_for_key(&index, cnid_to_key(6)).err(), Some(HfsError::PathCycleDetected));
    // a way into the cycle from outside
    index.insert(cnid_to_key(7), thread(5, "seven", true));
    assert_eq!(path_for_key(&index, cnid_to_key(7)).err(), Some(HfsError::PathCycleDetected));
    // a way that does not touch the cycle
    index.insert(cnid_to_key(8), thread(2, "eight", true));
    assert_eq!(path_for_key(&index, cnid_to_key(8)).unwrap(), vec!["eight"]);
}

#[test]
fn node_that_is_its_own_parent_is_a_cycle() {
    let mut index = CatalogIndex::new();
    index.insert(cnid_to_key(5), thread(5, "self", false));
    assert_eq!(path_for_key(&index, cnid_to_key(5)).err(), Some(HfsError::PathCycleDetected));
}

#[test]
fn way_as_long_as_the_index_is_no_cycle() {
    let mut index = CatalogIndex::new();
    index.insert(cnid_to_key(10), thread(11, "c", true));
    index.insert(cnid_to_key(11), thread(12, "b", false));
    index.insert(cnid_to_key(12), thread(13, "a", false));
    assert_eq!(index.len(), 3);
    assert_eq!(path_for_key(&index, cnid_to_key(10)).unwrap(), vec!["a", "b", "c"]);
}

fn sample_leaf_records(first_id: u32, count: u32) -> Vec<Vec<u8>> {
    (0..count)
        .map(|i| thread_record(4, first_id + i, 2, &format!("file{}", first_id + i)))
        .collect()
}

#[test]
fn walk_yields_every_record_of_every_leaf_node() {
    for split in [vec![7usize], vec![1, 6], vec![3, 4], vec![2, 2, 3], vec![1, 1, 1, 1, 1, 1, 1]] {
        let records = sample_leaf_records(100, 7);
        let mut nodes = Vec::new();
        let mut at = 0;
        for size in &split {
            nodes.push(node_bytes(512, -1, &records[at..at + size]));
            at += size;
        }
        let catalog = catalog_bytes(512, &nodes);
        let scan = read_btree_leaves(&catalog, 512).unwrap();
        assert_eq!(scan.records_decoded, 7);
        assert_eq!(scan.index.len(), 7);
        assert!(scan.failed_nodes.is_empty());
        assert!(scan.failed_records.is_empty());
        assert_eq!(scan.header.node_size, 512);
        assert_eq!(scan.header.total_nodes as usize, split.len() + 1);
        for i in 0..7u32 {
            match scan.index.get(&cnid_to_key(100 + i)) {
                Some(CatalogLeafRecord::FileThread(t)) => {
                    assert_eq!(t.node_name.unicode, utf16(&format!("file{}", 100 + i)))
                }
                other => panic!("unexpected: {:?}", other),
            }
        }
    }
}

#[test]
fn walk_of_many_nodes() {
    let mut nodes = Vec::new();
    let mut expected = 0u64;
    for n in 0..50u32 {
        let count = n % 5;
        nodes.push(node_bytes(1024, -1, &sample_leaf_records(1000 + 10 * n, count)));
        expected += count as u64;
    }
    let catalog = catalog_bytes(1024, &nodes);
    let scan = read_btree_leaves(&catalog, 4096).unwrap();
    assert_eq!(scan.records_decoded, expected);
    assert_eq!(scan.index.len() as u64, expected);
    assert!(scan.index.contains_key(&cnid_to_key(1493)));
    assert!(!scan.index.contains_key(&cnid_to_key(1494)));
}

#[test]
fn walk_passes_over_a_damaged_node() {
    let good_before = node_bytes(512, -1, &sample_leaf_records(100, 2));
    let mut damaged = node_bytes(512, -1, &sample_leaf_records(200, 3));
    // the count of records is corrupted: record bytes are read as offsets
    damaged[10..12].copy_from_slice(&40u16.to_be_bytes());
    let good_behind = node_bytes(512, -1, &sample_leaf_records(300, 2));
    let catalog = catalog_bytes(512, &[good_before, damaged, good_behind]);
    let scan = read_btree_leaves(&catalog, 512).unwrap();
    assert_eq!(scan.failed_nodes, vec![2]);
    assert_eq!(scan.records_decoded, 4);
    assert_eq!(scan.index.len(), 4);
    assert!(scan.index.contains_key(&cnid_to_key(100)));
    assert!(scan.index.contains_key(&cnid_to_key(101)));
    assert!(!scan.index.contains_key(&cnid_to_key(200)));
    assert!(scan.index.contains_key(&cnid_to_key(300)));
    assert!(scan.index.contains_key(&cnid_to_key(301)));
}

#[test]
fn walk_passes_over_a_node_of_unknown_kind_and_a_missing_node() {
    let mut unknown = node_bytes(512, -1, &sample_leaf_records(100, 1));
    unknown[8] = 9;
    let good = node_bytes(512, -1, &sample_leaf_records(200, 1));
    let mut catalog = catalog_bytes(512, &[unknown, good]);
    // the header promises two more nodes than the file holds, the first of
    // them cut short
    catalog[14 + 22..14 + 26].copy_from_slice(&5u32.to_be_bytes());
    catalog.extend_from_slice(&[0u8; 100]);
    let scan = read_btree_leaves(&catalog, 512).unwrap();
    assert_eq!(scan.failed_nodes, vec![1, 3, 4]);
    assert_eq!(scan.records_decoded, 1);
    assert!(scan.index.contains_key(&cnid_to_key(200)));
}

#[test]
fn walk_reads_leaf_nodes_only() {
    let index_node = node_bytes(512, 0, &sample_leaf_records(100, 2));
    let map_node = node_bytes(512, 2, &sample_leaf_records(200, 2));
    let second_header = node_bytes(512, 1, &sample_leaf_records(300, 2));
    let empty_leaf = node_bytes(512, -1, &[]);
    let leaf = node_bytes(512, -1, &sample_leaf_records(400, 2));
    let catalog = catalog_bytes(512, &[index_node, map_node, second_header, empty_leaf, leaf]);
    let scan = read_btree_leaves(&catalog, 512).unwrap();
    assert!(scan.failed_nodes.is_empty());
    assert!(scan.failed_records.is_empty());
    assert_eq!(scan.records_decoded, 2);
    assert_eq!(scan.index.len(), 2);
    assert!(scan.index.contains_key(&cnid_to_key(400)));
    assert!(scan.index.contains_key(&cnid_to_key(401)));
}

#[test]
fn walk_passes_over_a_record_that_cannot_be_decoded() {
    let mut unknown = be16(9);
    unknown.extend_from_slice(&[0u8; 20]);
    let records = vec![
        thread_record(4, 100, 2, "a"),
        leaf_record(&cnid_to_key(101), &unknown),
        thread_record(4, 102, 2, "c"),
        vec![0u8],
        thread_record(3, 103, 2, "d"),
    ];
    let catalog = catalog_bytes(512, &[node_bytes(512, -1, &sample_leaf_records(50, 1)), node_bytes(512, -1, &records)]);
    let scan = read_btree_leaves(&catalog, 512).unwrap();
    assert_eq!(scan.records_decoded, 4);
    assert_eq!(
        scan.failed_records,
        vec![
            RecordFailure { node: 2, record: 1, error: HfsError::UnknownRecordType },
            RecordFailure { node: 2, record: 3, error: HfsError::MalformedRecord },
        ]
    );
    assert!(scan.failed_nodes.is_empty());
    assert!(scan.index.contains_key(&cnid_to_key(100)));
    assert!(!scan.index.contains_key(&cnid_to_key(101)));
    assert!(scan.index.contains_key(&cnid_to_key(102)));
    assert!(scan.index.contains_key(&cnid_to_key(103)));
}

#[test]
fn walk_keeps_the_later_record_of_a_key_that_comes_twice() {
    let first = node_bytes(512, -1, &[thread_record(4, 100, 2, "first")]);
    let second = node_bytes(512, -1, &[thread_record(4, 100, 3, "second")]);
    let catalog = catalog_bytes(512, &[first, second]);
    let scan = read_btree_leaves(&catalog, 512).unwrap();
    assert_eq!(scan.records_decoded, 2);
    assert_eq!(scan.index.len(), 1);
    match scan.index.get(&cnid_to_key(100)) {
        Some(CatalogLeafRecord::FileThread(t)) => {
            assert_eq!(t.parent_id, 3);
            assert_eq!(t.node_name.unicode, utf16("second"));
        }
        other => panic!("unexpected: {:?}", other),
    }
}

#[test]
fn walk_without_nodes_behind_the_header() {
    for total in [0u32, 1] {
        let mut catalog = header_node(512, total);
        catalog.extend(node_bytes(512, -1, &sample_leaf_records(100, 1)));
        let scan = read_btree_leaves(&catalog, 512).unwrap();
        assert_eq!(scan.records_decoded, 0);
        assert!(scan.index.is_empty());
        assert!(scan.failed_nodes.is_empty());
    }
}

#[test]
fn walk_fails_on_a_malformed_header_node() {
    assert_eq!(read_btree_leaves(&[], 512).err(), Some(HfsError::MalformedHeader));
    assert_eq!(read_btree_leaves(&[0u8; 119], 512).err(), Some(HfsError::MalformedHeader));
    let mut catalog = catalog_bytes(512, &[node_bytes(512, -1, &sample_leaf_records(100, 1))]);
    catalog[8] = 0x55;
    assert_eq!(read_btree_leaves(&catalog, 512).err(), Some(HfsError::MalformedHeader));
}

#[test]
fn overflow_files_are_those_with_more_blocks_than_inline_extents() {
    assert!(!is_overflow_file(&catalog_file(20, 10, 1, &[(5, 1)])));
    assert!(is_overflow_file(&catalog_file(20, 10, 2, &[(5, 1)])));
    assert!(!is_overflow_file(&catalog_file(20, 0, 0, &[])));
    assert!(is_overflow_file(&catalog_file(20, 0, 1, &[])));
    let eight: Vec<(u32, u32)> = (0..8).map(|i| (i * 10, 3)).collect();
    assert!(!is_overflow_file(&catalog_file(20, 0, 24, &eight)));
    assert!(is_overflow_file(&catalog_file(20, 0, 25, &eight)));
    // the inline extents may hold more blocks than a 32-bit sum
    let huge: Vec<(u32, u32)> = (0..8).map(|_| (0, u32::MAX)).collect();
    assert!(!is_overflow_file(&catalog_file(20, 0, u32::MAX, &huge)));
}

#[test]
fn overflow_files_of_an_index_are_listed_in_order_of_key() {
    let mut index = CatalogIndex::new();
    let files = [
        (2, "c", 30, 5, vec![(1, 1)]),
        (2, "a", 31, 1, vec![(2, 1)]),
        (2, "b", 32, 9, vec![(3, 2), (6, 2)]),
        (1, "z", 33, 0, vec![]),
    ];
    for (parent, name, id, total, extents) in files.iter() {
        let record = file_record_bytes(*parent, name, *id, &fork_bytes(100, *total, extents));
        let (key, leaf) = parse_catalog_leaf(&record).unwrap();
        index.insert(key, leaf);
    }
    index.insert(cnid_to_key(30), thread(2, "c", true));
    assert_eq!(overflow_files(&index), vec![32, 30]);
    assert!(overflow_files(&CatalogIndex::new()).is_empty());
}

#[test]
fn policy_keeps_out_paths_with_an_excluded_component() {
    let excluded = default_exclusions();
    assert_eq!(
        excluded,
        vec![
            "\0\0\0\0HFS+ Private Data",
            ".DS_Store",
            ".Spotlight-V100",
            ".journal_info_block",
            ".journal",
            ".fseventsd",
        ]
    );
    let path = |parts: &[&str]| parts.iter().map(|p| p.to_string()).collect::<Vec<String>>();
    assert!(is_excluded(&path(&["Vol", ".Spotlight-V100", "store.db"]), &excluded));
    assert!(is_excluded(&path(&["Vol", ".journal"]), &excluded));
    assert!(is_excluded(&path(&[".fseventsd"]), &excluded));
    assert!(is_excluded(&path(&["Vol", "\0\0\0\0HFS+ Private Data", "iNode17"]), &excluded));
    assert!(is_excluded(&path(&["Vol", "Users", ".DS_Store"]), &excluded));
    assert!(!is_excluded(&path(&["Vol", "Users", "journal"]), &excluded));
    assert!(!is_excluded(&path(&["Vol", ".journal2"]), &excluded));
    assert!(!is_excluded(&path(&["Vol", ".Journal"]), &excluded));
    assert!(!is_excluded(&path(&[]), &excluded));
    assert!(!is_excluded(&path(&["Vol", ".journal"]), &vec![]));
    assert!(is_excluded(&path(&["a", "b"]), &path(&["x", "b"])));
}

fn sample_index() -> CatalogIndex {
    let mut index = CatalogIndex::new();
    index.insert(cnid_to_key(2), thread(1, "Vol", false));
    index.insert(cnid_to_key(17), thread(2, ".Spotlight-V100", false));
    index
}

#[test]
fn extracts_one_file_with_length_and_digest() {
    let mut image = vec![0xEEu8; 16384];
    image[8192..8202].copy_from_slice(b"0123456789");
    let mut index = sample_index();
    index.insert(cnid_to_key(16), thread(2, "A", true));
    let file = catalog_file(16, 10, 1, &[(16, 1)]);
    let report = extract_file(&image, 512, &index, &file, vec![], &default_exclusions());
    assert_eq!(report.file_id, 16);
    assert_eq!(report.path, vec!["Vol", "A"]);
    match report.outcome {
        FileOutcome::Extracted { bytes, digest, data } => {
            assert_eq!(bytes, 10);
            assert_eq!(data, b"0123456789".to_vec());
            assert_eq!(digest, DIGITS_DIGEST);
        }
        other => panic!("unexpected: {:?}", other),
    }
}

#[test]
fn file_with_an_extent_behind_the_image_is_reported_out_of_bounds() {
    let image = vec![0xEEu8; 16384];
    let mut index = sample_index();
    index.insert(cnid_to_key(16), thread(2, "A", true));
    // the first extent lies within the image, the second ends behind it
    let file = catalog_file(16, 1000, 2, &[(16, 1), (31, 2)]);
    let report = extract_file(&image, 512, &index, &file, vec![], &default_exclusions());
    assert_eq!(report.path, vec!["Vol", "A"]);
    match report.outcome {
        FileOutcome::Failed(e) => assert_eq!(e, HfsError::ExtentOutOfBounds),
        other => panic!("unexpected: {:?}", other),
    }
}

#[test]
fn file_that_goes_on_in_overflow_extents_is_reported_incomplete() {
    let image = vec![0xEEu8; 16384];
    let mut index = sample_index();
    index.insert(cnid_to_key(16), thread(2, "A", true));
    let file = catalog_file(16, 5000, 10, &[(1, 8)]);
    let report = extract_file(&image, 512, &index, &file, vec![], &default_exclusions());
    match report.outcome {
        FileOutcome::Failed(e) => assert_eq!(e, HfsError::IncompleteCopy),
        other => panic!("unexpected: {:?}", other),
    }
}

#[test]
fn file_is_extracted_in_full_with_its_overflow_extents() {
    let image = patterned_image(16384);
    let mut index = sample_index();
    index.insert(cnid_to_key(16), thread(2, "A", true));
    let file = catalog_file(16, 5000, 10, &[(1, 8)]);
    let overflow = extents_of(&[(20, 2)]);
    let report = extract_file(&image, 512, &index, &file, overflow, &default_exclusions());
    let mut expected = image[512..4608].to_vec();
    expected.extend_from_slice(&image[10240..10240 + 904]);
    match report.outcome {
        FileOutcome::Extracted { bytes, digest, data } => {
            assert_eq!(bytes, 5000);
            assert_eq!(data, expected);
            assert_eq!(digest, digest_of(&expected));
        }
        other => panic!("unexpected: {:?}", other),
    }
}

#[test]
fn excluded_file_is_reported_and_not_read() {
    let image = vec![0xEEu8; 16384];
    let mut index = sample_index();
    index.insert(cnid_to_key(16), thread(17, "store.db", true));
    // an extent behind the image: the file is kept out before it is looked at
    let file = catalog_file(16, 10, 1, &[(4000, 1)]);
    let report = extract_file(&image, 512, &index, &file, vec![], &default_exclusions());
    assert_eq!(report.path, vec!["Vol", ".Spotlight-V100", "store.db"]);
    assert!(matches!(report.outcome, FileOutcome::Excluded));
    let report = extract_file(&image, 512, &index, &file, vec![], &vec![]);
    assert!(matches!(report.outcome, FileOutcome::Failed(HfsError::ExtentOutOfBounds)));
}

#[test]
fn file_whose_path_cannot_be_resolved_is_reported_with_the_reason() {
    let image = vec![0xEEu8; 16384];
    let mut index = sample_index();
    index.insert(cnid_to_key(16), thread(40, "A", true));
    index.insert(cnid_to_key(40), thread(41, "x", false));
    index.insert(cnid_to_key(41), thread(40, "y", false));
    let file = catalog_file(16, 10, 1, &[(16, 1)]);
    let report = extract_file(&image, 512, &index, &file, vec![], &default_exclusions());
    assert!(report.path.is_empty());
    assert!(matches!(report.outcome, FileOutcome::Failed(HfsError::PathCycleDetected)));
}

#[test]
fn file_without_a_thread_record_is_extracted_with_the_empty_path() {
    let mut image = vec![0xEEu8; 16384];
    image[8192..8195].copy_from_slice(b"abc");
    let index = sample_index();
    let file = catalog_file(16, 3, 1, &[(16, 1)]);
    let report = extract_file(&image, 512, &index, &file, vec![], &default_exclusions());
    assert!(report.path.is_empty());
    match report.outcome {
        FileOutcome::Extracted { bytes, digest, data } => {
            assert_eq!(bytes, 3);
            assert_eq!(data, b"abc".to_vec());
            assert_eq!(digest, ABC_DIGEST);
        }
        other => panic!("unexpected: {:?}", other),
    }
}

#[test]
fn one_failing_file_does_not_touch_the_others() {
    let mut image = vec![0u8; 16384];
    image[2048..2058].copy_from_slice(b"0123456789");
    image[4096..4099].copy_from_slice(b"abc");
    let mut index = sample_index();
    let files = [
        ("a", 20u32, 10u64, vec![(4u32, 1u32)]),
        ("b", 21, 10, vec![(5000, 1)]),
        ("c", 22, 3, vec![(8, 1)]),
        ("d", 23, 600, vec![(9, 1)]),
    ];
    for (name, id, size, extents) in files.iter() {
        let record = file_record_bytes(2, name, *id, &fork_bytes(*size, 1, extents));
        let (key, leaf) = parse_catalog_leaf(&record).unwrap();
        index.insert(key, leaf);
        index.insert(cnid_to_key(*id), thread(2, name, true));
    }
    let reports = extract_files(&image, 512, &index, &default_exclusions());
    assert_eq!(reports.len(), 4);
    let ids: Vec<u32> = reports.iter().map(|r| r.file_id).collect();
    assert_eq!(ids, vec![20, 21, 22, 23]);
    assert_eq!(reports[0].path, vec!["Vol", "a"]);
    assert!(matches!(&reports[0].outcome, FileOutcome::Extracted { bytes: 10, digest, data }
        if digest == DIGITS_DIGEST && data == b"0123456789"));
    assert!(matches!(reports[1].outcome, FileOutcome::Failed(HfsError::ExtentOutOfBounds)));
    assert!(matches!(&reports[2].outcome, FileOutcome::Extracted { bytes: 3, digest, data }
        if digest == ABC_DIGEST && data == b"abc"));
    assert!(matches!(reports[3].outcome, FileOutcome::Failed(HfsError::IncompleteCopy)));
}

#[test]
fn reads_the_catalog_of_an_image() {
    let catalog = catalog_bytes(512, &[node_bytes(512, -1, &sample_leaf_records(100, 2))]);
    let image = image_with_catalog(&catalog, &[]);
    let (header, bytes) = read_catalog(&image).unwrap();
    assert_eq!(header.block_size, 512);
    assert_eq!(header.catalog_file.logical_size, 1024);
    assert_eq!(bytes, catalog);
}

#[test]
fn end_to_end_on_a_synthetic_volume() {
    let records = vec![
        folder_record(1, "Vol", 2),
        file_record_bytes(2, "A", 16, &fork_bytes(10, 1, &[(16, 1)])),
        thread_record(4, 16, 2, "A"),
    ];
    let catalog = catalog_bytes(512, &[node_bytes(512, -1, &records)]);
    let mut content = b"0123456789".to_vec();
    content.extend_from_slice(&[0xEE; 502]);
    let image = image_with_catalog(&catalog, &[(8192, content)]);
    assert_eq!(image.len(), 65536);
    let run = extract_volume(&image, &default_exclusions()).unwrap();
    assert_eq!(run.header.block_size, 512);
    assert_eq!(run.scan.records_decoded, 3);
    assert!(run.scan.failed_nodes.is_empty());
    assert!(run.scan.failed_records.is_empty());
    assert!(run.overflow.is_empty());
    assert_eq!(run.reports.len(), 1);
    let report = &run.reports[0];
    assert_eq!(report.file_id, 16);
    assert_eq!(report.path, vec!["A"]);
    match &report.outcome {
        FileOutcome::Extracted { bytes, digest, data } => {
            assert_eq!(*bytes, 10);
            assert_eq!(data, &b"0123456789".to_vec());
            assert_eq!(digest, DIGITS_DIGEST);
            assert_eq!(digest, &digest_of(b"0123456789"));
        }
        other => panic!("unexpected: {:?}", other),
    }
}

#[test]
fn end_to_end_with_a_thread_record_for_the_root_folder() {
    let records = vec![
        folder_record(1, "Vol", 2),
        thread_record(3, 2, 1, "Vol"),
        folder_record(2, "docs", 17),
        file_record_bytes(2, "A", 16, &fork_bytes(10, 1, &[(16, 1)])),
        thread_record(4, 16, 2, "A"),
    ];
    let more = vec![
        thread_record(3, 17, 2, "docs"),
        file_record_bytes(17, "B", 18, &fork_bytes(3, 1, &[(17, 1)])),
        thread_record(4, 18, 17, "B"),
        file_record_bytes(17, "big", 19, &fork_bytes(5000, 40, &[(20, 8)])),
        thread_record(4, 19, 17, "big"),
    ];
    let catalog = catalog_bytes(
        1024,
        &[node_bytes(1024, -1, &records), node_bytes(1024, 0, &[]), node_bytes(1024, -1, &more)],
    );
    let image = image_with_catalog(&catalog, &[(8192, b"0123456789".to_vec()), (8704, b"abc".to_vec())]);
    let run = extract_volume(&image, &default_exclusions()).unwrap();
    assert_eq!(run.scan.records_decoded, 10);
    assert_eq!(run.overflow, vec![19]);
    assert_eq!(run.reports.len(), 3);
    assert_eq!(run.reports[0].path, vec!["Vol", "A"]);
    assert!(matches!(&run.reports[0].outcome, FileOutcome::Extracted { bytes: 10, digest, .. }
        if digest == DIGITS_DIGEST));
    assert_eq!(run.reports[1].path, vec!["Vol", "docs", "B"]);
    assert!(matches!(&run.reports[1].outcome, FileOutcome::Extracted { bytes: 3, digest, data }
        if digest == ABC_DIGEST && data == b"abc"));
    assert_eq!(run.reports[2].path, vec!["Vol", "docs", "big"]);
    assert!(matches!(run.reports[2].outcome, FileOutcome::Failed(HfsError::IncompleteCopy)));
}

#[test]
fn run_fails_as_a_whole_on_a_malformed_header() {
    assert_eq!(extract_volume(&[], &vec![]).err(), Some(HfsError::MalformedHeader));
    assert_eq!(extract_volume(&[0u8; 65536], &vec![]).err(), Some(HfsError::MalformedHeader));
    let catalog = catalog_bytes(512, &[node_bytes(512, -1, &sample_leaf_records(100, 1))]);
    let mut image = image_with_catalog(&catalog, &[]);
    // the header node of the catalog is overwritten
    image[4096 + 8] = 0x44;
    assert_eq!(extract_volume(&image, &vec![]).err(), Some(HfsError::MalformedHeader));
}

#[test]
fn run_fails_where_the_catalog_lies_behind_the_image() {
    let mut image = vec![0u8; 65536];
    let header = volume_header_bytes(512, &fork_bytes(1024, 2, &[(127, 2)]));
    image[1024..1536].copy_from_slice(&header);
    assert_eq!(extract_volume(&image, &vec![]).err(), Some(HfsError::ExtentOutOfBounds));
    assert_eq!(read_catalog(&image).err(), Some(HfsError::ExtentOutOfBounds));
}
