//! The file extractor: for every file record of the catalog its path, the
//! checks that keep a damaged or unwanted file out, and its content with
//! length and digest.
//!
//! The extractor works on an image that is held in memory and hands the
//! content of each file back; writing it out is left to the caller. Every
//! file is judged by itself: what goes wrong with one file is told in the
//! report of that file and touches no other.

use vstd::prelude::*;
use crate::catalog::{cnid_key, cnid_to_key, CatalogFile, CatalogLeafRecord, LeafRecordModel};
use crate::digest::{hex_lower, sha256};
use crate::error::HfsError;
use crate::extents::{
    allocated_bytes, assemble_extents, copy_file_data_from_extents, extent_end, extent_in_bounds,
    fork_extents, fork_in_bounds, lemma_stream_matches_materialize, materialized, stream_outcome,
    streamed,
};
use crate::index::CatalogIndex;
use crate::path::{path_for_key, resolved_path, texts_of, CatalogMap};
use crate::scan::{read_btree_leaves, scanned_catalog, CatalogScan, Entry};
use crate::volume::{CatalogNodeId, ExtentDescriptor, ForkData, VolumeHeader};

verus! {

/// The number of blocks in the first `n` inline extents of the fork.
pub open spec fn inline_blocks(fork: ForkData, n: int) -> int
    decreases n,
{
    if n <= 0 {
        0
    } else {
        inline_blocks(fork, n - 1) + fork.extents@[n - 1].block_count
    }
}

/// Whether the fork has more blocks than its eight inline extents hold, so
/// that the rest of it lies in the extents overflow file.
pub open spec fn needs_overflow_extents(fork: ForkData) -> bool {
    fork.total_blocks > inline_blocks(fork, 8)
}

/// Whether the data fork of the file goes on in the extents overflow file.
pub fn is_overflow_file(file: &CatalogFile) -> (overflows: bool)
    ensures
        overflows == needs_overflow_extents(file.data_fork),
{
    let mut blocks: u64 = 0;
    let mut i: usize = 0;
    while i < 8
        invariant
            i <= 8,
            blocks == inline_blocks(file.data_fork, i as int),
            blocks <= i * 0xFFFF_FFFF,
        decreases 8 - i,
    {
        blocks = blocks + file.data_fork.extents[i].block_count as u64;
        i += 1;
    }
    file.data_fork.total_blocks as u64 > blocks
}

/// The IDs of the files among the entries whose data fork goes on in the
/// extents overflow file, in the order of the entries.
pub open spec fn overflow_ids(entries: Seq<Entry>) -> Seq<CatalogNodeId>
    decreases entries.len(),
{
    if entries.len() == 0 {
        Seq::empty()
    } else {
        let front = overflow_ids(entries.drop_last());
        match entries.last().1 {
            LeafRecordModel::File(file) => if needs_overflow_extents(file.data_fork) {
                front.push(file.file_id)
            } else {
                front
            },
            _ => front,
        }
    }
}

/// Lists the files of the index whose data fork goes on in the extents
/// overflow file, by their IDs and in ascending order of key. These are the
/// files that cannot be extracted in full from their catalog records alone.
pub fn overflow_files(index: &CatalogIndex) -> (ids: Vec<CatalogNodeId>)
    ensures
        ids@ == overflow_ids(index.pairs()),
{
    let mut ids: Vec<CatalogNodeId> = Vec::new();
    let count: usize = index.len();
    let mut i: usize = 0;
    assert(index.pairs().take(0) =~= Seq::<Entry>::empty());
    while i < count
        invariant
            i <= count,
            count == index.count(),
            ids@ == overflow_ids(index.pairs().take(i as int)),
        decreases count - i,
    {
        let entry = index.entry(i);
        proof {
            let next = index.pairs().take(i + 1);
            assert(next.drop_last() =~= index.pairs().take(i as int));
            assert(next.last() == entry.pair());
        }
        match &entry.record {
            CatalogLeafRecord::File(file) => {
                if is_overflow_file(file) {
                    ids.push(file.file_id);
                }
            },
            _ => {},
        }
        i += 1;
    }
    assert(index.pairs().take(count as int) =~= index.pairs());
    ids
}

/// Whether a component of the path is one of the excluded names.
pub open spec fn path_is_excluded(path: Seq<Seq<char>>, excluded: Seq<Seq<char>>) -> bool {
    exists|i: int, j: int|
        0 <= i < path.len() && 0 <= j < excluded.len() && #[trigger] path[i]
            == #[trigger] excluded[j]
}

/// Whether the name is one of the excluded names.
pub open spec fn name_is_excluded(name: Seq<char>, excluded: Seq<Seq<char>>) -> bool {
    exists|j: int| 0 <= j < excluded.len() && name == #[trigger] excluded[j]
}

fn is_excluded_name(name: &String, excluded: &Vec<String>) -> (found: bool)
    ensures
        found == name_is_excluded(name@, texts_of(excluded@)),
{
    let mut j: usize = 0;
    while j < excluded.len()
        invariant
            j <= excluded.len(),
            forall|k: int| 0 <= k < j ==> name@ != #[trigger] texts_of(excluded@)[k],
        decreases excluded.len() - j,
    {
        if *name == excluded[j] {
            assert(name@ == texts_of(excluded@)[j as int]);
            return true;
        }
        j += 1;
    }
    false
}

/// Whether the policy keeps the path out: whether one of its components is
/// one of the names in `excluded`.
pub fn is_excluded(path: &Vec<String>, excluded: &Vec<String>) -> (out: bool)
    ensures
        out == path_is_excluded(texts_of(path@), texts_of(excluded@)),
{
    let mut i: usize = 0;
    while i < path.len()
        invariant
            i <= path.len(),
            forall|k: int|
                0 <= k < i ==> !name_is_excluded(
                    #[trigger] texts_of(path@)[k],
                    texts_of(excluded@),
                ),
        decreases path.len() - i,
    {
        if is_excluded_name(&path[i], excluded) {
            assert(name_is_excluded(texts_of(path@)[i as int], texts_of(excluded@)));
            return true;
        }
        i += 1;
    }
    proof {
        if path_is_excluded(texts_of(path@), texts_of(excluded@)) {
            let (a, b) = choose|a: int, b: int|
                0 <= a < texts_of(path@).len() && 0 <= b < texts_of(excluded@).len()
                    && #[trigger] texts_of(path@)[a] == #[trigger] texts_of(excluded@)[b];
            assert(name_is_excluded(texts_of(path@)[a], texts_of(excluded@)));
        }
    }
    false
}

/// The names that are kept out unless the caller says otherwise: the
/// directory of the volume's private data, the Finder's and Spotlight's
/// bookkeeping, the journal, and the log of file system events.
pub open spec fn default_excluded_names() -> Seq<Seq<char>> {
    seq![
        "\0\0\0\0HFS+ Private Data"@,
        ".DS_Store"@,
        ".Spotlight-V100"@,
        ".journal_info_block"@,
        ".journal"@,
        ".fseventsd"@,
    ]
}

/// The names that are kept out unless the caller says otherwise.
pub fn default_exclusions() -> (names: Vec<String>)
    ensures
        texts_of(names@) == default_excluded_names(),
{
    let mut names: Vec<String> = Vec::with_capacity(6);
    names.push("\0\0\0\0HFS+ Private Data".to_owned());
    names.push(".DS_Store".to_owned());
    names.push(".Spotlight-V100".to_owned());
    names.push(".journal_info_block".to_owned());
    names.push(".journal".to_owned());
    names.push(".fseventsd".to_owned());
    assert(texts_of(names@) =~= default_excluded_names());
    names
}

/// What became of one file.
#[derive(Debug)]
pub enum FileOutcome {
    /// The content of the data fork, its length and its SHA-256 digest in
    /// lower-case hexadecimal.
    Extracted { bytes: u64, digest: String, data: Vec<u8> },
    /// The policy keeps the file out. This is no failure.
    Excluded,
    /// The file could not be extracted, for the reason given.
    Failed(HfsError),
}

/// The report on one file.
#[derive(Debug)]
pub struct FileReport {
    pub file_id: CatalogNodeId,
    /// The path from the root down; empty where it could not be resolved.
    pub path: Vec<String>,
    pub outcome: FileOutcome,
}

/// What became of one file, its content and digest as sequences.
pub enum OutcomeModel {
    Extracted { bytes: u64, digest: Seq<char>, data: Seq<u8> },
    Excluded,
    Failed(HfsError),
}

/// The report on one file, its path as a sequence of texts.
pub struct ReportModel {
    pub file_id: CatalogNodeId,
    pub path: Seq<Seq<char>>,
    pub outcome: OutcomeModel,
}

impl View for FileOutcome {
    type V = OutcomeModel;

    open spec fn view(&self) -> OutcomeModel {
        match self {
            FileOutcome::Extracted { bytes, digest, data } => OutcomeModel::Extracted {
                bytes: *bytes,
                digest: digest@,
                data: data@,
            },
            FileOutcome::Excluded => OutcomeModel::Excluded,
            FileOutcome::Failed(e) => OutcomeModel::Failed(*e),
        }
    }
}

impl View for FileReport {
    type V = ReportModel;

    open spec fn view(&self) -> ReportModel {
        ReportModel { file_id: self.file_id, path: texts_of(self.path@), outcome: self.outcome@ }
    }
}

/// The report that is due on a file: its path, and what stands against its
/// extraction or, where nothing does, its content.
///
/// A path that cannot be resolved fails the file with the resolver's reason.
/// A path with an excluded component keeps the file out. An extent that
/// reaches past the end of the image fails it with `ExtentOutOfBounds`, and
/// extents that hold less than the logical size fail it with
/// `IncompleteCopy`. The extents are the eight inline ones and, behind them,
/// the overflow extents `overflow`.
pub open spec fn report_on(
    image: Seq<u8>,
    block_size: int,
    map: CatalogMap,
    bound: nat,
    file: CatalogFile,
    overflow: Seq<ExtentDescriptor>,
    excluded: Seq<Seq<char>>,
) -> ReportModel {
    let extents = fork_extents(file.data_fork, overflow);
    let logical_size = file.data_fork.logical_size as int;
    match resolved_path(map, cnid_key(file.file_id), bound) {
        Err(e) => ReportModel {
            file_id: file.file_id,
            path: Seq::empty(),
            outcome: OutcomeModel::Failed(e),
        },
        Ok(path) => ReportModel {
            file_id: file.file_id,
            path,
            outcome: if path_is_excluded(path, excluded) {
                OutcomeModel::Excluded
            } else {
                match stream_outcome(extents, block_size, logical_size, image.len() as int) {
                    Err(e) => OutcomeModel::Failed(e),
                    Ok(_) => {
                        let content = streamed(image, extents, block_size, logical_size);
                        OutcomeModel::Extracted {
                            bytes: file.data_fork.logical_size,
                            digest: hex_lower(sha256(content)),
                            data: content,
                        }
                    },
                }
            },
        },
    }
}

/// Extracts one file from an image held in memory.
///
/// The path of the file is resolved from its own ID. Unless the policy
/// keeps the path out, every extent in use is checked against the end of the
/// image, and the data fork is streamed into a buffer of its own, its digest
/// computed on the way. Nothing is handed back of a file that fails.
///
/// `overflow_extents` are the extents of the data fork that the extents
/// overflow file holds, for a caller that has read them; a caller that has
/// not hands in none, and a file that needs them fails with
/// `IncompleteCopy`.
pub fn extract_file(
    image: &[u8],
    block_size: u32,
    index: &CatalogIndex,
    file: &CatalogFile,
    overflow_extents: Vec<ExtentDescriptor>,
    excluded: &Vec<String>,
) -> (report: FileReport)
    ensures
        report@ == report_on(
            image@,
            block_size as int,
            index@,
            index.count(),
            *file,
            overflow_extents@,
            texts_of(excluded@),
        ),
{
    let file_id = file.file_id;
    let path = match path_for_key(index, cnid_to_key(file_id)) {
        Err(e) => {
            let path: Vec<String> = Vec::new();
            assert(texts_of(path@) =~= Seq::<Seq<char>>::empty());
            return FileReport { file_id, path, outcome: FileOutcome::Failed(e) };
        },
        Ok(path) => path,
    };
    if is_excluded(&path, excluded) {
        return FileReport { file_id, path, outcome: FileOutcome::Excluded };
    }
    let mut data: Vec<u8> = Vec::new();
    let ghost overflow = overflow_extents@;
    let outcome = match copy_file_data_from_extents(
        image,
        block_size,
        file,
        overflow_extents,
        &mut data,
    ) {
        Err(e) => FileOutcome::Failed(e),
        Ok((bytes, digest)) => {
            assert(data@ =~= streamed(
                image@,
                fork_extents(file.data_fork, overflow),
                block_size as int,
                file.data_fork.logical_size as int,
            ));
            FileOutcome::Extracted { bytes, digest, data }
        },
    };
    FileReport { file_id, path, outcome }
}

/// The reports that are due on the file records among the entries, in the
/// order of the entries, where no overflow extents are at hand.
pub open spec fn reports_on(
    image: Seq<u8>,
    block_size: int,
    map: CatalogMap,
    bound: nat,
    entries: Seq<Entry>,
    excluded: Seq<Seq<char>>,
) -> Seq<ReportModel>
    decreases entries.len(),
{
    if entries.len() == 0 {
        Seq::empty()
    } else {
        let front = reports_on(image, block_size, map, bound, entries.drop_last(), excluded);
        match entries.last().1 {
            LeafRecordModel::File(file) => front.push(
                report_on(image, block_size, map, bound, file, Seq::empty(), excluded),
            ),
            _ => front,
        }
    }
}

/// The reports by their views.
pub open spec fn report_views(reports: Seq<FileReport>) -> Seq<ReportModel> {
    Seq::new(reports.len(), |i: int| reports[i]@)
}

/// Extracts every file of the index from an image held in memory, from the
/// inline extents alone: one report for each file record, in ascending order
/// of key. A file that fails has its failure in its report, and the files
/// behind it are extracted all the same.
pub fn extract_files(
    image: &[u8],
    block_size: u32,
    index: &CatalogIndex,
    excluded: &Vec<String>,
) -> (reports: Vec<FileReport>)
    ensures
        report_views(reports@) == reports_on(
            image@,
            block_size as int,
            index@,
            index.count(),
            index.pairs(),
            texts_of(excluded@),
        ),
{
    let mut reports: Vec<FileReport> = Vec::new();
    let count: usize = index.len();
    let mut i: usize = 0;
    assert(index.pairs().take(0) =~= Seq::<Entry>::empty());
    assert(report_views(reports@) =~= Seq::<ReportModel>::empty());
    while i < count
        invariant
            i <= count,
            count == index.count(),
            report_views(reports@) == reports_on(
                image@,
                block_size as int,
                index@,
                index.count(),
                index.pairs().take(i as int),
                texts_of(excluded@),
            ),
        decreases count - i,
    {
        let entry = index.entry(i);
        proof {
            let next = index.pairs().take(i + 1);
            assert(next.drop_last() =~= index.pairs().take(i as int));
            assert(next.last() == entry.pair());
        }
        match &entry.record {
            CatalogLeafRecord::File(file) => {
                let ghost before = report_views(reports@);
                let no_overflow: Vec<ExtentDescriptor> = Vec::new();
                assert(no_overflow@ =~= Seq::<ExtentDescriptor>::empty());
                let report = extract_file(image, block_size, index, file, no_overflow, excluded);
                reports.push(report);
                assert(report_views(reports@) =~= before.push(report@));
            },
            _ => {},
        }
        i += 1;
    }
    assert(index.pairs().take(count as int) =~= index.pairs());
    reports
}

/// A file whose path resolves and is not kept out, and whose data fork lies
/// within the image and fits within its eight inline extents, is extracted:
/// the report holds, byte for byte, what materializing the fork gives, the
/// logical size as length, and the digest of those bytes.
pub proof fn lemma_fitting_file_is_extracted(
    image: Seq<u8>,
    block_size: int,
    map: CatalogMap,
    bound: nat,
    file: CatalogFile,
    excluded: Seq<Seq<char>>,
)
    requires
        0 <= block_size,
        resolved_path(map, cnid_key(file.file_id), bound) is Ok,
        !path_is_excluded(resolved_path(map, cnid_key(file.file_id), bound)->Ok_0, excluded),
        fork_in_bounds(file.data_fork, block_size, image.len() as int),
        allocated_bytes(file.data_fork.extents@, block_size) >= file.data_fork.logical_size,
    ensures
        report_on(image, block_size, map, bound, file, Seq::empty(), excluded).outcome
            == (OutcomeModel::Extracted {
            bytes: file.data_fork.logical_size,
            digest: hex_lower(
                sha256(
                    materialized(
                        image,
                        file.data_fork.extents@,
                        block_size,
                        file.data_fork.logical_size as int,
                    ),
                ),
            ),
            data: materialized(
                image,
                file.data_fork.extents@,
                block_size,
                file.data_fork.logical_size as int,
            ),
        }),
{
    let extents = file.data_fork.extents@;
    assert(fork_extents(file.data_fork, Seq::empty()) =~= extents);
    lemma_stream_matches_materialize(
        image,
        extents,
        block_size,
        file.data_fork.logical_size as int,
    );
}

/// An active extent that ends behind the end of the image fails the stream
/// with `ExtentOutOfBounds`, whatever the other extents and the logical size
/// are: no part of such a file is written.
pub proof fn lemma_out_of_bounds_extent_fails_stream(
    extents: Seq<ExtentDescriptor>,
    i: int,
    block_size: int,
    logical_size: int,
    image_len: int,
)
    requires
        0 <= i < extents.len(),
        extents[i].block_count != 0,
        extent_end(extents[i], block_size) > image_len,
    ensures
        stream_outcome(extents, block_size, logical_size, image_len) == Err::<int, HfsError>(
            HfsError::ExtentOutOfBounds,
        ),
{
    assert(!extent_in_bounds(extents[i], block_size, image_len));
}

/// The bytes of the catalog file of an image, or why they cannot be had: the
/// volume header is malformed, the catalog file is longer than a buffer can
/// be, or one of its extents reaches past the end of the image.
pub open spec fn catalog_of_image(image: Seq<u8>) -> Result<Seq<u8>, HfsError> {
    match VolumeHeader::parsed_from_image(image) {
        Err(e) => Err(e),
        Ok(header) => if header.catalog_file.logical_size > usize::MAX {
            Err(HfsError::IncompleteCopy)
        } else if !fork_in_bounds(
            header.catalog_file,
            header.block_size as int,
            image.len() as int,
        ) {
            Err(HfsError::ExtentOutOfBounds)
        } else {
            Ok(
                materialized(
                    image,
                    header.catalog_file.extents@,
                    header.block_size as int,
                    header.catalog_file.logical_size as int,
                ),
            )
        },
    }
}

/// Decodes the volume header of an image and puts the catalog file into
/// one buffer.
pub fn read_catalog(image: &[u8]) -> (r: Result<(VolumeHeader, Vec<u8>), HfsError>)
    ensures
        match r {
            Ok((header, catalog)) => {
                &&& VolumeHeader::parsed_from_image(image@) == Ok::<VolumeHeader, HfsError>(
                    header,
                )
                &&& catalog_of_image(image@) == Ok::<Seq<u8>, HfsError>(catalog@)
            },
            Err(e) => catalog_of_image(image@) == Err::<Seq<u8>, HfsError>(e),
        },
{
    let header = match VolumeHeader::read_from_image(image) {
        Err(e) => {
            return Err(e);
        },
        Ok(header) => header,
    };
    if header.catalog_file.logical_size > usize::MAX as u64 {
        return Err(HfsError::IncompleteCopy);
    }
    match assemble_extents(image, &header.catalog_file, header.block_size) {
        Err(e) => Err(e),
        Ok(catalog) => Ok((header, catalog)),
    }
}

/// All that a run over one image gives.
pub struct ExtractionRun {
    pub header: VolumeHeader,
    /// The index of the catalog, with the nodes and records that were passed
    /// over.
    pub scan: CatalogScan,
    /// The files that go on in the extents overflow file, which this run
    /// does not read.
    pub overflow: Vec<CatalogNodeId>,
    /// One report for each file record.
    pub reports: Vec<FileReport>,
}

/// Why a run over the image ends before any file is looked at, if it does:
/// the catalog file cannot be had, or its header node cannot be read.
pub open spec fn run_failure(image: Seq<u8>) -> Option<HfsError> {
    match catalog_of_image(image) {
        Err(e) => Some(e),
        Ok(catalog) => match scanned_catalog(catalog) {
            Err(e) => Some(e),
            Ok(_) => None,
        },
    }
}

impl ExtractionRun {
    /// Whether the run is what a run over `image` with the excluded names
    /// `excluded` gives.
    pub open spec fn is_run_over(&self, image: Seq<u8>, excluded: Seq<Seq<char>>) -> bool {
        &&& VolumeHeader::parsed_from_image(image) == Ok::<VolumeHeader, HfsError>(self.header)
        &&& catalog_of_image(image) is Ok
        &&& self.scan.is_scan_of(catalog_of_image(image)->Ok_0)
        &&& self.overflow@ == overflow_ids(self.scan.index.pairs())
        &&& report_views(self.reports@) == reports_on(
            image,
            self.header.block_size as int,
            self.scan.index@,
            self.scan.index.count(),
            self.scan.index.pairs(),
            excluded,
        )
    }
}

/// Runs the whole extraction over an image held in memory: volume header,
/// catalog file, index, overflow files, and a report for each file.
///
/// The run fails as a whole only where nothing can be trusted: with
/// `MalformedHeader` where the volume header or the header node of the
/// catalog is malformed, and with the reason that the catalog file itself
/// cannot be assembled. Everything else is told in the run.
pub fn extract_volume(image: &[u8], excluded: &Vec<String>) -> (r: Result<ExtractionRun, HfsError>)
    ensures
        match r {
            Ok(run) => run.is_run_over(image@, texts_of(excluded@)) && run_failure(image@)
                is None,
            Err(e) => run_failure(image@) == Some(e),
        },
{
    let (header, catalog) = match read_catalog(image) {
        Err(e) => {
            return Err(e);
        },
        Ok(pair) => pair,
    };
    let scan = match read_btree_leaves(catalog.as_slice(), header.block_size as usize) {
        Err(e) => {
            return Err(e);
        },
        Ok(scan) => scan,
    };
    let overflow = overflow_files(&scan.index);
    let reports = extract_files(image, header.block_size, &scan.index, excluded);
    Ok(ExtractionRun { header, scan, overflow, reports })
}

} // verus!
