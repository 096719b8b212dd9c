//! The extent assembler: from a fork's extents to the fork's bytes.
//!
//! A fork's content lies in up to eight inline extents, in order, and in
//! overflow extents behind them. The last extent may reach past the fork's
//! logical size: what lies behind that size is allocated but is no content.

use vstd::prelude::*;
use vstd::slice::slice_subrange;
use crate::catalog::CatalogFile;
use crate::digest::{hex_lower, sha256, sha256_hex};
use crate::error::HfsError;
use crate::volume::{ExtentDescriptor, ForkData};

verus! {

/// The byte at which the extent starts in the image.
pub open spec fn extent_start(e: ExtentDescriptor, block_size: int) -> int {
    e.start_block * block_size
}

/// The number of bytes that the extent holds.
pub open spec fn extent_length(e: ExtentDescriptor, block_size: int) -> int {
    e.block_count * block_size
}

/// The byte behind the last byte of the extent.
pub open spec fn extent_end(e: ExtentDescriptor, block_size: int) -> int {
    extent_start(e, block_size) + extent_length(e, block_size)
}

/// Whether the extent, if it is in use, ends within an image of `image_len`
/// bytes.
pub open spec fn extent_in_bounds(e: ExtentDescriptor, block_size: int, image_len: int) -> bool {
    e.is_active() ==> extent_end(e, block_size) <= image_len
}

/// Whether every extent that is in use ends within the image.
pub open spec fn extents_in_bounds(
    extents: Seq<ExtentDescriptor>,
    block_size: int,
    image_len: int,
) -> bool {
    forall|i: int|
        0 <= i < extents.len() ==> extent_in_bounds(#[trigger] extents[i], block_size, image_len)
}

/// The `length` bytes of the image from `start` on; nothing where `length`
/// is zero.
pub open spec fn image_range(image: Seq<u8>, start: int, length: int) -> Seq<u8> {
    if length <= 0 {
        Seq::empty()
    } else {
        image.subrange(start, start + length)
    }
}

/// The bytes of the image that the extent covers.
pub open spec fn extent_bytes(image: Seq<u8>, e: ExtentDescriptor, block_size: int) -> Seq<u8> {
    image_range(image, extent_start(e, block_size), extent_length(e, block_size))
}

/// The number of bytes that the extents hold together.
pub open spec fn allocated_bytes(extents: Seq<ExtentDescriptor>, block_size: int) -> int
    decreases extents.len(),
{
    if extents.len() == 0 {
        0
    } else {
        allocated_bytes(extents.drop_last(), block_size) + extent_length(
            extents.last(),
            block_size,
        )
    }
}

/// The bytes of all the extents, one extent after the other.
pub open spec fn extents_bytes(
    image: Seq<u8>,
    extents: Seq<ExtentDescriptor>,
    block_size: int,
) -> Seq<u8>
    decreases extents.len(),
{
    if extents.len() == 0 {
        Seq::empty()
    } else {
        extents_bytes(image, extents.drop_last(), block_size) + extent_bytes(
            image,
            extents.last(),
            block_size,
        )
    }
}

/// The first `n` bytes of `s`, or all of `s` where it has fewer.
pub open spec fn prefix(s: Seq<u8>, n: int) -> Seq<u8> {
    if n <= 0 {
        Seq::empty()
    } else if n >= s.len() {
        s
    } else {
        s.subrange(0, n)
    }
}

/// What streaming a fork emits: the bytes of its extents, cut off at the
/// logical size.
pub open spec fn streamed(
    image: Seq<u8>,
    extents: Seq<ExtentDescriptor>,
    block_size: int,
    logical_size: int,
) -> Seq<u8> {
    prefix(extents_bytes(image, extents, block_size), logical_size)
}

/// What materializing a fork gives: a buffer of exactly the logical size,
/// filled from the front with the bytes of the extents as far as they reach,
/// and zero behind them.
pub open spec fn materialized(
    image: Seq<u8>,
    extents: Seq<ExtentDescriptor>,
    block_size: int,
    logical_size: int,
) -> Seq<u8> {
    let all = extents_bytes(image, extents, block_size);
    Seq::new(
        logical_size as nat,
        |i: int|
            if i < all.len() {
                all[i]
            } else {
                0u8
            },
    )
}

/// The extents of a fork: the eight inline ones, then the overflow extents.
pub open spec fn fork_extents(fork: ForkData, overflow: Seq<ExtentDescriptor>) -> Seq<
    ExtentDescriptor,
> {
    fork.extents@ + overflow
}

/// A run of bytes in the image.
#[derive(Debug, Clone, Copy, PartialEq, Eq, Structural)]
pub struct ByteRange {
    pub start: usize,
    pub length: usize,
}

/// How many bytes of extent `i` belong to the first `logical_size` bytes of
/// the fork: all of them, or what is left of the logical size behind the
/// extents in front of it.
pub open spec fn clipped_length(
    extents: Seq<ExtentDescriptor>,
    block_size: int,
    logical_size: int,
    i: int,
) -> int {
    let before = allocated_bytes(extents.take(i), block_size);
    let length = extent_length(extents[i], block_size);
    if logical_size <= before {
        0
    } else if logical_size - before < length {
        logical_size - before
    } else {
        length
    }
}

/// Whether `ranges` tells, extent by extent, which bytes of the image make
/// up the first `logical_size` bytes of the fork.
pub open spec fn is_copy_plan(
    ranges: Seq<ByteRange>,
    extents: Seq<ExtentDescriptor>,
    block_size: int,
    logical_size: int,
    image_len: int,
) -> bool {
    &&& ranges.len() == extents.len()
    &&& forall|i: int|
        0 <= i < ranges.len() ==> {
            &&& (#[trigger] ranges[i]).length == clipped_length(
                extents,
                block_size,
                logical_size,
                i,
            )
            &&& ranges[i].length > 0 ==> ranges[i].start == extent_start(extents[i], block_size)
            &&& ranges[i].start + ranges[i].length <= image_len
        }
}

/// The bytes that the first `n` ranges cover, one range after the other.
pub open spec fn ranges_bytes(image: Seq<u8>, ranges: Seq<ByteRange>, n: int) -> Seq<u8>
    decreases n,
{
    if n <= 0 {
        Seq::empty()
    } else {
        ranges_bytes(image, ranges, n - 1) + image_range(
            image,
            ranges[n - 1].start as int,
            ranges[n - 1].length as int,
        )
    }
}

/// The first `i + 1` extents hold what the first `i` hold and extent `i`.
pub proof fn lemma_allocated_bytes_step(extents: Seq<ExtentDescriptor>, block_size: int, i: int)
    requires
        0 <= i < extents.len(),
    ensures
        allocated_bytes(extents.take(i + 1), block_size) == allocated_bytes(
            extents.take(i),
            block_size,
        ) + extent_length(extents[i], block_size),
{
    assert(extents.take(i + 1).drop_last() == extents.take(i));
}

/// The bytes of the first `i + 1` extents are those of the first `i`,
/// followed by those of extent `i`.
pub proof fn lemma_extents_bytes_step(
    image: Seq<u8>,
    extents: Seq<ExtentDescriptor>,
    block_size: int,
    i: int,
)
    requires
        0 <= i < extents.len(),
    ensures
        extents_bytes(image, extents.take(i + 1), block_size) == extents_bytes(
            image,
            extents.take(i),
            block_size,
        ) + extent_bytes(image, extents[i], block_size),
{
    assert(extents.take(i + 1).drop_last() == extents.take(i));
}

/// Extents that lie within the image hold as many bytes as are allocated to
/// them.
pub proof fn lemma_extents_bytes_len(
    image: Seq<u8>,
    extents: Seq<ExtentDescriptor>,
    block_size: int,
)
    requires
        0 <= block_size,
        extents_in_bounds(extents, block_size, image.len() as int),
    ensures
        extents_bytes(image, extents, block_size).len() == allocated_bytes(extents, block_size),
        allocated_bytes(extents, block_size) >= 0,
    decreases extents.len(),
{
    if extents.len() > 0 {
        let e = extents.last();
        let front = extents.drop_last();
        assert forall|i: int| 0 <= i < front.len() implies extent_in_bounds(
            #[trigger] front[i],
            block_size,
            image.len() as int,
        ) by {
            assert(front[i] == extents[i]);
        }
        lemma_extents_bytes_len(image, front, block_size);
        assert(extent_in_bounds(extents[extents.len() - 1], block_size, image.len() as int));
        assert(0 <= e.start_block * block_size) by (nonlinear_arith)
            requires
                0 <= block_size,
                0 <= e.start_block,
        ;
        assert(0 <= e.block_count * block_size) by (nonlinear_arith)
            requires
                0 <= block_size,
                0 <= e.block_count,
        ;
        if e.block_count != 0 && extent_length(e, block_size) > 0 {
            assert(extent_bytes(image, e, block_size).len() == extent_length(e, block_size));
        }
    }
}

/// The bytes that a copy plan covers are what streaming the fork emits.
pub proof fn lemma_plan_covers_stream(
    image: Seq<u8>,
    ranges: Seq<ByteRange>,
    extents: Seq<ExtentDescriptor>,
    block_size: int,
    logical_size: int,
    n: int,
)
    requires
        0 <= block_size,
        0 <= logical_size,
        0 <= n <= extents.len(),
        extents_in_bounds(extents, block_size, image.len() as int),
        is_copy_plan(ranges, extents, block_size, logical_size, image.len() as int),
    ensures
        ranges_bytes(image, ranges, n) == streamed(
            image,
            extents.take(n),
            block_size,
            logical_size,
        ),
    decreases n,
{
    if n == 0 {
        assert(extents.take(0) == Seq::<ExtentDescriptor>::empty());
        assert(streamed(image, extents.take(0), block_size, logical_size) == Seq::<u8>::empty());
    } else {
        let i = n - 1;
        lemma_plan_covers_stream(image, ranges, extents, block_size, logical_size, i);
        lemma_allocated_bytes_step(extents, block_size, i);
        lemma_extents_bytes_step(image, extents, block_size, i);
        let front = extents.take(i);
        assert forall|j: int| 0 <= j < front.len() implies extent_in_bounds(
            #[trigger] front[j],
            block_size,
            image.len() as int,
        ) by {
            assert(front[j] == extents[j]);
        }
        lemma_extents_bytes_len(image, front, block_size);
        let x = extents_bytes(image, front, block_size);
        let y = extent_bytes(image, extents[i], block_size);
        let before = allocated_bytes(front, block_size);
        let r = ranges[i];
        let piece = image_range(image, r.start as int, r.length as int);
        assert(r.length == clipped_length(extents, block_size, logical_size, i));
        assert(extent_in_bounds(extents[i], block_size, image.len() as int));
        assert(0 <= extents[i].block_count * block_size) by (nonlinear_arith)
            requires
                0 <= block_size,
                0 <= extents[i].block_count,
        ;
        assert(0 <= extents[i].start_block * block_size) by (nonlinear_arith)
            requires
                0 <= block_size,
                0 <= extents[i].start_block,
        ;
        if r.length > 0 {
            assert(extents[i].block_count != 0) by (nonlinear_arith)
                requires
                    extents[i].block_count * block_size > 0,
            ;
            assert(extents[i].is_active());
            assert(y.len() == extent_length(extents[i], block_size));
        }
        assert(piece == prefix(y, r.length as int));
        assert(ranges_bytes(image, ranges, n) == prefix(x, logical_size) + piece);
        assert(prefix(x, logical_size) + piece == prefix(x + y, logical_size));
    }
}

/// Streaming a fork whose extents lie within the image and hold at least its
/// logical size emits exactly as many bytes as the logical size.
pub proof fn lemma_stream_emits_logical_size(
    image: Seq<u8>,
    extents: Seq<ExtentDescriptor>,
    block_size: int,
    logical_size: int,
)
    requires
        0 <= block_size,
        0 <= logical_size,
        extents_in_bounds(extents, block_size, image.len() as int),
        allocated_bytes(extents, block_size) >= logical_size,
    ensures
        streamed(image, extents, block_size, logical_size).len() == logical_size,
        stream_outcome(extents, block_size, logical_size, image.len() as int) == Ok::<
            int,
            HfsError,
        >(logical_size),
{
    lemma_extents_bytes_len(image, extents, block_size);
}

/// For a fork that fits within the extents at hand, streaming emits byte for
/// byte what materializing puts into its buffer, and so the digest of the
/// one is the digest of the other.
pub proof fn lemma_stream_matches_materialize(
    image: Seq<u8>,
    extents: Seq<ExtentDescriptor>,
    block_size: int,
    logical_size: int,
)
    requires
        0 <= block_size,
        0 <= logical_size,
        extents_in_bounds(extents, block_size, image.len() as int),
        allocated_bytes(extents, block_size) >= logical_size,
    ensures
        streamed(image, extents, block_size, logical_size) == materialized(
            image,
            extents,
            block_size,
            logical_size,
        ),
        hex_lower(sha256(streamed(image, extents, block_size, logical_size))) == hex_lower(
            sha256(materialized(image, extents, block_size, logical_size)),
        ),
{
    lemma_extents_bytes_len(image, extents, block_size);
    assert(streamed(image, extents, block_size, logical_size) =~= materialized(
        image,
        extents,
        block_size,
        logical_size,
    ));
}

/// Where the extent lies in an image of `image_len` bytes: its first byte
/// and its length, or `None` where it reaches past the end of the image. An
/// extent that holds no bytes lies at `(0, 0)`.
fn locate_extent(e: &ExtentDescriptor, block_size: u32, image_len: usize) -> (r: Option<
    (usize, usize),
>)
    ensures
        match r {
            Some((start, length)) => {
                &&& extent_in_bounds(*e, block_size as int, image_len as int)
                &&& length == extent_length(*e, block_size as int)
                &&& length > 0 ==> start == extent_start(*e, block_size as int)
                &&& start + length <= image_len
            },
            None => !extent_in_bounds(*e, block_size as int, image_len as int),
        },
{
    if e.block_count == 0 || block_size == 0 {
        assert(e.block_count * block_size == 0) by (nonlinear_arith)
            requires
                e.block_count == 0 || block_size == 0,
        ;
        assert(0 <= e.start_block * block_size) by (nonlinear_arith)
            requires
                0 <= e.start_block,
                0 <= block_size,
        ;
        if e.block_count != 0 {
            assert(e.start_block * block_size == 0) by (nonlinear_arith)
                requires
                    block_size == 0,
            ;
        }
        return Some((0, 0));
    }
    assert(e.start_block * block_size <= 0xFFFF_FFFF * 0xFFFF_FFFF) by (nonlinear_arith)
        requires
            0 <= e.start_block <= 0xFFFF_FFFF,
            0 <= block_size <= 0xFFFF_FFFF,
    ;
    assert(e.block_count * block_size <= 0xFFFF_FFFF * 0xFFFF_FFFF) by (nonlinear_arith)
        requires
            0 <= e.block_count <= 0xFFFF_FFFF,
            0 <= block_size <= 0xFFFF_FFFF,
    ;
    assert(e.block_count * block_size > 0) by (nonlinear_arith)
        requires
            0 < e.block_count,
            0 < block_size,
    ;
    let start: u64 = e.start_block as u64 * block_size as u64;
    let length: u64 = e.block_count as u64 * block_size as u64;
    let end: u128 = start as u128 + length as u128;
    if end > image_len as u128 {
        None
    } else {
        Some((start as usize, length as usize))
    }
}

/// Plans the copy of the first `logical_size` bytes of a fork: for each
/// extent the range of the image to read, the last range cut off where the
/// logical size is reached and every range behind it empty.
///
/// Returns the plan and the number of bytes that it covers, which is the
/// logical size or, where the extents hold less, all that they hold. Fails
/// with `ExtentOutOfBounds` if and only if an extent in use reaches past the
/// end of the image.
pub fn plan_ranges(
    image_len: usize,
    extents: &Vec<ExtentDescriptor>,
    block_size: u32,
    logical_size: u64,
) -> (r: Result<(Vec<ByteRange>, u64), HfsError>)
    ensures
        match r {
            Ok((ranges, covered)) => {
                &&& extents_in_bounds(extents@, block_size as int, image_len as int)
                &&& is_copy_plan(
                    ranges@,
                    extents@,
                    block_size as int,
                    logical_size as int,
                    image_len as int,
                )
                &&& covered == if allocated_bytes(extents@, block_size as int) < logical_size {
                    allocated_bytes(extents@, block_size as int)
                } else {
                    logical_size as int
                }
            },
            Err(e) => e == HfsError::ExtentOutOfBounds && !extents_in_bounds(
                extents@,
                block_size as int,
                image_len as int,
            ),
        },
{
    let mut ranges: Vec<ByteRange> = Vec::with_capacity(extents.len());
    let mut covered: u64 = 0;
    let mut i: usize = 0;
    assert(extents@.take(0) == Seq::<ExtentDescriptor>::empty());
    while i < extents.len()
        invariant
            i <= extents.len(),
            ranges.len() == i,
            covered <= logical_size,
            0 <= allocated_bytes(extents@.take(i as int), block_size as int),
            covered == if allocated_bytes(extents@.take(i as int), block_size as int)
                < logical_size {
                allocated_bytes(extents@.take(i as int), block_size as int)
            } else {
                logical_size as int
            },
            forall|j: int|
                0 <= j < i ==> extent_in_bounds(
                    #[trigger] extents@[j],
                    block_size as int,
                    image_len as int,
                ),
            forall|j: int|
                0 <= j < i ==> {
                    &&& (#[trigger] ranges@[j]).length == clipped_length(
                        extents@,
                        block_size as int,
                        logical_size as int,
                        j,
                    )
                    &&& ranges@[j].length > 0 ==> ranges@[j].start == extent_start(
                        extents@[j],
                        block_size as int,
                    )
                    &&& ranges@[j].start + ranges@[j].length <= image_len
                },
        decreases extents.len() - i,
    {
        proof {
            lemma_allocated_bytes_step(extents@, block_size as int, i as int);
        }
        match locate_extent(&extents[i], block_size, image_len) {
            None => {
                return Err(HfsError::ExtentOutOfBounds);
            },
            Some((start, length)) => {
                let remaining: u64 = logical_size - covered;
                let take: usize = if length as u64 > remaining {
                    remaining as usize
                } else {
                    length
                };
                ranges.push(ByteRange { start, length: take });
                covered = covered + take as u64;
            },
        }
        i += 1;
    }
    assert(extents@.take(i as int) == extents@);
    Ok((ranges, covered))
}

/// Copies the ranges of a plan from the image to the end of `output`.
fn copy_ranges(volume: &[u8], ranges: &Vec<ByteRange>, output: &mut Vec<u8>)
    requires
        forall|i: int|
            0 <= i < ranges@.len() ==> (#[trigger] ranges@[i]).start + ranges@[i].length
                <= volume@.len(),
    ensures
        final(output)@ == old(output)@ + ranges_bytes(volume@, ranges@, ranges@.len() as int),
{
    let image_len: usize = volume.len();
    let mut i: usize = 0;
    while i < ranges.len()
        invariant
            i <= ranges.len(),
            image_len == volume@.len(),
            forall|j: int|
                0 <= j < ranges@.len() ==> (#[trigger] ranges@[j]).start + ranges@[j].length
                    <= volume@.len(),
            output@ == old(output)@ + ranges_bytes(volume@, ranges@, i as int),
        decreases ranges.len() - i,
    {
        let range = ranges[i];
        assert(ranges@[i as int].start + ranges@[i as int].length <= volume@.len());
        if range.length > 0 {
            let piece = slice_subrange(volume, range.start, range.start + range.length);
            let ghost before = output@;
            output.extend_from_slice(piece);
            assert(output@ == before + piece@);
        }
        i += 1;
    }
}

/// The eight inline extents of the fork, followed by the overflow extents.
fn gather_extents(fork: &ForkData, overflow_extents: &Vec<ExtentDescriptor>) -> (all: Vec<
    ExtentDescriptor,
>)
    ensures
        all@ == fork_extents(*fork, overflow_extents@),
{
    let mut all: Vec<ExtentDescriptor> = Vec::with_capacity(8);
    let mut i: usize = 0;
    while i < 8
        invariant
            i <= 8,
            all@ == fork.extents@.take(i as int),
        decreases 8 - i,
    {
        all.push(fork.extents[i]);
        i += 1;
    }
    assert(fork.extents@.take(8) == fork.extents@);
    let mut j: usize = 0;
    while j < overflow_extents.len()
        invariant
            j <= overflow_extents.len(),
            all@ == fork.extents@ + overflow_extents@.take(j as int),
        decreases overflow_extents.len() - j,
    {
        all.push(overflow_extents[j]);
        j += 1;
    }
    assert(overflow_extents@.take(j as int) == overflow_extents@);
    all
}

/// What `copy_file_data_from_extents` answers for a fork with these extents
/// and this logical size in an image of `image_len` bytes: the number of
/// bytes it emits, or why it emits none.
pub open spec fn stream_outcome(
    extents: Seq<ExtentDescriptor>,
    block_size: int,
    logical_size: int,
    image_len: int,
) -> Result<int, HfsError> {
    if !extents_in_bounds(extents, block_size, image_len) {
        Err(HfsError::ExtentOutOfBounds)
    } else if allocated_bytes(extents, block_size) < logical_size {
        Err(HfsError::IncompleteCopy)
    } else {
        Ok(logical_size)
    }
}

/// Streams the data fork of a file from the image to the end of `output`
/// and computes the SHA-256 digest of what it writes.
///
/// The extents are read in order, the inline ones first, and the copy stops
/// at the fork's logical size: what the last extent holds behind it is not
/// written. On success the result is the number of bytes written, which is
/// the logical size, and the digest in lower-case hexadecimal.
///
/// Nothing is written on failure. The copy fails with `ExtentOutOfBounds`
/// if and only if an extent in use reaches past the end of the image, and
/// otherwise with `IncompleteCopy` if and only if the extents hold fewer
/// bytes than the logical size, which means that the fork goes on in
/// overflow extents that were not handed in.
pub fn copy_file_data_from_extents(
    volume: &[u8],
    block_size: u32,
    file_record: &CatalogFile,
    overflow_extents: Vec<ExtentDescriptor>,
    output: &mut Vec<u8>,
) -> (r: Result<(u64, String), HfsError>)
    ensures
        match r {
            Ok((written, digest)) => {
                let content = streamed(
                    volume@,
                    fork_extents(file_record.data_fork, overflow_extents@),
                    block_size as int,
                    file_record.data_fork.logical_size as int,
                );
                &&& stream_outcome(
                    fork_extents(file_record.data_fork, overflow_extents@),
                    block_size as int,
                    file_record.data_fork.logical_size as int,
                    volume@.len() as int,
                ) == Ok::<int, HfsError>(written as int)
                &&& written == file_record.data_fork.logical_size
                &&& content.len() == written
                &&& final(output)@ == old(output)@ + content
                &&& digest@ == hex_lower(sha256(content))
            },
            Err(e) => {
                &&& stream_outcome(
                    fork_extents(file_record.data_fork, overflow_extents@),
                    block_size as int,
                    file_record.data_fork.logical_size as int,
                    volume@.len() as int,
                ) == Err::<int, HfsError>(e)
                &&& final(output)@ == old(output)@
            },
        },
{
    let logical_size: u64 = file_record.data_fork.logical_size;
    let extents = gather_extents(&file_record.data_fork, &overflow_extents);
    match plan_ranges(volume.len(), &extents, block_size, logical_size) {
        Err(e) => Err(e),
        Ok((ranges, covered)) => {
            if covered < logical_size {
                return Err(HfsError::IncompleteCopy);
            }
            let start: usize = output.len();
            copy_ranges(volume, &ranges, output);
            let written = slice_subrange(output.as_slice(), start, output.len());
            assert(written@ =~= ranges_bytes(volume@, ranges@, ranges@.len() as int));
            let digest = sha256_hex(written);
            proof {
                lemma_plan_covers_stream(
                    volume@,
                    ranges@,
                    extents@,
                    block_size as int,
                    logical_size as int,
                    extents@.len() as int,
                );
                assert(extents@.take(extents@.len() as int) == extents@);
                lemma_extents_bytes_len(volume@, extents@, block_size as int);
            }
            Ok((logical_size, digest))
        },
    }
}

/// Where `assemble_extents` succeeds: no extent of the fork that is in use
/// reaches past the end of the image.
pub open spec fn fork_in_bounds(fork: ForkData, block_size: int, image_len: int) -> bool {
    extents_in_bounds(fork.extents@, block_size, image_len)
}

/// Puts the content of a fork into one buffer, from its inline extents
/// alone.
///
/// The buffer has exactly the fork's logical size. It holds the bytes of the
/// extents in order, as far as they reach and as far as the buffer has room;
/// where the inline extents hold less than the logical size, the rest of the
/// buffer is zero. Fails with `ExtentOutOfBounds` if and only if an extent in
/// use reaches past the end of the image.
pub fn assemble_extents(volume: &[u8], fork_data: &ForkData, block_size: u32) -> (r: Result<
    Vec<u8>,
    HfsError,
>)
    requires
        fork_data.logical_size <= usize::MAX,
    ensures
        match r {
            Ok(data) => {
                &&& fork_in_bounds(*fork_data, block_size as int, volume@.len() as int)
                &&& data@.len() == fork_data.logical_size
                &&& data@ == materialized(
                    volume@,
                    fork_data.extents@,
                    block_size as int,
                    fork_data.logical_size as int,
                )
            },
            Err(e) => e == HfsError::ExtentOutOfBounds && !fork_in_bounds(
                *fork_data,
                block_size as int,
                volume@.len() as int,
            ),
        },
{
    let logical_size: u64 = fork_data.logical_size;
    let no_overflow: Vec<ExtentDescriptor> = Vec::new();
    let extents = gather_extents(fork_data, &no_overflow);
    assert(extents@ == fork_data.extents@);
    match plan_ranges(volume.len(), &extents, block_size, logical_size) {
        Err(e) => Err(e),
        Ok((ranges, covered)) => {
            let mut data: Vec<u8> = Vec::with_capacity(logical_size as usize);
            copy_ranges(volume, &ranges, &mut data);
            proof {
                lemma_plan_covers_stream(
                    volume@,
                    ranges@,
                    extents@,
                    block_size as int,
                    logical_size as int,
                    extents@.len() as int,
                );
                assert(extents@.take(extents@.len() as int) == extents@);
                lemma_extents_bytes_len(volume@, extents@, block_size as int);
            }
            let ghost copied = data@;
            assert(copied == prefix(
                extents_bytes(volume@, fork_data.extents@, block_size as int),
                logical_size as int,
            ));
            data.resize(logical_size as usize, 0u8);
            assert(data@.len() == logical_size);
            assert(data@ =~= materialized(
                volume@,
                fork_data.extents@,
                block_size as int,
                logical_size as int,
            ));
            Ok(data)
        },
    }
}

} // verus!
