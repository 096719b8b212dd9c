//! The allocation bitmap: one bit to an allocation block, the first block
//! in the most significant bit of the first byte.

use vstd::prelude::*;

verus! {

/// Whether the bitmap marks `block` as in use. The bit of a block is found
/// in byte `block / 8`, counted from the most significant bit.
pub open spec fn block_is_used(bitmap: Seq<u8>, block: u32) -> bool {
    bitmap[(block / 8) as int] & (0x80u8 >> (block % 8)) != 0
}

/// Whether the bitmap reaches as far as the bit of `block`.
pub open spec fn bitmap_covers(bitmap: Seq<u8>, block: u32) -> bool {
    (block / 8) < bitmap.len()
}

/// Reads the bit of `block` in a bitmap that covers it.
pub fn read_block_bit(bitmap: &[u8], block: u32) -> (used: bool)
    requires
        bitmap_covers(bitmap@, block),
    ensures
        used == block_is_used(bitmap@, block),
{
    let byte: u8 = bitmap[(block / 8) as usize];
    let bit: u32 = block % 8;
    let shift: u32 = 7 - bit;
    assert((1u8 << shift) == (0x80u8 >> bit)) by (bit_vector)
        requires
            bit < 8,
            shift == 7 - bit,
    ;
    let mask: u8 = 1u8 << shift;
    (byte & mask) != 0
}

/// The allocation bitmap of a volume.
#[derive(Debug, Clone)]
pub struct AllocationMapRecord(pub Vec<u8>);

impl AllocationMapRecord {
    /// Whether `block` is in use; `Err` where the bitmap ends before the bit
    /// of `block`.
    pub fn is_block_used(&self, block: u32) -> (r: Result<bool, ()>)
        ensures
            r == if bitmap_covers(self.0@, block) {
                Ok::<bool, ()>(block_is_used(self.0@, block))
            } else {
                Err::<bool, ()>(())
            },
    {
        if (block / 8) as usize >= self.0.len() {
            return Err(());
        }
        Ok(read_block_bit(self.0.as_slice(), block))
    }
}

/// The map record of a B-tree header node, which tells the nodes in use
/// from the free ones.
#[derive(Debug, Clone)]
pub struct BTreeAllocationMapRecord {
    pub bitmap: Vec<u8>,
}

impl BTreeAllocationMapRecord {
    /// Whether the node or block `allocation_block` is in use.
    pub fn is_block_used(&self, allocation_block: u32) -> (used: bool)
        requires
            bitmap_covers(self.bitmap@, allocation_block),
        ensures
            used == block_is_used(self.bitmap@, allocation_block),
    {
        read_block_bit(self.bitmap.as_slice(), allocation_block)
    }
}

} // verus!
