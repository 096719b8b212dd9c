//! The journal info block, which tells where the journal of a volume is.
//! The journal itself is not read here.

use vstd::prelude::*;
use crate::bytes::{be_u32, be_u64, read_be_u32, read_be_u64};
use crate::error::HfsError;

verus! {

/// The flags of a journal info block, one field to a bit.
#[derive(Debug, Clone, Copy, PartialEq, Eq, Structural)]
pub struct JournalInfoBlockFlags {
    /// The journal lies on this volume, at `offset`.
    pub in_fs: bool,
    /// The journal lies on another device, told by the device signature.
    pub on_other_device: bool,
    /// The journal has no valid transactions and is to be set up anew.
    pub needs_init: bool,
    /// The 29 bits above the three flags: zero on a sound volume.
    pub reserved: u32,
}

/// The journal info block.
#[derive(Debug, Clone, Copy)]
pub struct JournalInfoBlock {
    pub flags: JournalInfoBlockFlags,
    pub device_signature: [u32; 8],
    /// Where the journal starts, in bytes from the start of the volume.
    pub offset: u64,
    /// The size of the journal in bytes.
    pub size: u64,
    pub reserved: [u32; 32],
}

impl JournalInfoBlockFlags {
    /// Bytes that the flags take on disk.
    pub const PACKED_SIZE: usize = 4;

    /// The flags that the word `word` holds: the three lowest bits, and what
    /// stands above them.
    pub open spec fn of_word(word: u32) -> JournalInfoBlockFlags {
        JournalInfoBlockFlags {
            in_fs: word % 2 == 1,
            on_other_device: (word / 2) % 2 == 1,
            needs_init: (word / 4) % 2 == 1,
            reserved: word / 8,
        }
    }

    /// Takes the word of flags apart.
    pub fn from_word(word: u32) -> (flags: JournalInfoBlockFlags)
        ensures
            flags == JournalInfoBlockFlags::of_word(word),
    {
        JournalInfoBlockFlags {
            in_fs: word % 2 == 1,
            on_other_device: (word / 2) % 2 == 1,
            needs_init: (word / 4) % 2 == 1,
            reserved: word / 8,
        }
    }
}

impl JournalInfoBlock {
    /// Bytes that the journal info block takes on disk.
    pub const PACKED_SIZE: usize = 180;

    /// The `count` big-endian words stored from `s[at]` on.
    pub open spec fn words(s: Seq<u8>, at: int, count: int) -> Seq<u32> {
        Seq::new(count as nat, |i: int| be_u32(s, at + 4 * i))
    }

    /// Whether `self` is the journal info block stored at `s[0] .. s[180]`.
    pub open spec fn is_decoded_from(&self, s: Seq<u8>) -> bool {
        &&& self.flags == JournalInfoBlockFlags::of_word(be_u32(s, 0))
        &&& self.device_signature@ == JournalInfoBlock::words(s, 4, 8)
        &&& self.offset == be_u64(s, 36)
        &&& self.size == be_u64(s, 44)
        &&& self.reserved@ == JournalInfoBlock::words(s, 52, 32)
    }

    /// Whether `parse` takes the bytes `s` for a journal info block: there
    /// are at least 180 of them, and the reserved bits of the flags are zero.
    pub open spec fn is_sound(s: Seq<u8>) -> bool {
        s.len() >= JournalInfoBlock::PACKED_SIZE && be_u32(s, 0) / 8 == 0
    }

    /// Decodes a journal info block from the first 180 bytes of `bytes`.
    ///
    /// Fails with `MalformedHeader` if and only if there are fewer bytes or a
    /// reserved bit of the flags is set.
    pub fn parse(bytes: &[u8]) -> (r: Result<JournalInfoBlock, HfsError>)
        ensures
            match r {
                Ok(block) => JournalInfoBlock::is_sound(bytes@) && block.is_decoded_from(bytes@),
                Err(e) => e == HfsError::MalformedHeader && !JournalInfoBlock::is_sound(bytes@),
            },
    {
        if bytes.len() < JournalInfoBlock::PACKED_SIZE {
            return Err(HfsError::MalformedHeader);
        }
        let flags = JournalInfoBlockFlags::from_word(read_be_u32(bytes, 0));
        if flags.reserved != 0 {
            return Err(HfsError::MalformedHeader);
        }
        let mut device_signature: [u32; 8] = [0; 8];
        let mut i: usize = 0;
        while i < 8
            invariant
                i <= 8,
                bytes.len() >= 180,
                forall|j: int|
                    0 <= j < i ==> device_signature@[j] == be_u32(bytes@, 4 + 4 * j),
            decreases 8 - i,
        {
            device_signature[i] = read_be_u32(bytes, 4 + 4 * i);
            i += 1;
        }
        let mut reserved: [u32; 32] = [0; 32];
        let mut k: usize = 0;
        while k < 32
            invariant
                k <= 32,
                bytes.len() >= 180,
                forall|j: int| 0 <= j < k ==> reserved@[j] == be_u32(bytes@, 52 + 4 * j),
            decreases 32 - k,
        {
            reserved[k] = read_be_u32(bytes, 52 + 4 * k);
            k += 1;
        }
        assert(device_signature@ =~= JournalInfoBlock::words(bytes@, 4, 8));
        assert(reserved@ =~= JournalInfoBlock::words(bytes@, 52, 32));
        Ok(
            JournalInfoBlock {
                flags,
                device_signature,
                offset: read_be_u64(bytes, 36),
                size: read_be_u64(bytes, 44),
                reserved,
            },
        )
    }
}

} // verus!
