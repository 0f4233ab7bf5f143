//! Entries of the MBR partition table at the start of the disk image.
use vstd::prelude::*;

use crate::storage::{Storage, BLOCKS, BLOCK_SIZE};
use crate::wire::{le_u32, read_le_u32};

verus! {

/// Offset of the partition table in the first block.
pub const PARTITION_TABLE_OFFSET: u64 = 446;

/// Bytes per partition entry.
pub const PARTITION_ENTRY_LEN: u64 = 16;

/// One entry of the partition table.
#[derive(Debug, Copy, Clone, PartialEq, Eq, Structural)]
pub struct Partition {
    /// Partition status.
    pub p_status: u8,
    /// Start cylinder (legacy CHS).
    pub p_cyl_begin: u8,
    /// Start head (legacy CHS).
    pub p_head_begin: u8,
    /// Start sector (legacy CHS).
    pub p_sect_begin: u8,
    /// Partition type.
    pub p_type: u8,
    /// End cylinder (legacy CHS).
    pub p_cyl_end: u8,
    /// End head (legacy CHS).
    pub p_head_end: u8,
    /// End sector.
    pub p_sect_end: u8,
    /// Logical block address of the start of the partition.
    pub p_lba: u32,
    /// Number of sectors in the partition.
    pub p_size: u32,
}

/// The partition entry that starts at byte `p` of `d`.
pub open spec fn partition_at(d: Seq<u8>, p: int) -> Partition {
    Partition {
        p_status: d[p],
        p_head_begin: d[p + 1],
        p_sect_begin: d[p + 2],
        p_cyl_begin: d[p + 3],
        p_type: d[p + 4],
        p_head_end: d[p + 5],
        p_sect_end: d[p + 6],
        p_cyl_end: d[p + 7],
        p_lba: le_u32(d[p + 8], d[p + 9], d[p + 10], d[p + 11]),
        p_size: le_u32(d[p + 12], d[p + 13], d[p + 14], d[p + 15]),
    }
}

/// Reads bytes and little-endian words in sequence.
pub struct ByteReader<'a> {
    data: &'a [u8],
    position: u64,
}

impl<'a> ByteReader<'a> {
    pub closed spec fn data(&self) -> Seq<u8> {
        self.data@
    }

    pub closed spec fn position(&self) -> u64 {
        self.position
    }

    /// A reader of `data` that starts at `position`.
    pub fn new(data: &'a [u8], position: u64) -> (r: Self)
        ensures
            r.data() == data@,
            r.position() == position,
    {
        ByteReader { data, position }
    }

    /// The next byte.
    pub fn read1(&mut self) -> (r: u8)
        requires
            old(self).position() < old(self).data().len(),
        ensures
            r == old(self).data()[old(self).position() as int],
            final(self).data() == old(self).data(),
            final(self).position() == old(self).position() + 1,
    {
        let value = self.data[self.position as usize];
        self.position = self.position + 1;
        value
    }

    /// The next four bytes as a little-endian word.
    pub fn read4(&mut self) -> (r: u32)
        requires
            old(self).position() + 4 <= old(self).data().len(),
        ensures
            ({
                let d = old(self).data();
                let p = old(self).position() as int;
                r == le_u32(d[p], d[p + 1], d[p + 2], d[p + 3])
            }),
            final(self).data() == old(self).data(),
            final(self).position() == old(self).position() + 4,
    {
        let p = self.position as usize;
        let value = read_le_u32(self.data[p], self.data[p + 1], self.data[p + 2], self.data[p + 3]);
        self.position = self.position + 4;
        value
    }
}

/// Reads entry `index` of the partition table held in `data`, the first bytes of the disk.
pub fn read_partition(data: &[u8], index: u8) -> (r: Partition)
    requires
        index < 4,
        data@.len() >= PARTITION_TABLE_OFFSET + 4 * PARTITION_ENTRY_LEN,
    ensures
        r == partition_at(data@, PARTITION_TABLE_OFFSET + PARTITION_ENTRY_LEN * index),
{
    let position: u64 = PARTITION_TABLE_OFFSET + PARTITION_ENTRY_LEN * (index as u64);
    let mut reader = ByteReader::new(data, position);
    let p_status = reader.read1();
    let p_head_begin = reader.read1();
    let p_sect_begin = reader.read1();
    let p_cyl_begin = reader.read1();
    let p_type = reader.read1();
    let p_head_end = reader.read1();
    let p_sect_end = reader.read1();
    let p_cyl_end = reader.read1();
    let p_lba = reader.read4();
    let p_size = reader.read4();
    Partition {
        p_status,
        p_cyl_begin,
        p_head_begin,
        p_sect_begin,
        p_type,
        p_cyl_end,
        p_head_end,
        p_sect_end,
        p_lba,
        p_size,
    }
}

/// Puts a disk image at the start of `storage`.
pub fn init(storage: &mut Storage, image: &[u8])
    requires
        old(storage).wf(),
        image@.len() <= BLOCKS * BLOCK_SIZE,
    ensures
        final(storage).wf(),
        forall|i: int| 0 <= i < image@.len() ==> #[trigger] final(storage).contents()[i / BLOCK_SIZE as int][i % BLOCK_SIZE as int] == image@[i],
{
    storage.load(image);
}

} // verus!
