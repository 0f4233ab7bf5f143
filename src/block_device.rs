//! The storage that commands read from and write to.
use vstd::prelude::*;

verus! {

/// Failure of a block device operation.
#[derive(Debug, Copy, Clone, PartialEq, Eq, Structural)]
pub enum BlockDeviceError {
    /// Error during writing; most likely the value read back after the write was wrong.
    WriteError,
    /// Address is invalid or out of range.
    InvalidAddress,
}

/// A block-addressed store of fixed-size blocks.
///
/// Its contracts speak of the device's contents (`block_spec`) and of the error with which an
/// operation on a block fails (`read_error`, `write_error`): a property of the device, which
/// reads and writes leave as it is.
pub trait BlockDevice {
    /// The number of bytes per block: the length of every buffer handed to `read_block` and
    /// `write_block`.
    fn block_bytes(&self) -> (r: usize)
        ensures
            r == self.block_bytes_spec(),
            r > 0;

    /// The number of blocks.
    fn block_count(&self) -> (r: u32)
        ensures
            r == self.block_count_spec();

    /// Reads the block at `lba` into `block`; fails with the device's read error for `lba`.
    fn read_block(&mut self, lba: u32, block: &mut [u8]) -> (r: Result<(), BlockDeviceError>)
        requires
            old(block)@.len() == old(self).block_bytes_spec(),
        ensures
            r == outcome(old(self).read_error(lba)),
            final(block)@.len() == old(block)@.len(),
            r is Ok ==> final(block)@ == old(self).block_spec(lba),
            final(self).block_bytes_spec() == old(self).block_bytes_spec(),
            final(self).block_count_spec() == old(self).block_count_spec(),
            forall|l: u32| #[trigger] final(self).block_spec(l) == old(self).block_spec(l),
            forall|l: u32| #[trigger] final(self).read_error(l) == old(self).read_error(l),
            forall|l: u32| #[trigger] final(self).write_error(l) == old(self).write_error(l);

    /// Writes `block` to the block at `lba`; fails with the device's write error for `lba`,
    /// and then changes no block.
    fn write_block(&mut self, lba: u32, block: &[u8]) -> (r: Result<(), BlockDeviceError>)
        requires
            block@.len() == old(self).block_bytes_spec(),
        ensures
            r == outcome(old(self).write_error(lba)),
            r is Ok ==> final(self).block_spec(lba) == block@,
            forall|l: u32| (l != lba || r is Err) ==> #[trigger] final(self).block_spec(l) == old(self).block_spec(l),
            final(self).block_bytes_spec() == old(self).block_bytes_spec(),
            final(self).block_count_spec() == old(self).block_count_spec(),
            forall|l: u32| #[trigger] final(self).read_error(l) == old(self).read_error(l),
            forall|l: u32| #[trigger] final(self).write_error(l) == old(self).write_error(l);

    spec fn block_bytes_spec(&self) -> usize;

    spec fn block_count_spec(&self) -> u32;

    /// The contents of the block at `lba`.
    spec fn block_spec(&self, lba: u32) -> Seq<u8>;

    /// The error with which reading the block at `lba` fails, if it does.
    spec fn read_error(&self, lba: u32) -> Option<BlockDeviceError>;

    /// The error with which writing the block at `lba` fails, if it does.
    spec fn write_error(&self, lba: u32) -> Option<BlockDeviceError>;
}

/// The result of an operation whose error, if any, is `e`.
pub open spec fn outcome(e: Option<BlockDeviceError>) -> Result<(), BlockDeviceError> {
    match e {
        Some(e) => Err(e),
        None => Ok(()),
    }
}

/// The contents of blocks `lba + from .. lba + to` of `d`, one after the other.
pub open spec fn device_bytes<BD: BlockDevice>(d: BD, lba: u32, from: nat, to: nat) -> Seq<u8>
    decreases to,
{
    if to <= from {
        Seq::empty()
    } else {
        device_bytes(d, lba, from, (to - 1) as nat) + d.block_spec((lba + to - 1) as u32)
    }
}

} // verus!
