//! An in-memory block device.
use vstd::prelude::*;

use crate::block_device::{BlockDevice, BlockDeviceError};

verus! {

pub const BLOCK_SIZE: usize = 512;
pub const BLOCKS: u32 = 200;

/// One block of storage.
pub struct Block {
    bytes: Vec<u8>,
}

impl Block {
    pub closed spec fn view_bytes(&self) -> Seq<u8> {
        self.bytes@
    }

    /// A zeroed block.
    pub fn new() -> (r: Self)
        ensures
            r.view_bytes() == Seq::new(BLOCK_SIZE as nat, |i: int| 0u8),
    {
        let mut bytes: Vec<u8> = Vec::new();
        let mut i: usize = 0;
        while i < BLOCK_SIZE
            invariant
                i <= BLOCK_SIZE,
                bytes@ == Seq::new(i as nat, |j: int| 0u8),
            decreases BLOCK_SIZE - i,
        {
            bytes.push(0u8);
            i += 1;
            assert(bytes@ =~= Seq::new(i as nat, |j: int| 0u8));
        }
        Block { bytes }
    }

    pub fn as_bytes(&self) -> (r: &[u8])
        ensures
            r@ == self.view_bytes(),
    {
        self.bytes.as_slice()
    }

    /// The bytes of the block, for writing in place.
    pub fn as_bytes_mut(&mut self) -> (r: &mut [u8])
        ensures
            r@ == old(self).view_bytes(),
            final(self).view_bytes() == final(r)@,
    {
        self.bytes.as_mut_slice()
    }
}

/// Blocks of `BLOCK_SIZE` bytes, `BLOCKS` of them.
pub struct Storage {
    blocks: Vec<Block>,
}

impl Storage {
    /// The contents, block by block.
    pub closed spec fn contents(&self) -> Seq<Seq<u8>> {
        self.blocks@.map_values(|b: Block| b.view_bytes())
    }

    pub open spec fn wf(&self) -> bool {
        &&& self.contents().len() == BLOCKS
        &&& forall|i: int| 0 <= i < BLOCKS ==> #[trigger] self.contents()[i].len() == BLOCK_SIZE
    }

    /// Zeroed storage.
    pub fn new() -> (r: Self)
        ensures
            r.wf(),
            forall|i: int| 0 <= i < BLOCKS ==> #[trigger] r.contents()[i] == Seq::new(
                BLOCK_SIZE as nat,
                |j: int| 0u8,
            ),
    {
        let mut blocks: Vec<Block> = Vec::new();
        let mut i: u32 = 0;
        while i < BLOCKS
            invariant
                i <= BLOCKS,
                blocks@.len() == i,
                forall|k: int| 0 <= k < i ==> #[trigger] blocks@[k].view_bytes() == Seq::new(
                    BLOCK_SIZE as nat,
                    |j: int| 0u8,
                ),
            decreases BLOCKS - i,
        {
            blocks.push(Block::new());
            i += 1;
        }
        Storage { blocks }
    }

    /// Size in bytes.
    pub fn byte_len(&self) -> (r: usize)
        requires
            self.wf(),
        ensures
            r == BLOCKS * BLOCK_SIZE,
    {
        self.blocks.len() * BLOCK_SIZE
    }

    /// The whole storage as one run of bytes, block after block.
    pub fn as_bytes(&self) -> (r: Vec<u8>)
        ensures
            r@ == self.contents().flatten(),
    {
        let mut r: Vec<u8> = Vec::new();
        let mut b: usize = 0;
        while b < self.blocks.len()
            invariant
                b <= self.blocks@.len(),
                r@ == self.contents().subrange(0, b as int).flatten_alt(),
            decreases self.blocks@.len() - b,
        {
            let ghost head = r@;
            let bytes = &self.blocks[b].bytes;
            let mut i: usize = 0;
            while i < bytes.len()
                invariant
                    i <= bytes@.len(),
                    r@ == head + bytes@.subrange(0, i as int),
                decreases bytes@.len() - i,
            {
                r.push(bytes[i]);
                i += 1;
                assert(r@ =~= head + bytes@.subrange(0, i as int));
            }
            let ghost c = self.contents().subrange(0, b + 1);
            assert(c.drop_last() =~= self.contents().subrange(0, b as int));
            assert(bytes@.subrange(0, bytes@.len() as int) =~= bytes@);
            assert(c.last() == bytes@);
            b += 1;
        }
        assert(self.contents().subrange(0, b as int) =~= self.contents());
        proof {
            self.contents().lemma_flatten_and_flatten_alt_are_equivalent();
        }
        r
    }

    /// The blocks, in address order.
    pub fn as_blocks(&self) -> (r: &[Block])
        ensures
            r@.map_values(|b: Block| b.view_bytes()) == self.contents(),
    {
        self.blocks.as_slice()
    }

    /// The block at `block`.
    pub fn block(&self, block: u32) -> (r: &Block)
        requires
            self.wf(),
            block < BLOCKS,
        ensures
            r.view_bytes() == self.contents()[block as int],
    {
        &self.blocks[block as usize]
    }

    /// The blocks, in address order, for writing in place.
    pub fn as_blocks_mut(&mut self) -> (r: &mut [Block])
        ensures
            r@.map_values(|b: Block| b.view_bytes()) == old(self).contents(),
            final(self).contents() == final(r)@.map_values(|b: Block| b.view_bytes()),
    {
        self.blocks.as_mut_slice()
    }

    /// The block at `block`, for writing in place.
    pub fn block_mut(&mut self, block: u32) -> (r: &mut Block)
        requires
            old(self).wf(),
            block < BLOCKS,
        ensures
            r.view_bytes() == old(self).contents()[block as int],
            final(self).contents() == old(self).contents().update(
                block as int,
                final(r).view_bytes(),
            ),
    {
        &mut self.blocks[block as usize]
    }

    /// Overwrites the start of the storage with `image`, block by block; bytes past the end
    /// of the image keep their value.
    pub fn load(&mut self, image: &[u8])
        requires
            old(self).wf(),
            image@.len() <= BLOCKS * BLOCK_SIZE,
        ensures
            final(self).wf(),
            forall|i: int| 0 <= i < image@.len() ==> #[trigger] final(self).contents()[i / BLOCK_SIZE as int][i % BLOCK_SIZE as int] == image@[i],
    {
        let mut i: usize = 0;
        while i < image.len()
            invariant
                self.wf(),
                image@.len() <= BLOCKS * BLOCK_SIZE,
                i <= image@.len(),
                forall|k: int| 0 <= k < i ==> #[trigger] self.contents()[k / BLOCK_SIZE as int][k % BLOCK_SIZE as int] == image@[k],
            decreases image@.len() - i,
        {
            let b = i / BLOCK_SIZE;
            let o = i % BLOCK_SIZE;
            assert(b < BLOCKS && o < BLOCK_SIZE) by (nonlinear_arith)
                requires
                    b == i / 512,
                    o == i % 512,
                    i < 102400,
            ;
            let ghost before = self.contents();
            assert(self.blocks@[b as int].bytes@ == before[b as int]);
            let mut bytes = self.blocks[b].bytes.clone();
            bytes.set(o, image[i]);
            self.blocks.set(b, Block { bytes });
            proof {
                let after = before.update(b as int, before[b as int].update(o as int, image@[i as int]));
                assert(self.contents() =~= after);
                assert forall|k: int| 0 <= k < i + 1 implies #[trigger] self.contents()[k / BLOCK_SIZE as int][k % BLOCK_SIZE as int] == image@[k] by {
                    let ii = i as int;
                    assert(0 <= k / 512 < 200 && 0 <= k % 512 < 512) by (nonlinear_arith)
                        requires
                            0 <= k <= ii,
                            ii < 102400,
                    ;
                    if k < ii {
                        assert(k / 512 != ii / 512 || k % 512 != ii % 512) by (nonlinear_arith)
                            requires
                                0 <= k < ii,
                        ;
                    }
                }
                assert forall|j: int| 0 <= j < BLOCKS implies #[trigger] self.contents()[j].len() == BLOCK_SIZE by {
                    assert(before[j].len() == BLOCK_SIZE);
                }
            }
            i += 1;
        }
    }
}

impl BlockDevice for Storage {
    fn block_bytes(&self) -> (r: usize) {
        BLOCK_SIZE
    }

    fn block_count(&self) -> (r: u32) {
        BLOCKS
    }

    /// Fails with `InvalidAddress` past the last block; else copies the block out.
    fn read_block(&mut self, lba: u32, block: &mut [u8]) -> (r: Result<(), BlockDeviceError>)
        ensures
            old(self).wf() ==> (r is Err <==> lba >= BLOCKS),
            r is Err ==> r == Err::<(), BlockDeviceError>(BlockDeviceError::InvalidAddress),
            r is Ok ==> final(block)@ == old(self).contents()[lba as int],
            final(self).contents() == old(self).contents(),
    {
        if lba >= BLOCKS || self.blocks.len() != BLOCKS as usize {
            return Err(BlockDeviceError::InvalidAddress);
        }
        let src = &self.blocks[lba as usize].bytes;
        assert(src@ == self.contents()[lba as int]);
        if src.len() != block.len() {
            return Err(BlockDeviceError::InvalidAddress);
        }
        let n = block.len();
        let mut i: usize = 0;
        while i < n
            invariant
                i <= n,
                n <= src@.len(),
                n <= block@.len(),
                block@.len() == old(block)@.len(),
                forall|j: int| 0 <= j < i ==> block@[j] == src@[j],
            decreases n - i,
        {
            block[i] = src[i];
            i += 1;
        }
        assert(src@ == self.contents()[lba as int]);
        assert(block@ =~= self.contents()[lba as int]);
        Ok(())
    }

    /// Fails with `InvalidAddress` past the last block; else replaces the block.
    fn write_block(&mut self, lba: u32, block: &[u8]) -> (r: Result<(), BlockDeviceError>)
        ensures
            old(self).wf() ==> final(self).wf(),
            old(self).wf() ==> (r is Err <==> lba >= BLOCKS),
            r is Err ==> r == Err::<(), BlockDeviceError>(BlockDeviceError::InvalidAddress) && final(self).contents() == old(self).contents(),
            r is Ok ==> final(self).contents() == old(self).contents().update(lba as int, block@),
    {
        if lba >= BLOCKS || self.blocks.len() != BLOCKS as usize {
            return Err(BlockDeviceError::InvalidAddress);
        }
        assert(self.blocks@[lba as int].bytes@ == self.contents()[lba as int]);
        if self.blocks[lba as usize].bytes.len() != BLOCK_SIZE {
            return Err(BlockDeviceError::InvalidAddress);
        }
        let mut bytes: Vec<u8> = Vec::new();
        let mut i: usize = 0;
        while i < block.len()
            invariant
                i <= block@.len(),
                bytes@ == block@.subrange(0, i as int),
            decreases block@.len() - i,
        {
            bytes.push(block[i]);
            i += 1;
            assert(bytes@ =~= block@.subrange(0, i as int));
        }
        let ghost before = self.contents();
        assert(block@.subrange(0, block@.len() as int) =~= block@);
        self.blocks.set(lba as usize, Block { bytes });
        assert(self.contents() =~= before.update(lba as int, block@));
        Ok(())
    }

    open spec fn block_bytes_spec(&self) -> usize {
        BLOCK_SIZE
    }

    open spec fn block_count_spec(&self) -> u32 {
        BLOCKS
    }

    open spec fn read_error(&self, lba: u32) -> Option<BlockDeviceError> {
        if lba < BLOCKS && self.contents().len() == BLOCKS && self.contents()[lba as int].len()
            == BLOCK_SIZE {
            None
        } else {
            Some(BlockDeviceError::InvalidAddress)
        }
    }

    open spec fn write_error(&self, lba: u32) -> Option<BlockDeviceError> {
        if lba < BLOCKS && self.contents().len() == BLOCKS && self.contents()[lba as int].len()
            == BLOCK_SIZE {
            None
        } else {
            Some(BlockDeviceError::InvalidAddress)
        }
    }

    open spec fn block_spec(&self, lba: u32) -> Seq<u8> {
        if lba < self.contents().len() {
            self.contents()[lba as int]
        } else {
            Seq::empty()
        }
    }
}

} // verus!
