//! Blocks of memory of a fixed size: the bookkeeping of an arena. The
//! memory itself is obtained by the caller; a block records where a region
//! starts and how large it is.

use vstd::prelude::*;

verus! {

pub type BlockSize = usize;

pub const BLOCK_SIZE_BITS: usize = 15;

pub const BLOCK_SIZE: usize = 32768;

/// A region of memory whose size, and so its alignment, is a power of two.
#[derive(Debug)]
pub struct Block {
    ptr: usize,
    size: BlockSize,
}

#[derive(Debug, PartialEq, Eq, Structural, Clone, Copy)]
pub enum BlockError {
    /// The requested size, and so the alignment, is not a power of two.
    BadRequest,
    /// No memory could be had for the block.
    OutOfMemory,
}

/// Whether a number is a power of two.
pub open spec fn is_power_of_two(n: nat) -> bool
    decreases n,
{
    if n <= 1 {
        n == 1
    } else {
        n % 2 == 0 && is_power_of_two(n / 2)
    }
}

/// Whether a block can have this size.
pub fn valid_size(size: BlockSize) -> (r: bool)
    ensures
        r == is_power_of_two(size as nat),
{
    let mut n: usize = size;
    while n > 1 && n % 2 == 0
        invariant
            is_power_of_two(n as nat) == is_power_of_two(size as nat),
        decreases n,
    {
        n = n / 2;
    }
    n == 1
}

impl Block {
    /// The block for a region of `size` bytes that starts at `address`,
    /// where 0 stands for a region that could not be obtained. The size is
    /// checked first.
    pub fn new(size: BlockSize, address: usize) -> (r: Result<Block, BlockError>)
        ensures
            !is_power_of_two(size as nat) ==> r == Err::<Block, BlockError>(BlockError::BadRequest),
            is_power_of_two(size as nat) && address == 0 ==> r == Err::<Block, BlockError>(
                BlockError::OutOfMemory,
            ),
            is_power_of_two(size as nat) && address != 0 ==> (r matches Ok(b) && b.start()
                == address && b.len() == size),
    {
        if !valid_size(size) {
            return Err(BlockError::BadRequest);
        }
        if address == 0 {
            return Err(BlockError::OutOfMemory);
        }
        Ok(Block { ptr: address, size })
    }

    /// Where the block starts.
    pub closed spec fn start(&self) -> usize {
        self.ptr
    }

    /// The size of the block in bytes.
    pub closed spec fn len(&self) -> usize {
        self.size
    }

    /// The address of the block's first byte.
    pub fn as_pointer(&self) -> (address: usize)
        ensures
            address == self.start(),
    {
        self.ptr
    }

    /// The size of the block in bytes.
    pub fn size(&self) -> (size: BlockSize)
        ensures
            size == self.len(),
    {
        self.size
    }
}

} // verus!
