//! The obstacle field: eight blocks scrolling right to left, renewed at the
//! right edge with a height and a bonus drawn from random input.
use vstd::prelude::*;

verus! {

/// Width of one block, in pixels.
pub const BLOCK_WIDTH: i32 = 20;

/// Number of blocks in the field.
pub const N_BLOCKS: usize = 8;

/// Height of every block of a fresh field.
pub const DEFAULT_BLOCK_HEIGHT: u32 = 20;

/// Horizontal distance the field moves on each advance.
pub const BLOCK_OFFSET_VELOCITY: i32 = -1;

/// A block: its height in pixels and whether a bonus sits on top of it.
pub type Block = (u32, bool);

/// The fixed-capacity buffer of blocks, from the heapless crate.
pub type BlockBuf = heapless::Vec<Block, 8>;

#[verifier::external_type_specification]
#[verifier::external_body]
#[verifier::reject_recursive_types(T)]
pub struct ExHeaplessVec<T, const N: usize>(heapless::Vec<T, N>);

/// The blocks that a buffer holds, first to last.
pub uninterp spec fn buf_contents(v: BlockBuf) -> Seq<Block>;

/// Relies on heapless::Vec::new: a new vector holds nothing.
#[verifier::external_body]
fn buf_new() -> (r: BlockBuf)
    ensures
        buf_contents(r) == Seq::<Block>::empty(),
{
    heapless::Vec::new()
}

/// Relies on heapless::Vec::push: the item is appended while the length is
/// below the capacity of eight, and handed back otherwise.
#[verifier::external_body]
fn buf_push(v: &mut BlockBuf, item: Block) -> (r: Result<(), Block>)
    ensures
        buf_contents(*old(v)).len() < 8 ==> r is Ok
            && buf_contents(*final(v)) == buf_contents(*old(v)).push(item),
        buf_contents(*old(v)).len() >= 8 ==> (r matches Err(x) && x == item)
            && buf_contents(*final(v)) == buf_contents(*old(v)),
{
    v.push(item)
}

/// Relies on indexing the slice that heapless::Vec dereferences to: it reads
/// the item at `i`.
#[verifier::external_body]
fn buf_get(v: &BlockBuf, i: usize) -> (r: Block)
    requires
        i < buf_contents(*v).len(),
    ensures
        r == buf_contents(*v)[i as int],
{
    v[i]
}

/// Relies on mutable indexing of the slice that heapless::Vec dereferences
/// to: it replaces the item at `i` and nothing else.
#[verifier::external_body]
fn buf_set(v: &mut BlockBuf, i: usize, item: Block)
    requires
        i < buf_contents(*old(v)).len(),
    ensures
        buf_contents(*final(v)) == buf_contents(*old(v)).update(i as int, item),
{
    v[i] = item;
}

/// Height of a new block drawn from a random byte: its low three bits dropped.
pub open spec fn height_from_byte(b: u8) -> u32 {
    (b / 8) as u32
}

/// The blocks after a shift: the first dropped, `fresh` appended.
pub open spec fn shifted(blocks: Seq<Block>, fresh: Block) -> Seq<Block> {
    blocks.drop_first().push(fresh)
}

/// Whether an advance from `offset` drops the first block: the candidate
/// offset has reached `-BLOCK_WIDTH`.
pub open spec fn shifts_at(offset: int) -> bool {
    offset + BLOCK_OFFSET_VELOCITY <= -BLOCK_WIDTH
}

/// The blocks after one advance from `offset`.
pub open spec fn advanced_blocks(blocks: Seq<Block>, offset: int, random_byte: u8, random_bool: bool) -> Seq<Block> {
    if shifts_at(offset) {
        shifted(blocks, (height_from_byte(random_byte), random_bool))
    } else {
        blocks
    }
}

/// The offset after one advance from an offset in `(-BLOCK_WIDTH, 0]`: the
/// candidate reaches `-BLOCK_WIDTH` exactly when a shift happens, and wraps
/// to zero.
pub open spec fn advanced_offset(offset: int) -> int {
    if shifts_at(offset) {
        0
    } else {
        offset + BLOCK_OFFSET_VELOCITY
    }
}

/// The blocks and offset after one advance per input, first to last; each
/// input is a random byte and a random bit.
pub open spec fn advanced_many(blocks: Seq<Block>, offset: int, inputs: Seq<(u8, bool)>) -> (Seq<Block>, int)
    decreases inputs.len(),
{
    if inputs.len() == 0 {
        (blocks, offset)
    } else {
        let (b, o) = advanced_many(blocks, offset, inputs.drop_last());
        (advanced_blocks(b, o, inputs.last().0, inputs.last().1), advanced_offset(o))
    }
}

/// However many advances the field makes, it keeps exactly eight blocks.
pub proof fn lemma_length_kept(blocks: Seq<Block>, offset: int, inputs: Seq<(u8, bool)>)
    requires
        blocks.len() == N_BLOCKS,
    ensures
        advanced_many(blocks, offset, inputs).0.len() == N_BLOCKS,
    decreases inputs.len(),
{
    if inputs.len() > 0 {
        lemma_length_kept(blocks, offset, inputs.drop_last());
    }
}

/// However many advances the field makes, its offset stays in
/// `(-BLOCK_WIDTH, 0]`.
pub proof fn lemma_offset_in_range(blocks: Seq<Block>, offset: int, inputs: Seq<(u8, bool)>)
    requires
        -BLOCK_WIDTH < offset <= 0,
    ensures
        -BLOCK_WIDTH < advanced_many(blocks, offset, inputs).1 <= 0,
    decreases inputs.len(),
{
    if inputs.len() > 0 {
        lemma_offset_in_range(blocks, offset, inputs.drop_last());
    }
}

/// An advance that shifts drops the first block, moves every other block one
/// place left, and puts the new block last.
pub proof fn lemma_shift_order(blocks: Seq<Block>, offset: int, random_byte: u8, random_bool: bool)
    requires
        blocks.len() == N_BLOCKS,
        shifts_at(offset),
    ensures
        ({
            let r = advanced_blocks(blocks, offset, random_byte, random_bool);
            &&& r.len() == N_BLOCKS
            &&& forall|i: int| 0 <= i < N_BLOCKS - 1 ==> #[trigger] r[i] == blocks[i + 1]
            &&& r[N_BLOCKS - 1] == (height_from_byte(random_byte), random_bool)
        }),
{
}

/// The scrolling field of blocks and its horizontal offset.
pub struct ObstacleField {
    pub blocks: BlockBuf,
    pub offset: i32,
}

impl ObstacleField {
    /// The blocks, left to right.
    pub open spec fn blocks_view(&self) -> Seq<Block> {
        buf_contents(self.blocks)
    }

    /// Exactly eight blocks, and an offset in `(-BLOCK_WIDTH, 0]`.
    pub open spec fn wf(&self) -> bool {
        &&& self.blocks_view().len() == N_BLOCKS
        &&& -BLOCK_WIDTH < self.offset <= 0
    }


    /// A field of eight default blocks without bonus, at offset 0.
    pub fn new() -> (r: Self)
        ensures
            r.wf(),
            r.offset == 0,
            r.blocks_view() == Seq::new(N_BLOCKS as nat, |i: int| (DEFAULT_BLOCK_HEIGHT, false)),
    {
        let mut blocks = buf_new();
        let mut k: usize = 0;
        while k < N_BLOCKS
            invariant
                k <= N_BLOCKS,
                buf_contents(blocks) == Seq::new(k as nat, |i: int| (DEFAULT_BLOCK_HEIGHT, false)),
            decreases N_BLOCKS - k,
        {
            let _ = buf_push(&mut blocks, (DEFAULT_BLOCK_HEIGHT, false));
            k = k + 1;
            assert(buf_contents(blocks) =~= Seq::new(k as nat, |i: int| (DEFAULT_BLOCK_HEIGHT, false)));
        }
        ObstacleField { blocks, offset: 0 }
    }

    /// The block at index `i`.
    pub fn block(&self, i: usize) -> (r: Block)
        requires
            self.wf(),
            i < N_BLOCKS,
        ensures
            r == self.blocks_view()[i as int],
    {
        buf_get(&self.blocks, i)
    }

    /// Clears the bonus of the block at index `i`.
    pub fn clear_bonus(&mut self, i: usize)
        requires
            old(self).wf(),
            i < N_BLOCKS,
        ensures
            final(self).wf(),
            final(self).offset == old(self).offset,
            final(self).blocks_view() == old(self).blocks_view().update(
                i as int,
                (old(self).blocks_view()[i as int].0, false),
            ),
    {
        let (h, _) = buf_get(&self.blocks, i);
        buf_set(&mut self.blocks, i, (h, false));
    }

    /// Scrolls the field by one step. When the first block has scrolled out
    /// of sight, the blocks shift left, a block of height
    /// `random_byte >> 3` with bonus `random_bool` is appended, and the offset
    /// wraps modulo `BLOCK_WIDTH` (toward zero).
    pub fn advance(&mut self, random_byte: u8, random_bool: bool)
        requires
            old(self).wf(),
        ensures
            final(self).wf(),
            final(self).blocks_view() == advanced_blocks(
                old(self).blocks_view(),
                old(self).offset as int,
                random_byte,
                random_bool,
            ),
            final(self).offset == advanced_offset(old(self).offset as int),
    {
        let new_offset = self.offset + BLOCK_OFFSET_VELOCITY;
        if new_offset <= -BLOCK_WIDTH {
            let new_height = (random_byte >> 3) as u32;
            assert(random_byte >> 3 == random_byte / 8) by (bit_vector);
            let ghost before = self.blocks_view();
            let mut i: usize = 0;
            while i < N_BLOCKS - 1
                invariant
                    i <= N_BLOCKS - 1,
                    self.blocks_view().len() == N_BLOCKS,
                    before.len() == N_BLOCKS,
                    forall|j: int| 0 <= j < i ==> self.blocks_view()[j] == before[j + 1],
                    forall|j: int| i <= j < N_BLOCKS ==> self.blocks_view()[j] == before[j],
                    self.offset == old(self).offset,
                decreases N_BLOCKS - 1 - i,
            {
                let next = buf_get(&self.blocks, i + 1);
                buf_set(&mut self.blocks, i, next);
                i = i + 1;
            }
            buf_set(&mut self.blocks, N_BLOCKS - 1, (new_height, random_bool));
            assert(self.blocks_view() =~= shifted(before, (height_from_byte(random_byte), random_bool)));
            self.offset = new_offset % BLOCK_WIDTH;
        } else {
            self.offset = new_offset;
        }
    }
}

} // verus!
