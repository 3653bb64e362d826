use vstd::prelude::*;

verus! {

/// What a block is, seen as plain values.
pub ghost struct BlockView {
    pub id: usize,
    pub size: usize,
    pub is_free: bool,
    pub data: Seq<u8>,
}

/// Whether a block can serve a request of `size` bytes.
pub open spec fn fits(b: BlockView, size: usize) -> bool {
    b.is_free && b.size >= size
}

/// The bytes a block holds while it is handed out (nothing while free).
pub open spec fn used_bytes(b: BlockView) -> nat {
    if b.is_free {
        0
    } else {
        b.size as nat
    }
}

/// Sum of the sizes of all blocks.
pub open spec fn total_size(s: Seq<BlockView>) -> nat
    decreases s.len(),
{
    if s.len() == 0 {
        0
    } else {
        total_size(s.drop_last()) + s.last().size as nat
    }
}

/// Sum of the sizes of the blocks that are handed out.
pub open spec fn used_size(s: Seq<BlockView>) -> nat
    decreases s.len(),
{
    if s.len() == 0 {
        0
    } else {
        used_size(s.drop_last()) + used_bytes(s.last())
    }
}

/// Number of blocks that are handed out.
pub open spec fn count_used(s: Seq<BlockView>) -> nat
    decreases s.len(),
{
    if s.len() == 0 {
        0
    } else {
        count_used(s.drop_last()) + if s.last().is_free {
            0nat
        } else {
            1nat
        }
    }
}

/// Number of free blocks.
pub open spec fn count_free(s: Seq<BlockView>) -> nat
    decreases s.len(),
{
    if s.len() == 0 {
        0
    } else {
        count_free(s.drop_last()) + if s.last().is_free {
            1nat
        } else {
            0nat
        }
    }
}

/// Number of handed-out blocks whose buffer is larger than the block's size.
pub open spec fn count_fragmented(s: Seq<BlockView>) -> nat
    decreases s.len(),
{
    if s.len() == 0 {
        0
    } else {
        count_fragmented(s.drop_last()) + if !s.last().is_free && s.last().data.len()
            > s.last().size {
            1nat
        } else {
            0nat
        }
    }
}

/// The pool as plain values.
pub ghost struct PoolView {
    pub blocks: Seq<BlockView>,
    pub next_id: usize,
    pub total_allocated: usize,
}

impl PoolView {
    /// Block ids are 1, 2, 3, ... in the order the blocks were added; each buffer
    /// has the block's size; the byte counter never exceeds what is handed out; and
    /// all block sizes together fit in a `usize`.
    pub open spec fn wf(self) -> bool {
        &&& self.next_id == self.blocks.len() + 1
        &&& forall|i: int| 0 <= i < self.blocks.len() ==> (#[trigger] self.blocks[i]).id == i + 1
        &&& forall|i: int|
            0 <= i < self.blocks.len() ==> (#[trigger] self.blocks[i]).data.len()
                == self.blocks[i].size
        &&& self.total_allocated <= used_size(self.blocks)
        &&& total_size(self.blocks) <= usize::MAX
    }

    /// Some block has this id.
    pub open spec fn has_id(self, id: usize) -> bool {
        1 <= id <= self.blocks.len()
    }
}

/// A block of the pool.
#[derive(Debug)]
pub struct MemoryBlock {
    pub id: usize,
    pub size: usize,
    pub is_free: bool,
    pub data: Vec<u8>,
}

impl View for MemoryBlock {
    type V = BlockView;

    open spec fn view(&self) -> BlockView {
        BlockView { id: self.id, size: self.size, is_free: self.is_free, data: self.data@ }
    }
}

/// Memory handed out by the pool: the id of the block it came from and its own buffer.
pub struct MemoryHandle {
    id: usize,
    data: Vec<u8>,
}

impl MemoryHandle {
    pub closed spec fn spec_id(&self) -> usize {
        self.id
    }

    pub closed spec fn spec_data(&self) -> Seq<u8> {
        self.data@
    }

    /// Writable access to the handle's bytes.
    pub fn data_mut(&mut self) -> (r: &mut [u8])
        ensures
            r@ == old(self).spec_data(),
            final(self).spec_data() == final(r)@,
            final(self).spec_id() == old(self).spec_id(),
    {
        self.data.as_mut_slice()
    }

    /// The handle's bytes.
    pub fn data(&self) -> (r: &[u8])
        ensures
            r@ == self.spec_data(),
    {
        self.data.as_slice()
    }

    /// Number of bytes in the handle.
    pub fn size(&self) -> (r: usize)
        ensures
            r == self.spec_data().len(),
    {
        self.data.len()
    }

    /// Id of the block the handle came from.
    pub fn id(&self) -> (r: usize)
        ensures
            r == self.spec_id(),
    {
        self.id
    }
}

/// A pool of fixed blocks, handed out first-fit.
#[derive(Debug)]
pub struct MemoryPool {
    blocks: Vec<MemoryBlock>,
    next_id: usize,
    total_allocated: usize,
}

impl View for MemoryPool {
    type V = PoolView;

    closed spec fn view(&self) -> PoolView {
        PoolView {
            blocks: self.blocks@.map_values(|b: MemoryBlock| b@),
            next_id: self.next_id,
            total_allocated: self.total_allocated,
        }
    }
}

proof fn lemma_update_sums(s: Seq<BlockView>, i: int, b: BlockView)
    requires
        0 <= i < s.len(),
        b.size == s[i].size,
    ensures
        total_size(s.update(i, b)) == total_size(s),
        used_size(s.update(i, b)) + used_bytes(s[i]) == used_size(s) + used_bytes(b),
    decreases s.len(),
{
    let t = s.update(i, b);
    if i == s.len() - 1 {
        assert(t.drop_last() =~= s.drop_last());
    } else {
        assert(t.drop_last() =~= s.drop_last().update(i, b));
        lemma_update_sums(s.drop_last(), i, b);
    }
}

proof fn lemma_used_within_total(s: Seq<BlockView>)
    ensures
        used_size(s) <= total_size(s),
    decreases s.len(),
{
    if s.len() > 0 {
        lemma_used_within_total(s.drop_last());
    }
}

proof fn lemma_counts_bounded(s: Seq<BlockView>)
    ensures
        count_used(s) <= s.len(),
        count_free(s) <= s.len(),
        count_fragmented(s) <= s.len(),
    decreases s.len(),
{
    if s.len() > 0 {
        lemma_counts_bounded(s.drop_last());
    }
}

impl MemoryPool {
    /// An empty pool whose first block will get id 1.
    pub fn new() -> (r: MemoryPool)
        ensures
            r@.wf(),
            r@.blocks.len() == 0,
            r@.total_allocated == 0,
    {
        let r = MemoryPool { blocks: Vec::new(), next_id: 1, total_allocated: 0 };
        assert(r@.blocks =~= Seq::<BlockView>::empty());
        r
    }

    /// Adds a free block of `size` zeroed bytes under the next id.
    pub fn add_block(&mut self, size: usize)
        requires
            old(self)@.wf(),
            total_size(old(self)@.blocks) + size <= usize::MAX,
            old(self)@.next_id < usize::MAX,
        ensures
            final(self)@.wf(),
            final(self)@.blocks == old(self)@.blocks.push(
                BlockView {
                    id: old(self)@.next_id,
                    size,
                    is_free: true,
                    data: Seq::new(size as nat, |k: int| 0u8),
                },
            ),
            final(self)@.total_allocated == old(self)@.total_allocated,
            total_size(final(self)@.blocks) == total_size(old(self)@.blocks) + size,
    {
        let ghost old_blocks = self@.blocks;
        let block = MemoryBlock { id: self.next_id, size, is_free: true, data: vec![0u8; size] };
        self.blocks.push(block);
        self.next_id = self.next_id + 1;
        proof {
            let nb = self@.blocks;
            assert(block.data@ =~= Seq::new(size as nat, |k: int| 0u8));
            assert(nb =~= old_blocks.push(block@));
            assert(nb.drop_last() =~= old_blocks);
        }
    }

    /// Hands out the first free block that holds at least `size` bytes: the block
    /// is marked used, `size` is added to the byte counter, and the handle gets a
    /// fresh zeroed buffer of `size` bytes. `None` when no free block is large enough.
    pub fn allocate(&mut self, size: usize) -> (r: Option<MemoryHandle>)
        requires
            old(self)@.wf(),
        ensures
            final(self)@.wf(),
            match r {
                None => {
                    &&& forall|j: int|
                        0 <= j < old(self)@.blocks.len() ==> !fits(
                            #[trigger] old(self)@.blocks[j],
                            size,
                        )
                    &&& final(self)@ == old(self)@
                },
                Some(h) => {
                    let i = h.spec_id() - 1;
                    &&& old(self)@.has_id(h.spec_id())
                    &&& fits(old(self)@.blocks[i], size)
                    &&& forall|j: int| 0 <= j < i ==> !fits(#[trigger] old(self)@.blocks[j], size)
                    &&& h.spec_data() == Seq::new(size as nat, |k: int| 0u8)
                    &&& final(self)@.blocks == old(self)@.blocks.update(
                        i,
                        BlockView { is_free: false, ..old(self)@.blocks[i] },
                    )
                    &&& final(self)@.next_id == old(self)@.next_id
                    &&& final(self)@.total_allocated == old(self)@.total_allocated + size
                },
            },
    {
        let ghost old_view = self@;
        let mut i: usize = 0;
        while i < self.blocks.len()
            invariant
                self@ == old_view,
                old_view == old(self)@,
                old_view.wf(),
                i <= self.blocks@.len(),
                forall|j: int| 0 <= j < i ==> !fits(#[trigger] old_view.blocks[j], size),
            decreases self.blocks@.len() - i,
        {
            assert(old_view.blocks[i as int] == self.blocks@[i as int]@);
            if self.blocks[i].is_free && self.blocks[i].size >= size {
                let id = self.blocks[i].id;
                let ghost nb = BlockView { is_free: false, ..old_view.blocks[i as int] };
                proof {
                    lemma_update_sums(old_view.blocks, i as int, nb);
                    lemma_used_within_total(old_view.blocks.update(i as int, nb));
                }
                self.blocks[i].is_free = false;
                self.total_allocated = self.total_allocated + size;
                let data = vec![0u8; size];
                proof {
                    assert(self@.blocks =~= old_view.blocks.update(i as int, nb));
                    assert(data@ =~= Seq::new(size as nat, |k: int| 0u8));
                }
                return Some(MemoryHandle { id, data });
            }
            i = i + 1;
        }
        None
    }

    /// Marks the block with this id free again if it is handed out, taking its size
    /// off the byte counter (never below zero). Otherwise nothing changes.
    pub fn free_by_id(&mut self, id: usize)
        requires
            old(self)@.wf(),
        ensures
            final(self)@.wf(),
            if old(self)@.has_id(id) && !old(self)@.blocks[id - 1].is_free {
                let i = id - 1;
                &&& final(self)@.blocks == old(self)@.blocks.update(
                    i,
                    BlockView { is_free: true, ..old(self)@.blocks[i] },
                )
                &&& final(self)@.next_id == old(self)@.next_id
                &&& final(self)@.total_allocated == if old(self)@.total_allocated
                    >= old(self)@.blocks[i].size {
                    old(self)@.total_allocated - old(self)@.blocks[i].size
                } else {
                    0
                }
            } else {
                final(self)@ == old(self)@
            },
    {
        let _ = self.free(id);
    }

    /// Frees the block with this id. Errors: the block is already free, or no block
    /// has this id; then nothing changes.
    pub fn free(&mut self, id: usize) -> (r: Result<(), &'static str>)
        requires
            old(self)@.wf(),
        ensures
            final(self)@.wf(),
            r is Ok <==> old(self)@.has_id(id) && !old(self)@.blocks[id - 1].is_free,
            r is Ok ==> {
                let i = id - 1;
                &&& final(self)@.blocks == old(self)@.blocks.update(
                    i,
                    BlockView { is_free: true, ..old(self)@.blocks[i] },
                )
                &&& final(self)@.next_id == old(self)@.next_id
                &&& final(self)@.total_allocated == if old(self)@.total_allocated
                    >= old(self)@.blocks[i].size {
                    old(self)@.total_allocated - old(self)@.blocks[i].size
                } else {
                    0
                }
            },
            r is Err ==> final(self)@ == old(self)@,
            old(self)@.has_id(id) && old(self)@.blocks[id - 1].is_free ==> r == Err::<
                (),
                &'static str,
            >(FREE_ALREADY_FREE),
            !old(self)@.has_id(id) ==> r == Err::<(), &'static str>(FREE_UNKNOWN_ID),
    {
        let ghost old_view = self@;
        let mut i: usize = 0;
        while i < self.blocks.len()
            invariant
                self@ == old_view,
                old_view == old(self)@,
                old_view.wf(),
                i <= self.blocks@.len(),
                forall|j: int| 0 <= j < i ==> (#[trigger] old_view.blocks[j]).id != id,
            decreases self.blocks@.len() - i,
        {
            assert(old_view.blocks[i as int] == self.blocks@[i as int]@);
            if self.blocks[i].id == id {
                if !self.blocks[i].is_free {
                    let bsize = self.blocks[i].size;
                    proof {
                        lemma_update_sums(old_view.blocks, i as int, BlockView { is_free: true, ..old_view.blocks[i as int] });
                    }
                    self.blocks[i].is_free = true;
                    self.total_allocated = self.total_allocated.saturating_sub(bsize);
                    proof {
                        assert(self@.blocks =~= old_view.blocks.update(
                            i as int,
                            BlockView { is_free: true, ..old_view.blocks[i as int] },
                        ));
                    }
                    return Ok(());
                } else {
                    return Err(FREE_ALREADY_FREE);
                }
            }
            i = i + 1;
        }
        proof {
            if old_view.has_id(id) {
                let k = id - 1;
                assert(old_view.blocks[k as int].id == id);
            }
        }
        Err(FREE_UNKNOWN_ID)
    }

    /// The block with this id, if any.
    pub fn get_block_info(&self, id: usize) -> (r: Option<&MemoryBlock>)
        requires
            self@.wf(),
        ensures
            match r {
                None => !self@.has_id(id),
                Some(b) => self@.has_id(id) && b@ == self@.blocks[id - 1],
            },
    {
        let mut i: usize = 0;
        while i < self.blocks.len()
            invariant
                self@.wf(),
                i <= self.blocks@.len(),
                forall|j: int| 0 <= j < i ==> (#[trigger] self@.blocks[j]).id != id,
            decreases self.blocks@.len() - i,
        {
            if self.blocks[i].id == id {
                assert(self@.blocks[i as int] == self.blocks@[i as int]@);
                return Some(&self.blocks[i]);
            }
            i = i + 1;
        }
        proof {
            if self@.has_id(id) {
                assert(self@.blocks[id - 1].id == id);
            }
        }
        None
    }

    /// `(used blocks, free blocks, fragmented blocks, bytes allocated)`; a block
    /// counts as fragmented when it is used and its buffer is longer than its size.
    pub fn stats(&self) -> (r: (usize, usize, usize, usize))
        ensures
            r.0 == count_used(self@.blocks),
            r.1 == count_free(self@.blocks),
            r.2 == count_fragmented(self@.blocks),
            r.3 == self@.total_allocated,
    {
        let ghost s = self@.blocks;
        let mut used: usize = 0;
        let mut free: usize = 0;
        let mut fragmented: usize = 0;
        let mut i: usize = 0;
        while i < self.blocks.len()
            invariant
                s == self@.blocks,
                i <= s.len(),
                s.len() == self.blocks@.len(),
                used == count_used(s.take(i as int)),
                free == count_free(s.take(i as int)),
                fragmented == count_fragmented(s.take(i as int)),
            decreases s.len() - i,
        {
            proof {
                assert(s.take(i + 1).drop_last() =~= s.take(i as int));
                lemma_counts_bounded(s.take(i as int));
                assert(s[i as int] == self.blocks@[i as int]@);
            }
            let block = &self.blocks[i];
            if block.is_free {
                free = free + 1;
            } else {
                used = used + 1;
                if block.data.len() > block.size {
                    fragmented = fragmented + 1;
                }
            }
            i = i + 1;
        }
        assert(s.take(i as int) =~= s);
        (used, free, fragmented, self.total_allocated)
    }
}

/// Handing out a free block and then freeing it gives back the blocks as they were.
pub proof fn lemma_free_undoes_allocate(before: PoolView, mid: PoolView, after: PoolView, id: usize)
    requires
        before.has_id(id),
        before.blocks[id - 1].is_free,
        mid.blocks == before.blocks.update(id - 1, BlockView { is_free: false, ..before.blocks[id - 1] }),
        after.blocks == mid.blocks.update(id - 1, BlockView { is_free: true, ..mid.blocks[id - 1] }),
    ensures
        after.blocks == before.blocks,
{
    assert(after.blocks =~= before.blocks);
}

/// Message of `MemoryPool::free` for a block that is already free.
pub const FREE_ALREADY_FREE: &'static str = "内存块已经是空闲状态";

/// Message of `MemoryPool::free` for an id that no block has.
pub const FREE_UNKNOWN_ID: &'static str = "无效的内存块ID";

} // verus!
