//! Content addressing: the identifier of a stored block, and an in-memory
//! store of blocks keyed by it.
use vstd::prelude::*;

verus! {

/// The multicodec of raw blocks: the bytes stored here are this library's
/// own framing, not an IPLD codec.
pub const RAW_CODEC: u64 = 0x55;

/// The CIDv1 bytes (raw codec, Blake2b-256 multihash) of a block.
pub uninterp spec fn block_cid(data: Seq<u8>) -> Seq<u8>;

/// Relies on multihash's `Code::Blake2b256` digest and cid's
/// `Cid::new_v1(..).to_bytes()`: the CID bytes of a raw block, which
/// depend on the block's bytes alone.
#[verifier::external_body]
pub(crate) fn compute_block_cid(data: &Vec<u8>) -> (r: Vec<u8>)
    ensures
        r@ == block_cid(data@),
{
    let digest = multihash::MultihashDigest::digest(&multihash::Code::Blake2b256, data.as_slice());
    cid::Cid::new_v1(RAW_CODEC, digest).to_bytes()
}

/// One stored block.
pub struct Block {
    pub cid: Vec<u8>,
    pub data: Vec<u8>,
}

/// What a list of blocks holds, later blocks shadowing earlier ones.
pub open spec fn blocks_map(s: Seq<Block>) -> Map<Seq<u8>, Seq<u8>>
    decreases s.len(),
{
    if s.len() == 0 {
        Map::empty()
    } else {
        blocks_map(s.drop_last()).insert(s.last().cid@, s.last().data@)
    }
}

/// Lists of blocks that agree position by position hold the same mapping.
proof fn lemma_blocks_map_pointwise(s: Seq<Block>, t: Seq<Block>)
    requires
        s.len() == t.len(),
        forall|j: int| 0 <= j < s.len() ==> s[j].cid@ == t[j].cid@ && s[j].data@ == t[j].data@,
    ensures
        blocks_map(s) == blocks_map(t),
    decreases s.len(),
{
    if s.len() > 0 {
        lemma_blocks_map_pointwise(s.drop_last(), t.drop_last());
    }
}

/// An in-memory content-addressed store.
pub struct BlockStore {
    blocks: Vec<Block>,
}

impl View for BlockStore {
    type V = Map<Seq<u8>, Seq<u8>>;

    closed spec fn view(&self) -> Map<Seq<u8>, Seq<u8>> {
        blocks_map(self.blocks@)
    }
}

impl BlockStore {
    /// An empty store.
    pub fn new() -> (r: BlockStore)
        ensures
            r@ == Map::<Seq<u8>, Seq<u8>>::empty(),
    {
        BlockStore { blocks: Vec::new() }
    }

    /// Stores `data` under its CID and returns the CID.
    pub fn put(&mut self, data: Vec<u8>) -> (r: Vec<u8>)
        ensures
            r@ == block_cid(data@),
            final(self)@ == old(self)@.insert(block_cid(data@), data@),
    {
        let cid = compute_block_cid(&data);
        let r = crate::encoding::copy_bytes(&cid);
        let ghost before = self.blocks@;
        self.blocks.push(Block { cid, data });
        assert(self.blocks@.drop_last() =~= before);
        r
    }

    /// An independent store holding the same blocks.
    pub fn copy(&self) -> (r: BlockStore)
        ensures
            r@ == self@,
    {
        let mut blocks: Vec<Block> = Vec::new();
        let mut i: usize = 0;
        while i < self.blocks.len()
            invariant
                i <= self.blocks@.len(),
                blocks@.len() == i,
                forall|j: int|
                    0 <= j < i ==> blocks@[j].cid@ == self.blocks@[j].cid@ && blocks@[j].data@
                        == self.blocks@[j].data@,
            decreases self.blocks@.len() - i,
        {
            let b = &self.blocks[i];
            blocks.push(Block { cid: crate::encoding::copy_bytes(&b.cid), data: crate::encoding::copy_bytes(&b.data) });
            i = i + 1;
        }
        proof {
            lemma_blocks_map_pointwise(blocks@, self.blocks@);
        }
        BlockStore { blocks }
    }

    /// The block stored under `cid`, if any.
    pub fn get(&self, cid: &Vec<u8>) -> (r: Option<Vec<u8>>)
        ensures
            r matches Some(d) ==> self@.contains_key(cid@) && self@[cid@] == d@,
            r is None ==> !self@.contains_key(cid@),
    {
        let mut i: usize = self.blocks.len();
        assert(self.blocks@.subrange(0, i as int) =~= self.blocks@);
        while i > 0
            invariant
                i <= self.blocks@.len(),
                blocks_map(self.blocks@).contains_key(cid@) == blocks_map(
                    self.blocks@.subrange(0, i as int),
                ).contains_key(cid@),
                blocks_map(self.blocks@).contains_key(cid@) ==> blocks_map(self.blocks@)[cid@]
                    == blocks_map(self.blocks@.subrange(0, i as int))[cid@],
            decreases i,
        {
            let ghost pre = self.blocks@.subrange(0, i as int);
            assert(pre.drop_last() =~= self.blocks@.subrange(0, i - 1));
            if crate::encoding::bytes_eq(&self.blocks[i - 1].cid, cid) {
                return Some(crate::encoding::copy_bytes(&self.blocks[i - 1].data));
            }
            i = i - 1;
        }
        assert(self.blocks@.subrange(0, 0) =~= Seq::<Block>::empty());
        None
    }
}

} // verus!
