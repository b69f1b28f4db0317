//! The state tree: actor id to actor record, committed to a single root CID.
use vstd::prelude::*;
use crate::content::{block_cid, BlockStore};
use crate::encoding::{be64, field, write_field, write_u64};
use crate::id_map::{last_index, lemma_last_index, lookup, put};
use crate::types::{opt_record, ActorID, ActorRecord, ActorState};

verus! {

/// Bytes of one committed entry.
pub open spec fn record_bytes(id: u64, r: ActorRecord) -> Seq<u8> {
    be64(id) + field(r.code) + field(r.state) + be64(r.sequence) + be64((r.balance >> 64u128) as u64)
        + be64(r.balance as u64)
}

/// Bytes of the committed entries, in order.
pub open spec fn entries_bytes(s: Seq<(u64, ActorRecord)>) -> Seq<u8>
    decreases s.len(),
{
    if s.len() == 0 {
        Seq::empty()
    } else {
        entries_bytes(s.drop_last()) + record_bytes(s.last().0, s.last().1)
    }
}

/// The abstract value of a state tree: its version and its entries in order.
pub struct TreeView {
    pub version: u32,
    pub entries: Seq<(u64, ActorRecord)>,
}

/// The block that commits a tree.
pub open spec fn tree_bytes(t: TreeView) -> Seq<u8> {
    be64(t.version as u64) + be64(t.entries.len() as u64) + entries_bytes(t.entries)
}

/// The root CID of a tree.
pub open spec fn root_of(t: TreeView) -> Seq<u8> {
    block_cid(tree_bytes(t))
}

/// One entry of a state tree.
pub struct TreeEntry {
    pub id: ActorID,
    pub actor: ActorState,
}

/// A versioned mapping from actor id to actor record.
pub struct StateTree {
    version: u32,
    entries: Vec<TreeEntry>,
}

impl View for StateTree {
    type V = TreeView;

    closed spec fn view(&self) -> TreeView {
        TreeView {
            version: self.version,
            entries: self.entries@.map_values(|e: TreeEntry| (e.id, e.actor@)),
        }
    }
}

impl StateTree {
    /// An empty tree of the given version.
    pub fn new(version: u32) -> (r: StateTree)
        ensures
            r@ == (TreeView { version, entries: Seq::empty() }),
    {
        let r = StateTree { version, entries: Vec::new() };
        assert(r@.entries =~= Seq::<(u64, ActorRecord)>::empty());
        r
    }

    /// An independent tree with the same version and entries.
    pub fn copy(&self) -> (r: StateTree)
        ensures
            r@ == self@,
    {
        let mut entries: Vec<TreeEntry> = Vec::new();
        let mut i: usize = 0;
        while i < self.entries.len()
            invariant
                i <= self.entries@.len(),
                entries@.len() == i,
                forall|j: int|
                    0 <= j < i ==> entries@[j].id == self.entries@[j].id && entries@[j].actor@
                        == self.entries@[j].actor@,
            decreases self.entries@.len() - i,
        {
            let e = &self.entries[i];
            entries.push(TreeEntry { id: e.id, actor: e.actor.copy() });
            i = i + 1;
        }
        let r = StateTree { version: self.version, entries };
        assert(r@.entries =~= self@.entries);
        r
    }

    /// The tree's version.
    pub fn version(&self) -> (r: u32)
        ensures
            r == self@.version,
    {
        self.version
    }

    /// The position of the entry for `id`.
    fn find_index(&self, id: ActorID) -> (r: Option<usize>)
        ensures
            match r {
                Some(i) => i as int == last_index(self@.entries, id),
                None => last_index(self@.entries, id) == -1,
            },
    {
        let ghost s = self@.entries;
        let mut i: usize = self.entries.len();
        assert(s.subrange(0, i as int) =~= s);
        while i > 0
            invariant
                i <= s.len(),
                s == self@.entries,
                s.len() == self.entries@.len(),
                last_index(s, id) == last_index(s.subrange(0, i as int), id),
            decreases i,
        {
            assert(s.subrange(0, i as int).drop_last() =~= s.subrange(0, i - 1));
            assert(s[i - 1].0 == self.entries@[i - 1].id);
            if self.entries[i - 1].id == id {
                return Some(i - 1);
            }
            i = i - 1;
        }
        None
    }

    /// The record stored for `id`, if any.
    pub fn get_actor(&self, id: ActorID) -> (r: Option<ActorState>)
        ensures
            opt_record(r) == lookup(self@.entries, id),
    {
        proof {
            lemma_last_index(self@.entries, id);
        }
        match self.find_index(id) {
            Some(i) => Some(self.entries[i].actor.copy()),
            None => None,
        }
    }

    /// Stores `actor` for `id`, replacing any earlier record for it.
    pub fn set_actor(&mut self, id: ActorID, actor: ActorState)
        ensures
            final(self)@ == (TreeView {
                version: old(self)@.version,
                entries: put(old(self)@.entries, id, actor@),
            }),
    {
        let ghost s = self@.entries;
        let ghost a = actor@;
        proof {
            lemma_last_index(s, id);
        }
        match self.find_index(id) {
            Some(i) => {
                self.entries.set(i, TreeEntry { id, actor });
                assert(self@.entries =~= s.update(i as int, (id, a)));
            },
            None => {
                self.entries.push(TreeEntry { id, actor });
                assert(self@.entries =~= s.push((id, a)));
            },
        }
    }

    /// Writes the committing block into `store` and returns the root CID.
    pub fn flush(&self, store: &mut BlockStore) -> (r: Vec<u8>)
        ensures
            r@ == root_of(self@),
            final(store)@ == old(store)@.insert(root_of(self@), tree_bytes(self@)),
    {
        let ghost s = self@.entries;
        let mut out: Vec<u8> = Vec::new();
        write_u64(&mut out, self.version as u64);
        write_u64(&mut out, self.entries.len() as u64);
        let ghost head = out@;
        let mut i: usize = 0;
        while i < self.entries.len()
            invariant
                i <= s.len(),
                s == self@.entries,
                s.len() == self.entries@.len(),
                out@ == head + entries_bytes(s.subrange(0, i as int)),
            decreases s.len() - i,
        {
            let e = &self.entries[i];
            let ghost before = out@;
            write_u64(&mut out, e.id);
            write_field(&mut out, &e.actor.code);
            write_field(&mut out, &e.actor.state);
            write_u64(&mut out, e.actor.sequence);
            write_u64(&mut out, (e.actor.balance >> 64u128) as u64);
            write_u64(&mut out, e.actor.balance as u64);
            assert(s.subrange(0, i + 1).drop_last() =~= s.subrange(0, i as int));
            assert(out@ =~= before + record_bytes(s[i as int].0, s[i as int].1));
            i = i + 1;
            assert(out@ =~= head + entries_bytes(s.subrange(0, i as int)));
        }
        assert(s.subrange(0, s.len() as int) =~= s);
        assert(out@ =~= tree_bytes(self@));
        store.put(out)
    }
}

} // verus!
