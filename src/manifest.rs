//! The code manifest: built-in type id to code CID.
use vstd::prelude::*;
use crate::encoding::copy_bytes;

verus! {

/// The code of type id `type_id`; a later entry shadows an earlier one.
pub open spec fn code_of(m: Seq<(u32, Seq<u8>)>, type_id: u32) -> Option<Seq<u8>>
    decreases m.len(),
{
    if m.len() == 0 {
        None
    } else if m.last().0 == type_id {
        Some(m.last().1)
    } else {
        code_of(m.drop_last(), type_id)
    }
}

/// One manifest entry: a built-in type id and its code CID.
pub struct CodeEntry {
    pub type_id: u32,
    pub code: Vec<u8>,
}

/// What a list of manifest entries holds.
pub open spec fn entries_view(e: Seq<CodeEntry>) -> Seq<(u32, Seq<u8>)> {
    e.map_values(|c: CodeEntry| (c.type_id, c.code@))
}

/// A code manifest.
pub struct CodeManifest {
    entries: Vec<CodeEntry>,
}

impl View for CodeManifest {
    type V = Seq<(u32, Seq<u8>)>;

    closed spec fn view(&self) -> Seq<(u32, Seq<u8>)> {
        entries_view(self.entries@)
    }
}

impl CodeManifest {
    /// A manifest holding `entries`.
    pub fn new(entries: Vec<CodeEntry>) -> (r: CodeManifest)
        ensures
            r@ == entries_view(entries@),
    {
        CodeManifest { entries }
    }

    /// The code CID of a type id.
    pub fn code_by_id(&self, type_id: u32) -> (r: Option<Vec<u8>>)
        ensures
            crate::types::opt_bytes(r) == code_of(self@, type_id),
    {
        let ghost m = self@;
        let mut i: usize = self.entries.len();
        assert(m.subrange(0, i as int) =~= m);
        while i > 0
            invariant
                i <= m.len(),
                m == self@,
                m.len() == self.entries@.len(),
                code_of(m, type_id) == code_of(m.subrange(0, i as int), type_id),
            decreases i,
        {
            assert(m.subrange(0, i as int).drop_last() =~= m.subrange(0, i - 1));
            assert(m[i - 1] == (self.entries@[i - 1].type_id, self.entries@[i - 1].code@));
            if self.entries[i - 1].type_id == type_id {
                return Some(copy_bytes(&self.entries[i - 1].code));
            }
            i = i - 1;
        }
        None
    }
}

} // verus!
