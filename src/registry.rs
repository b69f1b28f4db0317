//! The Init actor's state: the registry that maps addresses to actor ids and
//! hands out new ids.
use vstd::prelude::*;
use crate::encoding::{be64, bytes_eq, copy_bytes, field, lemma_u64_of_be64, read_u64, u64_of, write_field, write_u64};
use crate::error::WorkbenchError;
use crate::types::ActorID;

verus! {

/// The id registered for `key`; a later entry shadows an earlier one.
pub open spec fn lookup_key(m: Seq<(Seq<u8>, u64)>, key: Seq<u8>) -> Option<u64>
    decreases m.len(),
{
    if m.len() == 0 {
        None
    } else if m.last().0 == key {
        Some(m.last().1)
    } else {
        lookup_key(m.drop_last(), key)
    }
}

/// The abstract value of the Init actor's state.
pub struct InitView {
    pub address_map: Seq<(Seq<u8>, u64)>,
    pub next_id: u64,
    pub network_name: Seq<u8>,
}

/// The registry after `key` is mapped to an id, and that id: an existing
/// mapping is returned as it stands; otherwise `next_id` is assigned and
/// advanced.
pub open spec fn assigned(v: InitView, key: Seq<u8>) -> (InitView, Result<u64, WorkbenchError>) {
    match lookup_key(v.address_map, key) {
        Some(id) => (v, Ok(id)),
        None => if v.next_id == u64::MAX || v.address_map.len() >= u64::MAX {
            (v, Err(WorkbenchError::IdSpaceExhausted))
        } else {
            (
                InitView {
                    address_map: v.address_map.push((key, v.next_id)),
                    next_id: (v.next_id + 1) as u64,
                    network_name: v.network_name,
                },
                Ok(v.next_id),
            )
        },
    }
}

/// Bytes of the registry's entries, in order.
pub open spec fn map_bytes(m: Seq<(Seq<u8>, u64)>) -> Seq<u8>
    decreases m.len(),
{
    if m.len() == 0 {
        Seq::empty()
    } else {
        map_bytes(m.drop_last()) + field(m.last().0) + be64(m.last().1)
    }
}

/// The stored form of the Init actor's state.
pub open spec fn init_bytes(v: InitView) -> Seq<u8> {
    field(v.network_name) + be64(v.next_id) + be64(v.address_map.len() as u64) + map_bytes(
        v.address_map,
    )
}

/// The length-prefixed byte string at `pos`, and the position after it.
pub open spec fn parse_field(s: Seq<u8>, pos: int) -> Option<(Seq<u8>, int)> {
    if 0 <= pos && pos + 8 <= s.len() {
        let n = u64_of(s.subrange(pos, pos + 8));
        if pos + 8 + n <= s.len() {
            Some((s.subrange(pos + 8, pos + 8 + n), pos + 8 + n))
        } else {
            None
        }
    } else {
        None
    }
}

/// The big-endian integer at `pos`, and the position after it.
pub open spec fn parse_u64(s: Seq<u8>, pos: int) -> Option<(u64, int)> {
    if 0 <= pos && pos + 8 <= s.len() {
        Some((u64_of(s.subrange(pos, pos + 8)), pos + 8))
    } else {
        None
    }
}

/// `count` registry entries read from `pos` on, appended to `acc`, and the
/// position after them.
pub open spec fn parse_entries(s: Seq<u8>, pos: int, count: nat, acc: Seq<(Seq<u8>, u64)>) -> Option<(Seq<(Seq<u8>, u64)>, int)>
    decreases count,
{
    if count == 0 {
        Some((acc, pos))
    } else {
        match parse_field(s, pos) {
            None => None,
            Some((k, p1)) => match parse_u64(s, p1) {
                None => None,
                Some((id, p2)) => parse_entries(s, p2, (count - 1) as nat, acc.push((k, id))),
            },
        }
    }
}

/// The Init actor's state that `s` stores, if `s` is exactly the stored
/// form of one.
pub open spec fn parse_init(s: Seq<u8>) -> Option<InitView> {
    match parse_field(s, 0) {
        None => None,
        Some((name, p1)) => match parse_u64(s, p1) {
            None => None,
            Some((next_id, p2)) => match parse_u64(s, p2) {
                None => None,
                Some((count, p3)) => match parse_entries(s, p3, count as nat, Seq::empty()) {
                    None => None,
                    Some((m, end)) => if end == s.len() {
                        Some(InitView { address_map: m, next_id, network_name: name })
                    } else {
                        None
                    },
                },
            },
        },
    }
}

/// Every length in the state fits the eight bytes that store it.
pub open spec fn init_lengths_fit(v: InitView) -> bool {
    &&& v.network_name.len() <= u64::MAX
    &&& v.address_map.len() <= u64::MAX
    &&& forall|i: int| 0 <= i < v.address_map.len() ==> #[trigger] v.address_map[i].0.len() <= u64::MAX
}

/// The encoding of a prefix of the entries is a prefix of theirs.
proof fn lemma_map_bytes_prefix(m: Seq<(Seq<u8>, u64)>, j: int)
    requires
        0 <= j <= m.len(),
    ensures
        map_bytes(m.subrange(0, j)).len() <= map_bytes(m).len(),
        map_bytes(m).subrange(0, map_bytes(m.subrange(0, j)).len() as int) == map_bytes(m.subrange(0, j)),
    decreases m.len(),
{
    if j == m.len() {
        assert(m.subrange(0, j) =~= m);
        assert(map_bytes(m).subrange(0, map_bytes(m).len() as int) =~= map_bytes(m));
    } else {
        let d = m.drop_last();
        assert(m.subrange(0, j) =~= d.subrange(0, j));
        lemma_map_bytes_prefix(d, j);
        let a = map_bytes(m.subrange(0, j));
        assert(map_bytes(m) == map_bytes(d) + field(m.last().0) + be64(m.last().1));
        assert(map_bytes(m).subrange(0, a.len() as int) =~= map_bytes(d).subrange(0, a.len() as int));
    }
}

/// Reading the entries back from where their encoding sits in `s`.
#[verifier::rlimit(60)]
proof fn lemma_parse_entries(s: Seq<u8>, base: int, m: Seq<(Seq<u8>, u64)>, k: int)
    requires
        0 <= k <= m.len(),
        0 <= base,
        base + map_bytes(m).len() <= s.len(),
        s.subrange(base, base + map_bytes(m).len()) == map_bytes(m),
        forall|i: int| 0 <= i < m.len() ==> #[trigger] m[i].0.len() <= u64::MAX,
    ensures
        parse_entries(s, base + map_bytes(m.subrange(0, k)).len(), (m.len() - k) as nat, m.subrange(0, k))
            == Some((m, base + map_bytes(m).len())),
    decreases m.len() - k,
{
    if k == m.len() {
        assert(m.subrange(0, k) =~= m);
    } else {
        let mk = map_bytes(m.subrange(0, k));
        let key = m[k].0;
        let id = m[k].1;
        assert(m.subrange(0, k + 1).drop_last() =~= m.subrange(0, k));
        let mk1 = map_bytes(m.subrange(0, k + 1));
        assert(mk1 == mk + field(key) + be64(id));
        lemma_map_bytes_prefix(m, k + 1);
        let mb = map_bytes(m);
        let pos = base + mk.len();
        let t = s.subrange(base, base + mk1.len());
        assert forall|i: int| 0 <= i < mk1.len() implies #[trigger] t[i] == mk1[i] by {
            assert(s.subrange(base, base + mb.len())[i] == mb[i]);
            assert(mb.subrange(0, mk1.len() as int)[i] == mb[i]);
        }
        assert(t =~= mk1);
        let p1 = pos + 8 + key.len();
        let a = mk.len() as int;
        assert(s.subrange(pos, pos + 8) =~= t.subrange(a, a + 8));
        assert(t.subrange(a, a + 8) =~= be64(key.len() as u64));
        assert(s.subrange(pos + 8, p1) =~= t.subrange(a + 8, a + 8 + key.len()));
        assert(t.subrange(a + 8, a + 8 + key.len()) =~= key);
        assert(s.subrange(p1, p1 + 8) =~= t.subrange(a + 8 + key.len(), a + 16 + key.len()));
        assert(t.subrange(a + 8 + key.len(), a + 16 + key.len()) =~= be64(id));
        lemma_u64_of_be64(key.len() as u64);
        lemma_u64_of_be64(id);
        assert(parse_field(s, pos) == Some((key, p1)));
        assert(parse_u64(s, p1) == Some((id, p1 + 8)));
        assert(base + mk1.len() == p1 + 8);
        assert(m.subrange(0, k).push((key, id)) =~= m.subrange(0, k + 1));
        lemma_parse_entries(s, base, m, k + 1);
    }
}

/// Entries read from bytes extend the accumulated ones by `count`, and each
/// key's length came from eight bytes.
proof fn lemma_parse_entries_fit(s: Seq<u8>, pos: int, count: nat, acc: Seq<(Seq<u8>, u64)>)
    requires
        forall|i: int| 0 <= i < acc.len() ==> #[trigger] acc[i].0.len() <= u64::MAX,
    ensures
        parse_entries(s, pos, count, acc) matches Some((m, _)) ==> m.len() == acc.len() + count && forall|i: int|
            0 <= i < m.len() ==> #[trigger] m[i].0.len() <= u64::MAX,
    decreases count,
{
    if count > 0 {
        if let Some((k, p1)) = parse_field(s, pos) {
            if let Some((id, p2)) = parse_u64(s, p1) {
                let acc2 = acc.push((k, id));
                assert forall|i: int| 0 <= i < acc2.len() implies #[trigger] acc2[i].0.len() <= u64::MAX by {
                    if i < acc.len() {
                        assert(acc2[i] == acc[i]);
                    }
                }
                lemma_parse_entries_fit(s, p2, (count - 1) as nat, acc2);
            }
        }
    }
}

/// A state read from bytes has lengths that fit their eight bytes.
pub proof fn lemma_parse_init_fits(s: Seq<u8>)
    ensures
        parse_init(s) matches Some(v) ==> init_lengths_fit(v),
{
    if let Some((name, p1)) = parse_field(s, 0) {
        if let Some((next_id, p2)) = parse_u64(s, p1) {
            if let Some((count, p3)) = parse_u64(s, p2) {
                lemma_parse_entries_fit(s, p3, count as nat, Seq::empty());
            }
        }
    }
}

/// Reading back the stored form of a state gives that state.
#[verifier::rlimit(40)]
pub proof fn lemma_parse_init_bytes(v: InitView)
    requires
        init_lengths_fit(v),
    ensures
        parse_init(init_bytes(v)) == Some(v),
{
    let s = init_bytes(v);
    let name = v.network_name;
    let n: int = name.len() as int;
    let mb = map_bytes(v.address_map);
    assert(s == be64(n as u64) + name + be64(v.next_id) + be64(v.address_map.len() as u64) + mb);
    assert(s.subrange(0, 8) =~= be64(n as u64));
    lemma_u64_of_be64(n as u64);
    assert(s.subrange(8, 8 + n) =~= name);
    assert(s.subrange(8 + n, 16 + n) =~= be64(v.next_id));
    lemma_u64_of_be64(v.next_id);
    assert(s.subrange(16 + n, 24 + n) =~= be64(v.address_map.len() as u64));
    lemma_u64_of_be64(v.address_map.len() as u64);
    assert(s.subrange(24 + n, 24 + n + mb.len() as int) =~= mb);
    assert(v.address_map.subrange(0, 0) =~= Seq::<(Seq<u8>, u64)>::empty());
    assert(parse_field(s, 0) == Some((name, 8 + n)));
    assert(parse_u64(s, 8 + n) == Some((v.next_id, 16 + n)));
    assert(parse_u64(s, 16 + n) == Some((v.address_map.len() as u64, 24 + n)));
    lemma_parse_entries(s, 24 + n, v.address_map, 0);
    assert(s.len() == 24 + n + mb.len());
}

/// The length-prefixed byte string at `pos`, and the position after it.
fn read_field(b: &Vec<u8>, pos: usize) -> (r: Option<(Vec<u8>, usize)>)
    ensures
        match r {
            Some((v, p)) => parse_field(b@, pos as int) == Some((v@, p as int)) && p <= b@.len(),
            None => parse_field(b@, pos as int) is None,
        },
{
    if pos > b.len() || b.len() - pos < 8 {
        return None;
    }
    let n = read_u64(b, pos);
    let start = pos + 8;
    if n > (b.len() - start) as u64 {
        return None;
    }
    let end = start + n as usize;
    let mut v: Vec<u8> = Vec::new();
    let mut i: usize = start;
    while i < end
        invariant
            start <= i <= end,
            end <= b@.len(),
            v@ == b@.subrange(start as int, i as int),
        decreases end - i,
    {
        v.push(b[i]);
        i = i + 1;
        assert(v@ =~= b@.subrange(start as int, i as int));
    }
    Some((v, end))
}

/// One registry entry.
pub struct RegistryEntry {
    pub key: Vec<u8>,
    pub id: ActorID,
}

/// The Init actor's state.
pub struct InitState {
    address_map: Vec<RegistryEntry>,
    next_id: ActorID,
    network_name: Vec<u8>,
}

impl View for InitState {
    type V = InitView;

    closed spec fn view(&self) -> InitView {
        InitView {
            address_map: self.address_map@.map_values(|e: RegistryEntry| (e.key@, e.id)),
            next_id: self.next_id,
            network_name: self.network_name@,
        }
    }
}

impl InitState {
    /// An empty registry that hands out ids from `next_id` on.
    pub fn new(next_id: ActorID, network_name: Vec<u8>) -> (r: InitState)
        ensures
            r@ == (InitView { address_map: Seq::empty(), next_id, network_name: network_name@ }),
    {
        let r = InitState { address_map: Vec::new(), next_id, network_name };
        assert(r@.address_map =~= Seq::<(Seq<u8>, u64)>::empty());
        r
    }

    /// An independent registry with the same contents.
    pub fn copy(&self) -> (r: InitState)
        ensures
            r@ == self@,
    {
        let mut address_map: Vec<RegistryEntry> = Vec::new();
        let mut i: usize = 0;
        while i < self.address_map.len()
            invariant
                i <= self.address_map@.len(),
                address_map@.len() == i,
                forall|j: int|
                    0 <= j < i ==> address_map@[j].key@ == self.address_map@[j].key@
                        && address_map@[j].id == self.address_map@[j].id,
            decreases self.address_map@.len() - i,
        {
            let e = &self.address_map[i];
            address_map.push(RegistryEntry { key: copy_bytes(&e.key), id: e.id });
            i = i + 1;
        }
        let r = InitState { address_map, next_id: self.next_id, network_name: copy_bytes(&self.network_name) };
        assert(r@.address_map =~= self@.address_map);
        r
    }

    /// The next id to be handed out.
    pub fn next_id(&self) -> (r: ActorID)
        ensures
            r == self@.next_id,
    {
        self.next_id
    }

    /// The id registered for `key`, if any.
    pub fn resolve_key(&self, key: &Vec<u8>) -> (r: Option<ActorID>)
        ensures
            r == lookup_key(self@.address_map, key@),
    {
        let ghost m = self@.address_map;
        let mut i: usize = self.address_map.len();
        assert(m.subrange(0, i as int) =~= m);
        while i > 0
            invariant
                i <= m.len(),
                m == self@.address_map,
                m.len() == self.address_map@.len(),
                lookup_key(m, key@) == lookup_key(m.subrange(0, i as int), key@),
            decreases i,
        {
            assert(m.subrange(0, i as int).drop_last() =~= m.subrange(0, i - 1));
            assert(m[i - 1] == (self.address_map@[i - 1].key@, self.address_map@[i - 1].id));
            if bytes_eq(&self.address_map[i - 1].key, key) {
                return Some(self.address_map[i - 1].id);
            }
            i = i - 1;
        }
        None
    }

    /// Maps `key` to an id: the registered one, or else a new one taken from
    /// `next_id`, which then advances.
    pub fn map_address_to_new_id(&mut self, key: &Vec<u8>) -> (r: Result<ActorID, WorkbenchError>)
        ensures
            (final(self)@, r) == assigned(old(self)@, key@),
    {
        match self.resolve_key(key) {
            Some(id) => Ok(id),
            None => {
                if self.next_id == u64::MAX || self.address_map.len() as u64 == u64::MAX {
                    return Err(WorkbenchError::IdSpaceExhausted);
                }
                let id = self.next_id;
                let ghost m = self@.address_map;
                self.address_map.push(RegistryEntry { key: copy_bytes(key), id });
                self.next_id = id + 1;
                assert(self@.address_map =~= m.push((key@, id)));
                Ok(id)
            },
        }
    }

    /// The state that `bytes` stores, if it is exactly the stored form of one.
    pub fn decode(bytes: &Vec<u8>) -> (r: Option<InitState>)
        ensures
            match r {
                Some(st) => parse_init(bytes@) == Some(st@),
                None => parse_init(bytes@) is None,
            },
    {
        let ghost s = bytes@;
        let (network_name, p1) = match read_field(bytes, 0) {
            None => return None,
            Some(x) => x,
        };
        if bytes.len() < 8 || p1 > bytes.len() - 8 {
            return None;
        }
        let next_id = read_u64(bytes, p1);
        let p2 = p1 + 8;
        if p2 > bytes.len() - 8 {
            return None;
        }
        let count = read_u64(bytes, p2);
        let mut pos = p2 + 8;
        let mut address_map: Vec<RegistryEntry> = Vec::new();
        let mut i: u64 = 0;
        assert(address_map@.map_values(|e: RegistryEntry| (e.key@, e.id)) =~= Seq::<(Seq<u8>, u64)>::empty());
        while i < count
            invariant
                s == bytes@,
                parse_field(s, 0) == Some((network_name@, p1 as int)),
                parse_u64(s, p1 as int) == Some((next_id, p2 as int)),
                parse_u64(s, p2 as int) == Some((count, p2 + 8)),
                i <= count,
                pos <= s.len(),
                parse_entries(s, p2 + 8, count as nat, Seq::empty()) == parse_entries(
                    s,
                    pos as int,
                    (count - i) as nat,
                    address_map@.map_values(|e: RegistryEntry| (e.key@, e.id)),
                ),
            decreases count - i,
        {
            let ghost acc = address_map@.map_values(|e: RegistryEntry| (e.key@, e.id));
            let (key, q1) = match read_field(bytes, pos) {
                None => return None,
                Some(x) => x,
            };
            if q1 > bytes.len() - 8 {
                return None;
            }
            let id = read_u64(bytes, q1);
            address_map.push(RegistryEntry { key, id });
            assert(address_map@.map_values(|e: RegistryEntry| (e.key@, e.id)) =~= acc.push(
                (s.subrange(pos + 8, q1 as int), id),
            ));
            pos = q1 + 8;
            i = i + 1;
        }
        if pos != bytes.len() {
            return None;
        }
        let r = InitState { address_map, next_id, network_name };
        Some(r)
    }

    /// The stored form of this state.
    pub fn encode(&self) -> (r: Vec<u8>)
        ensures
            r@ == init_bytes(self@),
    {
        let ghost m = self@.address_map;
        let mut out: Vec<u8> = Vec::new();
        write_field(&mut out, &self.network_name);
        write_u64(&mut out, self.next_id);
        write_u64(&mut out, self.address_map.len() as u64);
        let ghost head = out@;
        let mut i: usize = 0;
        while i < self.address_map.len()
            invariant
                i <= m.len(),
                m == self@.address_map,
                m.len() == self.address_map@.len(),
                out@ == head + map_bytes(m.subrange(0, i as int)),
            decreases m.len() - i,
        {
            write_field(&mut out, &self.address_map[i].key);
            write_u64(&mut out, self.address_map[i].id);
            assert(m.subrange(0, i + 1).drop_last() =~= m.subrange(0, i as int));
            i = i + 1;
            assert(out@ =~= head + map_bytes(m.subrange(0, i as int)));
        }
        assert(m.subrange(0, m.len() as int) =~= m);
        assert(out@ =~= init_bytes(self@));
        out
    }
}

} // verus!
