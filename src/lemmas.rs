//! Laws relating the builder, the execution handle and the wrangler.
use vstd::prelude::*;
use crate::bench::{resolved, BenchView};
use crate::builder::{
    after_builtin, after_init, after_install, after_install_manifest, after_system, built, initial_init, prepared, registry_of,
    BuilderView, INIT_ACTOR_ID, INIT_ACTOR_TYPE_ID, SYSTEM_ACTOR_ID, SYSTEM_ACTOR_TYPE_ID,
};
use crate::content::block_cid;
use crate::encoding::field;
use crate::manifest::code_of;
use crate::error::WorkbenchError;
use crate::id_map::{lemma_put_lookup, lookup, put};
use crate::registry::{
    assigned, init_bytes, init_lengths_fit, lemma_parse_init_bytes, lemma_parse_init_fits, lookup_key,
};
use crate::types::{address_key, ActorRecord, AddressView};
use crate::wrangler::{after_message, next_nonce};

verus! {

/// Two builders that differ at most in their stores, and whose stores hold
/// the same Init state for the Init record, freeze into the same state tree
/// under the same root with the same registry: the root is a function of
/// the calls made, not of what else the store holds.
pub proof fn lemma_build_deterministic(b1: BuilderView, b2: BuilderView)
    requires
        b1.config == b2.config,
        b1.tree == b2.tree,
        b1.manifest == b2.manifest,
        b1.manifest_data == b2.manifest_data,
        registry_of(b1) == registry_of(b2),
    ensures
        built(b1) is Ok <==> built(b2) is Ok,
        built(b1) matches Ok(h1) ==> built(b2) matches Ok(h2) && h1.root == h2.root && h1.tree
            == h2.tree && h1.registry == h2.registry,
        built(b1) matches Err(e) ==> built(b2) == Err::<BenchView, WorkbenchError>(e),
{
    let sys_missing = lookup(b1.tree.entries, SYSTEM_ACTOR_ID) is None;
    let (q1, s1) = if sys_missing { after_system(b1) } else { (b1, Ok(())) };
    let (q2, s2) = if sys_missing { after_system(b2) } else { (b2, Ok(())) };
    if sys_missing && s1 is Ok {
        let d = b1.manifest_data->Some_0;
        let code = code_of(b1.manifest->Some_0, SYSTEM_ACTOR_TYPE_ID)->Some_0;
        let sysrec = ActorRecord { code, state: block_cid(field(d)), sequence: 0, balance: 0 };
        lemma_put_lookup(b1.tree.entries, SYSTEM_ACTOR_ID, sysrec, INIT_ACTOR_ID);
    }
    assert(q1.tree == q2.tree && s1 == s2);
    assert(registry_of(q1) == registry_of(q2));
    if s1 is Ok && lookup(q1.tree.entries, INIT_ACTOR_ID) is None {
        let (p1, r1) = after_init(q1);
        if r1 is Ok {
            let code = code_of(q1.manifest->Some_0, INIT_ACTOR_TYPE_ID)->Some_0;
            let rec = ActorRecord { code, state: block_cid(init_bytes(initial_init())), sequence: 0, balance: 0 };
            lemma_put_lookup(q1.tree.entries, INIT_ACTOR_ID, rec, INIT_ACTOR_ID);
        }
    }
}

/// Creating a registry-assigned actor before any code is installed fails
/// with `ManifestNotLoaded` and changes nothing.
pub proof fn lemma_builtin_needs_manifest(b: BuilderView, type_id: u32, addr: AddressView, state: Seq<u8>, balance: u128)
    requires
        b.manifest is None,
    ensures
        after_builtin(b, type_id, addr, state, balance) == (b, Err::<u64, WorkbenchError>(WorkbenchError::ManifestNotLoaded)),
{
}

/// Installing code a second time fails with `AlreadyInstalled` and leaves
/// the installed manifest as it was.
pub proof fn lemma_install_once(
    b: BuilderView,
    roots: Seq<Seq<u8>>,
    metadata: Option<Seq<u8>>,
    codes: Seq<(u32, Seq<u8>)>,
    data_cid: Seq<u8>,
)
    requires
        b.manifest is Some,
    ensures
        after_install(b, roots, metadata, codes) == (b, Err::<(), WorkbenchError>(WorkbenchError::AlreadyInstalled)),
        after_install_manifest(b, codes, data_cid) == (b, Err::<(), WorkbenchError>(WorkbenchError::AlreadyInstalled)),
{
}

/// What creating a registry-assigned actor does to the registry: on
/// success the state it writes is `assigned` applied to the state it read,
/// and that state reads back from the store unchanged.
proof fn lemma_builtin_registry(b: BuilderView, type_id: u32, addr: AddressView, state: Seq<u8>, balance: u128)
    requires
        address_key(addr).len() <= u64::MAX,
    ensures
        ({
            let (b1, r) = after_builtin(b, type_id, addr, state, balance);
            r matches Ok(id) ==> registry_of(b) matches Some(init) && (id != INIT_ACTOR_ID ==> registry_of(b1)
                == Some(assigned(init, address_key(addr)).0) && assigned(init, address_key(addr)).1
                == Ok::<u64, WorkbenchError>(id) && lookup(b1.tree.entries, INIT_ACTOR_ID) is Some && (lookup(
                b.tree.entries,
                SYSTEM_ACTOR_ID,
            ) is Some ==> lookup(b1.tree.entries, SYSTEM_ACTOR_ID) is Some))
        }),
{
    let (b1, r) = after_builtin(b, type_id, addr, state, balance);
    if let Ok(id) = r {
        let rec = lookup(b.tree.entries, INIT_ACTOR_ID)->Some_0;
        let init = registry_of(b)->Some_0;
        let key = address_key(addr);
        let init2 = assigned(init, key).0;
        let enc = init_bytes(init2);
        lemma_parse_init_fits(b.store[rec.state]);
        if lookup_key(init.address_map, key) is None {
            assert forall|i: int| 0 <= i < init2.address_map.len() implies #[trigger] init2.address_map[i].0.len()
                <= u64::MAX by {
                if i < init.address_map.len() {
                    assert(init2.address_map[i] == init.address_map[i]);
                }
            }
        }
        lemma_parse_init_bytes(init2);
        let init_rec = ActorRecord { code: rec.code, state: block_cid(enc), sequence: rec.sequence, balance: rec.balance };
        let e1 = put(b.tree.entries, INIT_ACTOR_ID, init_rec);
        let m = match b.manifest { Some(m) => m, None => Seq::empty() };
        let new_rec = ActorRecord { code: code_of(m, type_id)->Some_0, state: block_cid(state), sequence: 0, balance };
        lemma_put_lookup(b.tree.entries, INIT_ACTOR_ID, init_rec, INIT_ACTOR_ID);
        lemma_put_lookup(b.tree.entries, INIT_ACTOR_ID, init_rec, SYSTEM_ACTOR_ID);
        lemma_put_lookup(e1, id, new_rec, INIT_ACTOR_ID);
        lemma_put_lookup(e1, id, new_rec, SYSTEM_ACTOR_ID);
    }
}

/// A robust address given to `create_builtin_actor` resolves, in a handle
/// built right after, to the id that the call returned, where the System
/// actor is already in place and the id is not the Init actor's own.
pub proof fn lemma_created_address_resolves(b: BuilderView, type_id: u32, addr: AddressView, state: Seq<u8>, balance: u128)
    requires
        addr is Robust,
        address_key(addr).len() <= u64::MAX,
        lookup(b.tree.entries, SYSTEM_ACTOR_ID) is Some,
    ensures
        ({
            let (b1, r) = after_builtin(b, type_id, addr, state, balance);
            r matches Ok(id) ==> (id != INIT_ACTOR_ID ==> (built(b1) matches Ok(h) && resolved(h.registry, addr)
                == Some(id)))
        }),
{
    let (b1, r) = after_builtin(b, type_id, addr, state, balance);
    lemma_builtin_registry(b, type_id, addr, state, balance);
    if let Ok(id) = r {
        if id != INIT_ACTOR_ID {
            let init = registry_of(b)->Some_0;
            let key = address_key(addr);
            if lookup_key(init.address_map, key) is None {
                let m = init.address_map.push((key, init.next_id));
                assert(m.drop_last() =~= init.address_map);
            }
            assert(prepared(b1) == (b1, Ok::<(), WorkbenchError>(())));
        }
    }
}

/// Creating a further registry-assigned actor keeps every address mapping
/// the registry already held, unless the id it hands out is the Init
/// actor's own.
pub proof fn lemma_builtin_keeps_mappings(
    b: BuilderView,
    type_id: u32,
    addr: AddressView,
    state: Seq<u8>,
    balance: u128,
    key: Seq<u8>,
    id: u64,
)
    requires
        address_key(addr).len() <= u64::MAX,
        registry_of(b) matches Some(init) && lookup_key(init.address_map, key) == Some(id),
    ensures
        ({
            let (b1, r) = after_builtin(b, type_id, addr, state, balance);
            (r matches Ok(n) ==> n != INIT_ACTOR_ID) ==> (registry_of(b1) matches Some(init2) && lookup_key(
                init2.address_map,
                key,
            ) == Some(id))
        }),
{
    lemma_builtin_registry(b, type_id, addr, state, balance);
    let init = registry_of(b)->Some_0;
    let k = address_key(addr);
    if lookup_key(init.address_map, k) is None && init.next_id != u64::MAX && init.address_map.len() < u64::MAX {
        let m = init.address_map.push((k, init.next_id));
        assert(m.drop_last() =~= init.address_map);
    }
}

/// A robust address that the builder's registry does not hold does not
/// resolve in the handle built from it, where the System actor is in place
/// or the Init actor is not.
#[verifier::rlimit(60)]
pub proof fn lemma_unregistered_unresolved(b: BuilderView, addr: AddressView)
    requires
        addr is Robust,
        registry_of(b) matches Some(init) ==> lookup_key(init.address_map, address_key(addr)) is None,
        lookup(b.tree.entries, SYSTEM_ACTOR_ID) is Some || lookup(b.tree.entries, INIT_ACTOR_ID) is None,
    ensures
        built(b) matches Ok(h) ==> resolved(h.registry, addr) is None,
{
    let (p, r) = prepared(b);
    if lookup(b.tree.entries, INIT_ACTOR_ID) is Some {
        assert(prepared(b) == (b, Ok::<(), WorkbenchError>(())));
    } else if r is Ok {
        let init = initial_init();
        assert(init_lengths_fit(init));
        lemma_parse_init_bytes(init);
        let b1 = if lookup(b.tree.entries, SYSTEM_ACTOR_ID) is None { after_system(b).0 } else { b };
        if lookup(b.tree.entries, SYSTEM_ACTOR_ID) is None {
            let d = b.manifest_data->Some_0;
            let sys_code = code_of(b.manifest->Some_0, SYSTEM_ACTOR_TYPE_ID)->Some_0;
            let sysrec = ActorRecord { code: sys_code, state: block_cid(field(d)), sequence: 0, balance: 0 };
            lemma_put_lookup(b.tree.entries, SYSTEM_ACTOR_ID, sysrec, INIT_ACTOR_ID);
        }
        let code = code_of(b.manifest->Some_0, INIT_ACTOR_TYPE_ID)->Some_0;
        let rec = ActorRecord { code, state: block_cid(init_bytes(init)), sequence: 0, balance: 0 };
        lemma_put_lookup(b1.tree.entries, INIT_ACTOR_ID, rec, INIT_ACTOR_ID);
        assert(p == after_init(b1).0);
        assert(lookup(p.tree.entries, INIT_ACTOR_ID) == Some(rec));
        assert(p.store[rec.state] == init_bytes(init));
        assert(registry_of(p) == Some(init));
        assert(lookup_key(init.address_map, address_key(addr)) is None);
    }
}

/// A message to an address that does not resolve is refused before it is
/// built, and the sender's sequence number is left as it was.
pub proof fn lemma_unresolvable_recipient(nonces: Seq<(u64, u64)>, bench: BenchView, from: AddressView, to: AddressView)
    requires
        resolved(bench.registry, to) is None,
    ensures
        after_message(nonces, bench, from, to) == (nonces, Err::<(u64, u64), WorkbenchError>(WorkbenchError::AddressUnresolvable)),
{
}

/// Each message built for a sender advances its next sequence number by
/// exactly one: after messages to `tos`, in order, it has grown by the
/// number of messages.
pub proof fn lemma_sequence_counts_messages(
    bench: BenchView,
    from: AddressView,
    id: u64,
    n0: u64,
    tos: Seq<AddressView>,
    states: Seq<Seq<(u64, u64)>>,
)
    requires
        resolved(bench.registry, from) == Some(id),
        next_nonce(states[0], bench, id) == Some(n0),
        states.len() == tos.len() + 1,
        forall|i: int|
            0 <= i < tos.len() ==> (#[trigger] after_message(states[i], bench, from, tos[i])).1 is Ok
                && states[i + 1] == after_message(states[i], bench, from, tos[i]).0,
    ensures
        next_nonce(states.last(), bench, id) matches Some(n) && n == n0 + tos.len(),
    decreases tos.len(),
{
    if tos.len() > 0 {
        let k = tos.len() - 1;
        let ss = states.drop_last();
        let ts = tos.drop_last();
        assert forall|i: int| 0 <= i < ts.len() implies (#[trigger] after_message(ss[i], bench, from, ts[i])).1 is Ok
            && ss[i + 1] == after_message(ss[i], bench, from, ts[i]).0 by {
            assert(ss[i] == states[i] && ts[i] == tos[i] && ss[i + 1] == states[i + 1]);
            assert(after_message(states[i], bench, from, tos[i]).1 is Ok);
        }
        assert(ss[0] == states[0]);
        lemma_sequence_counts_messages(bench, from, id, n0, ts, ss);
        let s = states[k];
        assert(ss.last() == s);
        assert(after_message(states[k], bench, from, tos[k]).1 is Ok);
        let n = next_nonce(s, bench, id)->Some_0;
        assert(states[k + 1] == put(s, id, (n + 1) as u64));
        lemma_put_lookup(s, id, (n + 1) as u64, id);
        assert(states.last() == states[k + 1]);
    } else {
        assert(states.last() == states[0]);
    }
}

} // verus!
