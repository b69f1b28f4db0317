//! The execution wrangler: builds messages for senders, tracking each
//! sender's next sequence number across calls.
use vstd::prelude::*;
use crate::bench::{resolved, Bench, BenchView};
use crate::error::WorkbenchError;
use crate::id_map::{last_index, lemma_last_index, lookup, put};
use crate::types::{ActorID, Address, AddressView, Message, TokenAmount};

verus! {

/// Gas limit of the messages the wrangler builds.
pub const DEFAULT_GAS_LIMIT: i64 = 10_000_000_000;
/// Gas premium of the messages the wrangler builds.
pub const DEFAULT_GAS_PREMIUM: u128 = 0;

/// The sequence number that the next message from actor `id` carries: the
/// number recorded for it, or else the actor's sequence in the frozen state.
pub open spec fn next_nonce(nonces: Seq<(u64, u64)>, bench: BenchView, id: u64) -> Option<u64> {
    match lookup(nonces, id) {
        Some(n) => Some(n),
        None => match lookup(bench.tree.entries, id) {
            Some(rec) => Some(rec.sequence),
            None => None,
        },
    }
}

/// Outcome of building a message from `from` to `to`: the recorded
/// sequence numbers afterwards, and the sender's id and the message's
/// sequence number.
pub open spec fn after_message(nonces: Seq<(u64, u64)>, bench: BenchView, from: AddressView, to: AddressView) -> (Seq<(u64, u64)>, Result<(u64, u64), WorkbenchError>) {
    match resolved(bench.registry, from) {
        None => (nonces, Err(WorkbenchError::AddressUnresolvable)),
        Some(id) => if resolved(bench.registry, to) is None {
            (nonces, Err(WorkbenchError::AddressUnresolvable))
        } else {
            match next_nonce(nonces, bench, id) {
                None => (nonces, Err(WorkbenchError::ActorNotFound)),
                Some(n) => if n == u64::MAX {
                    (nonces, Err(WorkbenchError::NonceExhausted))
                } else {
                    (put(nonces, id, (n + 1) as u64), Ok((id, n)))
                },
            }
        },
    }
}

/// The next sequence number recorded for one sender.
pub struct NonceEntry {
    pub id: ActorID,
    pub next: u64,
}

/// Builds messages and keeps each sender's next sequence number.
pub struct ExecutionWrangler {
    nonces: Vec<NonceEntry>,
}

impl View for ExecutionWrangler {
    type V = Seq<(u64, u64)>;

    closed spec fn view(&self) -> Seq<(u64, u64)> {
        self.nonces@.map_values(|e: NonceEntry| (e.id, e.next))
    }
}

impl ExecutionWrangler {
    /// A wrangler that tracks no sender yet.
    pub fn new_default() -> (r: ExecutionWrangler)
        ensures
            r@ == Seq::<(u64, u64)>::empty(),
    {
        let r = ExecutionWrangler { nonces: Vec::new() };
        assert(r@ =~= Seq::<(u64, u64)>::empty());
        r
    }

    /// The position of the entry for `id`.
    fn find_index(&self, id: ActorID) -> (r: Option<usize>)
        ensures
            match r {
                Some(i) => i as int == last_index(self@, id),
                None => last_index(self@, id) == -1,
            },
    {
        let ghost s = self@;
        let mut i: usize = self.nonces.len();
        assert(s.subrange(0, i as int) =~= s);
        while i > 0
            invariant
                i <= s.len(),
                s == self@,
                s.len() == self.nonces@.len(),
                last_index(s, id) == last_index(s.subrange(0, i as int), id),
            decreases i,
        {
            assert(s.subrange(0, i as int).drop_last() =~= s.subrange(0, i - 1));
            assert(s[i - 1].0 == self.nonces@[i - 1].id);
            if self.nonces[i - 1].id == id {
                return Some(i - 1);
            }
            i = i - 1;
        }
        None
    }

    /// The next sequence number recorded for actor `id`, if any.
    pub fn known_nonce(&self, id: ActorID) -> (r: Option<u64>)
        ensures
            r == lookup(self@, id),
    {
        proof {
            lemma_last_index(self@, id);
        }
        match self.find_index(id) {
            Some(i) => Some(self.nonces[i].next),
            None => None,
        }
    }

    fn set_nonce(&mut self, id: ActorID, next: u64)
        ensures
            final(self)@ == put(old(self)@, id, next),
    {
        let ghost s = self@;
        proof {
            lemma_last_index(s, id);
        }
        match self.find_index(id) {
            Some(i) => {
                self.nonces.set(i, NonceEntry { id, next });
                assert(self@ =~= s.update(i as int, (id, next)));
            },
            None => {
                self.nonces.push(NonceEntry { id, next });
                assert(self@ =~= s.push((id, next)));
            },
        }
    }

    /// The sequence number that the next message from `from` would carry.
    pub fn next_sequence(&self, bench: &Bench, from: &Address) -> (r: Option<u64>)
        ensures
            r == (match resolved(bench@.registry, from@) {
                Some(id) => next_nonce(self@, bench@, id),
                None => None::<u64>,
            }),
    {
        match bench.resolve_address(from) {
            None => None,
            Some(id) => match self.known_nonce(id) {
                Some(n) => Some(n),
                None => match bench.find_actor(id) {
                    Some(a) => Some(a.sequence),
                    None => None,
                },
            },
        }
    }

    /// Builds a message from `from` to `to` carrying the sender's next
    /// sequence number, the default gas limit and premium, and the machine's
    /// base fee as fee cap; then advances the sender's recorded sequence
    /// number by one, whatever the message's execution will yield. Fails,
    /// building nothing, where either address does not resolve.
    pub fn next_message(
        &mut self,
        bench: &Bench,
        from: &Address,
        to: &Address,
        method_num: u64,
        params: Vec<u8>,
        value: TokenAmount,
    ) -> (r: Result<Message, WorkbenchError>)
        ensures
            ({
                let (t, res) = after_message(old(self)@, bench@, from@, to@);
                &&& final(self)@ == t
                &&& match r {
                    Ok(m) => res matches Ok((id, n)) && m.sequence == n && m.from@ == from@
                        && m.to@ == to@ && m.version == 0 && m.method_num == method_num
                        && m.params@ == params@ && m.value == value && m.gas_limit
                        == DEFAULT_GAS_LIMIT && m.gas_fee_cap == bench@.config.base_fee
                        && m.gas_premium == DEFAULT_GAS_PREMIUM,
                    Err(e) => res == Err::<(u64, u64), WorkbenchError>(e),
                }
            }),
    {
        let id = match bench.resolve_address(from) {
            None => return Err(WorkbenchError::AddressUnresolvable),
            Some(id) => id,
        };
        match bench.resolve_address(to) {
            None => return Err(WorkbenchError::AddressUnresolvable),
            Some(_) => {},
        }
        let n = match self.known_nonce(id) {
            Some(n) => n,
            None => match bench.find_actor(id) {
                Some(a) => a.sequence,
                None => return Err(WorkbenchError::ActorNotFound),
            },
        };
        if n == u64::MAX {
            return Err(WorkbenchError::NonceExhausted);
        }
        self.set_nonce(id, n + 1);
        Ok(
            Message {
                version: 0,
                from: from.copy(),
                to: to.copy(),
                sequence: n,
                value,
                method_num,
                params,
                gas_limit: DEFAULT_GAS_LIMIT,
                gas_fee_cap: bench.config().base_fee,
                gas_premium: DEFAULT_GAS_PREMIUM,
            },
        )
    }
}

} // verus!
