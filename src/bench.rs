//! The execution handle: a frozen bootstrap state, its root, and the
//! lookups that message construction needs.
use vstd::prelude::*;
use crate::content::BlockStore;
use crate::id_map::lookup;
use crate::registry::{lookup_key, InitState, InitView};
use crate::state_tree::{StateTree, TreeView};
use crate::types::{address_key, opt_record, ActorID, ActorState, Address, AddressView, MachineConfig};

verus! {

/// The abstract value of an execution handle.
pub struct BenchView {
    pub config: MachineConfig,
    pub root: Seq<u8>,
    pub tree: TreeView,
    pub registry: InitView,
    pub store: Map<Seq<u8>, Seq<u8>>,
}

/// The id that `addr` resolves to against `registry`: an id address names
/// its id; a robust one is looked up.
pub open spec fn resolved(registry: InitView, addr: AddressView) -> Option<u64> {
    match addr {
        AddressView::Id(n) => Some(n),
        AddressView::Robust(_) => lookup_key(registry.address_map, address_key(addr)),
    }
}

/// A frozen bootstrap state, ready for message execution.
pub struct Bench {
    config: MachineConfig,
    root: Vec<u8>,
    tree: StateTree,
    registry: InitState,
    store: BlockStore,
}

impl View for Bench {
    type V = BenchView;

    closed spec fn view(&self) -> BenchView {
        BenchView {
            config: self.config,
            root: self.root@,
            tree: self.tree@,
            registry: self.registry@,
            store: self.store@,
        }
    }
}

impl Bench {
    pub(crate) fn new(config: MachineConfig, root: Vec<u8>, tree: StateTree, registry: InitState, store: BlockStore) -> (r: Bench)
        ensures
            r@ == (BenchView { config, root: root@, tree: tree@, registry: registry@, store: store@ }),
    {
        Bench { config, root, tree, registry, store }
    }

    /// The machine's configuration.
    pub fn config(&self) -> (r: MachineConfig)
        ensures
            r == self@.config,
    {
        self.config
    }

    /// The root CID of the frozen state tree.
    pub fn state_root(&self) -> (r: &Vec<u8>)
        ensures
            r@ == self@.root,
    {
        &self.root
    }

    /// The machine's epoch, fixed for its lifetime.
    pub fn epoch(&self) -> (r: i64)
        ensures
            r == self@.config.epoch,
    {
        self.config.epoch
    }

    /// The store that holds the frozen state's blocks.
    pub fn store(&self) -> (r: &BlockStore)
        ensures
            r@ == self@.store,
    {
        &self.store
    }

    /// The actor record at `id`, or `None` where there is none.
    pub fn find_actor(&self, id: ActorID) -> (r: Option<ActorState>)
        ensures
            opt_record(r) == lookup(self@.tree.entries, id),
    {
        self.tree.get_actor(id)
    }

    /// The actor id that `addr` denotes, or `None` where it cannot be resolved.
    pub fn resolve_address(&self, addr: &Address) -> (r: Option<ActorID>)
        ensures
            r == resolved(self@.registry, addr@),
    {
        match addr {
            Address::Id(n) => Some(*n),
            Address::Robust(_) => self.registry.resolve_key(&addr.key_bytes()),
        }
    }
}

} // verus!
