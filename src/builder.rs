//! The builder: installs built-in actor code, creates the bootstrap actors,
//! and freezes the state tree into an execution handle.
//!
//! Creating a registry-assigned actor writes two records, the Init actor's
//! updated registry and then the new actor. Every check that can fail is made
//! before the first write, so either both writes happen or neither does.
use vstd::prelude::*;
use crate::bench::{Bench, BenchView};
use crate::content::{block_cid, BlockStore};
use crate::encoding::{copy_bytes, field, write_field};
use crate::error::WorkbenchError;
use crate::id_map::lookup;
use crate::manifest::{code_of, entries_view, CodeEntry, CodeManifest};
use crate::registry::{assigned, init_bytes, parse_init, InitState, InitView};
use crate::state_tree::{root_of, tree_bytes, StateTree, TreeView};
use crate::types::{address_key, ActorID, ActorRecord, ActorState, Address, AddressView, MachineConfig, TokenAmount};

verus! {

/// Well-known id of the System actor.
pub const SYSTEM_ACTOR_ID: u64 = 0;
/// Well-known id of the Init actor.
pub const INIT_ACTOR_ID: u64 = 1;
/// Manifest type id of the System actor's code.
pub const SYSTEM_ACTOR_TYPE_ID: u32 = 1;
/// Manifest type id of the Init actor's code.
pub const INIT_ACTOR_TYPE_ID: u32 = 2;
/// Manifest type id of the account actor's code.
pub const ACCOUNT_ACTOR_TYPE_ID: u32 = 4;
/// The first id that the Init actor hands out; lower ids are reserved.
pub const FIRST_ASSIGNED_ID: u64 = 100;
/// Base fee of a new builder's machine, in atto.
pub const DEFAULT_BASE_FEE: u128 = 100;
/// Circulating supply of a new builder's machine: one million whole tokens.
pub const DEFAULT_CIRC_SUPPLY: u128 = 1_000_000_000_000_000_000_000_000;

/// The network name recorded in the Init actor's state.
pub open spec fn network_name() -> Seq<u8> {
    seq![98u8, 101u8, 110u8, 99u8, 104u8]
}

fn network_name_bytes() -> (r: Vec<u8>)
    ensures
        r@ == network_name(),
{
    let r: Vec<u8> = vec![98u8, 101u8, 110u8, 99u8, 104u8];
    assert(r@ =~= network_name());
    r
}

/// Manifest metadata found at a bundle's root.
pub struct ManifestMetadata {
    pub version: u32,
    pub data_cid: Vec<u8>,
}

impl BundleContents {
    /// The bundle's root CIDs.
    pub open spec fn root_cids(&self) -> Seq<Seq<u8>> {
        self.roots@.map_values(|c: Vec<u8>| c@)
    }

    /// The manifest data CID found at the bundle's root.
    pub open spec fn manifest_data_cid(&self) -> Option<Seq<u8>> {
        match self.metadata {
            Some(m) => Some(m.data_cid@),
            None => None,
        }
    }

    /// The manifest's entries.
    pub open spec fn code_entries(&self) -> Seq<(u32, Seq<u8>)> {
        entries_view(self.codes@)
    }
}

/// What a code bundle yields once its blocks are in the store: its root
/// CIDs, the manifest metadata at its root (if any), and the manifest's code
/// entries.
pub struct BundleContents {
    pub roots: Vec<Vec<u8>>,
    pub metadata: Option<ManifestMetadata>,
    pub codes: Vec<CodeEntry>,
}

/// The abstract value of a builder.
pub struct BuilderView {
    pub config: MachineConfig,
    pub store: Map<Seq<u8>, Seq<u8>>,
    pub tree: TreeView,
    pub manifest: Option<Seq<(u32, Seq<u8>)>>,
    pub manifest_data: Option<Seq<u8>>,
}

/// The builder after an actor record with `code` and stored `state` is put
/// at `id`.
pub open spec fn install_actor(b: BuilderView, code: Seq<u8>, id: u64, state: Seq<u8>, balance: u128) -> BuilderView {
    BuilderView {
        config: b.config,
        store: b.store.insert(block_cid(state), state),
        tree: TreeView {
            version: b.tree.version,
            entries: crate::id_map::put(
                b.tree.entries,
                id,
                ActorRecord { code, state: block_cid(state), sequence: 0, balance },
            ),
        },
        manifest: b.manifest,
        manifest_data: b.manifest_data,
    }
}

/// Outcome of creating a singleton actor of `type_id` at `id`.
pub open spec fn after_singleton(b: BuilderView, type_id: u32, id: u64, state: Seq<u8>, balance: u128) -> (BuilderView, Result<(), WorkbenchError>) {
    match b.manifest {
        None => (b, Err(WorkbenchError::ManifestNotLoaded)),
        Some(m) => match code_of(m, type_id) {
            None => (b, Err(WorkbenchError::UnknownTypeId)),
            Some(code) => (install_actor(b, code, id, state, balance), Ok(())),
        },
    }
}

/// The Init actor's state that `store` holds under `cid`.
pub open spec fn stored_init(store: Map<Seq<u8>, Seq<u8>>, cid: Seq<u8>) -> Option<InitView> {
    if store.contains_key(cid) {
        parse_init(store[cid])
    } else {
        None
    }
}

/// The Init actor's state as the builder's tree and store hold it.
pub open spec fn registry_of(b: BuilderView) -> Option<InitView> {
    match lookup(b.tree.entries, INIT_ACTOR_ID) {
        Some(rec) => stored_init(b.store, rec.state),
        None => None,
    }
}

/// Outcome of creating a registry-assigned actor of `type_id` for `addr`.
/// The Init actor's state is read from the tree and the store; the new
/// actor's state block and Init's updated state block are stored, then
/// Init's record and the new actor's record are written.
pub open spec fn after_builtin(b: BuilderView, type_id: u32, addr: AddressView, state: Seq<u8>, balance: u128) -> (BuilderView, Result<u64, WorkbenchError>) {
    match b.manifest {
        None => (b, Err(WorkbenchError::ManifestNotLoaded)),
        Some(m) => match lookup(b.tree.entries, INIT_ACTOR_ID) {
            None => (b, Err(WorkbenchError::ActorNotFound)),
            Some(rec) => match stored_init(b.store, rec.state) {
                None => (b, Err(WorkbenchError::Serialization)),
                Some(init) => match code_of(m, type_id) {
                    None => (b, Err(WorkbenchError::UnknownTypeId)),
                    Some(code) => {
                        let (init2, r) = assigned(init, address_key(addr));
                        match r {
                            Err(e) => (b, Err(e)),
                            Ok(id) => {
                                let enc = init_bytes(init2);
                                let init_rec = ActorRecord {
                                    code: rec.code,
                                    state: block_cid(enc),
                                    sequence: rec.sequence,
                                    balance: rec.balance,
                                };
                                let new_rec = ActorRecord { code, state: block_cid(state), sequence: 0, balance };
                                (
                                    BuilderView {
                                        config: b.config,
                                        store: b.store.insert(block_cid(state), state).insert(block_cid(enc), enc),
                                        tree: TreeView {
                                            version: b.tree.version,
                                            entries: crate::id_map::put(
                                                crate::id_map::put(b.tree.entries, INIT_ACTOR_ID, init_rec),
                                                id,
                                                new_rec,
                                            ),
                                        },
                                        manifest: b.manifest,
                                        manifest_data: b.manifest_data,
                                    },
                                    Ok(id),
                                )
                            },
                        }
                    },
                },
            },
        },
    }
}

/// Outcome of creating the System actor.
pub open spec fn after_system(b: BuilderView) -> (BuilderView, Result<(), WorkbenchError>) {
    match b.manifest_data {
        None => (b, Err(WorkbenchError::ManifestNotLoaded)),
        Some(d) => after_singleton(b, SYSTEM_ACTOR_TYPE_ID, SYSTEM_ACTOR_ID, field(d), 0),
    }
}

/// The Init actor's state when it is created.
pub open spec fn initial_init() -> InitView {
    InitView { address_map: Seq::empty(), next_id: FIRST_ASSIGNED_ID, network_name: network_name() }
}

/// Outcome of creating the Init actor.
pub open spec fn after_init(b: BuilderView) -> (BuilderView, Result<(), WorkbenchError>) {
    after_singleton(b, INIT_ACTOR_TYPE_ID, INIT_ACTOR_ID, init_bytes(initial_init()), 0)
}

/// Outcome of installing a bundle.
pub open spec fn after_install(b: BuilderView, roots: Seq<Seq<u8>>, metadata: Option<Seq<u8>>, codes: Seq<(u32, Seq<u8>)>) -> (BuilderView, Result<(), WorkbenchError>) {
    if b.manifest is Some {
        (b, Err(WorkbenchError::AlreadyInstalled))
    } else if roots.len() != 1 || metadata is None {
        (b, Err(WorkbenchError::BundleFormat))
    } else {
        (BuilderView { manifest: Some(codes), manifest_data: metadata, ..b }, Ok(()))
    }
}

/// Outcome of creating the System actor and then the Init actor.
pub open spec fn after_system_actors(b: BuilderView) -> (BuilderView, Result<(), WorkbenchError>) {
    let (b1, r1) = after_system(b);
    match r1 {
        Err(e) => (b1, Err(e)),
        Ok(_) => after_init(b1),
    }
}

/// The configuration of a new builder's machine.
pub open spec fn default_config(network_version: u32, state_tree_version: u32) -> MachineConfig {
    MachineConfig {
        network_version,
        state_tree_version,
        epoch: 0,
        base_fee: DEFAULT_BASE_FEE,
        circ_supply: DEFAULT_CIRC_SUPPLY,
        tracing: true,
    }
}

/// A new builder: no code installed, an empty tree and an empty store.
pub open spec fn bare(network_version: u32, state_tree_version: u32) -> BuilderView {
    BuilderView {
        config: default_config(network_version, state_tree_version),
        store: Map::empty(),
        tree: TreeView { version: state_tree_version, entries: Seq::empty() },
        manifest: None,
        manifest_data: None,
    }
}

/// Outcome of installing a manifest given directly, with its data CID.
pub open spec fn after_install_manifest(b: BuilderView, codes: Seq<(u32, Seq<u8>)>, data_cid: Seq<u8>) -> (BuilderView, Result<(), WorkbenchError>) {
    if b.manifest is Some {
        (b, Err(WorkbenchError::AlreadyInstalled))
    } else {
        (BuilderView { manifest: Some(codes), manifest_data: Some(data_cid), ..b }, Ok(()))
    }
}

/// The builder just before it is frozen: the System actor created if the
/// tree has none, then the Init actor created if the tree has none.
pub open spec fn prepared(b: BuilderView) -> (BuilderView, Result<(), WorkbenchError>) {
    let (b1, r1) = if lookup(b.tree.entries, SYSTEM_ACTOR_ID) is None {
        after_system(b)
    } else {
        (b, Ok(()))
    };
    match r1 {
        Err(e) => (b1, Err(e)),
        Ok(_) => if lookup(b1.tree.entries, INIT_ACTOR_ID) is None {
            after_init(b1)
        } else {
            (b1, Ok(()))
        },
    }
}

/// The execution handle that freezing `b` yields.
pub open spec fn built(b: BuilderView) -> Result<BenchView, WorkbenchError> {
    let (p, r) = prepared(b);
    match r {
        Err(e) => Err(e),
        Ok(_) => match lookup(p.tree.entries, INIT_ACTOR_ID) {
            None => Err(WorkbenchError::ActorNotFound),
            Some(rec) => match stored_init(p.store, rec.state) {
                None => Err(WorkbenchError::Serialization),
                Some(init) => Ok(
                    BenchView {
                        config: p.config,
                        root: root_of(p.tree),
                        tree: p.tree,
                        registry: init,
                        store: p.store.insert(root_of(p.tree), tree_bytes(p.tree)),
                    },
                ),
            },
        },
    }
}

/// What every builder reachable through this type's methods satisfies:
/// code CIDs and the manifest data CID are installed together, no actor
/// exists before code is installed, the epoch is zero, and the tree has the
/// configured version.
pub open spec fn builder_wf(b: BuilderView) -> bool {
    &&& (b.manifest is Some) == (b.manifest_data is Some)
    &&& b.manifest is None ==> b.tree.entries.len() == 0
    &&& b.config.epoch == 0
    &&& b.tree.version == b.config.state_tree_version
}

/// A factory for execution handles. Code must be installed before any
/// built-in actor is created; the System and Init actors must exist before a
/// registry-assigned actor is created.
pub struct BenchBuilder {
    config: MachineConfig,
    store: BlockStore,
    tree: StateTree,
    manifest: Option<CodeManifest>,
    manifest_data: Option<Vec<u8>>,
}

impl View for BenchBuilder {
    type V = BuilderView;

    closed spec fn view(&self) -> BuilderView {
        BuilderView {
            config: self.config,
            store: self.store@,
            tree: self.tree@,
            manifest: match self.manifest {
                Some(m) => Some(m@),
                None => None,
            },
            manifest_data: crate::types::opt_bytes(self.manifest_data),
        }
    }
}

impl BenchBuilder {
    /// A builder with no code installed.
    pub fn new_bare(network_version: u32, state_tree_version: u32) -> (r: BenchBuilder)
        ensures
            r@ == bare(network_version, state_tree_version),
            builder_wf(r@),
    {
        let r = BenchBuilder {
            config: MachineConfig {
                network_version,
                state_tree_version,
                epoch: 0,
                base_fee: DEFAULT_BASE_FEE,
                circ_supply: DEFAULT_CIRC_SUPPLY,
                tracing: true,
            },
            store: BlockStore::new(),
            tree: StateTree::new(state_tree_version),
            manifest: None,
            manifest_data: None,
        };
        assert(r@ == bare(network_version, state_tree_version));
        r
    }

    /// A builder with the code of `bundle` installed.
    pub fn new_with_bundle(network_version: u32, state_tree_version: u32, bundle: BundleContents) -> (r: Result<BenchBuilder, WorkbenchError>)
        ensures
            ({
                let (b, res) = after_install(
                    bare(network_version, state_tree_version),
                    bundle.root_cids(),
                    bundle.manifest_data_cid(),
                    bundle.code_entries(),
                );
                match r {
                    Ok(builder) => res is Ok && builder@ == b && builder_wf(builder@),
                    Err(e) => res == Err::<(), WorkbenchError>(e),
                }
            }),
    {
        let mut b = BenchBuilder::new_bare(network_version, state_tree_version);
        match b.install_builtin_actor_bundle(bundle) {
            Ok(()) => Ok(b),
            Err(e) => Err(e),
        }
    }

    /// The store that the builder writes blocks to.
    pub fn store(&self) -> (r: &BlockStore)
        ensures
            r@ == self@.store,
    {
        &self.store
    }

    /// The state tree under construction.
    pub fn state_tree(&self) -> (r: &StateTree)
        ensures
            r@ == self@.tree,
    {
        &self.tree
    }

    /// Installs the code manifest of a bundle. Creates no actor.
    pub fn install_builtin_actor_bundle(&mut self, bundle: BundleContents) -> (r: Result<(), WorkbenchError>)
        ensures
            (final(self)@, r) == after_install(
                old(self)@,
                bundle.root_cids(),
                bundle.manifest_data_cid(),
                bundle.code_entries(),
            ),
            builder_wf(old(self)@) ==> builder_wf(final(self)@),
    {
        if self.manifest.is_some() {
            return Err(WorkbenchError::AlreadyInstalled);
        }
        if bundle.roots.len() != 1 {
            return Err(WorkbenchError::BundleFormat);
        }
        match bundle.metadata {
            None => Err(WorkbenchError::BundleFormat),
            Some(meta) => {
                self.manifest = Some(CodeManifest::new(bundle.codes));
                self.manifest_data = Some(meta.data_cid);
                Ok(())
            },
        }
    }

    /// Installs a code manifest given directly, with the CID of its data.
    /// Creates no actor.
    pub fn install_builtin_manifest(&mut self, manifest: CodeManifest, data_cid: Vec<u8>) -> (r: Result<(), WorkbenchError>)
        ensures
            (final(self)@, r) == after_install_manifest(old(self)@, manifest@, data_cid@),
            builder_wf(old(self)@) ==> builder_wf(final(self)@),
    {
        if self.manifest.is_some() {
            return Err(WorkbenchError::AlreadyInstalled);
        }
        self.manifest = Some(manifest);
        self.manifest_data = Some(data_cid);
        Ok(())
    }

    /// Stores `state` and puts a record with `code` at `id`.
    fn put_actor(&mut self, code: Vec<u8>, id: ActorID, state: Vec<u8>, balance: TokenAmount)
        ensures
            final(self)@ == install_actor(old(self)@, code@, id, state@, balance),
    {
        let cid = self.store.put(state);
        self.tree.set_actor(id, ActorState { code, state: cid, sequence: 0, balance });
    }

    /// The code CID of `type_id` in the installed manifest.
    fn code_for(&self, type_id: u32) -> (r: Result<Vec<u8>, WorkbenchError>)
        ensures
            match self@.manifest {
                None => r == Err::<Vec<u8>, WorkbenchError>(WorkbenchError::ManifestNotLoaded),
                Some(m) => match code_of(m, type_id) {
                    None => r == Err::<Vec<u8>, WorkbenchError>(WorkbenchError::UnknownTypeId),
                    Some(c) => r matches Ok(v) && v@ == c,
                },
            },
    {
        match &self.manifest {
            None => Err(WorkbenchError::ManifestNotLoaded),
            Some(m) => match m.code_by_id(type_id) {
                None => Err(WorkbenchError::UnknownTypeId),
                Some(c) => Ok(c),
            },
        }
    }

    /// Creates a singleton built-in actor at a fixed id, replacing any record
    /// there. The address registry is not consulted.
    pub fn create_singleton_actor(&mut self, type_id: u32, id: ActorID, state: Vec<u8>, balance: TokenAmount) -> (r: Result<(), WorkbenchError>)
        ensures
            (final(self)@, r) == after_singleton(old(self)@, type_id, id, state@, balance),
            builder_wf(old(self)@) ==> builder_wf(final(self)@),
    {
        match self.code_for(type_id) {
            Err(e) => Err(e),
            Ok(code) => {
                self.put_actor(code, id, state, balance);
                Ok(())
            },
        }
    }

    /// Creates a built-in actor at the id that the Init actor's registry
    /// assigns to `address`, and returns that id. Every check is made before
    /// the first write, so a failure leaves the builder as it was.
    pub fn create_builtin_actor(&mut self, type_id: u32, address: &Address, state: Vec<u8>, balance: TokenAmount) -> (r: Result<ActorID, WorkbenchError>)
        ensures
            (final(self)@, r) == after_builtin(old(self)@, type_id, address@, state@, balance),
            builder_wf(old(self)@) ==> builder_wf(final(self)@),
    {
        let code = match &self.manifest {
            None => return Err(WorkbenchError::ManifestNotLoaded),
            Some(m) => m.code_by_id(type_id),
        };
        let init_rec = match self.tree.get_actor(INIT_ACTOR_ID) {
            None => return Err(WorkbenchError::ActorNotFound),
            Some(a) => a,
        };
        let blob = match self.store.get(&init_rec.state) {
            None => return Err(WorkbenchError::Serialization),
            Some(b) => b,
        };
        let mut init = match InitState::decode(&blob) {
            None => return Err(WorkbenchError::Serialization),
            Some(st) => st,
        };
        let code = match code {
            None => return Err(WorkbenchError::UnknownTypeId),
            Some(c) => c,
        };
        let key = address.key_bytes();
        let new_id = match init.map_address_to_new_id(&key) {
            Err(e) => return Err(e),
            Ok(id) => id,
        };
        let state_cid = self.store.put(state);
        let init_cid = self.store.put(init.encode());
        self.tree.set_actor(
            INIT_ACTOR_ID,
            ActorState {
                code: init_rec.code,
                state: init_cid,
                sequence: init_rec.sequence,
                balance: init_rec.balance,
            },
        );
        self.tree.set_actor(new_id, ActorState { code, state: state_cid, sequence: 0, balance });
        Ok(new_id)
    }

    /// Creates the System actor, whose state names the installed manifest's
    /// data CID.
    pub fn create_system_actor(&mut self) -> (r: Result<(), WorkbenchError>)
        ensures
            (final(self)@, r) == after_system(old(self)@),
            builder_wf(old(self)@) ==> builder_wf(final(self)@),
    {
        let data = match &self.manifest_data {
            None => return Err(WorkbenchError::ManifestNotLoaded),
            Some(d) => copy_bytes(d),
        };
        let mut state: Vec<u8> = Vec::new();
        write_field(&mut state, &data);
        assert(state@ =~= field(data@));
        self.create_singleton_actor(SYSTEM_ACTOR_TYPE_ID, SYSTEM_ACTOR_ID, state, 0)
    }

    /// Creates the Init actor with an empty registry.
    pub fn create_init_actor(&mut self) -> (r: Result<(), WorkbenchError>)
        ensures
            (final(self)@, r) == after_init(old(self)@),
            builder_wf(old(self)@) ==> builder_wf(final(self)@),
    {
        let init = InitState::new(FIRST_ASSIGNED_ID, network_name_bytes());
        self.create_singleton_actor(INIT_ACTOR_TYPE_ID, INIT_ACTOR_ID, init.encode(), 0)
    }

    /// Creates the System actor, then the Init actor.
    pub fn create_system_actors(&mut self) -> (r: Result<(), WorkbenchError>)
        ensures
            (final(self)@, r) == after_system_actors(old(self)@),
            builder_wf(old(self)@) ==> builder_wf(final(self)@),
    {
        match self.create_system_actor() {
            Err(e) => Err(e),
            Ok(()) => self.create_init_actor(),
        }
    }

    /// Creates the System and Init actors where they are missing, commits the
    /// tree, and yields an execution handle over its root. The handle holds
    /// its own copy of the state: later changes to this builder do not reach
    /// it, and the builder can go on to assemble another bootstrap.
    pub fn build(&mut self) -> (r: Result<Bench, WorkbenchError>)
        ensures
            match r {
                Ok(bench) => built(old(self)@) == Ok::<BenchView, WorkbenchError>(bench@)
                    && final(self)@ == (BuilderView { store: bench@.store, ..prepared(old(self)@).0 }),
                Err(e) => built(old(self)@) == Err::<BenchView, WorkbenchError>(e) && final(self)@
                    == prepared(old(self)@).0,
            },
            builder_wf(old(self)@) ==> builder_wf(final(self)@),
    {
        let has_system = match self.tree.get_actor(SYSTEM_ACTOR_ID) {
            Some(_) => true,
            None => false,
        };
        if !has_system {
            match self.create_system_actor() {
                Err(e) => return Err(e),
                Ok(()) => {},
            }
        }
        let has_init = match self.tree.get_actor(INIT_ACTOR_ID) {
            Some(_) => true,
            None => false,
        };
        if !has_init {
            match self.create_init_actor() {
                Err(e) => return Err(e),
                Ok(()) => {},
            }
        }
        let init_rec = match self.tree.get_actor(INIT_ACTOR_ID) {
            None => return Err(WorkbenchError::ActorNotFound),
            Some(a) => a,
        };
        let blob = match self.store.get(&init_rec.state) {
            None => return Err(WorkbenchError::Serialization),
            Some(b) => b,
        };
        let registry = match InitState::decode(&blob) {
            None => return Err(WorkbenchError::Serialization),
            Some(st) => st,
        };
        let root = self.tree.flush(&mut self.store);
        Ok(Bench::new(self.config, root, self.tree.copy(), registry, self.store.copy()))
    }
}

} // verus!
