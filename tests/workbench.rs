use fvm_workbench_vm::bench::Bench;
use fvm_workbench_vm::builder::{
    BenchBuilder, BundleContents, ManifestMetadata, ACCOUNT_ACTOR_TYPE_ID, FIRST_ASSIGNED_ID,
    INIT_ACTOR_ID, SYSTEM_ACTOR_ID,
};
use fvm_workbench_vm::content::BlockStore;
use fvm_workbench_vm::encoding::write_u64;
use fvm_workbench_vm::error::WorkbenchError;
use fvm_workbench_vm::manifest::{CodeEntry, CodeManifest};
use fvm_workbench_vm::registry::InitState;
use fvm_workbench_vm::types::{Address, ExecutionResult, Receipt};
use fvm_workbench_vm::wrangler::{ExecutionWrangler, DEFAULT_GAS_LIMIT};

const METHOD_SEND: u64 = 0;

fn entry(type_id: u32, code: &[u8]) -> CodeEntry {
    CodeEntry { type_id, code: code.to_vec() }
}

fn codes() -> Vec<CodeEntry> {
    vec![entry(1, b"code-system"), entry(2, b"code-init"), entry(4, b"code-account")]
}

fn bundle() -> BundleContents {
    BundleContents {
        roots: vec![b"bundle-root".to_vec()],
        metadata: Some(ManifestMetadata { version: 1, data_cid: b"manifest-data".to_vec() }),
        codes: codes(),
    }
}

fn faucet_address() -> Address {
    Address::Robust(vec![1u8, 0xfa, 0x0c, 0xe7])
}

fn genesis() -> (BenchBuilder, u64) {
    let mut builder = BenchBuilder::new_with_bundle(16, 4, bundle()).unwrap();
    builder.create_system_actors().unwrap();
    let faucet = builder
        .create_builtin_actor(ACCOUNT_ACTOR_TYPE_ID, &faucet_address(), b"faucet-state".to_vec(), 1_000_000)
        .unwrap();
    (builder, faucet)
}

fn bench() -> Bench {
    genesis().0.build().unwrap()
}

// No machine runs messages in this library: the check is on the message the
// wrangler builds for the faucet's first send to the Init actor, and on the
// sequence number it records afterwards.
#[test]
fn test_hookup() {
    let (mut builder, faucet) = genesis();
    let bench = builder.build().unwrap();
    let mut wrangler = ExecutionWrangler::new_default();
    let msg = wrangler
        .next_message(&bench, &faucet_address(), &Address::new_id(INIT_ACTOR_ID), METHOD_SEND, vec![], 0)
        .unwrap();
    assert_eq!(msg.sequence, 0);
    assert_eq!(msg.method_num, METHOD_SEND);
    assert_eq!(msg.value, 0);
    assert!(msg.params.is_empty());
    assert_eq!(msg.gas_limit, DEFAULT_GAS_LIMIT);
    assert_eq!(wrangler.known_nonce(faucet), Some(1));
    assert_eq!(wrangler.next_sequence(&bench, &faucet_address()), Some(1));
}

#[test]
fn builtin_actor_before_install_fails() {
    let mut builder = BenchBuilder::new_bare(16, 4);
    let r = builder.create_builtin_actor(ACCOUNT_ACTOR_TYPE_ID, &faucet_address(), vec![1], 5);
    assert_eq!(r, Err(WorkbenchError::ManifestNotLoaded));
    assert!(builder.state_tree().get_actor(INIT_ACTOR_ID).is_none());
    assert!(builder.store().get(&b"anything".to_vec()).is_none());
}

#[test]
fn singleton_and_system_actors_before_install_fail() {
    let mut builder = BenchBuilder::new_bare(16, 4);
    assert_eq!(builder.create_singleton_actor(1, 0, vec![], 0), Err(WorkbenchError::ManifestNotLoaded));
    assert_eq!(builder.create_system_actor(), Err(WorkbenchError::ManifestNotLoaded));
    assert_eq!(builder.create_init_actor(), Err(WorkbenchError::ManifestNotLoaded));
    assert!(matches!(builder.build(), Err(WorkbenchError::ManifestNotLoaded)));
}

#[test]
fn install_twice_fails_and_keeps_manifest() {
    let mut builder = BenchBuilder::new_with_bundle(16, 4, bundle()).unwrap();
    let other = BundleContents {
        roots: vec![b"other-root".to_vec()],
        metadata: Some(ManifestMetadata { version: 1, data_cid: b"other-data".to_vec() }),
        codes: vec![entry(1, b"x"), entry(2, b"y"), entry(4, b"w")],
    };
    assert_eq!(builder.install_builtin_actor_bundle(other), Err(WorkbenchError::AlreadyInstalled));
    let m = CodeManifest::new(vec![entry(4, b"q")]);
    assert_eq!(builder.install_builtin_manifest(m, b"d".to_vec()), Err(WorkbenchError::AlreadyInstalled));
    builder.create_singleton_actor(ACCOUNT_ACTOR_TYPE_ID, 7, vec![3], 9).unwrap();
    let a = builder.state_tree().get_actor(7).unwrap();
    assert_eq!(a.code, b"code-account".to_vec());
    assert_eq!(a.balance, 9);
    assert_eq!(a.sequence, 0);
}

#[test]
fn bundle_with_two_roots_is_refused() {
    let mut b = bundle();
    b.roots.push(b"second".to_vec());
    assert!(matches!(BenchBuilder::new_with_bundle(16, 4, b), Err(WorkbenchError::BundleFormat)));
    let mut b = bundle();
    b.roots.clear();
    assert!(matches!(BenchBuilder::new_with_bundle(16, 4, b), Err(WorkbenchError::BundleFormat)));
}

#[test]
fn bundle_without_metadata_is_refused() {
    let mut b = bundle();
    b.metadata = None;
    let mut builder = BenchBuilder::new_bare(16, 4);
    assert_eq!(builder.install_builtin_actor_bundle(b), Err(WorkbenchError::BundleFormat));
    assert!(builder.install_builtin_actor_bundle(bundle()).is_ok());
}

#[test]
fn manifest_given_directly_is_used() {
    let mut builder = BenchBuilder::new_bare(16, 4);
    builder.install_builtin_manifest(CodeManifest::new(codes()), b"data".to_vec()).unwrap();
    builder.create_system_actors().unwrap();
    let system = builder.state_tree().get_actor(SYSTEM_ACTOR_ID).unwrap();
    assert_eq!(system.code, b"code-system".to_vec());
}

#[test]
fn unknown_type_id_is_refused() {
    let mut builder = BenchBuilder::new_with_bundle(16, 4, bundle()).unwrap();
    builder.create_system_actors().unwrap();
    assert_eq!(builder.create_singleton_actor(0, 9, vec![], 0), Err(WorkbenchError::UnknownTypeId));
    assert_eq!(builder.create_singleton_actor(3, 9, vec![], 0), Err(WorkbenchError::UnknownTypeId));
    assert_eq!(builder.create_singleton_actor(5, 9, vec![], 0), Err(WorkbenchError::UnknownTypeId));
    assert_eq!(
        builder.create_builtin_actor(77, &faucet_address(), vec![], 0),
        Err(WorkbenchError::UnknownTypeId)
    );
    assert!(builder.state_tree().get_actor(FIRST_ASSIGNED_ID).is_none());
}

#[test]
fn builtin_actor_without_init_is_refused() {
    let mut builder = BenchBuilder::new_with_bundle(16, 4, bundle()).unwrap();
    builder.create_system_actor().unwrap();
    assert_eq!(
        builder.create_builtin_actor(ACCOUNT_ACTOR_TYPE_ID, &faucet_address(), vec![], 0),
        Err(WorkbenchError::ActorNotFound)
    );
}

#[test]
fn ids_are_assigned_in_order_and_reused_per_address() {
    let mut builder = BenchBuilder::new_with_bundle(16, 4, bundle()).unwrap();
    builder.create_system_actors().unwrap();
    let a = Address::Robust(vec![1, 1]);
    let b = Address::Robust(vec![1, 2]);
    assert_eq!(builder.create_builtin_actor(4, &a, vec![], 0), Ok(100));
    assert_eq!(builder.create_builtin_actor(4, &b, vec![], 0), Ok(101));
    assert_eq!(builder.create_builtin_actor(4, &a, vec![5], 3), Ok(100));
    let rec = builder.state_tree().get_actor(100).unwrap();
    assert_eq!(rec.balance, 3);
    let init = builder.state_tree().get_actor(INIT_ACTOR_ID).unwrap();
    assert_eq!(init.code, b"code-init".to_vec());
}

#[test]
fn created_address_resolves_after_build() {
    let bench = bench();
    assert_eq!(bench.resolve_address(&faucet_address()), Some(FIRST_ASSIGNED_ID));
    assert_eq!(bench.resolve_address(&Address::Robust(vec![1, 9, 9])), None);
    assert_eq!(bench.resolve_address(&Address::new_id(42)), Some(42));
    let faucet = bench.find_actor(FIRST_ASSIGNED_ID).unwrap();
    assert_eq!(faucet.balance, 1_000_000);
    assert_eq!(faucet.code, b"code-account".to_vec());
    assert!(bench.find_actor(55).is_none());
    assert_eq!(bench.epoch(), 0);
    assert_eq!(bench.config().base_fee, 100);
}

#[test]
fn build_creates_missing_system_actors() {
    let mut builder = BenchBuilder::new_with_bundle(16, 4, bundle()).unwrap();
    let bench = builder.build().unwrap();
    assert!(bench.find_actor(SYSTEM_ACTOR_ID).is_some());
    assert!(bench.find_actor(INIT_ACTOR_ID).is_some());
}

#[test]
fn identical_builds_have_identical_roots() {
    let r1 = bench().state_root().clone();
    let r2 = bench().state_root().clone();
    assert_eq!(r1, r2);
    let mut other = BenchBuilder::new_with_bundle(16, 4, bundle()).unwrap();
    other.create_system_actors().unwrap();
    other.create_builtin_actor(ACCOUNT_ACTOR_TYPE_ID, &faucet_address(), b"faucet-state".to_vec(), 999).unwrap();
    let r3 = other.build().unwrap().state_root().clone();
    assert_ne!(r1, r3);
}

#[test]
fn root_block_is_in_the_store() {
    let bench = bench();
    let root = bench.state_root().clone();
    let block = bench.store().get(&root).unwrap();
    assert!(!block.is_empty());
}

#[test]
fn block_ids_are_cbor_blake2b_cids() {
    let mut store = BlockStore::new();
    let data = b"hello".to_vec();
    let cid = store.put(data.clone());
    assert_eq!(cid.len(), 38);
    assert_eq!(&cid[..6], &[0x01, 0x55, 0xa0, 0xe4, 0x02, 0x20]);
    assert_ne!(cid, data);
    assert_eq!(store.get(&cid), Some(data));
    assert_ne!(store.put(b"hellp".to_vec()), cid);
}

#[test]
fn sequence_advances_once_per_message() {
    let bench = bench();
    let mut wrangler = ExecutionWrangler::new_default();
    for expected in 0..3u64 {
        let msg = wrangler
            .next_message(&bench, &faucet_address(), &Address::new_id(INIT_ACTOR_ID), METHOD_SEND, vec![], 0)
            .unwrap();
        assert_eq!(msg.sequence, expected);
    }
    assert_eq!(wrangler.next_sequence(&bench, &faucet_address()), Some(3));
}

#[test]
fn unresolvable_recipient_is_refused() {
    let bench = bench();
    let mut wrangler = ExecutionWrangler::new_default();
    let r = wrangler.next_message(&bench, &faucet_address(), &Address::Robust(vec![3, 3]), METHOD_SEND, vec![], 0);
    assert!(matches!(r, Err(WorkbenchError::AddressUnresolvable)));
    assert_eq!(wrangler.next_sequence(&bench, &faucet_address()), Some(0));
    let r = wrangler.next_message(&bench, &Address::Robust(vec![3, 3]), &faucet_address(), METHOD_SEND, vec![], 0);
    assert!(matches!(r, Err(WorkbenchError::AddressUnresolvable)));
}

#[test]
fn unknown_sender_actor_is_refused() {
    let bench = bench();
    let mut wrangler = ExecutionWrangler::new_default();
    let r = wrangler.next_message(&bench, &Address::new_id(500), &faucet_address(), METHOD_SEND, vec![], 0);
    assert!(matches!(r, Err(WorkbenchError::ActorNotFound)));
}

#[test]
fn registry_runs_out_of_ids() {
    let mut init = InitState::new(u64::MAX, b"net".to_vec());
    assert_eq!(init.map_address_to_new_id(&vec![1, 2]), Err(WorkbenchError::IdSpaceExhausted));
    let mut init = InitState::new(5, b"net".to_vec());
    assert_eq!(init.map_address_to_new_id(&vec![1, 2]), Ok(5));
    assert_eq!(init.next_id(), 6);
    assert_eq!(init.resolve_key(&vec![1, 2]), Some(5));
}

#[test]
fn u64_is_written_big_endian() {
    let mut out = vec![7u8];
    write_u64(&mut out, 0x0102_0304_0506_0708);
    assert_eq!(out, vec![7, 1, 2, 3, 4, 5, 6, 7, 8]);
    assert_eq!(Address::new_id(1).key_bytes(), vec![0, 0, 0, 0, 0, 0, 0, 0, 1]);
}

#[test]
fn execution_result_reports_success() {
    let mut r = ExecutionResult {
        receipt: Receipt { exit_code: 0, return_data: vec![], gas_used: 10 },
        penalty: 0,
        miner_tip: 0,
        gas_burned: 0,
        base_fee_burn: 0,
        over_estimation_burn: 0,
        trace: vec![],
        message: String::new(),
    };
    assert!(r.succeeded());
    r.receipt.exit_code = 16;
    assert!(!r.succeeded());
}

#[test]
fn builder_is_reusable_after_build() {
    let (mut builder, _) = genesis();
    let first = builder.build().unwrap();
    let other = Address::Robust(vec![1, 7]);
    assert_eq!(builder.create_builtin_actor(ACCOUNT_ACTOR_TYPE_ID, &other, vec![], 5), Ok(101));
    let second = builder.build().unwrap();
    assert_eq!(first.resolve_address(&other), None);
    assert!(first.find_actor(101).is_none());
    assert_eq!(second.resolve_address(&other), Some(101));
    assert_eq!(second.resolve_address(&faucet_address()), Some(FIRST_ASSIGNED_ID));
    assert_ne!(first.state_root(), second.state_root());
}

#[test]
fn missing_init_is_reported_before_unknown_type_id() {
    let mut builder = BenchBuilder::new_with_bundle(16, 4, bundle()).unwrap();
    builder.create_system_actor().unwrap();
    assert_eq!(
        builder.create_builtin_actor(77, &faucet_address(), vec![], 0),
        Err(WorkbenchError::ActorNotFound)
    );
}

#[test]
fn build_keeps_init_actor_made_as_singleton() {
    let mut builder = BenchBuilder::new_with_bundle(16, 4, bundle()).unwrap();
    builder.create_system_actor().unwrap();
    let mut init = InitState::new(200, b"custom".to_vec());
    init.map_address_to_new_id(&vec![1, 4, 4]).unwrap();
    builder.create_singleton_actor(2, INIT_ACTOR_ID, init.encode(), 5).unwrap();
    assert_eq!(builder.create_builtin_actor(4, &faucet_address(), vec![], 0), Ok(201));
    let bench = builder.build().unwrap();
    let rec = bench.find_actor(INIT_ACTOR_ID).unwrap();
    assert_eq!(rec.balance, 5);
    assert_eq!(bench.resolve_address(&Address::Robust(vec![1, 4, 4])), Some(200));
    assert_eq!(bench.resolve_address(&faucet_address()), Some(201));
}

#[test]
fn undecodable_init_state_is_refused() {
    let mut builder = BenchBuilder::new_with_bundle(16, 4, bundle()).unwrap();
    builder.create_system_actor().unwrap();
    builder.create_singleton_actor(2, INIT_ACTOR_ID, vec![1, 2, 3], 0).unwrap();
    assert_eq!(
        builder.create_builtin_actor(4, &faucet_address(), vec![], 0),
        Err(WorkbenchError::Serialization)
    );
    assert!(matches!(builder.build(), Err(WorkbenchError::Serialization)));
}

#[test]
fn init_state_decodes_what_it_encodes() {
    let mut init = InitState::new(7, b"net".to_vec());
    init.map_address_to_new_id(&vec![1, 2]).unwrap();
    init.map_address_to_new_id(&vec![3]).unwrap();
    let back = InitState::decode(&init.encode()).unwrap();
    assert_eq!(back.next_id(), 9);
    assert_eq!(back.resolve_key(&vec![1, 2]), Some(7));
    assert_eq!(back.resolve_key(&vec![3]), Some(8));
    let mut bytes = init.encode();
    bytes.push(0);
    assert!(InitState::decode(&bytes).is_none());
}
