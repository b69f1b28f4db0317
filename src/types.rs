//! Plain values shared by the builder, the execution handle and the wrangler.
use vstd::prelude::*;
use crate::encoding::{be64, copy_bytes, write_u64};

verus! {

/// An actor identifier.
pub type ActorID = u64;

/// A token amount, in atto units.
pub type TokenAmount = u128;

/// The abstract value of an address.
pub enum AddressView {
    Id(u64),
    Robust(Seq<u8>),
}

/// An address: a numeric id address, or a robust address (its bytes) that
/// must be resolved through the Init actor's registry.
pub enum Address {
    Id(u64),
    Robust(Vec<u8>),
}

impl View for Address {
    type V = AddressView;

    open spec fn view(&self) -> AddressView {
        match self {
            Address::Id(n) => AddressView::Id(*n),
            Address::Robust(b) => AddressView::Robust(b@),
        }
    }
}

/// The bytes under which an address is registered: a zero byte and the id
/// for an id address, the address's own bytes for a robust one.
pub open spec fn address_key(a: AddressView) -> Seq<u8> {
    match a {
        AddressView::Id(n) => seq![0u8] + be64(n),
        AddressView::Robust(b) => b,
    }
}

impl Address {
    /// An id address.
    pub fn new_id(id: ActorID) -> (r: Address)
        ensures
            r@ == AddressView::Id(id),
    {
        Address::Id(id)
    }

    /// The id that an id address names directly.
    pub fn id(&self) -> (r: Option<ActorID>)
        ensures
            r == (match self@ {
                AddressView::Id(n) => Some(n),
                AddressView::Robust(_) => None::<u64>,
            }),
    {
        match self {
            Address::Id(n) => Some(*n),
            Address::Robust(_) => None,
        }
    }

    /// The bytes under which this address is registered.
    pub fn key_bytes(&self) -> (r: Vec<u8>)
        ensures
            r@ == address_key(self@),
    {
        match self {
            Address::Id(n) => {
                let mut out: Vec<u8> = Vec::new();
                out.push(0u8);
                write_u64(&mut out, *n);
                assert(out@ =~= seq![0u8] + be64(*n));
                out
            },
            Address::Robust(b) => copy_bytes(b),
        }
    }

    /// A copy of this address.
    pub fn copy(&self) -> (r: Address)
        ensures
            r@ == self@,
    {
        match self {
            Address::Id(n) => Address::Id(*n),
            Address::Robust(b) => Address::Robust(copy_bytes(b)),
        }
    }
}

/// The abstract value of an actor record.
pub struct ActorRecord {
    pub code: Seq<u8>,
    pub state: Seq<u8>,
    pub sequence: u64,
    pub balance: u128,
}

/// An actor's root record: its code CID, its state CID, its sequence number
/// and its balance.
pub struct ActorState {
    pub code: Vec<u8>,
    pub state: Vec<u8>,
    pub sequence: u64,
    pub balance: TokenAmount,
}

impl View for ActorState {
    type V = ActorRecord;

    open spec fn view(&self) -> ActorRecord {
        ActorRecord {
            code: self.code@,
            state: self.state@,
            sequence: self.sequence,
            balance: self.balance,
        }
    }
}

impl ActorState {
    /// A copy of this record.
    pub fn copy(&self) -> (r: ActorState)
        ensures
            r@ == self@,
    {
        ActorState {
            code: copy_bytes(&self.code),
            state: copy_bytes(&self.state),
            sequence: self.sequence,
            balance: self.balance,
        }
    }
}

/// What an optional byte string holds.
pub open spec fn opt_bytes(o: Option<Vec<u8>>) -> Option<Seq<u8>> {
    match o {
        Some(v) => Some(v@),
        None => None,
    }
}

/// What an optional actor record holds.
pub open spec fn opt_record(o: Option<ActorState>) -> Option<ActorRecord> {
    match o {
        Some(a) => Some(a@),
        None => None,
    }
}

/// The configuration a machine is built with.
#[derive(Clone, Copy, PartialEq, Eq, Structural, Debug)]
pub struct MachineConfig {
    pub network_version: u32,
    pub state_tree_version: u32,
    pub epoch: i64,
    pub base_fee: TokenAmount,
    pub circ_supply: TokenAmount,
    pub tracing: bool,
}

/// The receipt of an executed message.
pub struct Receipt {
    pub exit_code: u32,
    pub return_data: Vec<u8>,
    pub gas_used: i64,
}

/// The result of a message execution, independent of the machine that ran it.
pub struct ExecutionResult {
    /// Message receipt for the transaction.
    pub receipt: Receipt,
    /// Gas penalty from the transaction, if any.
    pub penalty: TokenAmount,
    /// Tip given to the miner from the message.
    pub miner_tip: TokenAmount,
    pub gas_burned: i64,
    pub base_fee_burn: TokenAmount,
    pub over_estimation_burn: TokenAmount,
    /// Execution trace, one line per event.
    pub trace: Vec<String>,
    pub message: String,
}

impl ExecutionResult {
    /// Whether the receipt's exit code is the success code.
    pub fn succeeded(&self) -> (r: bool)
        ensures
            r == (self.receipt.exit_code == 0),
    {
        self.receipt.exit_code == 0
    }
}

/// A message to an actor.
pub struct Message {
    pub version: u64,
    pub from: Address,
    pub to: Address,
    pub sequence: u64,
    pub value: TokenAmount,
    pub method_num: u64,
    pub params: Vec<u8>,
    pub gas_limit: i64,
    pub gas_fee_cap: TokenAmount,
    pub gas_premium: TokenAmount,
}

} // verus!
