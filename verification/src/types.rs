use vstd::prelude::*;

use crate::assoc::viewed_pairs;

verus! {

/// Identity of an account in the ledger's address space.
#[derive(Clone, Copy, PartialEq, Eq, Structural, Debug)]
pub struct AccountAddress {
    pub id: u64,
}

/// Resolved identity of a resource (or resource-group) type tag.
#[derive(Clone, Copy, PartialEq, Eq, Structural, Debug)]
pub struct StructTag {
    pub id: u64,
}

/// Identity of a published module's name within an account.
#[derive(Clone, Copy, PartialEq, Eq, Structural, Debug)]
pub struct ModuleName {
    pub id: u64,
}

/// Identity of a dynamic table.
#[derive(Clone, Copy, PartialEq, Eq, Structural, Debug)]
pub struct TableHandle {
    pub id: u64,
}

/// The reserved system address that owns the global timestamp resource.
pub open spec fn spec_core_code_address() -> AccountAddress {
    AccountAddress { id: 1 }
}

#[verifier::when_used_as_spec(spec_core_code_address)]
pub fn core_code_address() -> (r: AccountAddress)
    ensures
        r == spec_core_code_address(),
{
    AccountAddress { id: 1 }
}

/// The distinguished type tag of the global timestamp resource.
pub open spec fn spec_current_time_tag() -> StructTag {
    StructTag { id: 1 }
}

#[verifier::when_used_as_spec(spec_current_time_tag)]
pub fn current_time_tag() -> (r: StructTag)
    ensures
        r == spec_current_time_tag(),
{
    StructTag { id: 1 }
}

/// A resolved storage slot identity. Within one conversion run, each
/// `StateKey` maps to at most one effective operation in the final write-set.
#[derive(Clone, Copy, PartialEq, Eq, Structural, Debug)]
pub enum StateKey {
    Module { address: AccountAddress, name: ModuleName },
    Resource { address: AccountAddress, tag: StructTag },
    ResourceGroup { address: AccountAddress, tag: StructTag },
    TableItem { handle: TableHandle, key: u64 },
}

/// Metadata attached to a slot when it is created: the payer funding the
/// slot, a deposit amount (always 0 at this layer), and the creation time.
#[derive(Clone, Copy, PartialEq, Eq, Structural, Debug)]
pub struct SlotMetadata {
    pub payer: AccountAddress,
    pub deposit: u64,
    pub creation_time_usecs: u64,
}

/// A slot's materialized value in the state view: its payload bytes and the
/// metadata recorded when the slot was created, if any.
#[derive(Clone, PartialEq, Eq, Debug)]
pub struct StateValue {
    pub data: Vec<u8>,
    pub metadata: Option<SlotMetadata>,
}

/// Mathematical model of a `StateValue`.
pub struct StateValueV {
    pub data: Seq<u8>,
    pub metadata: Option<SlotMetadata>,
}

impl View for StateValue {
    type V = StateValueV;

    open spec fn view(&self) -> StateValueV {
        StateValueV { data: self.data@, metadata: self.metadata }
    }
}

/// A requested mutation of one storage slot, as produced by the interpreter.
#[derive(Clone, PartialEq, Eq, Debug)]
pub enum RawOp {
    New(Vec<u8>),
    Modify(Vec<u8>),
    Delete,
}

/// Mathematical model of a `RawOp`.
pub enum RawOpV {
    New(Seq<u8>),
    Modify(Seq<u8>),
    Delete,
}

impl View for RawOp {
    type V = RawOpV;

    open spec fn view(&self) -> RawOpV {
        match self {
            RawOp::New(d) => RawOpV::New(d@),
            RawOp::Modify(d) => RawOpV::Modify(d@),
            RawOp::Delete => RawOpV::Delete,
        }
    }
}

/// The frozen per-slot operation ready for persistence. Exactly one of these
/// per `StateKey` survives in the final write-set.
#[derive(Clone, PartialEq, Eq, Debug)]
pub enum WriteOp {
    Creation { data: Vec<u8>, metadata: Option<SlotMetadata> },
    Modification { data: Vec<u8>, metadata: Option<SlotMetadata> },
    Deletion { metadata: Option<SlotMetadata> },
}

/// Mathematical model of a `WriteOp`.
pub enum WriteOpV {
    Creation { data: Seq<u8>, metadata: Option<SlotMetadata> },
    Modification { data: Seq<u8>, metadata: Option<SlotMetadata> },
    Deletion { metadata: Option<SlotMetadata> },
}

impl View for WriteOp {
    type V = WriteOpV;

    open spec fn view(&self) -> WriteOpV {
        match self {
            WriteOp::Creation { data, metadata } => WriteOpV::Creation {
                data: data@,
                metadata: *metadata,
            },
            WriteOp::Modification { data, metadata } => WriteOpV::Modification {
                data: data@,
                metadata: *metadata,
            },
            WriteOp::Deletion { metadata } => WriteOpV::Deletion { metadata: *metadata },
        }
    }
}

/// The typed status with which a conversion run aborts. Every failure leaves
/// no partial write-set behind. Many distinct internal causes deliberately
/// collapse into `UnknownInvariantViolation` so that untrusted callers learn
/// nothing about internal structure.
#[derive(Clone, Copy, PartialEq, Eq, Structural, Debug)]
pub enum VmStatus {
    /// A mismatch between a requested operation and the slot's actual prior
    /// state, or corrupted stored bytes.
    UnknownInvariantViolation,
    /// An unexpected failure reading the state view.
    StorageError,
    /// A malformed event identifier.
    EventKeyMismatch,
    /// Two logical addresses canonicalized to the same physical key at freeze.
    DataFormatError,
}

/// The outcome of watching the session's effects for an update of the
/// global timestamp resource.
#[derive(Clone, Copy, PartialEq, Eq, Structural, Debug)]
pub enum TimestampUpdate {
    /// The timestamp resource was written and its new value parsed.
    Updated(u64),
    /// The timestamp resource was not touched in this session.
    NotUpdated,
    /// The timestamp resource was deleted or its new payload failed to
    /// parse: the current time is unknown for the rest of this run.
    Unknown,
}

/// An event as emitted by the session: an opaque identifier plus sequence
/// number, type tag, and payload.
#[derive(Clone, PartialEq, Eq, Debug)]
pub struct RawEvent {
    pub guid: Vec<u8>,
    pub seq_num: u64,
    pub type_tag: StructTag,
    pub data: Vec<u8>,
}

/// Mathematical model of a `RawEvent`.
pub struct RawEventV {
    pub guid: Seq<u8>,
    pub seq_num: u64,
    pub type_tag: StructTag,
    pub data: Seq<u8>,
}

impl View for RawEvent {
    type V = RawEventV;

    open spec fn view(&self) -> RawEventV {
        RawEventV { guid: self.guid@, seq_num: self.seq_num, type_tag: self.type_tag, data: self.data@ }
    }
}

/// The parsed identity of an event stream: its creation number and the
/// account that created it.
#[derive(Clone, Copy, PartialEq, Eq, Structural, Debug)]
pub struct EventKey {
    pub creation_number: u64,
    pub address: AccountAddress,
}

/// An event in the ledger's representation, with its identifier parsed.
#[derive(Clone, PartialEq, Eq, Debug)]
pub struct ContractEvent {
    pub key: EventKey,
    pub seq_num: u64,
    pub type_tag: StructTag,
    pub data: Vec<u8>,
}

/// Mathematical model of a `ContractEvent`.
pub struct ContractEventV {
    pub key: EventKey,
    pub seq_num: u64,
    pub type_tag: StructTag,
    pub data: Seq<u8>,
}

impl View for ContractEvent {
    type V = ContractEventV;

    open spec fn view(&self) -> ContractEventV {
        ContractEventV {
            key: self.key,
            seq_num: self.seq_num,
            type_tag: self.type_tag,
            data: self.data@,
        }
    }
}

/// A speculative numeric merge operation on a counter-like slot, resolved
/// against concurrent operations by a later layer; carried forward opaquely.
#[derive(Clone, Copy, PartialEq, Eq, Structural, Debug)]
pub enum DeltaOp {
    Add(u128),
    Sub(u128),
}

/// Identity of one numeric counter: the table that holds it and its key.
#[derive(Clone, Copy, PartialEq, Eq, Structural, Debug)]
pub struct AggregatorID {
    pub handle: TableHandle,
    pub key: u64,
}

/// One numeric-counter effect produced by the session.
#[derive(Clone, Copy, PartialEq, Eq, Structural, Debug)]
pub enum AggregatorChange {
    Write(u128),
    Merge(DeltaOp),
    Delete,
}

/// One account's requested mutations: its published modules and its
/// resources, each a mapping from name or type tag to the requested
/// operation.
#[derive(Clone, PartialEq, Eq, Debug)]
pub struct AccountChangeSet {
    pub modules: Vec<(ModuleName, RawOp)>,
    pub resources: Vec<(StructTag, RawOp)>,
}

/// Mathematical model of an `AccountChangeSet`.
pub struct AccountChangeSetV {
    pub modules: Seq<(ModuleName, RawOpV)>,
    pub resources: Seq<(StructTag, RawOpV)>,
}

impl View for AccountChangeSet {
    type V = AccountChangeSetV;

    open spec fn view(&self) -> AccountChangeSetV {
        AccountChangeSetV {
            modules: viewed_pairs(self.modules@),
            resources: viewed_pairs(self.resources@),
        }
    }
}

/// The session's per-account module and resource effects, owned exclusively
/// by the conversion run and consumed once. The accounts, and the modules
/// and resources within one account, describe mappings: the interpreter
/// produces each key once. The conversion functions do not require that;
/// an input that repeats a key is processed in order, and a later
/// operation at the same logical address replaces the earlier one in the
/// accumulated write-set.
#[derive(Clone, PartialEq, Eq, Debug)]
pub struct ChangeSet {
    pub accounts: Vec<(AccountAddress, AccountChangeSet)>,
}

impl View for ChangeSet {
    type V = Seq<(AccountAddress, AccountChangeSetV)>;

    open spec fn view(&self) -> Seq<(AccountAddress, AccountChangeSetV)> {
        viewed_pairs(self.accounts@)
    }
}

} // verus!
