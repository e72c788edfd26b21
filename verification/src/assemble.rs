//! Assembly of the final change set: convert every logical address through
//! the write-op converter, reconcile numeric-counter effects against direct
//! writes to the same slots, translate emitted events, and freeze the
//! accumulated operations into the immutable write-set. There is no partial
//! application: either every address converts cleanly and the write-set is
//! produced whole, or the run aborts with a typed status and nothing is
//! committed.

use vstd::prelude::*;
use vstd::bytes::{spec_u128_to_le_bytes, spec_u64_from_le_bytes, u128_to_le_bytes,
    u64_from_le_bytes};

use crate::assoc::viewed_pairs;
use crate::converter::{convert_spec, prior_of, spec_new_slot_metadata, WriteOpConverter};
use crate::session::{get_current_timestamp, get_current_timestamp_spec,
    split_and_merge_resource_groups, split_and_merge_spec};
use crate::state_view::{StateView, StateViewV};
use crate::types::{AccountAddress, AccountChangeSet, AccountChangeSetV, AggregatorChange,
    AggregatorID, ChangeSet, ContractEvent, ContractEventV, DeltaOp, EventKey, ModuleName,
    RawEvent, RawEventV, RawOp, RawOpV, SlotMetadata, StateKey, StructTag, TableHandle,
    TimestampUpdate, VmStatus, WriteOpV};
use crate::write_set::{freeze, WriteSet, WriteSetMut};

verus! {

// ----------------------------------------------------------------------
// Converting one class of effects after another.
// ----------------------------------------------------------------------

/// Convert one raw operation and record the result at its logical address.
pub open spec fn convert_into_spec(
    v: StateViewV,
    meta: Option<SlotMetadata>,
    ws: Map<StateKey, WriteOpV>,
    key: StateKey,
    op: RawOpV,
    legacy: bool,
) -> Result<Map<StateKey, WriteOpV>, VmStatus> {
    match convert_spec(prior_of(v, key), meta, op, legacy) {
        Ok(w) => Ok(ws.insert(key, w)),
        Err(e) => Err(e),
    }
}

/// Convert one account's resource operations, in order.
pub open spec fn convert_resources_spec(
    v: StateViewV,
    meta: Option<SlotMetadata>,
    address: AccountAddress,
    legacy: bool,
    ws: Map<StateKey, WriteOpV>,
    items: Seq<(StructTag, RawOpV)>,
) -> Result<Map<StateKey, WriteOpV>, VmStatus>
    decreases items.len(),
{
    if items.len() == 0 {
        Ok(ws)
    } else {
        let key = StateKey::Resource { address, tag: items[0].0 };
        match convert_into_spec(v, meta, ws, key, items[0].1, legacy) {
            Err(e) => Err(e),
            Ok(ws2) => convert_resources_spec(v, meta, address, legacy, ws2, items.drop_first()),
        }
    }
}

/// Convert one account's module operations, in order.
pub open spec fn convert_modules_spec(
    v: StateViewV,
    meta: Option<SlotMetadata>,
    address: AccountAddress,
    ws: Map<StateKey, WriteOpV>,
    items: Seq<(ModuleName, RawOpV)>,
) -> Result<Map<StateKey, WriteOpV>, VmStatus>
    decreases items.len(),
{
    if items.len() == 0 {
        Ok(ws)
    } else {
        let key = StateKey::Module { address, name: items[0].0 };
        match convert_into_spec(v, meta, ws, key, items[0].1, false) {
            Err(e) => Err(e),
            Ok(ws2) => convert_modules_spec(v, meta, address, ws2, items.drop_first()),
        }
    }
}

/// Convert every account's resources and then its modules, account by
/// account.
pub open spec fn convert_accounts_spec(
    v: StateViewV,
    meta: Option<SlotMetadata>,
    legacy: bool,
    ws: Map<StateKey, WriteOpV>,
    accounts: Seq<(AccountAddress, AccountChangeSetV)>,
) -> Result<Map<StateKey, WriteOpV>, VmStatus>
    decreases accounts.len(),
{
    if accounts.len() == 0 {
        Ok(ws)
    } else {
        match convert_resources_spec(v, meta, accounts[0].0, legacy, ws, accounts[0].1.resources) {
            Err(e) => Err(e),
            Ok(ws2) => match convert_modules_spec(v, meta, accounts[0].0, ws2,
                accounts[0].1.modules) {
                Err(e) => Err(e),
                Ok(ws3) => convert_accounts_spec(v, meta, legacy, ws3, accounts.drop_first()),
            },
        }
    }
}

/// Convert the group-level operations produced by the merger.
pub open spec fn convert_group_ops_spec(
    v: StateViewV,
    meta: Option<SlotMetadata>,
    ws: Map<StateKey, WriteOpV>,
    items: Seq<((AccountAddress, StructTag), RawOpV)>,
) -> Result<Map<StateKey, WriteOpV>, VmStatus>
    decreases items.len(),
{
    if items.len() == 0 {
        Ok(ws)
    } else {
        let key = StateKey::ResourceGroup { address: items[0].0.0, tag: items[0].0.1 };
        match convert_into_spec(v, meta, ws, key, items[0].1, false) {
            Err(e) => Err(e),
            Ok(ws2) => convert_group_ops_spec(v, meta, ws2, items.drop_first()),
        }
    }
}

/// Convert one table's entry operations, in order.
pub open spec fn convert_table_entries_spec(
    v: StateViewV,
    meta: Option<SlotMetadata>,
    handle: TableHandle,
    ws: Map<StateKey, WriteOpV>,
    items: Seq<(u64, RawOpV)>,
) -> Result<Map<StateKey, WriteOpV>, VmStatus>
    decreases items.len(),
{
    if items.len() == 0 {
        Ok(ws)
    } else {
        let key = StateKey::TableItem { handle, key: items[0].0 };
        match convert_into_spec(v, meta, ws, key, items[0].1, false) {
            Err(e) => Err(e),
            Ok(ws2) => convert_table_entries_spec(v, meta, handle, ws2, items.drop_first()),
        }
    }
}

/// Convert every table's entries, table by table.
pub open spec fn convert_tables_spec(
    v: StateViewV,
    meta: Option<SlotMetadata>,
    ws: Map<StateKey, WriteOpV>,
    tables: Seq<(TableHandle, Seq<(u64, RawOpV)>)>,
) -> Result<Map<StateKey, WriteOpV>, VmStatus>
    decreases tables.len(),
{
    if tables.len() == 0 {
        Ok(ws)
    } else {
        match convert_table_entries_spec(v, meta, tables[0].0, ws, tables[0].1) {
            Err(e) => Err(e),
            Ok(ws2) => convert_tables_spec(v, meta, ws2, tables.drop_first()),
        }
    }
}

/// The plain-value view of the table change set.
pub open spec fn table_changes_view(s: Seq<(TableHandle, Vec<(u64, RawOp)>)>) -> Seq<
    (TableHandle, Seq<(u64, RawOpV)>),
> {
    s.map_values(|p: (TableHandle, Vec<(u64, RawOp)>)| (p.0, viewed_pairs(p.1@)))
}

// ----------------------------------------------------------------------
// Numeric-counter effects.
// ----------------------------------------------------------------------

/// The raw operation a direct numeric write becomes. A counter's value is
/// persisted as its sixteen little-endian bytes. With no write-op at the
/// slot yet, the write creates it; over an intra-session re-creation the
/// last writer wins; colliding with an independently-issued modification or
/// deletion of the same slot is an invariant violation.
pub open spec fn agg_write_raw_op_spec(
    ws: Map<StateKey, WriteOpV>,
    key: StateKey,
    value: u128,
) -> Result<RawOpV, VmStatus> {
    if !ws.contains_key(key) {
        Ok(RawOpV::New(spec_u128_to_le_bytes(value)))
    } else {
        match ws[key] {
            WriteOpV::Creation { .. } => Ok(RawOpV::New(spec_u128_to_le_bytes(value))),
            WriteOpV::Modification { .. } => Err(VmStatus::UnknownInvariantViolation),
            WriteOpV::Deletion { .. } => Err(VmStatus::UnknownInvariantViolation),
        }
    }
}

/// Integrate one numeric-counter effect: a merge is carried forward as an
/// unmaterialized delta; a direct write or delete becomes a canonical
/// write-operation at the counter's slot.
pub open spec fn apply_aggregator_change_spec(
    v: StateViewV,
    meta: Option<SlotMetadata>,
    ws: Map<StateKey, WriteOpV>,
    deltas: Seq<(StateKey, DeltaOp)>,
    id: AggregatorID,
    change: AggregatorChange,
) -> Result<(Map<StateKey, WriteOpV>, Seq<(StateKey, DeltaOp)>), VmStatus> {
    let key = StateKey::TableItem { handle: id.handle, key: id.key };
    match change {
        AggregatorChange::Write(value) => match agg_write_raw_op_spec(ws, key, value) {
            Err(e) => Err(e),
            Ok(op) => match convert_into_spec(v, meta, ws, key, op, false) {
                Err(e) => Err(e),
                Ok(ws2) => Ok((ws2, deltas)),
            },
        },
        AggregatorChange::Merge(d) => Ok((ws, deltas.push((key, d)))),
        AggregatorChange::Delete => match convert_into_spec(v, meta, ws, key, RawOpV::Delete,
            false) {
            Err(e) => Err(e),
            Ok(ws2) => Ok((ws2, deltas)),
        },
    }
}

/// Integrate every numeric-counter effect, in order.
pub open spec fn apply_aggregator_changes_spec(
    v: StateViewV,
    meta: Option<SlotMetadata>,
    ws: Map<StateKey, WriteOpV>,
    deltas: Seq<(StateKey, DeltaOp)>,
    changes: Seq<(AggregatorID, AggregatorChange)>,
) -> Result<(Map<StateKey, WriteOpV>, Seq<(StateKey, DeltaOp)>), VmStatus>
    decreases changes.len(),
{
    if changes.len() == 0 {
        Ok((ws, deltas))
    } else {
        match apply_aggregator_change_spec(v, meta, ws, deltas, changes[0].0, changes[0].1) {
            Err(e) => Err(e),
            Ok((ws2, d2)) => apply_aggregator_changes_spec(v, meta, ws2, d2, changes.drop_first()),
        }
    }
}

// ----------------------------------------------------------------------
// Events.
// ----------------------------------------------------------------------

/// An event identifier is the event stream's creation number followed by
/// its creator's account identity, each as eight little-endian bytes.
/// Anything else is malformed.
pub open spec fn parse_event_key_spec(guid: Seq<u8>) -> Option<EventKey> {
    if guid.len() == 16 {
        Some(
            EventKey {
                creation_number: spec_u64_from_le_bytes(guid.subrange(0, 8)),
                address: AccountAddress { id: spec_u64_from_le_bytes(guid.subrange(8, 16)) },
            },
        )
    } else {
        None
    }
}

/// Translate emitted events in emission order; a malformed identifier is a
/// hard error.
pub open spec fn translate_events_spec(
    events: Seq<RawEventV>,
    acc: Seq<ContractEventV>,
) -> Result<Seq<ContractEventV>, VmStatus>
    decreases events.len(),
{
    if events.len() == 0 {
        Ok(acc)
    } else {
        match parse_event_key_spec(events[0].guid) {
            None => Err(VmStatus::EventKeyMismatch),
            Some(key) => translate_events_spec(
                events.drop_first(),
                acc.push(
                    ContractEventV {
                        key,
                        seq_num: events[0].seq_num,
                        type_tag: events[0].type_tag,
                        data: events[0].data,
                    },
                ),
            ),
        }
    }
}

/// The plain-value view of a sequence of raw events.
pub open spec fn raw_events_view(s: Seq<RawEvent>) -> Seq<RawEventV> {
    s.map_values(|e: RawEvent| e@)
}

/// The plain-value view of a sequence of translated events.
pub open spec fn contract_events_view(s: Seq<ContractEvent>) -> Seq<ContractEventV> {
    s.map_values(|e: ContractEvent| e@)
}

/// Read the eight little-endian bytes starting at `start`.
#[verifier::loop_isolation(false)]
pub(crate) fn read_le_u64(bytes: &Vec<u8>, start: usize) -> (r: u64)
    requires
        start + 8 <= bytes@.len(),
    ensures
        r == spec_u64_from_le_bytes(bytes@.subrange(start as int, start as int + 8)),
{
    let n = bytes.len();
    let mut buf: Vec<u8> = Vec::new();
    let mut k: usize = 0;
    while k < 8
        invariant
            k <= 8,
            buf@ == bytes@.subrange(start as int, start as int + k as int),
        decreases 8 - k,
    {
        proof {
            assert(start + k < n);
        }
        buf.push(bytes[start + k]);
        proof {
            assert(buf@ =~= bytes@.subrange(start as int, start as int + k as int + 1));
        }
        k += 1;
    }
    u64_from_le_bytes(buf.as_slice())
}

/// Parse one event identifier.
pub fn parse_event_key(guid: &Vec<u8>) -> (r: Option<EventKey>)
    ensures
        r == parse_event_key_spec(guid@),
{
    if guid.len() == 16 {
        let creation_number = read_le_u64(guid, 0);
        let address_id = read_le_u64(guid, 8);
        Some(EventKey { creation_number, address: AccountAddress { id: address_id } })
    } else {
        None
    }
}

/// Translate the session's emitted events into the ledger's representation,
/// preserving emission order.
#[verifier::loop_isolation(false)]
pub fn translate_events(events: Vec<RawEvent>) -> (r: Result<Vec<ContractEvent>, VmStatus>)
    ensures
        match r {
            Ok(out) => translate_events_spec(raw_events_view(events@), Seq::empty()) == Ok::<
                Seq<ContractEventV>,
                VmStatus,
            >(contract_events_view(out@)),
            Err(e) => translate_events_spec(raw_events_view(events@), Seq::empty()) == Err::<
                Seq<ContractEventV>,
                VmStatus,
            >(e),
        },
{
    let ghost all = raw_events_view(events@);
    let mut rest = events;
    let mut out: Vec<ContractEvent> = Vec::new();
    proof {
        assert(raw_events_view(rest@) =~= all);
        assert(contract_events_view(out@) =~= Seq::<ContractEventV>::empty());
    }
    while rest.len() > 0
        invariant
            translate_events_spec(raw_events_view(rest@), contract_events_view(out@))
                == translate_events_spec(all, Seq::empty()),
        decreases rest@.len(),
    {
        let ghost rest0 = raw_events_view(rest@);
        let ghost out0 = contract_events_view(out@);
        let ev = rest.remove(0);
        proof {
            assert(rest0[0] == ev@);
            assert(rest0.drop_first() =~= raw_events_view(rest@));
        }
        match parse_event_key(&ev.guid) {
            None => {
                return Err(VmStatus::EventKeyMismatch);
            },
            Some(key) => {
                let translated = ContractEvent {
                    key,
                    seq_num: ev.seq_num,
                    type_tag: ev.type_tag,
                    data: ev.data,
                };
                proof {
                    assert(translated@ == ContractEventV {
                        key,
                        seq_num: ev@.seq_num,
                        type_tag: ev@.type_tag,
                        data: ev@.data,
                    });
                }
                out.push(translated);
                proof {
                    assert(contract_events_view(out@) =~= out0.push(translated@));
                }
            },
        }
    }
    proof {
        assert(raw_events_view(rest@) =~= Seq::<RawEventV>::empty());
    }
    Ok(out)
}

// ----------------------------------------------------------------------
// The executable conversion passes.
// ----------------------------------------------------------------------

/// Convert one account's resources into the accumulating write-set.
#[verifier::loop_isolation(false)]
fn convert_resources_into(
    view: &StateView,
    woc: &WriteOpConverter,
    address: AccountAddress,
    legacy: bool,
    ws: &mut WriteSetMut,
    items: Vec<(StructTag, RawOp)>,
) -> (r: Result<(), VmStatus>)
    requires
        view.wf(),
        old(ws).wf(),
    ensures
        final(ws).wf(),
        match r {
            Ok(_) => convert_resources_spec(
                view@,
                woc.new_slot_metadata,
                address,
                legacy,
                old(ws)@,
                viewed_pairs(items@),
            ) == Ok::<Map<StateKey, WriteOpV>, VmStatus>(final(ws)@),
            Err(e) => convert_resources_spec(
                view@,
                woc.new_slot_metadata,
                address,
                legacy,
                old(ws)@,
                viewed_pairs(items@),
            ) == Err::<Map<StateKey, WriteOpV>, VmStatus>(e),
        },
{
    let ghost all = viewed_pairs(items@);
    let ghost ws0 = ws@;
    let mut rest = items;
    while rest.len() > 0
        invariant
            ws.wf(),
            convert_resources_spec(
                view@,
                woc.new_slot_metadata,
                address,
                legacy,
                ws@,
                viewed_pairs(rest@),
            ) == convert_resources_spec(view@, woc.new_slot_metadata, address, legacy, ws0, all),
        decreases rest@.len(),
    {
        let ghost rest0 = viewed_pairs(rest@);
        let (tag, op) = rest.remove(0);
        proof {
            assert(rest0[0] == (tag, op@));
            assert(rest0.drop_first() =~= viewed_pairs(rest@));
        }
        let key = StateKey::Resource { address, tag };
        match woc.convert(view, key, op, legacy) {
            Err(e) => {
                return Err(e);
            },
            Ok(w) => {
                ws.insert(key, w);
            },
        }
    }
    proof {
        assert(viewed_pairs(rest@) =~= Seq::<(StructTag, RawOpV)>::empty());
    }
    Ok(())
}

/// Convert one account's modules into the accumulating write-set.
#[verifier::loop_isolation(false)]
fn convert_modules_into(
    view: &StateView,
    woc: &WriteOpConverter,
    address: AccountAddress,
    ws: &mut WriteSetMut,
    items: Vec<(ModuleName, RawOp)>,
) -> (r: Result<(), VmStatus>)
    requires
        view.wf(),
        old(ws).wf(),
    ensures
        final(ws).wf(),
        match r {
            Ok(_) => convert_modules_spec(
                view@,
                woc.new_slot_metadata,
                address,
                old(ws)@,
                viewed_pairs(items@),
            ) == Ok::<Map<StateKey, WriteOpV>, VmStatus>(final(ws)@),
            Err(e) => convert_modules_spec(
                view@,
                woc.new_slot_metadata,
                address,
                old(ws)@,
                viewed_pairs(items@),
            ) == Err::<Map<StateKey, WriteOpV>, VmStatus>(e),
        },
{
    let ghost all = viewed_pairs(items@);
    let ghost ws0 = ws@;
    let mut rest = items;
    while rest.len() > 0
        invariant
            ws.wf(),
            convert_modules_spec(view@, woc.new_slot_metadata, address, ws@, viewed_pairs(rest@))
                == convert_modules_spec(view@, woc.new_slot_metadata, address, ws0, all),
        decreases rest@.len(),
    {
        let ghost rest0 = viewed_pairs(rest@);
        let (name, op) = rest.remove(0);
        proof {
            assert(rest0[0] == (name, op@));
            assert(rest0.drop_first() =~= viewed_pairs(rest@));
        }
        let key = StateKey::Module { address, name };
        match woc.convert(view, key, op, false) {
            Err(e) => {
                return Err(e);
            },
            Ok(w) => {
                ws.insert(key, w);
            },
        }
    }
    proof {
        assert(viewed_pairs(rest@) =~= Seq::<(ModuleName, RawOpV)>::empty());
    }
    Ok(())
}

/// Convert the merged group-level operations into the accumulating
/// write-set.
#[verifier::loop_isolation(false)]
fn convert_group_ops_into(
    view: &StateView,
    woc: &WriteOpConverter,
    ws: &mut WriteSetMut,
    items: Vec<((AccountAddress, StructTag), RawOp)>,
) -> (r: Result<(), VmStatus>)
    requires
        view.wf(),
        old(ws).wf(),
    ensures
        final(ws).wf(),
        match r {
            Ok(_) => convert_group_ops_spec(
                view@,
                woc.new_slot_metadata,
                old(ws)@,
                viewed_pairs(items@),
            ) == Ok::<Map<StateKey, WriteOpV>, VmStatus>(final(ws)@),
            Err(e) => convert_group_ops_spec(
                view@,
                woc.new_slot_metadata,
                old(ws)@,
                viewed_pairs(items@),
            ) == Err::<Map<StateKey, WriteOpV>, VmStatus>(e),
        },
{
    let ghost all = viewed_pairs(items@);
    let ghost ws0 = ws@;
    let mut rest = items;
    while rest.len() > 0
        invariant
            ws.wf(),
            convert_group_ops_spec(view@, woc.new_slot_metadata, ws@, viewed_pairs(rest@))
                == convert_group_ops_spec(view@, woc.new_slot_metadata, ws0, all),
        decreases rest@.len(),
    {
        let ghost rest0 = viewed_pairs(rest@);
        let ((address, tag), op) = rest.remove(0);
        proof {
            assert(rest0[0] == ((address, tag), op@));
            assert(rest0.drop_first() =~= viewed_pairs(rest@));
        }
        let key = StateKey::ResourceGroup { address, tag };
        match woc.convert(view, key, op, false) {
            Err(e) => {
                return Err(e);
            },
            Ok(w) => {
                ws.insert(key, w);
            },
        }
    }
    proof {
        assert(viewed_pairs(rest@) =~= Seq::<((AccountAddress, StructTag), RawOpV)>::empty());
    }
    Ok(())
}

/// Convert one table's entry operations into the accumulating write-set.
#[verifier::loop_isolation(false)]
fn convert_table_entries_into(
    view: &StateView,
    woc: &WriteOpConverter,
    handle: TableHandle,
    ws: &mut WriteSetMut,
    items: Vec<(u64, RawOp)>,
) -> (r: Result<(), VmStatus>)
    requires
        view.wf(),
        old(ws).wf(),
    ensures
        final(ws).wf(),
        match r {
            Ok(_) => convert_table_entries_spec(
                view@,
                woc.new_slot_metadata,
                handle,
                old(ws)@,
                viewed_pairs(items@),
            ) == Ok::<Map<StateKey, WriteOpV>, VmStatus>(final(ws)@),
            Err(e) => convert_table_entries_spec(
                view@,
                woc.new_slot_metadata,
                handle,
                old(ws)@,
                viewed_pairs(items@),
            ) == Err::<Map<StateKey, WriteOpV>, VmStatus>(e),
        },
{
    let ghost all = viewed_pairs(items@);
    let ghost ws0 = ws@;
    let mut rest = items;
    while rest.len() > 0
        invariant
            ws.wf(),
            convert_table_entries_spec(
                view@,
                woc.new_slot_metadata,
                handle,
                ws@,
                viewed_pairs(rest@),
            ) == convert_table_entries_spec(view@, woc.new_slot_metadata, handle, ws0, all),
        decreases rest@.len(),
    {
        let ghost rest0 = viewed_pairs(rest@);
        let (k, op) = rest.remove(0);
        proof {
            assert(rest0[0] == (k, op@));
            assert(rest0.drop_first() =~= viewed_pairs(rest@));
        }
        let key = StateKey::TableItem { handle, key: k };
        match woc.convert(view, key, op, false) {
            Err(e) => {
                return Err(e);
            },
            Ok(w) => {
                ws.insert(key, w);
            },
        }
    }
    proof {
        assert(viewed_pairs(rest@) =~= Seq::<(u64, RawOpV)>::empty());
    }
    Ok(())
}

/// Integrate every numeric-counter effect into the accumulating write-set
/// and the carried-forward deltas.
#[verifier::loop_isolation(false)]
fn apply_aggregator_changes(
    view: &StateView,
    woc: &WriteOpConverter,
    ws: &mut WriteSetMut,
    deltas: &mut Vec<(StateKey, DeltaOp)>,
    changes: Vec<(AggregatorID, AggregatorChange)>,
) -> (r: Result<(), VmStatus>)
    requires
        view.wf(),
        old(ws).wf(),
    ensures
        final(ws).wf(),
        match r {
            Ok(_) => apply_aggregator_changes_spec(
                view@,
                woc.new_slot_metadata,
                old(ws)@,
                old(deltas)@,
                changes@,
            ) == Ok::<(Map<StateKey, WriteOpV>, Seq<(StateKey, DeltaOp)>), VmStatus>(
                (final(ws)@, final(deltas)@),
            ),
            Err(e) => apply_aggregator_changes_spec(
                view@,
                woc.new_slot_metadata,
                old(ws)@,
                old(deltas)@,
                changes@,
            ) == Err::<(Map<StateKey, WriteOpV>, Seq<(StateKey, DeltaOp)>), VmStatus>(e),
        },
{
    let ghost all = changes@;
    let ghost ws0 = ws@;
    let ghost d0 = deltas@;
    let mut rest = changes;
    while rest.len() > 0
        invariant
            ws.wf(),
            apply_aggregator_changes_spec(view@, woc.new_slot_metadata, ws@, deltas@, rest@)
                == apply_aggregator_changes_spec(view@, woc.new_slot_metadata, ws0, d0, all),
        decreases rest@.len(),
    {
        let (id, change) = rest.remove(0);
        let key = StateKey::TableItem { handle: id.handle, key: id.key };
        match change {
            AggregatorChange::Write(value) => {
                let bytes = u128_to_le_bytes(value);
                let op = match ws.get(key) {
                    None => RawOp::New(bytes),
                    Some(existing) => match existing {
                        crate::types::WriteOp::Creation { .. } => RawOp::New(bytes),
                        crate::types::WriteOp::Modification { .. } => {
                            return Err(VmStatus::UnknownInvariantViolation);
                        },
                        crate::types::WriteOp::Deletion { .. } => {
                            return Err(VmStatus::UnknownInvariantViolation);
                        },
                    },
                };
                match woc.convert(view, key, op, false) {
                    Err(e) => {
                        return Err(e);
                    },
                    Ok(w) => {
                        ws.insert(key, w);
                    },
                }
            },
            AggregatorChange::Merge(d) => {
                deltas.push((key, d));
            },
            AggregatorChange::Delete => {
                match woc.convert(view, key, RawOp::Delete, false) {
                    Err(e) => {
                        return Err(e);
                    },
                    Ok(w) => {
                        ws.insert(key, w);
                    },
                }
            },
        }
    }
    Ok(())
}

// ----------------------------------------------------------------------
// The whole conversion.
// ----------------------------------------------------------------------

/// The converted session output: the immutable write-set, the numeric
/// deltas left unmaterialized for a later concurrency-resolution stage, and
/// the translated events. Handed to the ledger by value and never mutated
/// again.
pub struct ChangeSetExt {
    pub write_set: WriteSet,
    pub delta_change_set: Vec<(StateKey, DeltaOp)>,
    pub events: Vec<ContractEvent>,
}

/// Mathematical model of a `ChangeSetExt`.
pub struct ChangeSetExtV {
    pub write_set: Map<StateKey, WriteOpV>,
    pub delta_change_set: Seq<(StateKey, DeltaOp)>,
    pub events: Seq<ContractEventV>,
}

impl View for ChangeSetExt {
    type V = ChangeSetExtV;

    open spec fn view(&self) -> ChangeSetExtV {
        ChangeSetExtV {
            write_set: self.write_set.as_map(),
            delta_change_set: self.delta_change_set@,
            events: contract_events_view(self.events@),
        }
    }
}

/// What converting a whole session's effects yields, step by step: modules
/// and non-group resources, then group-level operations, then table
/// entries, then numeric-counter effects, then the translated events.
pub open spec fn convert_change_set_spec(
    v: StateViewV,
    new_slot_payer: Option<AccountAddress>,
    current_time: Option<u64>,
    accounts: Seq<(AccountAddress, AccountChangeSetV)>,
    group_ops: Seq<((AccountAddress, StructTag), RawOpV)>,
    events: Seq<RawEventV>,
    tables: Seq<(TableHandle, Seq<(u64, RawOpV)>)>,
    aggregator_changes: Seq<(AggregatorID, AggregatorChange)>,
    legacy: bool,
) -> Result<ChangeSetExtV, VmStatus> {
    let meta = spec_new_slot_metadata(new_slot_payer, current_time);
    match convert_accounts_spec(v, meta, legacy, Map::empty(), accounts) {
        Err(e) => Err(e),
        Ok(ws1) => match convert_group_ops_spec(v, meta, ws1, group_ops) {
            Err(e) => Err(e),
            Ok(ws2) => match convert_tables_spec(v, meta, ws2, tables) {
                Err(e) => Err(e),
                Ok(ws3) => match apply_aggregator_changes_spec(v, meta, ws3, Seq::empty(),
                    aggregator_changes) {
                    Err(e) => Err(e),
                    Ok((ws4, deltas)) => match translate_events_spec(events, Seq::empty()) {
                        Err(e) => Err(e),
                        Ok(evs) => Ok(
                            ChangeSetExtV {
                                write_set: ws4,
                                delta_change_set: deltas,
                                events: evs,
                            },
                        ),
                    },
                },
            },
        },
    }
}

/// The write-set invariant at the pipeline's boundary: any two distinct
/// entries of the produced write-set name distinct logical addresses — the
/// final write-set contains at most one canonical write-operation per
/// logical address.
pub open spec fn one_op_per_address(ext: &ChangeSetExt) -> bool {
    forall|i: int, j: int|
        0 <= i < j < ext.write_set.seq_view().len() ==> (#[trigger] ext.write_set.seq_view()[
        i]).0 != (#[trigger] ext.write_set.seq_view()[j]).0
}

/// The view of a conversion result.
pub open spec fn change_set_ext_result_view(r: Result<ChangeSetExt, VmStatus>) -> Result<
    ChangeSetExtV,
    VmStatus,
> {
    match r {
        Ok(ext) => Ok(ext@),
        Err(e) => Err(e),
    }
}

/// Convert a split change set — the non-group effects, the merged
/// group-level operations, the table and numeric-counter effects, and the
/// emitted events — into the frozen write-set, the unmaterialized deltas,
/// and the translated events.
#[verifier::loop_isolation(false)]
pub fn convert_change_set(
    view: &StateView,
    new_slot_payer: Option<AccountAddress>,
    current_time: Option<u64>,
    change_set: ChangeSet,
    resource_group_change_set: Vec<((AccountAddress, StructTag), RawOp)>,
    events: Vec<RawEvent>,
    table_changes: Vec<(TableHandle, Vec<(u64, RawOp)>)>,
    aggregator_changes: Vec<(AggregatorID, AggregatorChange)>,
    legacy_resource_creation_as_modification: bool,
) -> (r: Result<ChangeSetExt, VmStatus>)
    requires
        view.wf(),
    ensures
        change_set_ext_result_view(r) == convert_change_set_spec(
            view@,
            new_slot_payer,
            current_time,
            change_set@,
            viewed_pairs(resource_group_change_set@),
            raw_events_view(events@),
            table_changes_view(table_changes@),
            aggregator_changes@,
            legacy_resource_creation_as_modification,
        ),
        r matches Ok(ext) ==> one_op_per_address(&ext),
{
    let ghost v = view@;
    let woc = WriteOpConverter::new(new_slot_payer, current_time);
    let ghost meta = woc.new_slot_metadata;
    let mut ws = WriteSetMut::new();

    // Modules and non-group resources, account by account.
    let ghost all_accounts = change_set@;
    let mut accounts = change_set.accounts;
    proof {
        assert(viewed_pairs(accounts@) == all_accounts);
    }
    while accounts.len() > 0
        invariant
            ws.wf(),
            convert_accounts_spec(
                v,
                meta,
                legacy_resource_creation_as_modification,
                ws@,
                viewed_pairs(accounts@),
            ) == convert_accounts_spec(
                v,
                meta,
                legacy_resource_creation_as_modification,
                Map::empty(),
                all_accounts,
            ),
        decreases accounts@.len(),
    {
        let ghost accs0 = viewed_pairs(accounts@);
        let (address, acs) = accounts.remove(0);
        proof {
            assert(accs0[0] == (address, acs@));
            assert(accs0.drop_first() =~= viewed_pairs(accounts@));
        }
        let ghost acs_v = acs@;
        let AccountChangeSet { modules, resources } = acs;
        proof {
            assert(viewed_pairs(resources@) == acs_v.resources);
            assert(viewed_pairs(modules@) == acs_v.modules);
        }
        match convert_resources_into(
            view,
            &woc,
            address,
            legacy_resource_creation_as_modification,
            &mut ws,
            resources,
        ) {
            Err(e) => {
                return Err(e);
            },
            Ok(_) => {},
        }
        match convert_modules_into(view, &woc, address, &mut ws, modules) {
            Err(e) => {
                return Err(e);
            },
            Ok(_) => {},
        }
    }
    proof {
        assert(viewed_pairs(accounts@) =~= Seq::<(AccountAddress, AccountChangeSetV)>::empty());
    }
    let ghost ws1 = ws@;

    // Group-level operations.
    match convert_group_ops_into(view, &woc, &mut ws, resource_group_change_set) {
        Err(e) => {
            return Err(e);
        },
        Ok(_) => {},
    }
    let ghost ws2 = ws@;

    // Table entries, table by table.
    let ghost all_tables = table_changes_view(table_changes@);
    let mut tables = table_changes;
    proof {
        assert(table_changes_view(tables@) == all_tables);
    }
    while tables.len() > 0
        invariant
            ws.wf(),
            convert_tables_spec(v, meta, ws@, table_changes_view(tables@)) == convert_tables_spec(
                v,
                meta,
                ws2,
                all_tables,
            ),
        decreases tables@.len(),
    {
        let ghost tabs0 = table_changes_view(tables@);
        let (handle, entries) = tables.remove(0);
        proof {
            assert(tabs0[0] == (handle, viewed_pairs(entries@)));
            assert(tabs0.drop_first() =~= table_changes_view(tables@));
        }
        match convert_table_entries_into(view, &woc, handle, &mut ws, entries) {
            Err(e) => {
                return Err(e);
            },
            Ok(_) => {},
        }
    }
    proof {
        assert(table_changes_view(tables@) =~= Seq::<(TableHandle, Seq<(u64, RawOpV)>)>::empty());
    }
    let ghost ws3 = ws@;

    // Numeric-counter effects.
    let mut deltas: Vec<(StateKey, DeltaOp)> = Vec::new();
    proof {
        assert(deltas@ =~= Seq::<(StateKey, DeltaOp)>::empty());
    }
    match apply_aggregator_changes(view, &woc, &mut ws, &mut deltas, aggregator_changes) {
        Err(e) => {
            return Err(e);
        },
        Ok(_) => {},
    }

    // Freeze. The accumulator's invariant makes a duplicated address
    // impossible here; the data-format check still runs and its failure is
    // propagated.
    let write_set = match freeze(ws) {
        Ok(w) => w,
        Err(e) => {
            return Err(e);
        },
    };

    // Events.
    let events = match translate_events(events) {
        Ok(evs) => evs,
        Err(e) => {
            return Err(e);
        },
    };

    Ok(ChangeSetExt { write_set, delta_change_set: deltas, events })
}

/// What finishing a session yields: the split-and-merge outcome feeds the
/// timestamp resolution, and the conversion runs with the resolved time.
pub open spec fn finish_spec(
    v: StateViewV,
    new_slot_payer: Option<AccountAddress>,
    accounts: Seq<(AccountAddress, AccountChangeSetV)>,
    events: Seq<RawEventV>,
    tables: Seq<(TableHandle, Seq<(u64, RawOpV)>)>,
    aggregator_changes: Seq<(AggregatorID, AggregatorChange)>,
    legacy: bool,
) -> Result<(ChangeSetExtV, Option<u64>), VmStatus> {
    match split_and_merge_spec(v, accounts) {
        Err(e) => Err(e),
        Ok((filtered, group_ops, ts)) => {
            let current_time = get_current_timestamp_spec(ts, v);
            match convert_change_set_spec(v, new_slot_payer, current_time, filtered, group_ops,
                events, tables, aggregator_changes, legacy) {
                Err(e) => Err(e),
                Ok(ext) => Ok((ext, current_time)),
            }
        },
    }
}

/// The view of a finish result.
pub open spec fn finish_result_view(r: Result<(ChangeSetExt, Option<u64>), VmStatus>) -> Result<
    (ChangeSetExtV, Option<u64>),
    VmStatus,
> {
    match r {
        Ok((ext, t)) => Ok((ext@, t)),
        Err(e) => Err(e),
    }
}

/// Convert a session's raw effects whole: split and merge the resource
/// groups, resolve the effective current timestamp, and convert everything
/// into the final change set. Also returns the resolved timestamp for the
/// caller's own bookkeeping.
pub fn finish_with_current_timestamp(
    view: &StateView,
    new_slot_payer: Option<AccountAddress>,
    change_set: ChangeSet,
    events: Vec<RawEvent>,
    table_changes: Vec<(TableHandle, Vec<(u64, RawOp)>)>,
    aggregator_changes: Vec<(AggregatorID, AggregatorChange)>,
    legacy_resource_creation_as_modification: bool,
) -> (r: Result<(ChangeSetExt, Option<u64>), VmStatus>)
    requires
        view.wf(),
    ensures
        finish_result_view(r) == finish_spec(
            view@,
            new_slot_payer,
            change_set@,
            raw_events_view(events@),
            table_changes_view(table_changes@),
            aggregator_changes@,
            legacy_resource_creation_as_modification,
        ),
        r matches Ok((ext, _)) ==> one_op_per_address(&ext),
{
    let (filtered, group_ops, ts) = match split_and_merge_resource_groups(view, change_set) {
        Err(e) => {
            return Err(e);
        },
        Ok(split) => split,
    };
    let current_time = get_current_timestamp(ts, view);
    match convert_change_set(
        view,
        new_slot_payer,
        current_time,
        filtered,
        group_ops,
        events,
        table_changes,
        aggregator_changes,
        legacy_resource_creation_as_modification,
    ) {
        Err(e) => Err(e),
        Ok(ext) => Ok((ext, current_time)),
    }
}

/// Convert a session's raw effects whole, keeping only the change set.
pub fn finish(
    view: &StateView,
    new_slot_payer: Option<AccountAddress>,
    change_set: ChangeSet,
    events: Vec<RawEvent>,
    table_changes: Vec<(TableHandle, Vec<(u64, RawOp)>)>,
    aggregator_changes: Vec<(AggregatorID, AggregatorChange)>,
    legacy_resource_creation_as_modification: bool,
) -> (r: Result<ChangeSetExt, VmStatus>)
    requires
        view.wf(),
    ensures
        change_set_ext_result_view(r) == (match finish_spec(
            view@,
            new_slot_payer,
            change_set@,
            raw_events_view(events@),
            table_changes_view(table_changes@),
            aggregator_changes@,
            legacy_resource_creation_as_modification,
        ) {
            Ok((ext, _)) => Ok(ext),
            Err(e) => Err(e),
        }),
        r matches Ok(ext) ==> one_op_per_address(&ext),
{
    match finish_with_current_timestamp(
        view,
        new_slot_payer,
        change_set,
        events,
        table_changes,
        aggregator_changes,
        legacy_resource_creation_as_modification,
    ) {
        Ok((ext, _)) => Ok(ext),
        Err(e) => Err(e),
    }
}

} // verus!
