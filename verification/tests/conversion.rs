//! End-to-end tests of the conversion pipeline: classification, metadata,
//! numeric-counter reconciliation, events, and the full session finish.

use vm_writeset::assemble::{convert_change_set, finish_with_current_timestamp};
use vm_writeset::converter::WriteOpConverter;
use vm_writeset::session::{get_current_timestamp, parse_updated_timestamp,
    split_and_merge_resource_groups};
use vm_writeset::state_view::StateView;
use vm_writeset::types::{AccountAddress, AccountChangeSet, AggregatorChange, AggregatorID,
    ChangeSet, DeltaOp, EventKey, ModuleName, RawEvent, RawOp, SlotMetadata, StateKey, StateValue,
    StructTag, TableHandle, TimestampUpdate, VmStatus, WriteOp};

fn addr(id: u64) -> AccountAddress {
    AccountAddress { id }
}

fn tag(id: u64) -> StructTag {
    StructTag { id }
}

fn empty_view() -> StateView {
    StateView { entries: vec![], group_membership: vec![], onchain_timestamp: None }
}

fn plain_value(data: &[u8]) -> StateValue {
    StateValue { data: data.to_vec(), metadata: None }
}

#[test]
fn classification_is_idempotent() {
    let view = StateView {
        entries: vec![(
            StateKey::Resource { address: addr(2), tag: tag(3) },
            plain_value(b"old"),
        )],
        group_membership: vec![],
        onchain_timestamp: None,
    };
    let woc = WriteOpConverter::new(Some(addr(9)), Some(1000));
    let key = StateKey::Resource { address: addr(2), tag: tag(3) };
    let first = woc.convert(&view, key, RawOp::Modify(b"new".to_vec()), false);
    let second = woc.convert(&view, key, RawOp::Modify(b"new".to_vec()), false);
    assert_eq!(first, second);
    assert_eq!(
        first,
        Ok(WriteOp::Modification { data: b"new".to_vec(), metadata: None })
    );
}

#[test]
fn delete_without_prior_state_fails() {
    let view = empty_view();
    let woc = WriteOpConverter::new(None, None);
    let key = StateKey::Resource { address: addr(1), tag: tag(1) };
    let r = woc.convert(&view, key, RawOp::Delete, false);
    assert_eq!(r, Err(VmStatus::UnknownInvariantViolation));
}

#[test]
fn modify_without_prior_state_fails() {
    let view = empty_view();
    let woc = WriteOpConverter::new(None, None);
    let key = StateKey::Resource { address: addr(1), tag: tag(1) };
    let r = woc.convert(&view, key, RawOp::Modify(b"x".to_vec()), false);
    assert_eq!(r, Err(VmStatus::UnknownInvariantViolation));
}

#[test]
fn create_on_existing_slot_fails() {
    let key = StateKey::Resource { address: addr(1), tag: tag(1) };
    let view = StateView {
        entries: vec![(key, plain_value(b"present"))],
        group_membership: vec![],
        onchain_timestamp: None,
    };
    let woc = WriteOpConverter::new(None, None);
    let r = woc.convert(&view, key, RawOp::New(b"x".to_vec()), false);
    assert_eq!(r, Err(VmStatus::UnknownInvariantViolation));
}

#[test]
fn creation_attaches_metadata_when_payer_and_time_available() {
    let view = empty_view();
    let key = StateKey::Resource { address: addr(1), tag: tag(1) };
    let woc = WriteOpConverter::new(Some(addr(7)), Some(123456));
    let r = woc.convert(&view, key, RawOp::New(b"v".to_vec()), false);
    assert_eq!(
        r,
        Ok(WriteOp::Creation {
            data: b"v".to_vec(),
            metadata: Some(SlotMetadata { payer: addr(7), deposit: 0, creation_time_usecs: 123456 }),
        })
    );
}

#[test]
fn creation_without_time_gets_no_metadata() {
    let view = empty_view();
    let key = StateKey::Resource { address: addr(1), tag: tag(1) };
    let woc = WriteOpConverter::new(Some(addr(7)), None);
    let r = woc.convert(&view, key, RawOp::New(b"v".to_vec()), false);
    assert_eq!(r, Ok(WriteOp::Creation { data: b"v".to_vec(), metadata: None }));
}

#[test]
fn legacy_flag_turns_bare_creation_into_modification() {
    let view = empty_view();
    let key = StateKey::Resource { address: addr(1), tag: tag(1) };
    let woc = WriteOpConverter::new(None, None);
    let r = woc.convert(&view, key, RawOp::New(b"v".to_vec()), true);
    assert_eq!(r, Ok(WriteOp::Modification { data: b"v".to_vec(), metadata: None }));
}

#[test]
fn metadata_inherited_through_modify_and_delete() {
    let m = SlotMetadata { payer: addr(42), deposit: 0, creation_time_usecs: 777 };
    let key = StateKey::Resource { address: addr(1), tag: tag(1) };
    let view = StateView {
        entries: vec![(key, StateValue { data: b"old".to_vec(), metadata: Some(m) })],
        group_membership: vec![],
        onchain_timestamp: None,
    };
    // Current payer and timestamp availability must not matter.
    let woc = WriteOpConverter::new(Some(addr(9)), Some(1));
    let modified = woc.convert(&view, key, RawOp::Modify(b"new".to_vec()), false);
    assert_eq!(
        modified,
        Ok(WriteOp::Modification { data: b"new".to_vec(), metadata: Some(m) })
    );
    let deleted = woc.convert(&view, key, RawOp::Delete, false);
    assert_eq!(deleted, Ok(WriteOp::Deletion { metadata: Some(m) }));
}

#[test]
fn timestamp_parse_and_resolution() {
    let t: u64 = 987654321;
    assert_eq!(
        parse_updated_timestamp(&RawOp::New(t.to_le_bytes().to_vec())),
        TimestampUpdate::Updated(t)
    );
    assert_eq!(
        parse_updated_timestamp(&RawOp::Modify(vec![1, 2, 3])),
        TimestampUpdate::Unknown
    );
    assert_eq!(parse_updated_timestamp(&RawOp::Delete), TimestampUpdate::Unknown);

    let mut view = empty_view();
    view.onchain_timestamp = Some(555);
    assert_eq!(get_current_timestamp(TimestampUpdate::Updated(t), &view), Some(t));
    assert_eq!(get_current_timestamp(TimestampUpdate::NotUpdated, &view), Some(555));
    assert_eq!(get_current_timestamp(TimestampUpdate::Unknown, &view), None);
}

/// Owner with no prior resources creates R1 (no group) and R2 (group G):
/// the write-set holds a creation for R1's slot and a creation for G's slot
/// containing only R2.
#[test]
fn create_plain_and_grouped_resource() {
    let owner = addr(10);
    let r1 = tag(100);
    let r2 = tag(200);
    let g = tag(900);
    let view = StateView {
        entries: vec![],
        group_membership: vec![(r2, g)],
        onchain_timestamp: None,
    };
    let change_set = ChangeSet {
        accounts: vec![(
            owner,
            AccountChangeSet {
                modules: vec![],
                resources: vec![
                    (r1, RawOp::New(b"one".to_vec())),
                    (r2, RawOp::New(b"two".to_vec())),
                ],
            },
        )],
    };
    let (ext, _time) = finish_with_current_timestamp(
        &view,
        None,
        change_set,
        vec![],
        vec![],
        vec![],
        false,
    )
    .unwrap();
    assert_eq!(ext.write_set.len(), 2);
    assert_eq!(
        ext.write_set.get(StateKey::Resource { address: owner, tag: r1 }),
        Some(&WriteOp::Creation { data: b"one".to_vec(), metadata: None })
    );
    // The group slot is created with a container holding exactly R2.
    let expected_group = bcs::to_bytes(&vec![(200u64, b"two".to_vec())]).unwrap();
    assert_eq!(
        ext.write_set.get(StateKey::ResourceGroup { address: owner, tag: g }),
        Some(&WriteOp::Creation { data: expected_group, metadata: None })
    );
}

/// Modifying one member of an existing group rewrites the group blob with
/// the other members untouched.
#[test]
fn modify_member_of_existing_group() {
    let owner = addr(11);
    let r2 = tag(21);
    let r3 = tag(31);
    let g = tag(901);
    let stored = bcs::to_bytes(&vec![(21u64, b"b1".to_vec()), (31u64, b"b2".to_vec())]).unwrap();
    let view = StateView {
        entries: vec![(
            StateKey::ResourceGroup { address: owner, tag: g },
            plain_value(&stored),
        )],
        group_membership: vec![(r2, g), (r3, g)],
        onchain_timestamp: None,
    };
    let change_set = ChangeSet {
        accounts: vec![(
            owner,
            AccountChangeSet {
                modules: vec![],
                resources: vec![(r2, RawOp::Modify(b"b1-new".to_vec()))],
            },
        )],
    };
    let (ext, _time) = finish_with_current_timestamp(
        &view,
        None,
        change_set,
        vec![],
        vec![],
        vec![],
        false,
    )
    .unwrap();
    let expected = bcs::to_bytes(&vec![(21u64, b"b1-new".to_vec()), (31u64, b"b2".to_vec())])
        .unwrap();
    assert_eq!(
        ext.write_set.get(StateKey::ResourceGroup { address: owner, tag: g }),
        Some(&WriteOp::Modification { data: expected, metadata: None })
    );
}

/// A numeric write to a slot with no write-op and no prior value becomes a
/// creation of the serialized value.
#[test]
fn aggregator_write_creates_slot() {
    let view = empty_view();
    let id = AggregatorID { handle: TableHandle { id: 7 }, key: 1 };
    let ext = convert_change_set(
        &view,
        None,
        None,
        ChangeSet { accounts: vec![] },
        vec![],
        vec![],
        vec![],
        vec![(id, AggregatorChange::Write(42))],
        false,
    )
    .unwrap();
    let key = StateKey::TableItem { handle: TableHandle { id: 7 }, key: 1 };
    assert_eq!(
        ext.write_set.get(key),
        Some(&WriteOp::Creation { data: 42u128.to_le_bytes().to_vec(), metadata: None })
    );
    assert!(ext.delta_change_set.is_empty());
}

/// A numeric write colliding with a direct modification of the same slot in
/// the same session fails the whole run.
#[test]
fn aggregator_write_collides_with_direct_modification() {
    let handle = TableHandle { id: 9 };
    let key = StateKey::TableItem { handle, key: 5 };
    let view = StateView {
        entries: vec![(key, plain_value(&7u128.to_le_bytes()))],
        group_membership: vec![],
        onchain_timestamp: None,
    };
    let r = convert_change_set(
        &view,
        None,
        None,
        ChangeSet { accounts: vec![] },
        vec![],
        vec![],
        vec![(handle, vec![(5, RawOp::Modify(9u128.to_le_bytes().to_vec()))])],
        vec![(AggregatorID { handle, key: 5 }, AggregatorChange::Write(42))],
        false,
    );
    assert!(matches!(r, Err(VmStatus::UnknownInvariantViolation)));
}

/// A merge is carried forward as an unmaterialized delta and leaves the
/// write-set alone.
#[test]
fn aggregator_merge_is_carried_forward() {
    let view = empty_view();
    let id = AggregatorID { handle: TableHandle { id: 3 }, key: 4 };
    let ext = convert_change_set(
        &view,
        None,
        None,
        ChangeSet { accounts: vec![] },
        vec![],
        vec![],
        vec![],
        vec![(id, AggregatorChange::Merge(DeltaOp::Add(17)))],
        false,
    )
    .unwrap();
    assert_eq!(ext.write_set.len(), 0);
    assert_eq!(
        ext.delta_change_set,
        vec![(
            StateKey::TableItem { handle: TableHandle { id: 3 }, key: 4 },
            DeltaOp::Add(17)
        )]
    );
}

/// Modules pass through the split unchanged and convert at module slots.
#[test]
fn module_publication_creates_module_slot() {
    let owner = addr(5);
    let view = empty_view();
    let change_set = ChangeSet {
        accounts: vec![(
            owner,
            AccountChangeSet {
                modules: vec![(ModuleName { id: 77 }, RawOp::New(b"code".to_vec()))],
                resources: vec![],
            },
        )],
    };
    let (ext, _t) =
        finish_with_current_timestamp(&view, None, change_set, vec![], vec![], vec![], false)
            .unwrap();
    assert_eq!(
        ext.write_set.get(StateKey::Module { address: owner, name: ModuleName { id: 77 } }),
        Some(&WriteOp::Creation { data: b"code".to_vec(), metadata: None })
    );
}

#[test]
fn event_translation_preserves_order_and_parses_key() {
    let view = empty_view();
    let mut guid = 11u64.to_le_bytes().to_vec();
    guid.extend_from_slice(&addr(22).id.to_le_bytes());
    let ev = RawEvent { guid, seq_num: 3, type_tag: tag(8), data: b"payload".to_vec() };
    let ext = convert_change_set(
        &view,
        None,
        None,
        ChangeSet { accounts: vec![] },
        vec![],
        vec![ev],
        vec![],
        vec![],
        false,
    )
    .unwrap();
    assert_eq!(ext.events.len(), 1);
    assert_eq!(ext.events[0].key, EventKey { creation_number: 11, address: addr(22) });
    assert_eq!(ext.events[0].seq_num, 3);
    assert_eq!(ext.events[0].data, b"payload".to_vec());
}

#[test]
fn malformed_event_identifier_is_a_hard_error() {
    let view = empty_view();
    let ev = RawEvent { guid: vec![1, 2, 3], seq_num: 0, type_tag: tag(1), data: vec![] };
    let r = convert_change_set(
        &view,
        None,
        None,
        ChangeSet { accounts: vec![] },
        vec![],
        vec![ev],
        vec![],
        vec![],
        false,
    );
    assert!(matches!(r, Err(VmStatus::EventKeyMismatch)));
}

/// A session that updates the global timestamp resource: new slots created
/// in the same run carry the updated time.
#[test]
fn updated_timestamp_feeds_new_slot_metadata() {
    let core = vm_writeset::types::core_code_address();
    let ts_tag = vm_writeset::types::current_time_tag();
    let t: u64 = 424242;
    let view = StateView {
        entries: vec![(
            StateKey::Resource { address: core, tag: ts_tag },
            plain_value(&1u64.to_le_bytes()),
        )],
        group_membership: vec![],
        onchain_timestamp: Some(1),
    };
    let change_set = ChangeSet {
        accounts: vec![
            (
                core,
                AccountChangeSet {
                    modules: vec![],
                    resources: vec![(ts_tag, RawOp::Modify(t.to_le_bytes().to_vec()))],
                },
            ),
            (
                addr(50),
                AccountChangeSet {
                    modules: vec![],
                    resources: vec![(tag(2), RawOp::New(b"fresh".to_vec()))],
                },
            ),
        ],
    };
    let (ext, time) = finish_with_current_timestamp(
        &view,
        Some(addr(99)),
        change_set,
        vec![],
        vec![],
        vec![],
        false,
    )
    .unwrap();
    assert_eq!(time, Some(t));
    assert_eq!(
        ext.write_set.get(StateKey::Resource { address: addr(50), tag: tag(2) }),
        Some(&WriteOp::Creation {
            data: b"fresh".to_vec(),
            metadata: Some(SlotMetadata { payer: addr(99), deposit: 0, creation_time_usecs: t }),
        })
    );
}

/// The split keeps non-group effects untouched and reports the timestamp
/// outcome.
#[test]
fn split_passes_non_group_effects_through() {
    let owner = addr(4);
    let view = empty_view();
    let change_set = ChangeSet {
        accounts: vec![(
            owner,
            AccountChangeSet {
                modules: vec![(ModuleName { id: 1 }, RawOp::New(b"m".to_vec()))],
                resources: vec![(tag(6), RawOp::New(b"r".to_vec()))],
            },
        )],
    };
    let (filtered, groups, ts) = split_and_merge_resource_groups(&view, change_set).unwrap();
    assert_eq!(ts, TimestampUpdate::NotUpdated);
    assert!(groups.is_empty());
    assert_eq!(filtered.accounts.len(), 1);
    assert_eq!(filtered.accounts[0].1.resources, vec![(tag(6), RawOp::New(b"r".to_vec()))]);
    assert_eq!(
        filtered.accounts[0].1.modules,
        vec![(ModuleName { id: 1 }, RawOp::New(b"m".to_vec()))]
    );
}

/// A timestamp update that fails to parse leaves the current time unknown:
/// new slots get no metadata even though the on-chain configuration holds a
/// time and a payer was designated.
#[test]
fn unparseable_timestamp_update_suppresses_metadata() {
    let core = vm_writeset::types::core_code_address();
    let ts_tag = vm_writeset::types::current_time_tag();
    let view = StateView {
        entries: vec![(
            StateKey::Resource { address: core, tag: ts_tag },
            plain_value(&1u64.to_le_bytes()),
        )],
        group_membership: vec![],
        onchain_timestamp: Some(999),
    };
    let change_set = ChangeSet {
        accounts: vec![
            (
                core,
                AccountChangeSet {
                    modules: vec![],
                    resources: vec![(ts_tag, RawOp::Modify(vec![1, 2, 3]))],
                },
            ),
            (
                addr(50),
                AccountChangeSet {
                    modules: vec![],
                    resources: vec![(tag(2), RawOp::New(b"fresh".to_vec()))],
                },
            ),
        ],
    };
    let (ext, time) = finish_with_current_timestamp(
        &view,
        Some(addr(99)),
        change_set,
        vec![],
        vec![],
        vec![],
        false,
    )
    .unwrap();
    assert_eq!(time, None);
    assert_eq!(
        ext.write_set.get(StateKey::Resource { address: addr(50), tag: tag(2) }),
        Some(&WriteOp::Creation { data: b"fresh".to_vec(), metadata: None })
    );
}

/// Deleting the last member of a group deletes the group slot itself.
#[test]
fn deleting_last_member_deletes_group_slot() {
    let owner = addr(12);
    let r = tag(60);
    let g = tag(600);
    let stored = bcs::to_bytes(&vec![(60u64, b"only".to_vec())]).unwrap();
    let view = StateView {
        entries: vec![(
            StateKey::ResourceGroup { address: owner, tag: g },
            plain_value(&stored),
        )],
        group_membership: vec![(r, g)],
        onchain_timestamp: None,
    };
    let change_set = ChangeSet {
        accounts: vec![(
            owner,
            AccountChangeSet { modules: vec![], resources: vec![(r, RawOp::Delete)] },
        )],
    };
    let (ext, _t) =
        finish_with_current_timestamp(&view, None, change_set, vec![], vec![], vec![], false)
            .unwrap();
    assert_eq!(
        ext.write_set.get(StateKey::ResourceGroup { address: owner, tag: g }),
        Some(&WriteOp::Deletion { metadata: None })
    );
}
