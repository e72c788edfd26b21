//! Tests of the resource-group container and the group merge.

use vm_writeset::group::{merge_group, GroupContainer};
use vm_writeset::state_view::StateView;
use vm_writeset::types::{AccountAddress, RawOp, StateKey, StateValue, StructTag, VmStatus, WriteOp};
use vm_writeset::write_set::{freeze, WriteSetMut};

fn tag(id: u64) -> StructTag {
    StructTag { id }
}

fn addr(id: u64) -> AccountAddress {
    AccountAddress { id }
}

/// Serialize then deserialize yields an equal mapping.
#[test]
fn group_container_round_trips() {
    let c = GroupContainer {
        entries: vec![(tag(5), b"alpha".to_vec()), (tag(9), b"beta".to_vec())],
    };
    let bytes = c.to_bytes().unwrap();
    let back = GroupContainer::from_bytes(&bytes).unwrap();
    assert_eq!(back.entries, c.entries);
}

/// The container's encoding is the external binary encoding of its entries
/// as plain pairs.
#[test]
fn group_encoding_matches_external_encoder() {
    let c = GroupContainer { entries: vec![(tag(7), vec![1, 2, 3])] };
    let bytes = c.to_bytes().unwrap();
    let expected = bcs::to_bytes(&vec![(7u64, vec![1u8, 2, 3])]).unwrap();
    assert_eq!(bytes, expected);
}

#[test]
fn group_decode_rejects_garbage_and_duplicates() {
    assert!(GroupContainer::from_bytes(&vec![0xff, 0xff]).is_none());
    let dup = bcs::to_bytes(&vec![(7u64, vec![1u8]), (7u64, vec![2u8])]).unwrap();
    assert!(GroupContainer::from_bytes(&dup).is_none());
}

/// Creating the first member of an absent group produces a group-level
/// creation holding only that member; deleting it again produces a
/// group-level delete.
#[test]
fn group_merge_create_then_delete() {
    let owner = addr(1);
    let g = tag(100);
    let a = tag(10);
    let empty_view = StateView {
        entries: vec![],
        group_membership: vec![(a, g)],
        onchain_timestamp: None,
    };
    let created = merge_group(&empty_view, owner, g, vec![(a, RawOp::New(b"a".to_vec()))])
        .unwrap();
    let blob = match created {
        RawOp::New(ref b) => b.clone(),
        ref other => panic!("expected a group-level creation, got {:?}", other),
    };
    let container = GroupContainer::from_bytes(&blob).unwrap();
    assert_eq!(container.entries, vec![(a, b"a".to_vec())]);

    let view_with_group = StateView {
        entries: vec![(
            StateKey::ResourceGroup { address: owner, tag: g },
            StateValue { data: blob, metadata: None },
        )],
        group_membership: vec![(a, g)],
        onchain_timestamp: None,
    };
    let deleted = merge_group(&view_with_group, owner, g, vec![(a, RawOp::Delete)]).unwrap();
    assert_eq!(deleted, RawOp::Delete);
}

#[test]
fn group_merge_rejects_inconsistent_member_ops() {
    let owner = addr(1);
    let g = tag(100);
    let a = tag(10);
    let view = StateView {
        entries: vec![],
        group_membership: vec![(a, g)],
        onchain_timestamp: None,
    };
    // Deleting a member that was never created.
    assert_eq!(
        merge_group(&view, owner, g, vec![(a, RawOp::Delete)]),
        Err(VmStatus::UnknownInvariantViolation)
    );
    // Modifying a member that was never created.
    assert_eq!(
        merge_group(&view, owner, g, vec![(a, RawOp::Modify(b"x".to_vec()))]),
        Err(VmStatus::UnknownInvariantViolation)
    );
    // Creating the same member twice.
    assert_eq!(
        merge_group(
            &view,
            owner,
            g,
            vec![(a, RawOp::New(b"x".to_vec())), (a, RawOp::New(b"y".to_vec()))]
        ),
        Err(VmStatus::UnknownInvariantViolation)
    );
}

#[test]
fn group_merge_rejects_corrupt_stored_blob() {
    let owner = addr(1);
    let g = tag(100);
    let a = tag(10);
    let view = StateView {
        entries: vec![(
            StateKey::ResourceGroup { address: owner, tag: g },
            StateValue { data: vec![0xde, 0xad], metadata: None },
        )],
        group_membership: vec![(a, g)],
        onchain_timestamp: None,
    };
    assert_eq!(
        merge_group(&view, owner, g, vec![(a, RawOp::Modify(b"x".to_vec()))]),
        Err(VmStatus::UnknownInvariantViolation)
    );
}

/// The write-set accumulator behaves as a map: a second insert at the same
/// address replaces, and the frozen write-set holds one operation per
/// address.
#[test]
fn write_set_insert_replaces_and_freeze_keeps_one_per_address() {
    let key = StateKey::Resource { address: addr(1), tag: tag(1) };
    let other = StateKey::Resource { address: addr(1), tag: tag(2) };
    let mut ws = WriteSetMut { ops: vec![] };
    ws.insert(key, WriteOp::Deletion { metadata: None });
    ws.insert(other, WriteOp::Deletion { metadata: None });
    ws.insert(key, WriteOp::Creation { data: b"v".to_vec(), metadata: None });
    let frozen = freeze(ws).unwrap();
    assert_eq!(frozen.len(), 2);
    assert_eq!(
        frozen.get(key),
        Some(&WriteOp::Creation { data: b"v".to_vec(), metadata: None })
    );
    assert_eq!(frozen.get(other), Some(&WriteOp::Deletion { metadata: None }));
}


/// A duplicated address at freeze time is a hard data-format error.
#[test]
fn freeze_rejects_duplicate_addresses() {
    let key = StateKey::Resource { address: addr(1), tag: tag(1) };
    let ws = WriteSetMut {
        ops: vec![
            (key, WriteOp::Deletion { metadata: None }),
            (key, WriteOp::Deletion { metadata: None }),
        ],
    };
    assert!(matches!(freeze(ws), Err(VmStatus::DataFormatError)));
}
