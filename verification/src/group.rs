//! Resource groups: many logical resources co-located in one physical
//! storage slot as a serialized mapping from member type tag to member
//! resource bytes. This module holds the working container reconstructed
//! from the state view at merge time, the member-operation application
//! rules, and the merge of one group's accumulated member operations into a
//! single group-level raw operation.

use vstd::prelude::*;

use crate::assoc::{assoc_map, has_key, index_of_key, lemma_index_of_key_unique, unique_keys};
use crate::state_view::{StateView, StateViewV};
use crate::types::{AccountAddress, RawOp, RawOpV, StateKey, StructTag, VmStatus};

verus! {

/// The plain-value form of a group container's entries: member tag identity
/// and member bytes.
pub open spec fn member_pairs_view(s: Seq<(StructTag, Vec<u8>)>) -> Seq<(u64, Seq<u8>)> {
    s.map_values(|p: (StructTag, Vec<u8>)| (p.0.id, p.1@))
}

/// What the external binary encoding produces for a group container's
/// entries. The encoding is canonical: one byte representation per value.
pub uninterp spec fn group_encoding(entries: Seq<(u64, Seq<u8>)>) -> Seq<u8>;

/// What the external binary encoding parses a byte string into, if
/// anything.
pub uninterp spec fn group_decoding(bytes: Seq<u8>) -> Option<Seq<(u64, Seq<u8>)>>;

/// The encoder serializes any container within its sequence-length limit.
pub open spec fn group_encodable(entries: Seq<(u64, Seq<u8>)>) -> bool {
    entries.len() <= 0x7fff_ffff && (forall|i: int|
        0 <= i < entries.len() ==> (#[trigger] entries[i]).1.len() <= 0x7fff_ffff)
}

/// Relies on bcs::to_bytes: it fails exactly when some sequence exceeds
/// bcs::MAX_SEQUENCE_LENGTH, its output is the value's unique canonical
/// encoding, and bcs::from_bytes applied to its output returns the original
/// value.
#[verifier::external_body]
fn bcs_encode_pairs(entries: &Vec<(StructTag, Vec<u8>)>) -> (r: Result<Vec<u8>, ()>)
    ensures
        r is Ok <==> group_encodable(member_pairs_view(entries@)),
        match r {
            Ok(b) => b@ == group_encoding(member_pairs_view(entries@)) && group_decoding(
                group_encoding(member_pairs_view(entries@)),
            ) == Some(member_pairs_view(entries@)),
            Err(_) => true,
        },
{
    let plain: Vec<(u64, Vec<u8>)> = entries.iter().map(|p| (p.0.id, p.1.clone())).collect();
    match bcs::to_bytes(&plain) {
        Ok(b) => Ok(b),
        Err(_) => Err(()),
    }
}

/// Relies on bcs::from_bytes: it accepts exactly the canonical encodings,
/// enforcing minimal ULEB128 lengths and rejecting trailing input, so a
/// successful parse identifies the unique value whose encoding the input
/// is.
#[verifier::external_body]
fn bcs_decode_pairs(bytes: &Vec<u8>) -> (r: Option<Vec<(StructTag, Vec<u8>)>>)
    ensures
        match r {
            Some(v) => group_decoding(bytes@) == Some(member_pairs_view(v@)) && bytes@
                == group_encoding(member_pairs_view(v@)),
            None => group_decoding(bytes@) is None,
        },
{
    match bcs::from_bytes::<Vec<(u64, Vec<u8>)>>(bytes.as_slice()) {
        Ok(v) => Some(v.into_iter().map(|p| (StructTag { id: p.0 }, p.1)).collect()),
        Err(_) => None,
    }
}

/// Applying one member operation to a group container's entries:
/// a delete or modify requires the member to be present, a create requires
/// it to be absent; any mismatch is an invariant violation, since it means
/// the interpreter produced an effect inconsistent with the group's actual
/// prior contents.
pub open spec fn apply_op_spec(
    pairs: Seq<(u64, Seq<u8>)>,
    tag: u64,
    op: RawOpV,
) -> Result<Seq<(u64, Seq<u8>)>, VmStatus> {
    match op {
        RawOpV::Delete => if has_key(pairs, tag) {
            Ok(pairs.remove(index_of_key(pairs, tag)))
        } else {
            Err(VmStatus::UnknownInvariantViolation)
        },
        RawOpV::Modify(data) => if has_key(pairs, tag) {
            Ok(pairs.update(index_of_key(pairs, tag), (tag, data)))
        } else {
            Err(VmStatus::UnknownInvariantViolation)
        },
        RawOpV::New(data) => if has_key(pairs, tag) {
            Err(VmStatus::UnknownInvariantViolation)
        } else {
            Ok(pairs.push((tag, data)))
        },
    }
}

/// Applying a sequence of member operations in order, stopping at the first
/// violation.
pub open spec fn apply_ops_spec(
    pairs: Seq<(u64, Seq<u8>)>,
    ops: Seq<(u64, RawOpV)>,
) -> Result<Seq<(u64, Seq<u8>)>, VmStatus>
    decreases ops.len(),
{
    if ops.len() == 0 {
        Ok(pairs)
    } else {
        match apply_op_spec(pairs, ops[0].0, ops[0].1) {
            Ok(p) => apply_ops_spec(p, ops.drop_first()),
            Err(e) => Err(e),
        }
    }
}

/// A group's working container: the members materialized in its storage
/// slot, keyed by member type tag.
pub struct GroupContainer {
    pub entries: Vec<(StructTag, Vec<u8>)>,
}

impl GroupContainer {
    /// The container's entries as plain values.
    pub open spec fn pairs(&self) -> Seq<(u64, Seq<u8>)> {
        member_pairs_view(self.entries@)
    }

    /// The mapping the container represents.
    pub open spec fn as_map(&self) -> Map<u64, Seq<u8>> {
        assoc_map(self.pairs())
    }

    /// No member type tag occurs twice.
    pub open spec fn wf(&self) -> bool {
        unique_keys(self.pairs())
    }

    /// The empty container: what a group slot holds before its first member
    /// is created.
    pub fn empty() -> (r: Self)
        ensures
            r.pairs() == Seq::<(u64, Seq<u8>)>::empty(),
            r.wf(),
    {
        let r = GroupContainer { entries: Vec::new() };
        proof {
            assert(r.pairs() =~= Seq::<(u64, Seq<u8>)>::empty());
        }
        r
    }

    /// The number of members.
    pub fn len(&self) -> (r: usize)
        ensures
            r == self.pairs().len(),
    {
        self.entries.len()
    }

    /// The index of the member with tag `tag`, if present.
    fn find(&self, tag: StructTag) -> (r: Option<usize>)
        ensures
            match r {
                Some(i) => i < self.pairs().len() && self.pairs()[i as int].0 == tag.id,
                None => forall|j: int|
                    0 <= j < self.pairs().len() ==> (#[trigger] self.pairs()[j]).0 != tag.id,
            },
    {
        let mut i: usize = 0;
        while i < self.entries.len()
            invariant
                i <= self.entries.len(),
                forall|j: int| 0 <= j < i ==> (#[trigger] self.pairs()[j]).0 != tag.id,
            decreases self.entries.len() - i,
        {
            if self.entries[i].0.id == tag.id {
                proof {
                    assert(self.pairs()[i as int].0 == tag.id);
                }
                return Some(i);
            }
            proof {
                assert(self.pairs()[i as int].0 == self.entries@[i as int].0.id);
            }
            i += 1;
        }
        None
    }

    /// Apply one member operation against the working container.
    pub fn apply_op(&mut self, tag: StructTag, op: RawOp) -> (r: Result<(), VmStatus>)
        requires
            old(self).wf(),
        ensures
            final(self).wf(),
            match r {
                Ok(_) => apply_op_spec(old(self).pairs(), tag.id, op@) == Ok::<
                    Seq<(u64, Seq<u8>)>,
                    VmStatus,
                >(final(self).pairs()),
                Err(e) => apply_op_spec(old(self).pairs(), tag.id, op@) == Err::<
                    Seq<(u64, Seq<u8>)>,
                    VmStatus,
                >(e) && *final(self) == *old(self),
            },
    {
        let found = self.find(tag);
        let ghost pairs0 = self.pairs();
        match op {
            RawOp::New(data) => match found {
                Some(_) => {
                    proof {
                        assert(has_key(pairs0, tag.id));
                    }
                    Err(VmStatus::UnknownInvariantViolation)
                },
                None => {
                    self.entries.push((tag, data));
                    proof {
                        assert(!has_key(pairs0, tag.id));
                        assert(self.pairs() =~= pairs0.push((tag.id, data@)));
                    }
                    Ok(())
                },
            },
            RawOp::Modify(data) => match found {
                Some(i) => {
                    self.entries.set(i, (tag, data));
                    proof {
                        assert(has_key(pairs0, tag.id));
                        lemma_index_of_key_unique(pairs0, tag.id, i as int);
                        assert(self.pairs() =~= pairs0.update(i as int, (tag.id, data@)));
                        assert forall|a: int, b: int|
                            0 <= a < b < self.pairs().len() implies (#[trigger] self.pairs()[a]).0
                            != (#[trigger] self.pairs()[b]).0 by {
                            assert(pairs0[a].0 != pairs0[b].0);
                        }
                    }
                    Ok(())
                },
                None => {
                    proof {
                        assert(!has_key(pairs0, tag.id));
                    }
                    Err(VmStatus::UnknownInvariantViolation)
                },
            },
            RawOp::Delete => match found {
                Some(i) => {
                    self.entries.remove(i);
                    proof {
                        assert(has_key(pairs0, tag.id));
                        lemma_index_of_key_unique(pairs0, tag.id, i as int);
                        assert(self.pairs() =~= pairs0.remove(i as int));
                        assert forall|a: int, b: int|
                            0 <= a < b < self.pairs().len() implies (#[trigger] self.pairs()[a]).0
                            != (#[trigger] self.pairs()[b]).0 by {
                            let oa: int = if a < i { a } else { a + 1 };
                            let ob: int = if b < i { b } else { b + 1 };
                            assert(self.pairs()[a] == pairs0[oa]);
                            assert(self.pairs()[b] == pairs0[ob]);
                            assert(pairs0[oa].0 != pairs0[ob].0);
                        }
                    }
                    Ok(())
                },
                None => {
                    proof {
                        assert(!has_key(pairs0, tag.id));
                    }
                    Err(VmStatus::UnknownInvariantViolation)
                },
            },
        }
    }

    /// Serialize the container. The contract also states the round trip:
    /// deserializing the returned bytes yields exactly this container's
    /// entries.
    pub fn to_bytes(&self) -> (r: Result<Vec<u8>, VmStatus>)
        ensures
            match r {
                Ok(b) => group_encodable(self.pairs()) && b@ == group_encoding(self.pairs())
                    && group_decoding(b@) == Some(self.pairs()),
                Err(e) => e == VmStatus::UnknownInvariantViolation && !group_encodable(
                    self.pairs(),
                ),
            },
    {
        match bcs_encode_pairs(&self.entries) {
            Ok(b) => Ok(b),
            Err(_) => Err(VmStatus::UnknownInvariantViolation),
        }
    }

    /// Deserialize a stored group blob. Returns `None` when the bytes are
    /// not a canonical encoding, or when the decoded entries repeat a
    /// member tag; stored group data must always be a self-consistent
    /// mapping if it reached storage correctly.
    #[verifier::loop_isolation(false)]
    pub fn from_bytes(bytes: &Vec<u8>) -> (r: Option<GroupContainer>)
        ensures
            match r {
                Some(c) => c.wf() && group_decoding(bytes@) == Some(c.pairs()) && bytes@
                    == group_encoding(c.pairs()),
                None => group_decoding(bytes@) is None || !unique_keys(
                    group_decoding(bytes@)->Some_0,
                ),
            },
    {
        let entries = match bcs_decode_pairs(bytes) {
            Some(v) => v,
            None => {
                return None;
            },
        };
        // Reject duplicated member tags.
        let c = GroupContainer { entries };
        let mut i: usize = 0;
        while i < c.entries.len()
            invariant
                i <= c.entries.len(),
                forall|a: int, b: int|
                    0 <= a < b < i ==> (#[trigger] c.pairs()[a]).0 != (#[trigger] c.pairs()[b]).0,
            decreases c.entries.len() - i,
        {
            let mut j: usize = 0;
            while j < i
                invariant
                    j <= i,
                    i < c.entries.len(),
                    forall|a: int| 0 <= a < j ==> (#[trigger] c.pairs()[a]).0 != c.pairs()[i as int].0,
                decreases i - j,
            {
                if c.entries[j].0.id == c.entries[i].0.id {
                    proof {
                        assert(c.pairs()[j as int].0 == c.pairs()[i as int].0);
                        assert(!unique_keys(c.pairs()));
                        assert(group_decoding(bytes@) == Some(c.pairs()));
                        assert(group_decoding(bytes@)->Some_0 == c.pairs());
                    }
                    return None;
                }
                proof {
                    assert(c.pairs()[j as int].0 == c.entries@[j as int].0.id);
                    assert(c.pairs()[i as int].0 == c.entries@[i as int].0.id);
                }
                j += 1;
            }
            i += 1;
        }
        proof {
            assert(c.wf());
        }
        Some(c)
    }
}

/// The view of a raw-operation result.
pub open spec fn raw_op_result_view(r: Result<RawOp, VmStatus>) -> Result<RawOpV, VmStatus> {
    match r {
        Ok(op) => Ok(op@),
        Err(e) => Err(e),
    }
}

/// The accumulated member operations of one group, as plain values.
pub open spec fn member_ops_view(s: Seq<(StructTag, RawOp)>) -> Seq<(u64, RawOpV)> {
    s.map_values(|p: (StructTag, RawOp)| (p.0.id, p.1@))
}

/// Classification of one merged group, after all member operations applied:
/// an empty container deletes the group slot; a slot that did not
/// previously exist is created; otherwise it is modified. A container that
/// cannot be serialized is an invariant violation.
pub open spec fn classify_group_spec(
    pairs: Seq<(u64, Seq<u8>)>,
    existed: bool,
) -> Result<RawOpV, VmStatus> {
    if pairs.len() == 0 {
        Ok(RawOpV::Delete)
    } else if !group_encodable(pairs) {
        Err(VmStatus::UnknownInvariantViolation)
    } else if !existed {
        Ok(RawOpV::New(group_encoding(pairs)))
    } else {
        Ok(RawOpV::Modify(group_encoding(pairs)))
    }
}

/// The merge of one group: reconstruct the group's prior contents from the
/// state view (absent slot: empty container), apply every accumulated
/// member operation, classify the outcome. A stored blob that fails to
/// deserialize as a self-consistent mapping is an invariant violation.
pub open spec fn merge_group_spec(
    v: StateViewV,
    address: AccountAddress,
    group_tag: StructTag,
    ops: Seq<(u64, RawOpV)>,
) -> Result<RawOpV, VmStatus> {
    let key = StateKey::ResourceGroup { address, tag: group_tag };
    if v.state.contains_key(key) {
        match group_decoding(v.state[key].data) {
            None => Err(VmStatus::UnknownInvariantViolation),
            Some(pairs) => if !unique_keys(pairs) {
                Err(VmStatus::UnknownInvariantViolation)
            } else {
                match apply_ops_spec(pairs, ops) {
                    Ok(p) => classify_group_spec(p, true),
                    Err(e) => Err(e),
                }
            },
        }
    } else {
        match apply_ops_spec(Seq::empty(), ops) {
            Ok(p) => classify_group_spec(p, false),
            Err(e) => Err(e),
        }
    }
}

/// Merge one group's accumulated member operations into a single
/// group-level raw operation against the group's existing serialized
/// contents.
#[verifier::loop_isolation(false)]
pub fn merge_group(
    view: &StateView,
    address: AccountAddress,
    group_tag: StructTag,
    ops: Vec<(StructTag, RawOp)>,
) -> (r: Result<RawOp, VmStatus>)
    requires
        view.wf(),
    ensures
        raw_op_result_view(r) == merge_group_spec(view@, address, group_tag, member_ops_view(ops@)),
{
    let key = StateKey::ResourceGroup { address, tag: group_tag };
    let (mut container, existed): (GroupContainer, bool) = match view.get_state_value(key) {
        Some(value) => match GroupContainer::from_bytes(&value.data) {
            Some(c) => (c, true),
            None => {
                return Err(VmStatus::UnknownInvariantViolation);
            },
        },
        None => (GroupContainer::empty(), false),
    };
    let ghost pairs0 = container.pairs();
    let ghost all_ops = member_ops_view(ops@);
    proof {
        assert(merge_group_spec(view@, address, group_tag, all_ops) == (
        match apply_ops_spec(pairs0, all_ops) {
            Ok(p) => classify_group_spec(p, existed),
            Err(e) => Err(e),
        }));
    }
    let mut rest = ops;
    while rest.len() > 0
        invariant
            container.wf(),
            apply_ops_spec(container.pairs(), member_ops_view(rest@)) == apply_ops_spec(
                pairs0,
                all_ops,
            ),
        decreases rest.len(),
    {
        let ghost rest0 = rest@;
        let (tag, op) = rest.remove(0);
        proof {
            assert(member_ops_view(rest0)[0] == (tag.id, op@));
            assert(member_ops_view(rest0).drop_first() =~= member_ops_view(rest@));
        }
        match container.apply_op(tag, op) {
            Ok(_) => {},
            Err(e) => {
                return Err(e);
            },
        }
    }
    proof {
        assert(member_ops_view(rest@) =~= Seq::<(u64, RawOpV)>::empty());
        assert(apply_ops_spec(container.pairs(), member_ops_view(rest@)) == Ok::<
            Seq<(u64, Seq<u8>)>,
            VmStatus,
        >(container.pairs()));
    }
    if container.len() == 0 {
        Ok(RawOp::Delete)
    } else {
        match container.to_bytes() {
            Err(e) => Err(e),
            Ok(bytes) => if !existed {
                Ok(RawOp::New(bytes))
            } else {
                Ok(RawOp::Modify(bytes))
            },
        }
    }
}

} // verus!
