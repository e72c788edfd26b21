//! The read-only state view a conversion run reads from: a snapshot of the
//! slots materialized at a fixed ledger version, the resource-group
//! membership oracle, and the on-chain timestamp configuration. The view
//! must not mutate during one conversion run; the caller guarantees that
//! isolation by handing the run its own snapshot.

use vstd::prelude::*;

use crate::assoc::{assoc_map, has_key, lemma_assoc_map_absent, lemma_assoc_map_index,
    unique_keys, viewed_pairs};
use crate::types::{StateKey, StateValue, StateValueV, StructTag};

verus! {

/// A read-only snapshot of committed state.
pub struct StateView {
    pub entries: Vec<(StateKey, StateValue)>,
    pub group_membership: Vec<(StructTag, StructTag)>,
    pub onchain_timestamp: Option<u64>,
}

/// Mathematical model of a `StateView`.
pub struct StateViewV {
    /// The materialized slots.
    pub state: Map<StateKey, StateValueV>,
    /// Resource-group membership: member type tag to group type tag.
    pub groups: Map<StructTag, StructTag>,
    /// The on-chain timestamp configuration, if published.
    pub onchain_timestamp: Option<u64>,
}

impl View for StateView {
    type V = StateViewV;

    open spec fn view(&self) -> StateViewV {
        StateViewV {
            state: assoc_map(viewed_pairs(self.entries@)),
            groups: assoc_map(self.group_membership@),
            onchain_timestamp: self.onchain_timestamp,
        }
    }
}

impl StateView {
    /// Both association sequences describe maps: no key occurs twice.
    pub open spec fn wf(&self) -> bool {
        unique_keys(self.entries@) && unique_keys(self.group_membership@)
    }

    /// The prior materialized value of one slot, if it exists. The read
    /// path is infallible for a snapshot held in memory.
    pub fn get_state_value(&self, key: StateKey) -> (r: Option<&StateValue>)
        requires
            self.wf(),
        ensures
            match r {
                Some(v) => self@.state.contains_key(key) && v@ == self@.state[key],
                None => !self@.state.contains_key(key),
            },
    {
        let ghost vp = viewed_pairs(self.entries@);
        let mut i: usize = 0;
        while i < self.entries.len()
            invariant
                self.wf(),
                i <= self.entries.len(),
                vp == viewed_pairs(self.entries@),
                forall|j: int| 0 <= j < i ==> (#[trigger] vp[j]).0 != key,
            decreases self.entries.len() - i,
        {
            if self.entries[i].0 == key {
                proof {
                    assert(vp[i as int].0 == key);
                    lemma_assoc_map_index(vp, i as int);
                }
                return Some(&self.entries[i].1);
            }
            proof {
                assert(vp[i as int].0 == self.entries@[i as int].0);
            }
            i += 1;
        }
        proof {
            lemma_assoc_map_absent(vp, key);
        }
        None
    }

    /// The group a resource type belongs to, if any, per the membership
    /// oracle.
    pub fn get_resource_group(&self, tag: StructTag) -> (r: Option<StructTag>)
        requires
            self.wf(),
        ensures
            match r {
                Some(g) => self@.groups.contains_key(tag) && g == self@.groups[tag],
                None => !self@.groups.contains_key(tag),
            },
    {
        let mut i: usize = 0;
        while i < self.group_membership.len()
            invariant
                self.wf(),
                i <= self.group_membership.len(),
                forall|j: int| 0 <= j < i ==> (#[trigger] self.group_membership@[j]).0 != tag,
            decreases self.group_membership.len() - i,
        {
            if self.group_membership[i].0 == tag {
                proof {
                    lemma_assoc_map_index(self.group_membership@, i as int);
                }
                return Some(self.group_membership[i].1);
            }
            i += 1;
        }
        proof {
            lemma_assoc_map_absent(self.group_membership@, tag);
        }
        None
    }

    /// The on-chain timestamp configuration, if published.
    pub fn fetch_config_timestamp(&self) -> (r: Option<u64>)
        ensures
            r == self@.onchain_timestamp,
    {
        self.onchain_timestamp
    }
}

} // verus!
