//! The write-set under construction and its frozen, immutable form. The
//! accumulator behaves as a map from logical address to canonical
//! write-operation: inserting at an address that already carries an
//! operation replaces it. Freezing checks that no address occurs twice and
//! hands the ledger an immutable value.

use vstd::prelude::*;

use crate::assoc::{assoc_map, lemma_assoc_map_absent, lemma_assoc_map_index,
    lemma_assoc_map_push, lemma_assoc_map_update, unique_keys, viewed_pairs};
use crate::types::{StateKey, VmStatus, WriteOp, WriteOpV};

verus! {

/// The write-set accumulator of one conversion run.
pub struct WriteSetMut {
    pub ops: Vec<(StateKey, WriteOp)>,
}

impl View for WriteSetMut {
    type V = Map<StateKey, WriteOpV>;

    open spec fn view(&self) -> Map<StateKey, WriteOpV> {
        assoc_map(viewed_pairs(self.ops@))
    }
}

impl WriteSetMut {
    /// No logical address occurs twice.
    pub open spec fn wf(&self) -> bool {
        unique_keys(self.ops@)
    }

    pub fn new() -> (r: Self)
        ensures
            r@ == Map::<StateKey, WriteOpV>::empty(),
            r.wf(),
            r.ops@.len() == 0,
    {
        let r = WriteSetMut { ops: Vec::new() };
        proof {
            assert(viewed_pairs(r.ops@) =~= Seq::<(StateKey, WriteOpV)>::empty());
        }
        r
    }

    /// The uniqueness of the viewed entries follows from the uniqueness of
    /// the stored entries.
    proof fn lemma_viewed_unique(&self)
        requires
            self.wf(),
        ensures
            unique_keys(viewed_pairs(self.ops@)),
    {
        assert forall|i: int, j: int|
            0 <= i < j < viewed_pairs(self.ops@).len() implies (#[trigger] viewed_pairs(
            self.ops@,
        )[i]).0 != (#[trigger] viewed_pairs(self.ops@)[j]).0 by {
            assert(viewed_pairs(self.ops@)[i].0 == self.ops@[i].0);
            assert(viewed_pairs(self.ops@)[j].0 == self.ops@[j].0);
            assert(self.ops@[i].0 != self.ops@[j].0);
        }
    }

    fn find(&self, key: StateKey) -> (r: Option<usize>)
        ensures
            match r {
                Some(i) => i < self.ops@.len() && self.ops@[i as int].0 == key,
                None => forall|j: int|
                    0 <= j < self.ops@.len() ==> (#[trigger] self.ops@[j]).0 != key,
            },
    {
        let mut i: usize = 0;
        while i < self.ops.len()
            invariant
                i <= self.ops.len(),
                forall|j: int| 0 <= j < i ==> (#[trigger] self.ops@[j]).0 != key,
            decreases self.ops.len() - i,
        {
            if self.ops[i].0 == key {
                return Some(i);
            }
            i += 1;
        }
        None
    }

    /// The operation already accumulated at `key`, if any.
    pub fn get(&self, key: StateKey) -> (r: Option<&WriteOp>)
        requires
            self.wf(),
        ensures
            match r {
                Some(op) => self@.contains_key(key) && op@ == self@[key],
                None => !self@.contains_key(key),
            },
    {
        let found = self.find(key);
        match found {
            Some(i) => {
                proof {
                    self.lemma_viewed_unique();
                    assert(viewed_pairs(self.ops@)[i as int].0 == key);
                    lemma_assoc_map_index(viewed_pairs(self.ops@), i as int);
                }
                Some(&self.ops[i].1)
            },
            None => {
                proof {
                    assert forall|j: int|
                        0 <= j < viewed_pairs(self.ops@).len() implies (#[trigger] viewed_pairs(
                        self.ops@,
                    )[j]).0 != key by {
                        assert(viewed_pairs(self.ops@)[j].0 == self.ops@[j].0);
                    }
                    lemma_assoc_map_absent(viewed_pairs(self.ops@), key);
                }
                None
            },
        }
    }

    /// Record `op` as the effective operation at `key`, replacing any
    /// operation accumulated there before.
    pub fn insert(&mut self, key: StateKey, op: WriteOp)
        requires
            old(self).wf(),
        ensures
            final(self).wf(),
            final(self)@ == old(self)@.insert(key, op@),
    {
        let ghost vp0 = viewed_pairs(self.ops@);
        let found = self.find(key);
        match found {
            Some(i) => {
                proof {
                    self.lemma_viewed_unique();
                }
                self.ops.set(i, (key, op));
                proof {
                    assert(viewed_pairs(self.ops@) =~= vp0.update(i as int, (key, op@)));
                    assert(vp0[i as int].0 == key);
                    lemma_assoc_map_update(vp0, i as int, op@);
                    assert forall|a: int, b: int|
                        0 <= a < b < self.ops@.len() implies (#[trigger] self.ops@[a]).0
                        != (#[trigger] self.ops@[b]).0 by {}
                }
            },
            None => {
                self.ops.push((key, op));
                proof {
                    assert(viewed_pairs(self.ops@) =~= vp0.push((key, op@)));
                    lemma_assoc_map_push(vp0, key, op@);
                }
            },
        }
    }
}

/// The immutable write-set handed to the ledger: an ordered collection of
/// per-slot operations with pairwise-distinct logical addresses. Values of
/// this type exist only through `freeze`, so the distinctness invariant
/// holds of every write-set anywhere.
pub struct WriteSet {
    ops: Vec<(StateKey, WriteOp)>,
}

impl WriteSet {
    /// At most one canonical write-operation per logical address.
    #[verifier::type_invariant]
    pub closed spec fn inv(&self) -> bool {
        unique_keys(self.ops@)
    }

    /// The entries, in insertion order.
    pub closed spec fn seq_view(&self) -> Seq<(StateKey, WriteOpV)> {
        viewed_pairs(self.ops@)
    }

    /// The mapping from logical address to its operation.
    pub open spec fn as_map(&self) -> Map<StateKey, WriteOpV> {
        assoc_map(self.seq_view())
    }

    pub fn len(&self) -> (r: usize)
        ensures
            r == self.seq_view().len(),
    {
        self.ops.len()
    }

    /// The operation the write-set carries at `key`, if any.
    pub fn get(&self, key: StateKey) -> (r: Option<&WriteOp>)
        ensures
            match r {
                Some(op) => self.as_map().contains_key(key) && op@ == self.as_map()[key],
                None => !self.as_map().contains_key(key),
            },
    {
        proof {
            use_type_invariant(self);
        }
        let mut i: usize = 0;
        while i < self.ops.len()
            invariant
                unique_keys(self.ops@),
                i <= self.ops.len(),
                forall|j: int| 0 <= j < i ==> (#[trigger] self.ops@[j]).0 != key,
            decreases self.ops.len() - i,
        {
            if self.ops[i].0 == key {
                proof {
                    assert forall|a: int, b: int|
                        0 <= a < b < self.seq_view().len() implies (#[trigger] self.seq_view()[
                        a]).0 != (#[trigger] self.seq_view()[b]).0 by {
                        assert(self.seq_view()[a].0 == self.ops@[a].0);
                        assert(self.seq_view()[b].0 == self.ops@[b].0);
                    }
                    assert(self.seq_view()[i as int].0 == key);
                    lemma_assoc_map_index(self.seq_view(), i as int);
                }
                return Some(&self.ops[i].1);
            }
            i += 1;
        }
        proof {
            assert forall|j: int|
                0 <= j < self.seq_view().len() implies (#[trigger] self.seq_view()[j]).0
                != key by {
                assert(self.seq_view()[j].0 == self.ops@[j].0);
            }
            lemma_assoc_map_absent(self.seq_view(), key);
        }
        None
    }
}

/// Freeze the accumulated operations into the immutable write-set. A
/// duplicated logical address at this point means two independent addresses
/// canonicalized to the same physical key: a hard data-format error.
///
/// The second clause of the success case is the write-set invariant: the
/// frozen write-set contains at most one canonical write-operation per
/// logical address — any two distinct entries name distinct addresses.
pub fn freeze(ws: WriteSetMut) -> (r: Result<WriteSet, VmStatus>)
    ensures
        match r {
            Ok(frozen) => ws.wf() && (forall|i: int, j: int|
                0 <= i < j < frozen.seq_view().len() ==> (#[trigger] frozen.seq_view()[i]).0
                    != (#[trigger] frozen.seq_view()[j]).0) && frozen.seq_view() == viewed_pairs(
                ws.ops@,
            ) && frozen.as_map() == ws@,
            Err(e) => e == VmStatus::DataFormatError && !ws.wf(),
        },
{
    let mut i: usize = 0;
    while i < ws.ops.len()
        invariant
            i <= ws.ops@.len(),
            forall|a: int, b: int|
                0 <= a < b < i ==> (#[trigger] ws.ops@[a]).0 != (#[trigger] ws.ops@[b]).0,
        decreases ws.ops.len() - i,
    {
        let mut j: usize = 0;
        while j < i
            invariant
                j <= i,
                i < ws.ops@.len(),
                forall|a: int| 0 <= a < j ==> (#[trigger] ws.ops@[a]).0 != ws.ops@[i as int].0,
            decreases i - j,
        {
            if ws.ops[j].0 == ws.ops[i].0 {
                return Err(VmStatus::DataFormatError);
            }
            j += 1;
        }
        i += 1;
    }
    Ok(WriteSet { ops: ws.ops })
}

} // verus!
