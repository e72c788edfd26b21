//! Classification of one requested operation against a slot's actual prior
//! state, and attachment or inheritance of slot metadata.
//!
//! The contract table, with `prior` the slot's prior materialized value:
//!
//! * no prior, `New(data)`: `Creation(data)`, with this run's new-slot
//!   metadata if available (and, under the legacy compatibility flag and no
//!   metadata, a bare `Modification(data)` instead);
//! * no prior, `Modify` or `Delete`: invariant violation;
//! * prior exists, `New`: invariant violation;
//! * prior exists, `Modify(data)`: `Modification(data)` inheriting the prior
//!   slot's metadata verbatim, even when metadata tracking is off now;
//! * prior exists, `Delete`: `Deletion` inheriting the prior metadata.

use vstd::prelude::*;

use crate::state_view::{StateView, StateViewV};
use crate::types::{AccountAddress, RawOp, RawOpV, SlotMetadata, StateKey, StateValueV, VmStatus,
    WriteOp, WriteOpV};

verus! {

/// The prior value of one slot in a state view, if it is materialized.
pub open spec fn prior_of(v: StateViewV, key: StateKey) -> Option<StateValueV> {
    if v.state.contains_key(key) {
        Some(v.state[key])
    } else {
        None
    }
}

/// The metadata attached to slots created in this run: present only when
/// both a designated payer and a current timestamp are available. Otherwise
/// new slots carry no metadata, a deliberate fallback that keeps ledgers
/// predating metadata tracking readable.
pub open spec fn spec_new_slot_metadata(
    new_slot_payer: Option<AccountAddress>,
    current_time: Option<u64>,
) -> Option<SlotMetadata> {
    match (new_slot_payer, current_time) {
        (Some(payer), Some(t)) => Some(
            SlotMetadata { payer, deposit: 0, creation_time_usecs: t },
        ),
        _ => None,
    }
}

/// What converting one raw operation yields: a pure function of the slot's
/// prior value, this run's new-slot metadata, the requested operation, and
/// the legacy-creation-as-modification compatibility flag.
pub open spec fn convert_spec(
    prior: Option<StateValueV>,
    new_slot_metadata: Option<SlotMetadata>,
    op: RawOpV,
    legacy_creation_as_modification: bool,
) -> Result<WriteOpV, VmStatus> {
    match (prior, op) {
        (None, RawOpV::New(data)) => match new_slot_metadata {
            Some(m) => Ok(WriteOpV::Creation { data, metadata: Some(m) }),
            None => if legacy_creation_as_modification {
                Ok(WriteOpV::Modification { data, metadata: None })
            } else {
                Ok(WriteOpV::Creation { data, metadata: None })
            },
        },
        (None, RawOpV::Modify(_)) => Err(VmStatus::UnknownInvariantViolation),
        (None, RawOpV::Delete) => Err(VmStatus::UnknownInvariantViolation),
        (Some(_), RawOpV::New(_)) => Err(VmStatus::UnknownInvariantViolation),
        (Some(pv), RawOpV::Modify(data)) => Ok(
            WriteOpV::Modification { data, metadata: pv.metadata },
        ),
        (Some(pv), RawOpV::Delete) => Ok(WriteOpV::Deletion { metadata: pv.metadata }),
    }
}

/// The view of a conversion result.
pub open spec fn write_op_result_view(r: Result<WriteOp, VmStatus>) -> Result<WriteOpV, VmStatus> {
    match r {
        Ok(op) => Ok(op@),
        Err(e) => Err(e),
    }
}

/// Produces the canonical write-operation for one slot from the requested
/// operation and the slot's prior value, read on demand from the state view.
pub struct WriteOpConverter {
    pub new_slot_metadata: Option<SlotMetadata>,
}

impl WriteOpConverter {
    pub fn new(new_slot_payer: Option<AccountAddress>, current_time: Option<u64>) -> (r: Self)
        ensures
            r.new_slot_metadata == spec_new_slot_metadata(new_slot_payer, current_time),
    {
        let new_slot_metadata = match (new_slot_payer, current_time) {
            (Some(payer), Some(t)) => Some(
                SlotMetadata { payer, deposit: 0, creation_time_usecs: t },
            ),
            _ => None,
        };
        WriteOpConverter { new_slot_metadata }
    }

    /// Classify `op` against the slot's prior state and attach or inherit
    /// metadata, per the contract table of this module.
    pub fn convert(
        &self,
        view: &StateView,
        key: StateKey,
        op: RawOp,
        legacy_creation_as_modification: bool,
    ) -> (r: Result<WriteOp, VmStatus>)
        requires
            view.wf(),
        ensures
            write_op_result_view(r) == convert_spec(
                prior_of(view@, key),
                self.new_slot_metadata,
                op@,
                legacy_creation_as_modification,
            ),
    {
        let existing = view.get_state_value(key);
        match (existing, op) {
            (None, RawOp::Modify(_)) => Err(VmStatus::UnknownInvariantViolation),
            (None, RawOp::Delete) => Err(VmStatus::UnknownInvariantViolation),
            (Some(_), RawOp::New(_)) => Err(VmStatus::UnknownInvariantViolation),
            (None, RawOp::New(data)) => match &self.new_slot_metadata {
                Some(m) => Ok(WriteOp::Creation { data, metadata: Some(*m) }),
                None => if legacy_creation_as_modification {
                    Ok(WriteOp::Modification { data, metadata: None })
                } else {
                    Ok(WriteOp::Creation { data, metadata: None })
                },
            },
            (Some(prior), RawOp::Modify(data)) => Ok(
                WriteOp::Modification { data, metadata: prior.metadata },
            ),
            (Some(prior), RawOp::Delete) => Ok(WriteOp::Deletion { metadata: prior.metadata }),
        }
    }
}

/// Idempotence of classification: conversion is a pure function of the
/// prior state and the requested operation, so converting the same pair
/// twice yields the identical canonical write-operation.
pub proof fn lemma_convert_idempotent(
    prior: Option<StateValueV>,
    new_slot_metadata: Option<SlotMetadata>,
    op: RawOpV,
    legacy_creation_as_modification: bool,
    r1: Result<WriteOpV, VmStatus>,
    r2: Result<WriteOpV, VmStatus>,
)
    requires
        r1 == convert_spec(prior, new_slot_metadata, op, legacy_creation_as_modification),
        r2 == convert_spec(prior, new_slot_metadata, op, legacy_creation_as_modification),
    ensures
        r1 == r2,
{
}

/// A delete against a slot with no prior state always fails with an
/// invariant violation.
pub proof fn lemma_delete_without_prior_fails(
    new_slot_metadata: Option<SlotMetadata>,
    legacy_creation_as_modification: bool,
)
    ensures
        convert_spec(None, new_slot_metadata, RawOpV::Delete, legacy_creation_as_modification)
            == Err::<WriteOpV, VmStatus>(VmStatus::UnknownInvariantViolation),
{
}

/// A create against a slot with existing prior state always fails with an
/// invariant violation.
pub proof fn lemma_new_on_existing_slot_fails(
    prior: StateValueV,
    new_slot_metadata: Option<SlotMetadata>,
    data: Seq<u8>,
    legacy_creation_as_modification: bool,
)
    ensures
        convert_spec(
            Some(prior),
            new_slot_metadata,
            RawOpV::New(data),
            legacy_creation_as_modification,
        ) == Err::<WriteOpV, VmStatus>(VmStatus::UnknownInvariantViolation),
{
}

/// Metadata inheritance: modifying or deleting a slot created with metadata
/// `m` always yields an operation carrying exactly `m`, regardless of the
/// current payer or timestamp availability.
pub proof fn lemma_metadata_inheritance(
    prior: StateValueV,
    m: SlotMetadata,
    new_slot_metadata: Option<SlotMetadata>,
    data: Seq<u8>,
    legacy_creation_as_modification: bool,
)
    requires
        prior.metadata == Some(m),
    ensures
        convert_spec(Some(prior), new_slot_metadata, RawOpV::Modify(data),
            legacy_creation_as_modification)
            == Ok::<WriteOpV, VmStatus>(WriteOpV::Modification { data, metadata: Some(m) }),
        convert_spec(Some(prior), new_slot_metadata, RawOpV::Delete,
            legacy_creation_as_modification)
            == Ok::<WriteOpV, VmStatus>(WriteOpV::Deletion { metadata: Some(m) }),
{
}

} // verus!
