//! The top-level conversion pipeline: split resource effects into
//! non-group and group effects, merge each group, resolve the effective
//! current timestamp, convert every logical address through the write-op
//! converter, reconcile numeric-counter effects against direct writes,
//! translate events, and freeze the result into the immutable write-set.

use vstd::prelude::*;
use vstd::bytes::{spec_u64_from_le_bytes, u64_from_le_bytes};

use crate::assoc::{has_key, index_of_key, lemma_index_of_key_unique, unique_keys, viewed_pairs};
use crate::group::{member_ops_view, merge_group, merge_group_spec};
use crate::state_view::{StateView, StateViewV};
use crate::types::{core_code_address, current_time_tag, spec_core_code_address,
    spec_current_time_tag, AccountAddress, AccountChangeSet, AccountChangeSetV, ChangeSet, RawOp,
    RawOpV, StructTag, TimestampUpdate, VmStatus};

verus! {

// ----------------------------------------------------------------------
// The global timestamp resource.
// ----------------------------------------------------------------------

/// What watching one operation on the global timestamp resource yields.
/// The resource stores its microsecond count as eight little-endian bytes;
/// any other payload, or a delete of the resource, leaves the current time
/// unknown for the rest of the run — deliberately not a hard error.
pub open spec fn parse_updated_timestamp_spec(op: RawOpV) -> TimestampUpdate {
    match op {
        RawOpV::New(b) => if b.len() == 8 {
            TimestampUpdate::Updated(spec_u64_from_le_bytes(b))
        } else {
            TimestampUpdate::Unknown
        },
        RawOpV::Modify(b) => if b.len() == 8 {
            TimestampUpdate::Updated(spec_u64_from_le_bytes(b))
        } else {
            TimestampUpdate::Unknown
        },
        RawOpV::Delete => TimestampUpdate::Unknown,
    }
}

/// Parse the new payload of the global timestamp resource.
pub fn parse_updated_timestamp(op: &RawOp) -> (r: TimestampUpdate)
    ensures
        r == parse_updated_timestamp_spec(op@),
{
    match op {
        RawOp::New(b) => {
            if b.len() == 8 {
                TimestampUpdate::Updated(u64_from_le_bytes(b.as_slice()))
            } else {
                TimestampUpdate::Unknown
            }
        },
        RawOp::Modify(b) => {
            if b.len() == 8 {
                TimestampUpdate::Updated(u64_from_le_bytes(b.as_slice()))
            } else {
                TimestampUpdate::Unknown
            }
        },
        RawOp::Delete => TimestampUpdate::Unknown,
    }
}

/// The effective current timestamp of one run: a timestamp just written by
/// this session wins; a session that did not touch it falls back to the
/// on-chain timestamp configuration; a session whose update could not be
/// parsed leaves the time unavailable, and new-slot metadata is simply
/// omitted for the run.
pub open spec fn get_current_timestamp_spec(
    updated: TimestampUpdate,
    v: StateViewV,
) -> Option<u64> {
    match updated {
        TimestampUpdate::Updated(t) => Some(t),
        TimestampUpdate::NotUpdated => v.onchain_timestamp,
        TimestampUpdate::Unknown => None,
    }
}

pub fn get_current_timestamp(updated: TimestampUpdate, view: &StateView) -> (r: Option<u64>)
    ensures
        r == get_current_timestamp_spec(updated, view@),
{
    match updated {
        TimestampUpdate::Updated(t) => Some(t),
        TimestampUpdate::NotUpdated => view.fetch_config_timestamp(),
        TimestampUpdate::Unknown => None,
    }
}

// ----------------------------------------------------------------------
// Routing resources to their groups.
// ----------------------------------------------------------------------

/// Accumulate one member operation under its group tag, preserving the
/// order in which groups were first seen and the order of operations
/// within a group.
pub open spec fn add_group_op_spec(
    groups: Seq<(StructTag, Seq<(u64, RawOpV)>)>,
    g: StructTag,
    tag: u64,
    op: RawOpV,
) -> Seq<(StructTag, Seq<(u64, RawOpV)>)> {
    if has_key(groups, g) {
        let i = index_of_key(groups, g);
        groups.update(i, (g, groups[i].1.push((tag, op))))
    } else {
        groups.push((g, seq![(tag, op)]))
    }
}

/// Route one resource operation: a member of a group accumulates under the
/// group; anything else passes through unchanged, and the distinguished
/// global timestamp resource at the reserved system address additionally
/// records the updated-timestamp candidate.
pub open spec fn route_resource_spec(
    v: StateViewV,
    address: AccountAddress,
    tag: StructTag,
    op: RawOpV,
    filtered: Seq<(StructTag, RawOpV)>,
    groups: Seq<(StructTag, Seq<(u64, RawOpV)>)>,
    ts: TimestampUpdate,
) -> (Seq<(StructTag, RawOpV)>, Seq<(StructTag, Seq<(u64, RawOpV)>)>, TimestampUpdate) {
    if v.groups.contains_key(tag) {
        (filtered, add_group_op_spec(groups, v.groups[tag], tag.id, op), ts)
    } else {
        let ts2 = if address == spec_core_code_address() && tag == spec_current_time_tag() {
            parse_updated_timestamp_spec(op)
        } else {
            ts
        };
        (filtered.push((tag, op)), groups, ts2)
    }
}

/// Route a sequence of resource operations in order.
pub open spec fn route_resources_spec(
    v: StateViewV,
    address: AccountAddress,
    resources: Seq<(StructTag, RawOpV)>,
    filtered: Seq<(StructTag, RawOpV)>,
    groups: Seq<(StructTag, Seq<(u64, RawOpV)>)>,
    ts: TimestampUpdate,
) -> (Seq<(StructTag, RawOpV)>, Seq<(StructTag, Seq<(u64, RawOpV)>)>, TimestampUpdate)
    decreases resources.len(),
{
    if resources.len() == 0 {
        (filtered, groups, ts)
    } else {
        let (f2, g2, t2) = route_resource_spec(
            v,
            address,
            resources[0].0,
            resources[0].1,
            filtered,
            groups,
            ts,
        );
        route_resources_spec(v, address, resources.drop_first(), f2, g2, t2)
    }
}

/// The plain-value view of the in-memory group accumulator.
pub open spec fn group_acc_view(s: Seq<(StructTag, Vec<(StructTag, RawOp)>)>) -> Seq<
    (StructTag, Seq<(u64, RawOpV)>),
> {
    s.map_values(|p: (StructTag, Vec<(StructTag, RawOp)>)| (p.0, member_ops_view(p.1@)))
}

proof fn lemma_group_acc_view_index(s: Seq<(StructTag, Vec<(StructTag, RawOp)>)>, i: int)
    requires
        0 <= i < s.len(),
    ensures
        group_acc_view(s).len() == s.len(),
        group_acc_view(s)[i] == (s[i].0, member_ops_view(s[i].1@)),
{
}

/// Accumulate one member operation in the in-memory group accumulator.
#[verifier::loop_isolation(false)]
fn add_group_op(
    groups: &mut Vec<(StructTag, Vec<(StructTag, RawOp)>)>,
    g: StructTag,
    tag: StructTag,
    op: RawOp,
)
    requires
        unique_keys(old(groups)@),
    ensures
        unique_keys(final(groups)@),
        group_acc_view(final(groups)@) == add_group_op_spec(
            group_acc_view(old(groups)@),
            g,
            tag.id,
            op@,
        ),
{
    let ghost gv0 = group_acc_view(groups@);
    proof {
        assert forall|a: int, b: int|
            0 <= a < b < gv0.len() implies (#[trigger] gv0[a]).0 != (#[trigger] gv0[b]).0 by {
            lemma_group_acc_view_index(groups@, a);
            lemma_group_acc_view_index(groups@, b);
        }
    }
    let mut idx: Option<usize> = None;
    let mut i: usize = 0;
    while i < groups.len()
        invariant
            i <= groups@.len(),
            match idx {
                Some(k) => k < groups@.len() && groups@[k as int].0 == g,
                None => forall|j: int| 0 <= j < i ==> (#[trigger] groups@[j]).0 != g,
            },
        decreases groups@.len() - i,
    {
        if groups[i].0 == g {
            idx = Some(i);
        }
        i += 1;
    }
    match idx {
        Some(i) => {
            proof {
                lemma_group_acc_view_index(groups@, i as int);
                assert(gv0[i as int].0 == g);
                assert(has_key(gv0, g));
                lemma_index_of_key_unique(gv0, g, i as int);
            }
            let mut entry = groups.remove(i);
            let ghost entry_ops0 = entry.1@;
            entry.1.push((tag, op));
            groups.insert(i, entry);
            proof {
                assert(groups@ =~= old(groups)@.update(i as int, groups@[i as int]));
                assert(groups@[i as int].0 == g);
                assert(groups@[i as int].1@ =~= entry_ops0.push((tag, op)));
                assert(member_ops_view(groups@[i as int].1@) =~= member_ops_view(
                    entry_ops0,
                ).push((tag.id, op@)));
                lemma_group_acc_view_index(old(groups)@, i as int);
                assert(gv0[i as int].1 == member_ops_view(entry_ops0));
                assert forall|k: int| 0 <= k < groups@.len() implies #[trigger] group_acc_view(
                    groups@,
                )[k] == gv0.update(i as int, (g, gv0[i as int].1.push((tag.id, op@))))[k] by {
                    lemma_group_acc_view_index(groups@, k);
                    if k != i {
                        lemma_group_acc_view_index(old(groups)@, k);
                        assert(groups@[k] == old(groups)@[k]);
                    }
                }
                assert(group_acc_view(groups@) =~= gv0.update(
                    i as int,
                    (g, gv0[i as int].1.push((tag.id, op@))),
                ));
                assert forall|a: int, b: int|
                    0 <= a < b < groups@.len() implies (#[trigger] groups@[a]).0
                    != (#[trigger] groups@[b]).0 by {
                    assert(old(groups)@[a].0 != old(groups)@[b].0);
                }
            }
        },
        None => {
            proof {
                assert(!has_key(gv0, g)) by {
                    if has_key(gv0, g) {
                        let j = choose|j: int| 0 <= j < gv0.len() && (#[trigger] gv0[j]).0 == g;
                        lemma_group_acc_view_index(groups@, j);
                        assert(gv0[j].0 == groups@[j].0);
                    }
                }
            }
            let ghost len0 = groups@.len();
            let member: Vec<(StructTag, RawOp)> = vec![(tag, op)];
            proof {
                assert(member@ =~= seq![(tag, op)]);
                assert(member_ops_view(member@) =~= seq![(tag.id, op@)]);
            }
            groups.push((g, member));
            proof {
                assert forall|k: int| 0 <= k < groups@.len() implies #[trigger] group_acc_view(
                    groups@,
                )[k] == gv0.push((g, seq![(tag.id, op@)]))[k] by {
                    lemma_group_acc_view_index(groups@, k);
                    if k < len0 {
                        lemma_group_acc_view_index(old(groups)@, k);
                        assert(groups@[k] == old(groups)@[k]);
                    }
                }
                assert(group_acc_view(groups@) =~= gv0.push((g, seq![(tag.id, op@)])));
                assert forall|a: int, b: int|
                    0 <= a < b < groups@.len() implies (#[trigger] groups@[a]).0
                    != (#[trigger] groups@[b]).0 by {
                    if b < len0 {
                        assert(old(groups)@[a].0 != old(groups)@[b].0);
                    } else {
                        assert(groups@[a].0 == old(groups)@[a].0);
                    }
                }
            }
        },
    }
}

// ----------------------------------------------------------------------
// The split of one change set, with every group merged.
// ----------------------------------------------------------------------

/// Merge every accumulated group of one account, in the order the groups
/// were first seen, appending one group-level operation per group.
pub open spec fn merge_groups_spec(
    v: StateViewV,
    address: AccountAddress,
    groups: Seq<(StructTag, Seq<(u64, RawOpV)>)>,
    acc: Seq<((AccountAddress, StructTag), RawOpV)>,
) -> Result<Seq<((AccountAddress, StructTag), RawOpV)>, VmStatus>
    decreases groups.len(),
{
    if groups.len() == 0 {
        Ok(acc)
    } else {
        match merge_group_spec(v, address, groups[0].0, groups[0].1) {
            Err(e) => Err(e),
            Ok(op) => merge_groups_spec(
                v,
                address,
                groups.drop_first(),
                acc.push(((address, groups[0].0), op)),
            ),
        }
    }
}

/// Process one account: route its resources, pass its modules through
/// unchanged, and merge its accumulated groups.
pub open spec fn split_account_spec(
    v: StateViewV,
    address: AccountAddress,
    acs: AccountChangeSetV,
    filtered_acc: Seq<(AccountAddress, AccountChangeSetV)>,
    group_acc: Seq<((AccountAddress, StructTag), RawOpV)>,
    ts: TimestampUpdate,
) -> Result<
    (
        Seq<(AccountAddress, AccountChangeSetV)>,
        Seq<((AccountAddress, StructTag), RawOpV)>,
        TimestampUpdate,
    ),
    VmStatus,
> {
    let (filtered_res, groups, ts2) = route_resources_spec(
        v,
        address,
        acs.resources,
        Seq::empty(),
        Seq::empty(),
        ts,
    );
    match merge_groups_spec(v, address, groups, group_acc) {
        Err(e) => Err(e),
        Ok(gacc) => Ok(
            (
                filtered_acc.push(
                    (address, AccountChangeSetV { modules: acs.modules, resources: filtered_res }),
                ),
                gacc,
                ts2,
            ),
        ),
    }
}

/// Process every account of the session's change set in order.
pub open spec fn split_accounts_spec(
    v: StateViewV,
    accounts: Seq<(AccountAddress, AccountChangeSetV)>,
    filtered_acc: Seq<(AccountAddress, AccountChangeSetV)>,
    group_acc: Seq<((AccountAddress, StructTag), RawOpV)>,
    ts: TimestampUpdate,
) -> Result<
    (
        Seq<(AccountAddress, AccountChangeSetV)>,
        Seq<((AccountAddress, StructTag), RawOpV)>,
        TimestampUpdate,
    ),
    VmStatus,
>
    decreases accounts.len(),
{
    if accounts.len() == 0 {
        Ok((filtered_acc, group_acc, ts))
    } else {
        match split_account_spec(v, accounts[0].0, accounts[0].1, filtered_acc, group_acc, ts) {
            Err(e) => Err(e),
            Ok((f2, g2, t2)) => split_accounts_spec(v, accounts.drop_first(), f2, g2, t2),
        }
    }
}

/// What splitting and merging a whole change set yields: the non-group
/// change set (modules and ungrouped resources, unchanged), one group-level
/// operation per touched (owner, group) pair, and the timestamp-update
/// outcome.
pub open spec fn split_and_merge_spec(
    v: StateViewV,
    accounts: Seq<(AccountAddress, AccountChangeSetV)>,
) -> Result<
    (
        Seq<(AccountAddress, AccountChangeSetV)>,
        Seq<((AccountAddress, StructTag), RawOpV)>,
        TimestampUpdate,
    ),
    VmStatus,
> {
    split_accounts_spec(v, accounts, Seq::empty(), Seq::empty(), TimestampUpdate::NotUpdated)
}

/// The view of a split result.
pub open spec fn split_result_view(
    r: Result<(ChangeSet, Vec<((AccountAddress, StructTag), RawOp)>, TimestampUpdate), VmStatus>,
) -> Result<
    (
        Seq<(AccountAddress, AccountChangeSetV)>,
        Seq<((AccountAddress, StructTag), RawOpV)>,
        TimestampUpdate,
    ),
    VmStatus,
> {
    match r {
        Ok((cs, gcs, ts)) => Ok((cs@, viewed_pairs(gcs@), ts)),
        Err(e) => Err(e),
    }
}

/// Separate the resource groups from the non-group effects: non-group
/// effects are kept as they are; resources that belong to a group are
/// removed from the flat change set and merged, per (owner, group) pair,
/// into a single group-level operation against the group's existing
/// serialized contents. Also reports whether this session updated the
/// global timestamp resource.
#[verifier::loop_isolation(false)]
pub fn split_and_merge_resource_groups(view: &StateView, change_set: ChangeSet) -> (r: Result<
    (ChangeSet, Vec<((AccountAddress, StructTag), RawOp)>, TimestampUpdate),
    VmStatus,
>)
    requires
        view.wf(),
    ensures
        split_result_view(r) == split_and_merge_spec(view@, change_set@),
{
    let ghost all_accounts = change_set@;
    let mut accounts = change_set.accounts;
    let mut filtered_out: Vec<(AccountAddress, AccountChangeSet)> = Vec::new();
    let mut group_out: Vec<((AccountAddress, StructTag), RawOp)> = Vec::new();
    let mut ts = TimestampUpdate::NotUpdated;
    proof {
        assert(viewed_pairs(filtered_out@) =~= Seq::<(AccountAddress, AccountChangeSetV)>::empty());
        assert(viewed_pairs(group_out@) =~= Seq::<((AccountAddress, StructTag), RawOpV)>::empty());
        assert(viewed_pairs(accounts@) == all_accounts);
    }
    while accounts.len() > 0
        invariant
            split_accounts_spec(
                view@,
                viewed_pairs(accounts@),
                viewed_pairs(filtered_out@),
                viewed_pairs(group_out@),
                ts,
            ) == split_and_merge_spec(view@, all_accounts),
        decreases accounts@.len(),
    {
        let ghost accs0 = viewed_pairs(accounts@);
        let ghost fo_in = viewed_pairs(filtered_out@);
        let ghost go_in = viewed_pairs(group_out@);
        let ghost ts_in = ts;

        let (address, acs) = accounts.remove(0);
        proof {
            assert(accs0[0] == (address, acs@));
            assert(accs0.drop_first() =~= viewed_pairs(accounts@));
        }
        let ghost acs_v = acs@;
        let AccountChangeSet { modules, resources } = acs;
        proof {
            assert(viewed_pairs(modules@) == acs_v.modules);
            assert(viewed_pairs(resources@) == acs_v.resources);
        }

        // Route this account's resources.
        let mut resources = resources;
        let mut filtered_res: Vec<(StructTag, RawOp)> = Vec::new();
        let mut groups: Vec<(StructTag, Vec<(StructTag, RawOp)>)> = Vec::new();
        proof {
            assert(viewed_pairs(filtered_res@) =~= Seq::<(StructTag, RawOpV)>::empty());
            assert(group_acc_view(groups@) =~= Seq::<(StructTag, Seq<(u64, RawOpV)>)>::empty());
        }
        while resources.len() > 0
            invariant
                unique_keys(groups@),
                route_resources_spec(
                    view@,
                    address,
                    viewed_pairs(resources@),
                    viewed_pairs(filtered_res@),
                    group_acc_view(groups@),
                    ts,
                ) == route_resources_spec(
                    view@,
                    address,
                    acs_v.resources,
                    Seq::empty(),
                    Seq::empty(),
                    ts_in,
                ),
            decreases resources@.len(),
        {
            let ghost res0 = viewed_pairs(resources@);
            let (tag, op) = resources.remove(0);
            proof {
                assert(res0[0] == (tag, op@));
                assert(res0.drop_first() =~= viewed_pairs(resources@));
            }
            match view.get_resource_group(tag) {
                Some(g) => {
                    add_group_op(&mut groups, g, tag, op);
                },
                None => {
                    if address == core_code_address() && tag == current_time_tag() {
                        ts = parse_updated_timestamp(&op);
                    }
                    let ghost f0 = viewed_pairs(filtered_res@);
                    filtered_res.push((tag, op));
                    proof {
                        assert(viewed_pairs(filtered_res@) =~= f0.push((tag, op@)));
                    }
                },
            }
        }
        proof {
            assert(viewed_pairs(resources@) =~= Seq::<(StructTag, RawOpV)>::empty());
        }
        let ghost routed = route_resources_spec(
            view@,
            address,
            acs_v.resources,
            Seq::empty(),
            Seq::empty(),
            ts_in,
        );
        proof {
            assert(routed.0 == viewed_pairs(filtered_res@));
            assert(routed.1 == group_acc_view(groups@));
            assert(routed.2 == ts);
        }

        // Merge this account's accumulated groups.
        let mut groups = groups;
        while groups.len() > 0
            invariant
                merge_groups_spec(view@, address, group_acc_view(groups@), viewed_pairs(group_out@))
                    == merge_groups_spec(view@, address, routed.1, go_in),
            decreases groups@.len(),
        {
            let ghost gs0 = group_acc_view(groups@);
            let ghost go0 = viewed_pairs(group_out@);
            let (g, ops) = groups.remove(0);
            proof {
                assert(gs0[0] == (g, member_ops_view(ops@)));
                assert(gs0.drop_first() =~= group_acc_view(groups@));
            }
            match merge_group(view, address, g, ops) {
                Err(e) => {
                    proof {
                        assert(split_account_spec(view@, address, acs_v, fo_in, go_in, ts_in)
                            == Err::<(Seq<(AccountAddress, AccountChangeSetV)>, Seq<((AccountAddress, StructTag), RawOpV)>, TimestampUpdate), VmStatus>(e));
                        assert(split_accounts_spec(view@, accs0, fo_in, go_in, ts_in)
                            == Err::<(Seq<(AccountAddress, AccountChangeSetV)>, Seq<((AccountAddress, StructTag), RawOpV)>, TimestampUpdate), VmStatus>(e));
                    }
                    return Err(e);
                },
                Ok(op) => {
                    group_out.push(((address, g), op));
                    proof {
                        assert(viewed_pairs(group_out@) =~= go0.push(((address, g), op@)));
                    }
                },
            }
        }
        proof {
            assert(group_acc_view(groups@) =~= Seq::<(StructTag, Seq<(u64, RawOpV)>)>::empty());
            assert(merge_groups_spec(view@, address, routed.1, go_in) == Ok::<
                Seq<((AccountAddress, StructTag), RawOpV)>,
                VmStatus,
            >(viewed_pairs(group_out@)));
        }

        // Keep the non-group effects of this account unchanged.
        let filtered_acs = AccountChangeSet { modules, resources: filtered_res };
        proof {
            assert(filtered_acs@ == AccountChangeSetV {
                modules: acs_v.modules,
                resources: routed.0,
            });
        }
        filtered_out.push((address, filtered_acs));
        proof {
            assert(viewed_pairs(filtered_out@) =~= fo_in.push((address, AccountChangeSetV {
                modules: acs_v.modules,
                resources: routed.0,
            })));
            assert(split_account_spec(view@, address, acs_v, fo_in, go_in, ts_in) == Ok::<
                (Seq<(AccountAddress, AccountChangeSetV)>, Seq<((AccountAddress, StructTag), RawOpV)>, TimestampUpdate),
                VmStatus,
            >((viewed_pairs(filtered_out@), viewed_pairs(group_out@), ts)));
            assert(split_accounts_spec(view@, accs0, fo_in, go_in, ts_in) == split_accounts_spec(
                view@,
                viewed_pairs(accounts@),
                viewed_pairs(filtered_out@),
                viewed_pairs(group_out@),
                ts,
            ));
        }
    }
    proof {
        assert(viewed_pairs(accounts@) =~= Seq::<(AccountAddress, AccountChangeSetV)>::empty());
    }
    let out = ChangeSet { accounts: filtered_out };
    proof {
        assert(out@ == viewed_pairs(filtered_out@));
    }
    Ok((out, group_out, ts))
}

} // verus!
