//! Policy application engine.
//!
//! [`apply`] turns a policy into the one atomic `set_properties` call that
//! carries the whole translated list: the init system accepts all listed
//! properties or none. The ghost [`UnitState`] models the property state the
//! init system holds for one unit, and the laws below state what one atomic
//! application does to it: present fields overwrite, absent fields leave the
//! state untouched, and repeating an application changes nothing further.

use vstd::prelude::*;
use crate::error::PolicyError;
use crate::policy::{Policy, PolicyView, spec_policy_error, valid_policy};
use crate::props::{
    Property, PropertyView, views_of, spec_properties, to_properties, emit_cpu_weight,
    emit_allowed_cpus, emit_memory_min, emit_memory_low, emit_memory_high, emit_memory_max,
    emit_memory_swap_max, emit_memory_zswap_max, emit_io_weight, emit_io_device_weight,
    emit_io_max, emit_task_max, emit_cpu_group, emit_memory_group, emit_io_group,
};

verus! {

/// One atomic property-setting call against a named unit: the whole list is
/// submitted in a single bus call. `runtime` asks for a transient change;
/// a persisted one otherwise.
#[derive(Clone, Debug, PartialEq, Eq)]
pub struct PropertyCall {
    /// The unit or slice the call addresses, by name.
    pub target: String,
    /// Whether the change is in-memory only.
    pub runtime: bool,
    /// The properties the call carries.
    pub properties: Vec<Property>,
}

/// The property state the init system holds for one unit, as far as this
/// library speaks about it. Every field is the value in effect, or absent
/// when the unit inherits it.
pub struct UnitState {
    pub cpu_weight: Option<u64>,
    pub allowed_cpus: Option<Seq<u64>>,
    pub memory_min: Option<u64>,
    pub memory_low: Option<u64>,
    pub memory_high: Option<u64>,
    pub memory_max: Option<u64>,
    pub memory_swap_max: Option<u64>,
    pub memory_zswap_max: Option<u64>,
    pub io_weight: Option<u64>,
    pub io_device_weight: Option<(Seq<char>, u64)>,
    pub io_max: Option<u64>,
    pub task_max: Option<u64>,
    pub slice: Option<Seq<char>>,
}

/// One property write: the named field takes the value, all others stay.
pub open spec fn apply_prop(st: UnitState, pv: PropertyView) -> UnitState {
    match pv {
        PropertyView::CpuWeight(w) => UnitState { cpu_weight: Some(w), ..st },
        PropertyView::AllowedCpus(v) => UnitState { allowed_cpus: Some(v), ..st },
        PropertyView::MemoryMin(v) => UnitState { memory_min: Some(v), ..st },
        PropertyView::MemoryLow(v) => UnitState { memory_low: Some(v), ..st },
        PropertyView::MemoryHigh(v) => UnitState { memory_high: Some(v), ..st },
        PropertyView::MemoryMax(v) => UnitState { memory_max: Some(v), ..st },
        PropertyView::MemorySwapMax(v) => UnitState { memory_swap_max: Some(v), ..st },
        PropertyView::MemoryZswapMax(v) => UnitState { memory_zswap_max: Some(v), ..st },
        PropertyView::IoWeight(w) => UnitState { io_weight: Some(w), ..st },
        PropertyView::IoDeviceWeight(d, w) => UnitState { io_device_weight: Some((d, w)), ..st },
        PropertyView::IoMax(v) => UnitState { io_max: Some(v), ..st },
        PropertyView::TasksMax(v) => UnitState { task_max: Some(v), ..st },
        PropertyView::Slice(s) => UnitState { slice: Some(s), ..st },
    }
}

/// Property-level writes applied in list order; a later entry for the same
/// property wins.
pub open spec fn apply_props(st: UnitState, props: Seq<PropertyView>) -> UnitState
    decreases props.len(),
{
    if props.len() == 0 {
        st
    } else {
        apply_prop(apply_props(st, props.drop_last()), props.last())
    }
}

/// What one atomic application of a whole policy leaves in effect: present
/// fields overwrite the state, absent fields leave it untouched, and the
/// unit's slice placement is not part of a policy.
pub open spec fn override_with(p: PolicyView, st: UnitState) -> UnitState {
    UnitState {
        cpu_weight: match p.cpu_weight {
            Some(w) => Some(w as u64),
            None => st.cpu_weight,
        },
        allowed_cpus: match p.allowed_cpus {
            Some(v) => Some(v),
            None => st.allowed_cpus,
        },
        memory_min: match p.memory_min {
            Some(v) => Some(v),
            None => st.memory_min,
        },
        memory_low: match p.memory_low {
            Some(v) => Some(v),
            None => st.memory_low,
        },
        memory_high: match p.memory_high {
            Some(v) => Some(v),
            None => st.memory_high,
        },
        memory_max: match p.memory_max {
            Some(v) => Some(v),
            None => st.memory_max,
        },
        memory_swap_max: match p.memory_swap_max {
            Some(v) => Some(v),
            None => st.memory_swap_max,
        },
        memory_zswap_max: match p.memory_zswap_max {
            Some(v) => Some(v),
            None => st.memory_zswap_max,
        },
        io_weight: match p.io_weight {
            Some(w) => Some(w),
            None => st.io_weight,
        },
        io_device_weight: match p.io_device_weight {
            Some(dw) => Some(dw),
            None => st.io_device_weight,
        },
        io_max: match p.io_max {
            Some(v) => Some(v),
            None => st.io_max,
        },
        task_max: match p.task_max {
            Some(v) => Some(v),
            None => st.task_max,
        },
        slice: st.slice,
    }
}

/// Applying a concatenation applies the left part, then the right part.
proof fn lemma_apply_props_append(st: UnitState, s1: Seq<PropertyView>, s2: Seq<PropertyView>)
    ensures
        apply_props(st, s1 + s2) == apply_props(apply_props(st, s1), s2),
    decreases s2.len(),
{
    if s2.len() == 0 {
        assert(s1 + s2 =~= s1);
    } else {
        assert((s1 + s2).drop_last() =~= s1 + s2.drop_last());
        assert((s1 + s2).last() == s2.last());
        lemma_apply_props_append(st, s1, s2.drop_last());
    }
}

/// Applying a single entry is one property write.
proof fn lemma_apply_props_singleton(st: UnitState, x: PropertyView)
    ensures
        apply_props(st, seq![x]) == apply_prop(st, x),
{
    assert(seq![x].len() == 1);
    assert(seq![x].drop_last() =~= Seq::<PropertyView>::empty());
    assert(seq![x].last() == x);
    assert(apply_props(st, Seq::<PropertyView>::empty()) == st);
}

/// Applying the `emit_cpu_weight` entry of a policy.
proof fn lemma_apply_emit_cpu_weight(st: UnitState, p: PolicyView)
    ensures
        apply_props(st, emit_cpu_weight(p)) == match p.cpu_weight {
            Some(w) => apply_prop(st, PropertyView::CpuWeight(w as u64)),
            None => st,
        },
{
    match p.cpu_weight {
        Some(w) => {
            lemma_apply_props_singleton(st, PropertyView::CpuWeight(w as u64));
        },
        None => {},
    }
}
/// Applying the `emit_allowed_cpus` entry of a policy.
proof fn lemma_apply_emit_allowed_cpus(st: UnitState, p: PolicyView)
    ensures
        apply_props(st, emit_allowed_cpus(p)) == match p.allowed_cpus {
            Some(v) => apply_prop(st, PropertyView::AllowedCpus(v)),
            None => st,
        },
{
    match p.allowed_cpus {
        Some(v) => {
            lemma_apply_props_singleton(st, PropertyView::AllowedCpus(v));
        },
        None => {},
    }
}
/// Applying the `emit_memory_min` entry of a policy.
proof fn lemma_apply_emit_memory_min(st: UnitState, p: PolicyView)
    ensures
        apply_props(st, emit_memory_min(p)) == match p.memory_min {
            Some(v) => apply_prop(st, PropertyView::MemoryMin(v)),
            None => st,
        },
{
    match p.memory_min {
        Some(v) => {
            lemma_apply_props_singleton(st, PropertyView::MemoryMin(v));
        },
        None => {},
    }
}
/// Applying the `emit_memory_low` entry of a policy.
proof fn lemma_apply_emit_memory_low(st: UnitState, p: PolicyView)
    ensures
        apply_props(st, emit_memory_low(p)) == match p.memory_low {
            Some(v) => apply_prop(st, PropertyView::MemoryLow(v)),
            None => st,
        },
{
    match p.memory_low {
        Some(v) => {
            lemma_apply_props_singleton(st, PropertyView::MemoryLow(v));
        },
        None => {},
    }
}
/// Applying the `emit_memory_high` entry of a policy.
proof fn lemma_apply_emit_memory_high(st: UnitState, p: PolicyView)
    ensures
        apply_props(st, emit_memory_high(p)) == match p.memory_high {
            Some(v) => apply_prop(st, PropertyView::MemoryHigh(v)),
            None => st,
        },
{
    match p.memory_high {
        Some(v) => {
            lemma_apply_props_singleton(st, PropertyView::MemoryHigh(v));
        },
        None => {},
    }
}
/// Applying the `emit_memory_max` entry of a policy.
proof fn lemma_apply_emit_memory_max(st: UnitState, p: PolicyView)
    ensures
        apply_props(st, emit_memory_max(p)) == match p.memory_max {
            Some(v) => apply_prop(st, PropertyView::MemoryMax(v)),
            None => st,
        },
{
    match p.memory_max {
        Some(v) => {
            lemma_apply_props_singleton(st, PropertyView::MemoryMax(v));
        },
        None => {},
    }
}
/// Applying the `emit_memory_swap_max` entry of a policy.
proof fn lemma_apply_emit_memory_swap_max(st: UnitState, p: PolicyView)
    ensures
        apply_props(st, emit_memory_swap_max(p)) == match p.memory_swap_max {
            Some(v) => apply_prop(st, PropertyView::MemorySwapMax(v)),
            None => st,
        },
{
    match p.memory_swap_max {
        Some(v) => {
            lemma_apply_props_singleton(st, PropertyView::MemorySwapMax(v));
        },
        None => {},
    }
}
/// Applying the `emit_memory_zswap_max` entry of a policy.
proof fn lemma_apply_emit_memory_zswap_max(st: UnitState, p: PolicyView)
    ensures
        apply_props(st, emit_memory_zswap_max(p)) == match p.memory_zswap_max {
            Some(v) => apply_prop(st, PropertyView::MemoryZswapMax(v)),
            None => st,
        },
{
    match p.memory_zswap_max {
        Some(v) => {
            lemma_apply_props_singleton(st, PropertyView::MemoryZswapMax(v));
        },
        None => {},
    }
}
/// Applying the `emit_io_weight` entry of a policy.
proof fn lemma_apply_emit_io_weight(st: UnitState, p: PolicyView)
    ensures
        apply_props(st, emit_io_weight(p)) == match p.io_weight {
            Some(w) => apply_prop(st, PropertyView::IoWeight(w)),
            None => st,
        },
{
    match p.io_weight {
        Some(w) => {
            lemma_apply_props_singleton(st, PropertyView::IoWeight(w));
        },
        None => {},
    }
}
/// Applying the `emit_io_device_weight` entry of a policy.
proof fn lemma_apply_emit_io_device_weight(st: UnitState, p: PolicyView)
    ensures
        apply_props(st, emit_io_device_weight(p)) == match p.io_device_weight {
            Some((d, w)) => apply_prop(st, PropertyView::IoDeviceWeight(d, w)),
            None => st,
        },
{
    match p.io_device_weight {
        Some((d, w)) => {
            lemma_apply_props_singleton(st, PropertyView::IoDeviceWeight(d, w));
        },
        None => {},
    }
}
/// Applying the `emit_io_max` entry of a policy.
proof fn lemma_apply_emit_io_max(st: UnitState, p: PolicyView)
    ensures
        apply_props(st, emit_io_max(p)) == match p.io_max {
            Some(v) => apply_prop(st, PropertyView::IoMax(v)),
            None => st,
        },
{
    match p.io_max {
        Some(v) => {
            lemma_apply_props_singleton(st, PropertyView::IoMax(v));
        },
        None => {},
    }
}
/// Applying the `emit_task_max` entry of a policy.
proof fn lemma_apply_emit_task_max(st: UnitState, p: PolicyView)
    ensures
        apply_props(st, emit_task_max(p)) == match p.task_max {
            Some(v) => apply_prop(st, PropertyView::TasksMax(v)),
            None => st,
        },
{
    match p.task_max {
        Some(v) => {
            lemma_apply_props_singleton(st, PropertyView::TasksMax(v));
        },
        None => {},
    }
}
/// Law: one atomic application of a policy's translated property list
/// overwrites exactly the fields the policy carries and leaves every other
/// property of the unit, its slice placement included, at its current value.
#[verifier::rlimit(100)]
pub proof fn lemma_apply_is_override(p: PolicyView, st: UnitState)
    ensures
        apply_props(st, spec_properties(p)) == override_with(p, st),
{
    let e1 = emit_cpu_weight(p);
    let e2 = emit_allowed_cpus(p);
    let e3 = emit_memory_min(p);
    let e4 = emit_memory_low(p);
    let e5 = emit_memory_high(p);
    let e6 = emit_memory_max(p);
    let e7 = emit_memory_swap_max(p);
    let e8 = emit_memory_zswap_max(p);
    let e9 = emit_io_weight(p);
    let e10d = emit_io_device_weight(p);
    let e10 = emit_io_max(p);
    let a = emit_cpu_group(p);
    let b = emit_memory_group(p);
    let c = emit_io_group(p);
    lemma_apply_props_append(st, a + b + c, emit_task_max(p));
    lemma_apply_props_append(st, a + b, c);
    lemma_apply_props_append(st, a, b);
    lemma_apply_props_append(st, e1, e2);
    let st_a = apply_props(st, a);
    lemma_apply_props_append(st_a, e3, e4);
    lemma_apply_props_append(st_a, e3 + e4, e5);
    lemma_apply_props_append(st_a, e3 + e4 + e5, e6);
    lemma_apply_props_append(st_a, e3 + e4 + e5 + e6, e7);
    lemma_apply_props_append(st_a, e3 + e4 + e5 + e6 + e7, e8);
    let st_ab = apply_props(st_a, b);
    lemma_apply_props_append(st_ab, e9, e10d);
    lemma_apply_props_append(st_ab, e9 + e10d, e10);
    lemma_apply_emit_cpu_weight(st, p);
    let st1 = apply_props(st, e1);
    lemma_apply_emit_allowed_cpus(st1, p);
    let st2 = apply_props(st1, e2);
    lemma_apply_emit_memory_min(st2, p);
    let st3 = apply_props(st2, e3);
    lemma_apply_emit_memory_low(st3, p);
    let st4 = apply_props(st3, e4);
    lemma_apply_emit_memory_high(st4, p);
    let st5 = apply_props(st4, e5);
    lemma_apply_emit_memory_max(st5, p);
    let st6 = apply_props(st5, e6);
    lemma_apply_emit_memory_swap_max(st6, p);
    let st7 = apply_props(st6, e7);
    lemma_apply_emit_memory_zswap_max(st7, p);
    let st8 = apply_props(st7, e8);
    lemma_apply_emit_io_weight(st8, p);
    let st9 = apply_props(st8, e9);
    lemma_apply_emit_io_device_weight(st9, p);
    let st10 = apply_props(st9, e10d);
    lemma_apply_emit_io_max(st10, p);
    let st11 = apply_props(st10, e10);
    lemma_apply_emit_task_max(st11, p);
}

/// Law: applying the same policy to the same unit twice in a row leaves the
/// unit exactly as after the first application, so a query returns the same
/// answer after either.
pub proof fn lemma_apply_idempotent(p: PolicyView, st: UnitState)
    ensures
        apply_props(apply_props(st, spec_properties(p)), spec_properties(p)) == apply_props(
            st,
            spec_properties(p),
        ),
{
    lemma_apply_is_override(p, st);
    lemma_apply_is_override(p, apply_props(st, spec_properties(p)));
}

/// Build the one atomic call that applies a policy to a unit or slice:
/// validation happens locally first, the whole translated list travels in a
/// single call, and nothing is sent for a policy the init system would
/// reject.
pub fn apply(target: &str, policy: &Policy, runtime: bool) -> (r: Result<
    PropertyCall,
    PolicyError,
>)
    ensures
        match r {
            Ok(call) => valid_policy(policy@) && call.target@ == target@ && call.runtime == runtime
                && views_of(call.properties@) == spec_properties(policy@),
            Err(e) => spec_policy_error(policy@) == Some(e),
        },
{
    let properties = to_properties(policy)?;
    Ok(PropertyCall { target: String::from_str(target), runtime, properties })
}

/// Law: a policy that sets only `memory_max` translates to a property list
/// with exactly one entry, and applying that list changes nothing on the
/// unit but `memory_max`.
pub proof fn lemma_memory_max_only(p: PolicyView, st: UnitState, v: u64)
    requires
        p.memory_max == Some(v),
        p.cpu_weight is None,
        p.allowed_cpus is None,
        p.memory_min is None,
        p.memory_low is None,
        p.memory_high is None,
        p.memory_swap_max is None,
        p.memory_zswap_max is None,
        p.io_weight is None,
        p.io_device_weight is None,
        p.io_max is None,
        p.task_max is None,
    ensures
        spec_properties(p) =~= seq![PropertyView::MemoryMax(v)],
        apply_props(st, spec_properties(p)) == (UnitState { memory_max: Some(v), ..st }),
{
    assert(spec_properties(p) =~= seq![PropertyView::MemoryMax(v)]);
    lemma_apply_is_override(p, st);
}

/// The policy a query can legibly read off a unit's state: per field the
/// value in effect, absent where nothing is set or where the value lies
/// outside what the policy record can hold.
pub open spec fn policy_in_effect(st: UnitState) -> PolicyView {
    PolicyView {
        name: Seq::empty(),
        cpu_weight: match st.cpu_weight {
            Some(w) => if 1 <= w <= 10000 {
                Some(w as u16)
            } else {
                None
            },
            None => None,
        },
        allowed_cpus: st.allowed_cpus,
        memory_min: st.memory_min,
        memory_low: st.memory_low,
        memory_high: st.memory_high,
        memory_max: st.memory_max,
        memory_swap_max: st.memory_swap_max,
        memory_zswap_max: st.memory_zswap_max,
        io_weight: match st.io_weight {
            Some(w) => if 1 <= w <= 10000 {
                Some(w)
            } else {
                None
            },
            None => None,
        },
        io_device_weight: match st.io_device_weight {
            Some(dw) => if 1 <= dw.1 <= 10000 {
                Some(dw)
            } else {
                None
            },
            None => None,
        },
        io_max: st.io_max,
        task_max: match st.task_max {
            Some(v) => if v == 0 {
                None
            } else {
                Some(v)
            },
            None => None,
        },
    }
}

/// Law: after one atomic application of a valid policy, a query reads back
/// exactly the fields the policy carried, and the fields it omitted still
/// read as they did before.
pub proof fn lemma_apply_then_query(p: PolicyView, st: UnitState)
    requires
        valid_policy(p),
    ensures
        ({
            let q = policy_in_effect(apply_props(st, spec_properties(p)));
            let before = policy_in_effect(st);
            &&& q.cpu_weight == if p.cpu_weight is Some {
                p.cpu_weight
            } else {
                before.cpu_weight
            }
            &&& q.allowed_cpus == if p.allowed_cpus is Some {
                p.allowed_cpus
            } else {
                before.allowed_cpus
            }
            &&& q.memory_min == if p.memory_min is Some {
                p.memory_min
            } else {
                before.memory_min
            }
            &&& q.memory_low == if p.memory_low is Some {
                p.memory_low
            } else {
                before.memory_low
            }
            &&& q.memory_high == if p.memory_high is Some {
                p.memory_high
            } else {
                before.memory_high
            }
            &&& q.memory_max == if p.memory_max is Some {
                p.memory_max
            } else {
                before.memory_max
            }
            &&& q.memory_swap_max == if p.memory_swap_max is Some {
                p.memory_swap_max
            } else {
                before.memory_swap_max
            }
            &&& q.memory_zswap_max == if p.memory_zswap_max is Some {
                p.memory_zswap_max
            } else {
                before.memory_zswap_max
            }
            &&& q.io_weight == if p.io_weight is Some {
                p.io_weight
            } else {
                before.io_weight
            }
            &&& q.io_device_weight == if p.io_device_weight is Some {
                p.io_device_weight
            } else {
                before.io_device_weight
            }
            &&& q.io_max == if p.io_max is Some {
                p.io_max
            } else {
                before.io_max
            }
            &&& q.task_max == if p.task_max is Some {
                p.task_max
            } else {
                before.task_max
            }
        }),
{
    lemma_apply_is_override(p, st);
}

} // verus!
