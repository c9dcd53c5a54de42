//! Policy translator: the bidirectional mapping between the abstract
//! [`Policy`] record and the wire property list of the init system's IPC
//! interface.
//!
//! [`to_properties`] emits one entry per present optional field, under the
//! exact property names of the target interface, in a stable field order.
//! [`get_policy`] reconstructs a best-effort policy from properties read
//! back; reading is lossy in one direction: the label travels outside the
//! property list, and a value the init system has normalized out of its
//! accepted band is reported as absent rather than invented.

use vstd::prelude::*;
use crate::error::PolicyError;
use crate::policy::{Policy, PolicyView, spec_policy_error, valid_policy, WEIGHT_MIN, WEIGHT_MAX};

verus! {

/// One wire property: a typed value under a fixed property name of the
/// `Unit`/`Slice` interface. `Slice` is the re-parenting property of a unit;
/// the translator never emits it, the registry's plans do.
#[derive(Clone, Debug, PartialEq, Eq)]
pub enum Property {
    /// `CPUWeight`
    CpuWeight(u64),
    /// `AllowedCPUs`
    AllowedCpus(Vec<u64>),
    /// `MemoryMin`
    MemoryMin(u64),
    /// `MemoryLow`
    MemoryLow(u64),
    /// `MemoryHigh`
    MemoryHigh(u64),
    /// `MemoryMax`
    MemoryMax(u64),
    /// `MemorySwapMax`
    MemorySwapMax(u64),
    /// `MemoryZSwapMax`
    MemoryZswapMax(u64),
    /// `IOWeight`
    IoWeight(u64),
    /// `IODeviceWeight`: device identifier and weight.
    IoDeviceWeight(String, u64),
    /// `IOReadBandwidthMax`
    IoMax(u64),
    /// `TasksMax`
    TasksMax(u64),
    /// `Slice`: the slice a unit is placed under.
    Slice(String),
}

/// Mathematical image of a [`Property`].
pub enum PropertyView {
    CpuWeight(u64),
    AllowedCpus(Seq<u64>),
    MemoryMin(u64),
    MemoryLow(u64),
    MemoryHigh(u64),
    MemoryMax(u64),
    MemorySwapMax(u64),
    MemoryZswapMax(u64),
    IoWeight(u64),
    IoDeviceWeight(Seq<char>, u64),
    IoMax(u64),
    TasksMax(u64),
    Slice(Seq<char>),
}

impl View for Property {
    type V = PropertyView;

    open spec fn view(&self) -> PropertyView {
        match self {
            Property::CpuWeight(w) => PropertyView::CpuWeight(*w),
            Property::AllowedCpus(v) => PropertyView::AllowedCpus(v@),
            Property::MemoryMin(v) => PropertyView::MemoryMin(*v),
            Property::MemoryLow(v) => PropertyView::MemoryLow(*v),
            Property::MemoryHigh(v) => PropertyView::MemoryHigh(*v),
            Property::MemoryMax(v) => PropertyView::MemoryMax(*v),
            Property::MemorySwapMax(v) => PropertyView::MemorySwapMax(*v),
            Property::MemoryZswapMax(v) => PropertyView::MemoryZswapMax(*v),
            Property::IoWeight(w) => PropertyView::IoWeight(*w),
            Property::IoDeviceWeight(d, w) => PropertyView::IoDeviceWeight(d@, *w),
            Property::IoMax(v) => PropertyView::IoMax(*v),
            Property::TasksMax(v) => PropertyView::TasksMax(*v),
            Property::Slice(s) => PropertyView::Slice(s@),
        }
    }
}

/// The wire name of a property.
pub open spec fn spec_wire_name(p: PropertyView) -> Seq<char> {
    match p {
        PropertyView::CpuWeight(_) => "CPUWeight"@,
        PropertyView::AllowedCpus(_) => "AllowedCPUs"@,
        PropertyView::MemoryMin(_) => "MemoryMin"@,
        PropertyView::MemoryLow(_) => "MemoryLow"@,
        PropertyView::MemoryHigh(_) => "MemoryHigh"@,
        PropertyView::MemoryMax(_) => "MemoryMax"@,
        PropertyView::MemorySwapMax(_) => "MemorySwapMax"@,
        PropertyView::MemoryZswapMax(_) => "MemoryZSwapMax"@,
        PropertyView::IoWeight(_) => "IOWeight"@,
        PropertyView::IoDeviceWeight(_, _) => "IODeviceWeight"@,
        PropertyView::IoMax(_) => "IOReadBandwidthMax"@,
        PropertyView::TasksMax(_) => "TasksMax"@,
        PropertyView::Slice(_) => "Slice"@,
    }
}

impl Property {
    /// The name under which this property travels on the bus.
    pub fn wire_name(&self) -> (r: &'static str)
        ensures
            r@ == spec_wire_name(self@),
    {
        match self {
            Property::CpuWeight(_) => "CPUWeight",
            Property::AllowedCpus(_) => "AllowedCPUs",
            Property::MemoryMin(_) => "MemoryMin",
            Property::MemoryLow(_) => "MemoryLow",
            Property::MemoryHigh(_) => "MemoryHigh",
            Property::MemoryMax(_) => "MemoryMax",
            Property::MemorySwapMax(_) => "MemorySwapMax",
            Property::MemoryZswapMax(_) => "MemoryZSwapMax",
            Property::IoWeight(_) => "IOWeight",
            Property::IoDeviceWeight(_, _) => "IODeviceWeight",
            Property::IoMax(_) => "IOReadBandwidthMax",
            Property::TasksMax(_) => "TasksMax",
            Property::Slice(_) => "Slice",
        }
    }
}

/// The `CPUWeight` entry of a policy's translation, if any.
pub open spec fn emit_cpu_weight(p: PolicyView) -> Seq<PropertyView> {
    match p.cpu_weight {
        Some(w) => seq![PropertyView::CpuWeight(w as u64)],
        None => Seq::empty(),
    }
}

/// The `AllowedCPUs` entry of a policy's translation, if any.
pub open spec fn emit_allowed_cpus(p: PolicyView) -> Seq<PropertyView> {
    match p.allowed_cpus {
        Some(v) => seq![PropertyView::AllowedCpus(v)],
        None => Seq::empty(),
    }
}

/// The `MemoryMin` entry of a policy's translation, if any.
pub open spec fn emit_memory_min(p: PolicyView) -> Seq<PropertyView> {
    match p.memory_min {
        Some(v) => seq![PropertyView::MemoryMin(v)],
        None => Seq::empty(),
    }
}

/// The `MemoryLow` entry of a policy's translation, if any.
pub open spec fn emit_memory_low(p: PolicyView) -> Seq<PropertyView> {
    match p.memory_low {
        Some(v) => seq![PropertyView::MemoryLow(v)],
        None => Seq::empty(),
    }
}

/// The `MemoryHigh` entry of a policy's translation, if any.
pub open spec fn emit_memory_high(p: PolicyView) -> Seq<PropertyView> {
    match p.memory_high {
        Some(v) => seq![PropertyView::MemoryHigh(v)],
        None => Seq::empty(),
    }
}

/// The `MemoryMax` entry of a policy's translation, if any.
pub open spec fn emit_memory_max(p: PolicyView) -> Seq<PropertyView> {
    match p.memory_max {
        Some(v) => seq![PropertyView::MemoryMax(v)],
        None => Seq::empty(),
    }
}

/// The `MemorySwapMax` entry of a policy's translation, if any.
pub open spec fn emit_memory_swap_max(p: PolicyView) -> Seq<PropertyView> {
    match p.memory_swap_max {
        Some(v) => seq![PropertyView::MemorySwapMax(v)],
        None => Seq::empty(),
    }
}

/// The `MemoryZSwapMax` entry of a policy's translation, if any.
pub open spec fn emit_memory_zswap_max(p: PolicyView) -> Seq<PropertyView> {
    match p.memory_zswap_max {
        Some(v) => seq![PropertyView::MemoryZswapMax(v)],
        None => Seq::empty(),
    }
}

/// The `IOWeight` entry of a policy's translation, if any.
pub open spec fn emit_io_weight(p: PolicyView) -> Seq<PropertyView> {
    match p.io_weight {
        Some(w) => seq![PropertyView::IoWeight(w)],
        None => Seq::empty(),
    }
}

/// The `IODeviceWeight` entry of a policy's translation, if any.
pub open spec fn emit_io_device_weight(p: PolicyView) -> Seq<PropertyView> {
    match p.io_device_weight {
        Some(dw) => seq![PropertyView::IoDeviceWeight(dw.0, dw.1)],
        None => Seq::empty(),
    }
}

/// The `IOReadBandwidthMax` entry of a policy's translation, if any.
pub open spec fn emit_io_max(p: PolicyView) -> Seq<PropertyView> {
    match p.io_max {
        Some(v) => seq![PropertyView::IoMax(v)],
        None => Seq::empty(),
    }
}

/// The `TasksMax` entry of a policy's translation, if any.
pub open spec fn emit_task_max(p: PolicyView) -> Seq<PropertyView> {
    match p.task_max {
        Some(v) => seq![PropertyView::TasksMax(v)],
        None => Seq::empty(),
    }
}

/// The translated property list of a policy: one entry per present optional
/// field, in declaration order of the fields.
pub open spec fn spec_properties(p: PolicyView) -> Seq<PropertyView> {
    emit_cpu_group(p) + emit_memory_group(p) + emit_io_group(p) + emit_task_max(p)
}

/// The views of a property list.
pub open spec fn views_of(props: Seq<Property>) -> Seq<PropertyView> {
    props.map_values(|p: Property| p@)
}

/// Translate a policy into its wire property list, validating locally first:
/// exactly the present optional fields are emitted, absent fields are
/// omitted rather than sent as zero or a sentinel, and a policy the init
/// system would reject never reaches the bus.
/// The CPU entries of a policy's translation.
pub open spec fn emit_cpu_group(p: PolicyView) -> Seq<PropertyView> {
    emit_cpu_weight(p) + emit_allowed_cpus(p)
}

/// The memory entries of a policy's translation.
pub open spec fn emit_memory_group(p: PolicyView) -> Seq<PropertyView> {
    emit_memory_min(p) + emit_memory_low(p) + emit_memory_high(p) + emit_memory_max(p)
        + emit_memory_swap_max(p) + emit_memory_zswap_max(p)
}

/// The IO entries of a policy's translation.
pub open spec fn emit_io_group(p: PolicyView) -> Seq<PropertyView> {
    emit_io_weight(p) + emit_io_device_weight(p) + emit_io_max(p)
}

/// Appending one property appends its view.
proof fn lemma_views_push(v: Seq<Property>, x: Property)
    ensures
        views_of(v.push(x)) == views_of(v) + seq![x@],
{
    assert(views_of(v.push(x)) =~= views_of(v) + seq![x@]);
}

/// Push one wire property, tracking the view list.
fn push_prop(props: &mut Vec<Property>, p: Property)
    ensures
        views_of(final(props)@) == views_of(old(props)@) + seq![p@],
{
    let ghost oldp = props@;
    let ghost gx = p;
    props.push(p);
    proof {
        lemma_views_push(oldp, gx);
    }
}

/// Emit the CPU entries of a policy.
fn emit_cpu_props(policy: &Policy, props: &mut Vec<Property>)
    ensures
        views_of(final(props)@) == views_of(old(props)@) + emit_cpu_group(policy@),
{
    let ghost gs = views_of(props@);
    if let Some(w) = policy.cpu_weight {
        push_prop(props, Property::CpuWeight(w as u64));
    }
    proof {
        assert(gs + Seq::<PropertyView>::empty() =~= gs);
        assert(views_of(props@) == gs + emit_cpu_weight(policy@));
    }
    if let Some(v) = &policy.allowed_cpus {
        push_prop(props, Property::AllowedCpus(clone_u64_vec(v)));
    }
    proof {
        let s1 = gs + emit_cpu_weight(policy@);
        assert(s1 + Seq::<PropertyView>::empty() =~= s1);
        assert(views_of(props@) == s1 + emit_allowed_cpus(policy@));
        assert(gs + emit_cpu_group(policy@) == s1 + emit_allowed_cpus(policy@)) by {
            assert(gs + (emit_cpu_weight(policy@) + emit_allowed_cpus(policy@)) =~= (gs
                + emit_cpu_weight(policy@)) + emit_allowed_cpus(policy@));
        }
    }
}

/// Emit the memory protection entries of a policy.
fn emit_memory_floor_props(policy: &Policy, props: &mut Vec<Property>)
    ensures
        views_of(final(props)@) == views_of(old(props)@) + emit_memory_min(policy@)
            + emit_memory_low(policy@),
{
    let ghost gs = views_of(props@);
    if let Some(v) = policy.memory_min {
        push_prop(props, Property::MemoryMin(v));
    }
    proof {
        assert(gs + Seq::<PropertyView>::empty() =~= gs);
        assert(views_of(props@) == gs + emit_memory_min(policy@));
    }
    if let Some(v) = policy.memory_low {
        push_prop(props, Property::MemoryLow(v));
    }
    proof {
        let s1 = gs + emit_memory_min(policy@);
        assert(s1 + Seq::<PropertyView>::empty() =~= s1);
        assert(views_of(props@) == s1 + emit_memory_low(policy@));
    }
}

/// Emit the memory ceiling entries of a policy.
fn emit_memory_limit_props(policy: &Policy, props: &mut Vec<Property>)
    ensures
        views_of(final(props)@) == views_of(old(props)@) + emit_memory_high(policy@)
            + emit_memory_max(policy@) + emit_memory_swap_max(policy@) + emit_memory_zswap_max(
            policy@,
        ),
{
    let ghost gs = views_of(props@);
    if let Some(v) = policy.memory_high {
        push_prop(props, Property::MemoryHigh(v));
    }
    proof {
        assert(gs + Seq::<PropertyView>::empty() =~= gs);
        assert(views_of(props@) == gs + emit_memory_high(policy@));
    }
    if let Some(v) = policy.memory_max {
        push_prop(props, Property::MemoryMax(v));
    }
    let ghost s2 = gs + emit_memory_high(policy@) + emit_memory_max(policy@);
    proof {
        let s1 = gs + emit_memory_high(policy@);
        assert(s1 + Seq::<PropertyView>::empty() =~= s1);
        assert(views_of(props@) == s2);
    }
    if let Some(v) = policy.memory_swap_max {
        push_prop(props, Property::MemorySwapMax(v));
    }
    let ghost s3 = s2 + emit_memory_swap_max(policy@);
    proof {
        assert(s2 + Seq::<PropertyView>::empty() =~= s2);
        assert(views_of(props@) == s3);
    }
    if let Some(v) = policy.memory_zswap_max {
        push_prop(props, Property::MemoryZswapMax(v));
    }
    proof {
        assert(s3 + Seq::<PropertyView>::empty() =~= s3);
        assert(views_of(props@) == s3 + emit_memory_zswap_max(policy@));
    }
}

/// Emit the memory entries of a policy.
fn emit_memory_props(policy: &Policy, props: &mut Vec<Property>)
    ensures
        views_of(final(props)@) == views_of(old(props)@) + emit_memory_group(policy@),
{
    let ghost gs = views_of(props@);
    emit_memory_floor_props(policy, props);
    emit_memory_limit_props(policy, props);
    proof {
        assert(gs + emit_memory_group(policy@) =~= gs + emit_memory_min(policy@)
            + emit_memory_low(policy@) + emit_memory_high(policy@) + emit_memory_max(policy@)
            + emit_memory_swap_max(policy@) + emit_memory_zswap_max(policy@));
    }
}

/// Emit the IO entries of a policy.
fn emit_io_props(policy: &Policy, props: &mut Vec<Property>)
    ensures
        views_of(final(props)@) == views_of(old(props)@) + emit_io_group(policy@),
{
    let ghost gs = views_of(props@);
    if let Some(w) = policy.io_weight {
        push_prop(props, Property::IoWeight(w));
    }
    proof {
        assert(gs + Seq::<PropertyView>::empty() =~= gs);
        assert(views_of(props@) == gs + emit_io_weight(policy@));
    }
    if let Some((d, w)) = &policy.io_device_weight {
        push_prop(props, Property::IoDeviceWeight(d.clone(), *w));
    }
    let ghost s2 = gs + emit_io_weight(policy@) + emit_io_device_weight(policy@);
    proof {
        let s1 = gs + emit_io_weight(policy@);
        assert(s1 + Seq::<PropertyView>::empty() =~= s1);
        assert(views_of(props@) == s2);
    }
    if let Some(v) = policy.io_max {
        push_prop(props, Property::IoMax(v));
    }
    let ghost s3 = s2 + emit_io_max(policy@);
    proof {
        assert(s2 + Seq::<PropertyView>::empty() =~= s2);
        assert(views_of(props@) == s3);
        assert(gs + emit_io_group(policy@) == s3) by {
            assert(gs + (emit_io_weight(policy@) + emit_io_device_weight(policy@)
                + emit_io_max(policy@)) =~= s3);
        }
    }
}

/// Translate a policy into its wire property list, validating locally first:
/// exactly the present optional fields are emitted, absent fields are
/// omitted rather than sent as zero or a sentinel, and a policy the init
/// system would reject never reaches the bus.
pub fn to_properties(policy: &Policy) -> (r: Result<Vec<Property>, PolicyError>)
    ensures
        match r {
            Ok(props) => valid_policy(policy@) && views_of(props@) == spec_properties(policy@),
            Err(e) => spec_policy_error(policy@) == Some(e),
        },
{
    policy.validate()?;
    let mut props: Vec<Property> = Vec::new();
    proof {
        assert(views_of(props@) =~= Seq::<PropertyView>::empty());
    }
    emit_cpu_props(policy, &mut props);
    emit_memory_props(policy, &mut props);
    emit_io_props(policy, &mut props);
    if let Some(v) = policy.task_max {
        push_prop(&mut props, Property::TasksMax(v));
    }
    proof {
        let e = Seq::<PropertyView>::empty();
        let a = emit_cpu_group(policy@);
        let b = emit_memory_group(policy@);
        let c = emit_io_group(policy@);
        let t = emit_task_max(policy@);
        assert(e + a =~= a);
        assert(a + b + c + Seq::<PropertyView>::empty() =~= a + b + c);
        assert(views_of(props@) == a + b + c + t);
    }
    Ok(props)
}

/// The value the last entry for one property leaves in effect, reading each
/// entry through `read`: `None` from `read` means "not this property", and
/// `Some(x)` means "this property, legible as `x`". Later entries win, as
/// property-level writes do on the bus.
pub open spec fn scan_field<V>(
    props: Seq<PropertyView>,
    read: spec_fn(PropertyView) -> Option<Option<V>>,
) -> Option<Option<V>>
    decreases props.len(),
{
    if props.len() == 0 {
        None
    } else {
        match read(props.last()) {
            Some(x) => Some(x),
            None => scan_field(props.drop_last(), read),
        }
    }
}

/// Scanning a concatenation: the right part wins when it holds a matching
/// entry, else the left part decides.
pub broadcast proof fn lemma_scan_field_append<V>(
    s1: Seq<PropertyView>,
    s2: Seq<PropertyView>,
    read: spec_fn(PropertyView) -> Option<Option<V>>,
)
    ensures
        #[trigger] scan_field(s1 + s2, read) == match scan_field(s2, read) {
            Some(x) => Some(x),
            None => scan_field(s1, read),
        },
    decreases s2.len(),
{
    if s2.len() == 0 {
        assert(s1 + s2 =~= s1);
    } else {
        assert((s1 + s2).drop_last() =~= s1 + s2.drop_last());
        assert((s1 + s2).last() == s2.last());
        lemma_scan_field_append(s1, s2.drop_last(), read);
    }
}

/// The value the last matching entry leaves legible, or absent when no
/// entry matches.
pub open spec fn last_field<V>(
    props: Seq<PropertyView>,
    read: spec_fn(PropertyView) -> Option<Option<V>>,
) -> Option<V> {
    match scan_field(props, read) {
        Some(x) => x,
        None => None,
    }
}

/// Read a `CPUWeight` entry; a value the policy record could not hold is
/// reported as absent rather than invented.
pub open spec fn read_cpu_weight(pv: PropertyView) -> Option<Option<u16>> {
    match pv {
        PropertyView::CpuWeight(w) => if WEIGHT_MIN <= w <= WEIGHT_MAX {
            Some(Some(w as u16))
        } else {
            Some(None)
        },
        _ => None,
    }
}

/// Read an `AllowedCPUs` entry.
pub open spec fn read_allowed_cpus(pv: PropertyView) -> Option<Option<Seq<u64>>> {
    match pv {
        PropertyView::AllowedCpus(v) => Some(Some(v)),
        _ => None,
    }
}

/// Read a `MemoryMin` entry.
pub open spec fn read_memory_min(pv: PropertyView) -> Option<Option<u64>> {
    match pv {
        PropertyView::MemoryMin(v) => Some(Some(v)),
        _ => None,
    }
}

/// Read a `MemoryLow` entry.
pub open spec fn read_memory_low(pv: PropertyView) -> Option<Option<u64>> {
    match pv {
        PropertyView::MemoryLow(v) => Some(Some(v)),
        _ => None,
    }
}

/// Read a `MemoryHigh` entry.
pub open spec fn read_memory_high(pv: PropertyView) -> Option<Option<u64>> {
    match pv {
        PropertyView::MemoryHigh(v) => Some(Some(v)),
        _ => None,
    }
}

/// Read a `MemoryMax` entry.
pub open spec fn read_memory_max(pv: PropertyView) -> Option<Option<u64>> {
    match pv {
        PropertyView::MemoryMax(v) => Some(Some(v)),
        _ => None,
    }
}

/// Read a `MemorySwapMax` entry.
pub open spec fn read_memory_swap_max(pv: PropertyView) -> Option<Option<u64>> {
    match pv {
        PropertyView::MemorySwapMax(v) => Some(Some(v)),
        _ => None,
    }
}

/// Read a `MemoryZSwapMax` entry.
pub open spec fn read_memory_zswap_max(pv: PropertyView) -> Option<Option<u64>> {
    match pv {
        PropertyView::MemoryZswapMax(v) => Some(Some(v)),
        _ => None,
    }
}

/// Read an `IOWeight` entry; out-of-band values are absent.
pub open spec fn read_io_weight(pv: PropertyView) -> Option<Option<u64>> {
    match pv {
        PropertyView::IoWeight(w) => if WEIGHT_MIN <= w <= WEIGHT_MAX {
            Some(Some(w))
        } else {
            Some(None)
        },
        _ => None,
    }
}

/// Read an `IODeviceWeight` entry; out-of-band weights are absent.
pub open spec fn read_io_device_weight(pv: PropertyView) -> Option<Option<(Seq<char>, u64)>> {
    match pv {
        PropertyView::IoDeviceWeight(d, w) => if WEIGHT_MIN <= w <= WEIGHT_MAX {
            Some(Some((d, w)))
        } else {
            Some(None)
        },
        _ => None,
    }
}

/// Read an `IOReadBandwidthMax` entry.
pub open spec fn read_io_max(pv: PropertyView) -> Option<Option<u64>> {
    match pv {
        PropertyView::IoMax(v) => Some(Some(v)),
        _ => None,
    }
}

/// Read a `TasksMax` entry; zero is the protocol's "none" and stays absent.
pub open spec fn read_task_max(pv: PropertyView) -> Option<Option<u64>> {
    match pv {
        PropertyView::TasksMax(v) => if v == 0 {
            Some(None)
        } else {
            Some(Some(v))
        },
        _ => None,
    }
}

/// The policy legible from a property list: per field, the last entry wins.
/// The label does not travel in the property list, so it comes back empty;
/// this is the direction of the translation that is lossy.
pub open spec fn spec_policy_of(props: Seq<PropertyView>) -> PolicyView {
    PolicyView {
        name: Seq::empty(),
        cpu_weight: last_field(props, |pv: PropertyView| read_cpu_weight(pv)),
        allowed_cpus: last_field(props, |pv: PropertyView| read_allowed_cpus(pv)),
        memory_min: last_field(props, |pv: PropertyView| read_memory_min(pv)),
        memory_low: last_field(props, |pv: PropertyView| read_memory_low(pv)),
        memory_high: last_field(props, |pv: PropertyView| read_memory_high(pv)),
        memory_max: last_field(props, |pv: PropertyView| read_memory_max(pv)),
        memory_swap_max: last_field(props, |pv: PropertyView| read_memory_swap_max(pv)),
        memory_zswap_max: last_field(props, |pv: PropertyView| read_memory_zswap_max(pv)),
        io_weight: last_field(props, |pv: PropertyView| read_io_weight(pv)),
        io_device_weight: last_field(props, |pv: PropertyView| read_io_device_weight(pv)),
        io_max: last_field(props, |pv: PropertyView| read_io_max(pv)),
        task_max: last_field(props, |pv: PropertyView| read_task_max(pv)),
    }
}

/// Reconstruct a best-effort policy from properties read back from a unit:
/// for each policy field the last matching entry is in effect; entries the
/// policy record cannot hold (an out-of-band weight, a zero task limit, a
/// `Slice` placement) are left absent, and the label comes back empty.
pub fn get_policy(props: &Vec<Property>) -> (r: Policy)
    ensures
        r@ == spec_policy_of(views_of(props@)),
{
    let ghost vs = views_of(props@);
    let mut r = Policy::empty(String::new());
    let mut i: usize = 0;
    proof {
        assert(vs.take(0) =~= Seq::<PropertyView>::empty());
    }
    while i < props.len()
        invariant
            i <= props.len(),
            vs == views_of(props@),
            vs.len() == props@.len(),
            r@.name == Seq::<char>::empty(),
            r@.cpu_weight == last_field(vs.take(i as int), |pv: PropertyView| read_cpu_weight(pv)),
            r@.allowed_cpus == last_field(
                vs.take(i as int),
                |pv: PropertyView| read_allowed_cpus(pv),
            ),
            r@.memory_min == last_field(vs.take(i as int), |pv: PropertyView| read_memory_min(pv)),
            r@.memory_low == last_field(vs.take(i as int), |pv: PropertyView| read_memory_low(pv)),
            r@.memory_high == last_field(
                vs.take(i as int),
                |pv: PropertyView| read_memory_high(pv),
            ),
            r@.memory_max == last_field(vs.take(i as int), |pv: PropertyView| read_memory_max(pv)),
            r@.memory_swap_max == last_field(
                vs.take(i as int),
                |pv: PropertyView| read_memory_swap_max(pv),
            ),
            r@.memory_zswap_max == last_field(
                vs.take(i as int),
                |pv: PropertyView| read_memory_zswap_max(pv),
            ),
            r@.io_weight == last_field(vs.take(i as int), |pv: PropertyView| read_io_weight(pv)),
            r@.io_device_weight == last_field(
                vs.take(i as int),
                |pv: PropertyView| read_io_device_weight(pv),
            ),
            r@.io_max == last_field(vs.take(i as int), |pv: PropertyView| read_io_max(pv)),
            r@.task_max == last_field(vs.take(i as int), |pv: PropertyView| read_task_max(pv)),
        decreases props.len() - i,
    {
        proof {
            assert(vs.take(i as int + 1).drop_last() =~= vs.take(i as int));
            assert(vs.take(i as int + 1).last() == props@[i as int]@);
        }
        let p = &props[i];
        match p {
            Property::CpuWeight(w) => {
                if 1 <= *w && *w <= 10000 {
                    r.cpu_weight = Some(*w as u16);
                } else {
                    r.cpu_weight = None;
                }
            },
            Property::AllowedCpus(v) => {
                r.allowed_cpus = Some(clone_u64_vec(v));
            },
            Property::MemoryMin(v) => {
                r.memory_min = Some(*v);
            },
            Property::MemoryLow(v) => {
                r.memory_low = Some(*v);
            },
            Property::MemoryHigh(v) => {
                r.memory_high = Some(*v);
            },
            Property::MemoryMax(v) => {
                r.memory_max = Some(*v);
            },
            Property::MemorySwapMax(v) => {
                r.memory_swap_max = Some(*v);
            },
            Property::MemoryZswapMax(v) => {
                r.memory_zswap_max = Some(*v);
            },
            Property::IoWeight(w) => {
                if 1 <= *w && *w <= 10000 {
                    r.io_weight = Some(*w);
                } else {
                    r.io_weight = None;
                }
            },
            Property::IoDeviceWeight(d, w) => {
                if 1 <= *w && *w <= 10000 {
                    r.io_device_weight = Some((d.clone(), *w));
                } else {
                    r.io_device_weight = None;
                }
            },
            Property::IoMax(v) => {
                r.io_max = Some(*v);
            },
            Property::TasksMax(v) => {
                if *v == 0 {
                    r.task_max = None;
                } else {
                    r.task_max = Some(*v);
                }
            },
            Property::Slice(_) => {},
        }
        i += 1;
    }
    proof {
        assert(vs.take(props@.len() as int) =~= vs);
    }
    r
}

/// A copy of a vector of CPU indices.
fn clone_u64_vec(v: &Vec<u64>) -> (r: Vec<u64>)
    ensures
        r@ == v@,
{
    let mut r: Vec<u64> = Vec::new();
    let mut i: usize = 0;
    while i < v.len()
        invariant
            i <= v.len(),
            r@ == v@.take(i as int),
        decreases v.len() - i,
    {
        r.push(v[i]);
        proof {
            assert(r@ =~= v@.take(i as int + 1));
        }
        i += 1;
    }
    proof {
        assert(v@.take(v@.len() as int) =~= v@);
    }
    r
}

/// Scanning a single entry reads that entry.
proof fn lemma_scan_singleton<V>(x: PropertyView, read: spec_fn(PropertyView) -> Option<Option<V>>)
    ensures
        scan_field(seq![x], read) == match read(x) {
            Some(v) => Some(v),
            None => None,
        },
{
    assert(seq![x].len() == 1);
    assert(seq![x].drop_last() =~= Seq::<PropertyView>::empty());
    assert(seq![x].last() == x);
    assert(scan_field(Seq::<PropertyView>::empty(), read) == None::<Option<V>>);
}
/// Scanning the `emit_cpu_weight` entry of a policy.
proof fn lemma_scan_emit_cpu_weight<V>(p: PolicyView, read: spec_fn(PropertyView) -> Option<Option<V>>)
    ensures
        scan_field(emit_cpu_weight(p), read) == match p.cpu_weight {
            Some(w) => read(PropertyView::CpuWeight(w as u64)),
            None => None,
        },
{
    match p.cpu_weight {
        Some(w) => {
            lemma_scan_singleton(PropertyView::CpuWeight(w as u64), read);
        },
        None => {},
    }
}
/// Scanning the `emit_allowed_cpus` entry of a policy.
proof fn lemma_scan_emit_allowed_cpus<V>(p: PolicyView, read: spec_fn(PropertyView) -> Option<Option<V>>)
    ensures
        scan_field(emit_allowed_cpus(p), read) == match p.allowed_cpus {
            Some(v) => read(PropertyView::AllowedCpus(v)),
            None => None,
        },
{
    match p.allowed_cpus {
        Some(v) => {
            lemma_scan_singleton(PropertyView::AllowedCpus(v), read);
        },
        None => {},
    }
}
/// Scanning the `emit_memory_min` entry of a policy.
proof fn lemma_scan_emit_memory_min<V>(p: PolicyView, read: spec_fn(PropertyView) -> Option<Option<V>>)
    ensures
        scan_field(emit_memory_min(p), read) == match p.memory_min {
            Some(v) => read(PropertyView::MemoryMin(v)),
            None => None,
        },
{
    match p.memory_min {
        Some(v) => {
            lemma_scan_singleton(PropertyView::MemoryMin(v), read);
        },
        None => {},
    }
}
/// Scanning the `emit_memory_low` entry of a policy.
proof fn lemma_scan_emit_memory_low<V>(p: PolicyView, read: spec_fn(PropertyView) -> Option<Option<V>>)
    ensures
        scan_field(emit_memory_low(p), read) == match p.memory_low {
            Some(v) => read(PropertyView::MemoryLow(v)),
            None => None,
        },
{
    match p.memory_low {
        Some(v) => {
            lemma_scan_singleton(PropertyView::MemoryLow(v), read);
        },
        None => {},
    }
}
/// Scanning the `emit_memory_high` entry of a policy.
proof fn lemma_scan_emit_memory_high<V>(p: PolicyView, read: spec_fn(PropertyView) -> Option<Option<V>>)
    ensures
        scan_field(emit_memory_high(p), read) == match p.memory_high {
            Some(v) => read(PropertyView::MemoryHigh(v)),
            None => None,
        },
{
    match p.memory_high {
        Some(v) => {
            lemma_scan_singleton(PropertyView::MemoryHigh(v), read);
        },
        None => {},
    }
}
/// Scanning the `emit_memory_max` entry of a policy.
proof fn lemma_scan_emit_memory_max<V>(p: PolicyView, read: spec_fn(PropertyView) -> Option<Option<V>>)
    ensures
        scan_field(emit_memory_max(p), read) == match p.memory_max {
            Some(v) => read(PropertyView::MemoryMax(v)),
            None => None,
        },
{
    match p.memory_max {
        Some(v) => {
            lemma_scan_singleton(PropertyView::MemoryMax(v), read);
        },
        None => {},
    }
}
/// Scanning the `emit_memory_swap_max` entry of a policy.
proof fn lemma_scan_emit_memory_swap_max<V>(p: PolicyView, read: spec_fn(PropertyView) -> Option<Option<V>>)
    ensures
        scan_field(emit_memory_swap_max(p), read) == match p.memory_swap_max {
            Some(v) => read(PropertyView::MemorySwapMax(v)),
            None => None,
        },
{
    match p.memory_swap_max {
        Some(v) => {
            lemma_scan_singleton(PropertyView::MemorySwapMax(v), read);
        },
        None => {},
    }
}
/// Scanning the `emit_memory_zswap_max` entry of a policy.
proof fn lemma_scan_emit_memory_zswap_max<V>(p: PolicyView, read: spec_fn(PropertyView) -> Option<Option<V>>)
    ensures
        scan_field(emit_memory_zswap_max(p), read) == match p.memory_zswap_max {
            Some(v) => read(PropertyView::MemoryZswapMax(v)),
            None => None,
        },
{
    match p.memory_zswap_max {
        Some(v) => {
            lemma_scan_singleton(PropertyView::MemoryZswapMax(v), read);
        },
        None => {},
    }
}
/// Scanning the `emit_io_weight` entry of a policy.
proof fn lemma_scan_emit_io_weight<V>(p: PolicyView, read: spec_fn(PropertyView) -> Option<Option<V>>)
    ensures
        scan_field(emit_io_weight(p), read) == match p.io_weight {
            Some(w) => read(PropertyView::IoWeight(w)),
            None => None,
        },
{
    match p.io_weight {
        Some(w) => {
            lemma_scan_singleton(PropertyView::IoWeight(w), read);
        },
        None => {},
    }
}
/// Scanning the `emit_io_device_weight` entry of a policy.
proof fn lemma_scan_emit_io_device_weight<V>(p: PolicyView, read: spec_fn(PropertyView) -> Option<Option<V>>)
    ensures
        scan_field(emit_io_device_weight(p), read) == match p.io_device_weight {
            Some((d, w)) => read(PropertyView::IoDeviceWeight(d, w)),
            None => None,
        },
{
    match p.io_device_weight {
        Some((d, w)) => {
            lemma_scan_singleton(PropertyView::IoDeviceWeight(d, w), read);
        },
        None => {},
    }
}
/// Scanning the `emit_io_max` entry of a policy.
proof fn lemma_scan_emit_io_max<V>(p: PolicyView, read: spec_fn(PropertyView) -> Option<Option<V>>)
    ensures
        scan_field(emit_io_max(p), read) == match p.io_max {
            Some(v) => read(PropertyView::IoMax(v)),
            None => None,
        },
{
    match p.io_max {
        Some(v) => {
            lemma_scan_singleton(PropertyView::IoMax(v), read);
        },
        None => {},
    }
}
/// Scanning the `emit_task_max` entry of a policy.
proof fn lemma_scan_emit_task_max<V>(p: PolicyView, read: spec_fn(PropertyView) -> Option<Option<V>>)
    ensures
        scan_field(emit_task_max(p), read) == match p.task_max {
            Some(v) => read(PropertyView::TasksMax(v)),
            None => None,
        },
{
    match p.task_max {
        Some(v) => {
            lemma_scan_singleton(PropertyView::TasksMax(v), read);
        },
        None => {},
    }
}
/// Scanning the whole translated list of a policy reduces to its per-field
/// entries.
proof fn lemma_scan_properties<V>(p: PolicyView, read: spec_fn(PropertyView) -> Option<Option<V>>)
    ensures
        scan_field(spec_properties(p), read) == {
            let r12 = match p.task_max {
                Some(v) => read(PropertyView::TasksMax(v)),
                None => None,
            };
            let r11 = match p.io_max {
                Some(v) => read(PropertyView::IoMax(v)),
                None => None,
            };
            let r10 = match p.io_device_weight {
                Some((d, w)) => read(PropertyView::IoDeviceWeight(d, w)),
                None => None,
            };
            let r9 = match p.io_weight {
                Some(w) => read(PropertyView::IoWeight(w)),
                None => None,
            };
            let r8 = match p.memory_zswap_max {
                Some(v) => read(PropertyView::MemoryZswapMax(v)),
                None => None,
            };
            let r7 = match p.memory_swap_max {
                Some(v) => read(PropertyView::MemorySwapMax(v)),
                None => None,
            };
            let r6 = match p.memory_max {
                Some(v) => read(PropertyView::MemoryMax(v)),
                None => None,
            };
            let r5 = match p.memory_high {
                Some(v) => read(PropertyView::MemoryHigh(v)),
                None => None,
            };
            let r4 = match p.memory_low {
                Some(v) => read(PropertyView::MemoryLow(v)),
                None => None,
            };
            let r3 = match p.memory_min {
                Some(v) => read(PropertyView::MemoryMin(v)),
                None => None,
            };
            let r2 = match p.allowed_cpus {
                Some(v) => read(PropertyView::AllowedCpus(v)),
                None => None,
            };
            let r1 = match p.cpu_weight {
                Some(w) => read(PropertyView::CpuWeight(w as u64)),
                None => None,
            };
            if r12 is Some {
                r12
            } else if r11 is Some {
                r11
            } else if r10 is Some {
                r10
            } else if r9 is Some {
                r9
            } else if r8 is Some {
                r8
            } else if r7 is Some {
                r7
            } else if r6 is Some {
                r6
            } else if r5 is Some {
                r5
            } else if r4 is Some {
                r4
            } else if r3 is Some {
                r3
            } else if r2 is Some {
                r2
            } else {
                r1
            }
        },
{
    let e1 = emit_cpu_weight(p);
    let e2 = emit_allowed_cpus(p);
    let e3 = emit_memory_min(p);
    let e4 = emit_memory_low(p);
    let e5 = emit_memory_high(p);
    let e6 = emit_memory_max(p);
    let e7 = emit_memory_swap_max(p);
    let e8 = emit_memory_zswap_max(p);
    let e9 = emit_io_weight(p);
    let e10 = emit_io_max(p);
    let e10d = emit_io_device_weight(p);
    let a = emit_cpu_group(p);
    let b = emit_memory_group(p);
    let c = emit_io_group(p);
    lemma_scan_field_append(a + b + c, emit_task_max(p), read);
    lemma_scan_field_append(a + b, c, read);
    lemma_scan_field_append(a, b, read);
    lemma_scan_field_append(e1, e2, read);
    lemma_scan_field_append(e3, e4, read);
    lemma_scan_field_append(e3 + e4, e5, read);
    lemma_scan_field_append(e3 + e4 + e5, e6, read);
    lemma_scan_field_append(e3 + e4 + e5 + e6, e7, read);
    lemma_scan_field_append(e3 + e4 + e5 + e6 + e7, e8, read);
    lemma_scan_field_append(e9, e10d, read);
    lemma_scan_field_append(e9 + e10d, e10, read);
    lemma_scan_emit_cpu_weight(p, read);
    lemma_scan_emit_allowed_cpus(p, read);
    lemma_scan_emit_memory_min(p, read);
    lemma_scan_emit_memory_low(p, read);
    lemma_scan_emit_memory_high(p, read);
    lemma_scan_emit_memory_max(p, read);
    lemma_scan_emit_memory_swap_max(p, read);
    lemma_scan_emit_memory_zswap_max(p, read);
    lemma_scan_emit_io_weight(p, read);
    lemma_scan_emit_io_device_weight(p, read);
    lemma_scan_emit_io_max(p, read);
    lemma_scan_emit_task_max(p, read);
}

/// Law: translating a valid policy to its wire property list and reading
/// that list back yields the same policy, except for the label, which does
/// not travel in the property list.
pub proof fn lemma_policy_round_trip(p: PolicyView)
    requires
        valid_policy(p),
    ensures
        spec_policy_of(spec_properties(p)) == (PolicyView { name: Seq::<char>::empty(), ..p }),
{
    lemma_scan_properties(p, |pv: PropertyView| read_cpu_weight(pv));
    lemma_scan_properties(p, |pv: PropertyView| read_allowed_cpus(pv));
    lemma_scan_properties(p, |pv: PropertyView| read_memory_min(pv));
    lemma_scan_properties(p, |pv: PropertyView| read_memory_low(pv));
    lemma_scan_properties(p, |pv: PropertyView| read_memory_high(pv));
    lemma_scan_properties(p, |pv: PropertyView| read_memory_max(pv));
    lemma_scan_properties(p, |pv: PropertyView| read_memory_swap_max(pv));
    lemma_scan_properties(p, |pv: PropertyView| read_memory_zswap_max(pv));
    lemma_scan_properties(p, |pv: PropertyView| read_io_weight(pv));
    lemma_scan_properties(p, |pv: PropertyView| read_io_device_weight(pv));
    lemma_scan_properties(p, |pv: PropertyView| read_io_max(pv));
    lemma_scan_properties(p, |pv: PropertyView| read_task_max(pv));
}

} // verus!
