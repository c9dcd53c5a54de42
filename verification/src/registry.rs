//! Assignment registry.
//!
//! Tracks which assignee (a user id or a service name) is currently placed
//! under which slice, and plans the create/move/unassign workflows. The
//! remote side of each workflow is a plan value: the slice whose existence
//! must be ensured (creation of an already-active slice is a no-op), the one
//! atomic property call that applies the policy, and the one call that
//! re-parents the assignee's own unit. The registry never plans the deletion
//! of a slice: cleaning up empty slices is the init system's own business.

use vstd::prelude::*;
use vstd::string::StringExecFns;
use crate::codec::{child_slice_name, dec_digits, new_slice, to_decimal};
use crate::engine::PropertyCall;
use crate::error::PolicyError;
use crate::policy::{Policy, spec_policy_error, valid_policy};
use crate::props::{Property, PropertyView, spec_properties, to_properties, views_of};

verus! {

/// Who a policy is applied for: a user, by uid, or a service, by base name
/// (without the `.service` suffix).
#[derive(Clone, Debug, PartialEq, Eq)]
pub enum Assignee {
    User(u32),
    Service(String),
}

/// Mathematical image of an [`Assignee`].
pub enum AssigneeView {
    User(u32),
    Service(Seq<char>),
}

impl View for Assignee {
    type V = AssigneeView;

    open spec fn view(&self) -> AssigneeView {
        match self {
            Assignee::User(uid) => AssigneeView::User(*uid),
            Assignee::Service(name) => AssigneeView::Service(name@),
        }
    }
}

impl Assignee {
    /// A copy of this assignee.
    pub fn duplicate(&self) -> (r: Assignee)
        ensures
            r@ == self@,
    {
        match self {
            Assignee::User(uid) => Assignee::User(*uid),
            Assignee::Service(name) => Assignee::Service(name.clone()),
        }
    }

    /// Whether two assignees are the same.
    pub fn same_as(&self, other: &Assignee) -> (r: bool)
        ensures
            r == (self@ == other@),
    {
        match (self, other) {
            (Assignee::User(a), Assignee::User(b)) => a == b,
            (Assignee::Service(a), Assignee::Service(b)) => crate::codec::str_eq(
                a.as_str(),
                b.as_str(),
            ),
            _ => false,
        }
    }
}

/// The slice an assignee's unit is placed under: `user-<uid>.slice` for a
/// user, `service-<name>.slice` for a service.
pub open spec fn slice_name_for(a: AssigneeView) -> Seq<char> {
    match a {
        AssigneeView::User(uid) => child_slice_name("user.slice"@, dec_digits(uid as nat)),
        AssigneeView::Service(name) => child_slice_name("service.slice"@, name),
    }
}

/// The assignee's own unit, the one that is re-parented: `user@<uid>.service`
/// for a user's manager unit, `<name>.service` for a service.
pub open spec fn unit_name_for(a: AssigneeView) -> Seq<char> {
    match a {
        AssigneeView::User(uid) => "user@"@ + dec_digits(uid as nat) + ".service"@,
        AssigneeView::Service(name) => name + ".service"@,
    }
}

/// The documented default slice an unassigned assignee's unit goes back to:
/// the parent slice of its kind, which carries no extra policy.
pub open spec fn default_slice_for(a: AssigneeView) -> Seq<char> {
    match a {
        AssigneeView::User(_) => "user.slice"@,
        AssigneeView::Service(_) => "system.slice"@,
    }
}

/// One live assignment: this assignee's unit is currently placed under this
/// slice.
#[derive(Clone, Debug, PartialEq, Eq)]
pub struct Assignment {
    pub assignee: Assignee,
    pub slice: String,
}

/// Mathematical image of an [`Assignment`].
pub struct AssignmentView {
    pub assignee: AssigneeView,
    pub slice: Seq<char>,
}

impl View for Assignment {
    type V = AssignmentView;

    open spec fn view(&self) -> AssignmentView {
        AssignmentView { assignee: self.assignee@, slice: self.slice@ }
    }
}

/// How many records a list holds for one assignee.
pub open spec fn count_for(s: Seq<AssignmentView>, a: AssigneeView) -> nat
    decreases s.len(),
{
    if s.len() == 0 {
        0
    } else {
        count_for(s.drop_last(), a) + if s.last().assignee == a {
            1nat
        } else {
            0nat
        }
    }
}

/// The slice recorded for an assignee, if any; with at most one record per
/// assignee the choice of occurrence does not matter, and the latest wins.
pub open spec fn slice_recorded(s: Seq<AssignmentView>, a: AssigneeView) -> Option<Seq<char>>
    decreases s.len(),
{
    if s.len() == 0 {
        None
    } else if s.last().assignee == a {
        Some(s.last().slice)
    } else {
        slice_recorded(s.drop_last(), a)
    }
}

/// A list without any record for an assignee.
pub open spec fn no_record_for(s: Seq<AssignmentView>, a: AssigneeView) -> bool {
    forall|i: int| 0 <= i < s.len() ==> s[i].assignee != a
}

/// The list with every record of one assignee taken out, order kept.
pub open spec fn remove_assignee(s: Seq<AssignmentView>, a: AssigneeView) -> Seq<AssignmentView> {
    s.filter(|r: AssignmentView| r.assignee != a)
}

/// What assigning leaves recorded: any previous record of the assignee is
/// dropped and the fresh one appended.
pub open spec fn spec_assign(s: Seq<AssignmentView>, a: AssigneeView) -> Seq<AssignmentView> {
    remove_assignee(s, a).push(AssignmentView { assignee: a, slice: slice_name_for(a) })
}

/// Everything the caller must do against the init system to make an
/// assignment effective, in order: ensure the slice exists (requesting an
/// already-active slice is a no-op), apply the policy to it in one atomic
/// call, then re-parent the assignee's unit to it.
#[derive(Debug)]
pub struct AssignPlan {
    /// The slice whose existence must be ensured first.
    pub slice: String,
    /// The atomic property application against the slice.
    pub apply_call: PropertyCall,
    /// The re-parenting call against the assignee's own unit.
    pub reparent_call: PropertyCall,
}

/// The one call that takes an assignee's unit back to its default slice.
#[derive(Debug)]
pub struct UnassignPlan {
    /// The re-parenting call against the assignee's own unit.
    pub reparent_call: PropertyCall,
}

/// The registry of live assignments: at most one per assignee.
pub struct Registry {
    assignments: Vec<Assignment>,
}

impl View for Registry {
    type V = Seq<AssignmentView>;

    closed spec fn view(&self) -> Seq<AssignmentView> {
        self.assignments@.map_values(|r: Assignment| r@)
    }
}

impl Registry {
    /// At most one record per assignee.
    pub open spec fn wf(&self) -> bool {
        forall|i: int, j: int|
            0 <= i < j < self@.len() ==> self@[i].assignee != self@[j].assignee
    }

    /// An empty registry.
    pub fn new() -> (r: Registry)
        ensures
            r@ == Seq::<AssignmentView>::empty(),
            r.wf(),
    {
        let r = Registry { assignments: Vec::new() };
        proof {
            assert(r@ =~= Seq::<AssignmentView>::empty());
        }
        r
    }

    /// How many assignments are live.
    pub fn len(&self) -> (r: usize)
        ensures
            r == self@.len(),
    {
        self.assignments.len()
    }

    /// The name of the slice that carries this assignee's policy.
    pub fn slice_name(assignee: &Assignee) -> (r: String)
        ensures
            r@ == slice_name_for(assignee@),
    {
        match assignee {
            Assignee::User(uid) => {
                let leaf = to_decimal(*uid as u64);
                new_slice("user.slice", leaf.as_str())
            },
            Assignee::Service(name) => new_slice("service.slice", name.as_str()),
        }
    }

    /// The name of the assignee's own unit, the one that is re-parented.
    pub fn unit_name(assignee: &Assignee) -> (r: String)
        ensures
            r@ == unit_name_for(assignee@),
    {
        match assignee {
            Assignee::User(uid) => {
                let mut r = String::from_str("user@");
                let leaf = to_decimal(*uid as u64);
                r.append(leaf.as_str());
                r.append(".service");
                r
            },
            Assignee::Service(name) => {
                let mut r = name.clone();
                r.append(".service");
                r
            },
        }
    }

    /// The default slice an unassigned assignee's unit goes back to.
    pub fn default_slice(assignee: &Assignee) -> (r: String)
        ensures
            r@ == default_slice_for(assignee@),
    {
        match assignee {
            Assignee::User(_) => String::from_str("user.slice"),
            Assignee::Service(_) => String::from_str("system.slice"),
        }
    }

    /// The index of the assignee's record, if it has one.
    fn find(&self, assignee: &Assignee) -> (r: Option<usize>)
        ensures
            match r {
                Some(i) => i < self@.len() && self@[i as int].assignee == assignee@,
                None => no_record_for(self@, assignee@),
            },
    {
        let mut i: usize = 0;
        while i < self.assignments.len()
            invariant
                i <= self.assignments.len(),
                self@.len() == self.assignments@.len(),
                forall|j: int| 0 <= j < i ==> self@[j].assignee != assignee@,
            decreases self.assignments.len() - i,
        {
            if self.assignments[i].assignee.same_as(assignee) {
                return Some(i);
            }
            i += 1;
        }
        None
    }

    /// The slice this assignee is currently assigned to, if any.
    pub fn query_slice(&self, assignee: &Assignee) -> (r: Option<String>)
        requires
            self.wf(),
        ensures
            match r {
                Some(s) => slice_recorded(self@, assignee@) == Some(s@),
                None => slice_recorded(self@, assignee@) is None,
            },
    {
        match self.find(assignee) {
            Some(i) => {
                let s = self.assignments[i].slice.clone();
                proof {
                    lemma_slice_recorded_found(self@, assignee@, i as int);
                }
                Some(s)
            },
            None => {
                proof {
                    lemma_slice_recorded_none(self@, assignee@);
                }
                None
            },
        }
    }

    /// Assign a policy to an assignee: validate and translate the policy,
    /// record the assignee under its slice (any previous record is replaced,
    /// so at most one assignment stays live), and return the plan of remote
    /// calls that makes it effective. A rejected policy changes nothing.
    pub fn assign_policy(&mut self, assignee: &Assignee, policy: &Policy, runtime: bool) -> (r:
        Result<AssignPlan, PolicyError>)
        requires
            old(self).wf(),
        ensures
            final(self).wf(),
            match r {
                Ok(plan) => {
                    &&& valid_policy(policy@)
                    &&& final(self)@ == spec_assign(old(self)@, assignee@)
                    &&& count_for(final(self)@, assignee@) == 1
                    &&& plan.slice@ == slice_name_for(assignee@)
                    &&& plan.apply_call.target@ == slice_name_for(assignee@)
                    &&& plan.apply_call.runtime == runtime
                    &&& views_of(plan.apply_call.properties@) == spec_properties(policy@)
                    &&& plan.reparent_call.target@ == unit_name_for(assignee@)
                    &&& plan.reparent_call.runtime == runtime
                    &&& views_of(plan.reparent_call.properties@) == seq![PropertyView::Slice(
                        slice_name_for(assignee@),
                    )]
                },
                Err(e) => spec_policy_error(policy@) == Some(e) && final(self)@ == old(self)@,
            },
    {
        let properties = to_properties(policy)?;
        let slice = Self::slice_name(assignee);
        let unit = Self::unit_name(assignee);
        let mut reparent_props: Vec<Property> = Vec::new();
        reparent_props.push(Property::Slice(slice.clone()));
        proof {
            assert(views_of(reparent_props@) =~= seq![PropertyView::Slice(
                slice_name_for(assignee@),
            )]);
        }
        match self.find(assignee) {
            Some(i) => {
                let ghost before = self@;
                self.assignments.remove(i);
                proof {
                    assert(self@ =~= before.remove(i as int));
                    lemma_remove_known(before, assignee@, i as int);
                }
            },
            None => {
                proof {
                    lemma_remove_absent(self@, assignee@);
                }
            },
        }
        let ghost removed = self@;
        self.assignments.push(Assignment { assignee: assignee.duplicate(), slice: slice.clone() });
        proof {
            assert(self@ =~= removed.push(AssignmentView {
                assignee: assignee@,
                slice: slice_name_for(assignee@),
            }));
            lemma_count_after_assign(old(self)@, assignee@);
            lemma_wf_after_assign(old(self)@, assignee@);
        }
        Ok(AssignPlan {
            slice,
            apply_call: PropertyCall {
                target: Self::slice_name(assignee),
                runtime,
                properties,
            },
            reparent_call: PropertyCall { target: unit, runtime, properties: reparent_props },
        })
    }

    /// Drop the assignee's record and plan the call that takes its unit back
    /// to the default slice of its kind. No slice is deleted. Returns nothing
    /// when the assignee holds no assignment.
    pub fn unassign(&mut self, assignee: &Assignee, runtime: bool) -> (r: Option<UnassignPlan>)
        requires
            old(self).wf(),
        ensures
            final(self).wf(),
            match r {
                Some(plan) => {
                    &&& !no_record_for(old(self)@, assignee@)
                    &&& final(self)@ == remove_assignee(old(self)@, assignee@)
                    &&& no_record_for(final(self)@, assignee@)
                    &&& plan.reparent_call.target@ == unit_name_for(assignee@)
                    &&& plan.reparent_call.runtime == runtime
                    &&& views_of(plan.reparent_call.properties@) == seq![PropertyView::Slice(
                        default_slice_for(assignee@),
                    )]
                },
                None => no_record_for(old(self)@, assignee@) && final(self)@ == old(self)@,
            },
    {
        match self.find(assignee) {
            Some(i) => {
                let ghost before = self@;
                self.assignments.remove(i);
                proof {
                    assert(self@ =~= before.remove(i as int));
                    lemma_remove_known(before, assignee@, i as int);
                    lemma_remove_all_gone(before, assignee@);
                    lemma_wf_after_remove(before, assignee@);
                }
                let unit = Self::unit_name(assignee);
                let mut reparent_props: Vec<Property> = Vec::new();
                reparent_props.push(Property::Slice(Self::default_slice(assignee)));
                proof {
                    assert(views_of(reparent_props@) =~= seq![PropertyView::Slice(
                        default_slice_for(assignee@),
                    )]);
                }
                Some(UnassignPlan {
                    reparent_call: PropertyCall {
                        target: unit,
                        runtime,
                        properties: reparent_props,
                    },
                })
            },
            None => {
                proof {
                    lemma_remove_absent(self@, assignee@);
                }
                None
            },
        }
    }
}

/// When index `i` holds the assignee and the list is duplicate-free up to
/// `i`, the recorded slice is the one at `i`.
proof fn lemma_slice_recorded_found(s: Seq<AssignmentView>, a: AssigneeView, i: int)
    requires
        0 <= i < s.len(),
        s[i].assignee == a,
        forall|k: int, j: int| 0 <= k < j < s.len() ==> s[k].assignee != s[j].assignee,
    ensures
        slice_recorded(s, a) == Some(s[i].slice),
    decreases s.len(),
{
    if i == s.len() - 1 {
    } else {
        assert(s.last().assignee != a);
        lemma_slice_recorded_found(s.drop_last(), a, i);
    }
}

/// Nothing is recorded for an assignee without a record.
proof fn lemma_slice_recorded_none(s: Seq<AssignmentView>, a: AssigneeView)
    requires
        no_record_for(s, a),
    ensures
        slice_recorded(s, a) is None,
    decreases s.len(),
{
    if s.len() > 0 {
        lemma_slice_recorded_none(s.drop_last(), a);
    }
}

/// Filtering out an absent assignee changes nothing.
proof fn lemma_remove_absent(s: Seq<AssignmentView>, a: AssigneeView)
    requires
        no_record_for(s, a),
    ensures
        remove_assignee(s, a) == s,
    decreases s.len(),
{
    reveal(Seq::filter);
    if s.len() > 0 {
        lemma_remove_absent(s.drop_last(), a);
        assert(remove_assignee(s, a) =~= s);
    } else {
        assert(remove_assignee(s, a) =~= s);
    }
}

/// In a duplicate-free list, filtering out the assignee found at `i` is the
/// same as removing position `i`.
proof fn lemma_remove_known(s: Seq<AssignmentView>, a: AssigneeView, i: int)
    requires
        0 <= i < s.len(),
        s[i].assignee == a,
        forall|k: int, j: int| 0 <= k < j < s.len() ==> s[k].assignee != s[j].assignee,
    ensures
        remove_assignee(s, a) == s.remove(i),
    decreases s.len(),
{
    reveal(Seq::filter);
    if i == s.len() - 1 {
        assert(no_record_for(s.drop_last(), a));
        lemma_remove_absent(s.drop_last(), a);
        assert(s.remove(i) =~= s.drop_last());
    } else {
        assert(s.last().assignee != a);
        lemma_remove_known(s.drop_last(), a, i);
        assert(s.remove(i) =~= s.drop_last().remove(i).push(s.last()));
    }
}

/// Filtering leaves no record of the filtered assignee.
proof fn lemma_remove_all_gone(s: Seq<AssignmentView>, a: AssigneeView)
    ensures
        no_record_for(remove_assignee(s, a), a),
    decreases s.len(),
{
    reveal(Seq::filter);
    if s.len() > 0 {
        lemma_remove_all_gone(s.drop_last(), a);
        let kept = remove_assignee(s, a);
        let prev = remove_assignee(s.drop_last(), a);
        if s.last().assignee != a {
            assert(kept =~= prev.push(s.last()));
        }
    }
}

/// Filtering keeps a duplicate-free list duplicate-free, and keeps only
/// records of the original.
proof fn lemma_wf_after_remove(s: Seq<AssignmentView>, a: AssigneeView)
    requires
        forall|k: int, j: int| 0 <= k < j < s.len() ==> s[k].assignee != s[j].assignee,
    ensures
        forall|k: int, j: int|
            0 <= k < j < remove_assignee(s, a).len() ==> remove_assignee(s, a)[k].assignee
                != remove_assignee(s, a)[j].assignee,
        forall|k: int|
            0 <= k < remove_assignee(s, a).len() ==> exists|m: int|
                0 <= m < s.len() && #[trigger] remove_assignee(s, a)[k] == s[m],
    decreases s.len(),
{
    reveal(Seq::filter);
    if s.len() > 0 {
        lemma_wf_after_remove(s.drop_last(), a);
        let kept = remove_assignee(s, a);
        let prev = remove_assignee(s.drop_last(), a);
        if s.last().assignee != a {
            assert(kept =~= prev.push(s.last()));
        }
        assert forall|k: int| 0 <= k < kept.len() implies exists|m: int|
            0 <= m < s.len() && #[trigger] kept[k] == s[m] by {
            if s.last().assignee != a && k == kept.len() - 1 {
                assert(kept[k] == s[s.len() - 1]);
            } else {
                assert(kept[k] == prev[k]);
                let m = choose|m: int| 0 <= m < s.drop_last().len() && prev[k] == s.drop_last()[m];
                assert(kept[k] == s[m]);
            }
        }
        assert forall|k: int, j: int| 0 <= k < j < kept.len() implies kept[k].assignee
            != kept[j].assignee by {
            if s.last().assignee != a && j == kept.len() - 1 {
                assert(kept[k] == prev[k]);
                let m = choose|m: int| 0 <= m < s.drop_last().len() && prev[k] == s.drop_last()[m];
                assert(s[m].assignee != s[s.len() - 1].assignee);
            }
        }
    }
}

/// After assigning, exactly one record is live for the assignee.
proof fn lemma_count_after_assign(s: Seq<AssignmentView>, a: AssigneeView)
    ensures
        count_for(spec_assign(s, a), a) == 1,
{
    lemma_remove_all_gone(s, a);
    lemma_count_absent(remove_assignee(s, a), a);
    let pushed = spec_assign(s, a);
    assert(pushed.drop_last() =~= remove_assignee(s, a));
}

/// A list without a record of an assignee counts zero for it.
proof fn lemma_count_absent(s: Seq<AssignmentView>, a: AssigneeView)
    requires
        no_record_for(s, a),
    ensures
        count_for(s, a) == 0,
    decreases s.len(),
{
    if s.len() > 0 {
        lemma_count_absent(s.drop_last(), a);
    }
}

/// Assigning keeps the registry duplicate-free.
proof fn lemma_wf_after_assign(s: Seq<AssignmentView>, a: AssigneeView)
    requires
        forall|k: int, j: int| 0 <= k < j < s.len() ==> s[k].assignee != s[j].assignee,
    ensures
        forall|k: int, j: int|
            0 <= k < j < spec_assign(s, a).len() ==> spec_assign(s, a)[k].assignee != spec_assign(
                s,
                a,
            )[j].assignee,
{
    lemma_wf_after_remove(s, a);
    lemma_remove_all_gone(s, a);
    let kept = remove_assignee(s, a);
    let pushed = spec_assign(s, a);
    assert forall|k: int, j: int| 0 <= k < j < pushed.len() implies pushed[k].assignee
        != pushed[j].assignee by {
        if j < pushed.len() - 1 {
            assert(pushed[k] == kept[k] && pushed[j] == kept[j]);
        } else {
            assert(pushed[k] == kept[k]);
        }
    }
}

/// Law: assigning an assignee twice, with any two policies, leaves exactly
/// one live assignment for it, pointing at the slice the second assignment
/// targets; every other assignee's record is untouched, and no plan ever
/// removes a slice, so the first slice still exists with its policy intact.
pub proof fn lemma_reassign_exclusive(s: Seq<AssignmentView>, a: AssigneeView)
    ensures
        spec_assign(spec_assign(s, a), a) == spec_assign(s, a),
        count_for(spec_assign(spec_assign(s, a), a), a) == 1,
        slice_recorded(spec_assign(s, a), a) == Some(slice_name_for(a)),
        forall|b: AssigneeView|
            b != a ==> #[trigger] slice_recorded(spec_assign(s, a), b) == slice_recorded(s, b),
{
    let once = spec_assign(s, a);
    lemma_count_after_assign(s, a);
    lemma_remove_all_gone(s, a);
    assert(once.last().assignee == a);
    assert(spec_assign(once, a) == once) by {
        lemma_remove_push_same(remove_assignee(s, a), a);
    }
    lemma_count_after_assign(once, a);
    assert forall|b: AssigneeView| b != a implies #[trigger] slice_recorded(spec_assign(s, a), b)
        == slice_recorded(s, b) by {
        lemma_slice_recorded_remove_other(s, a, b);
    }
}

/// Removing an assignee from a list that lacks it and then recording it is
/// undone by a second removal.
proof fn lemma_remove_push_same(kept: Seq<AssignmentView>, a: AssigneeView)
    requires
        no_record_for(kept, a),
    ensures
        remove_assignee(kept.push(AssignmentView { assignee: a, slice: slice_name_for(a) }), a)
            == kept,
{
    reveal(Seq::filter);
    let rec = AssignmentView { assignee: a, slice: slice_name_for(a) };
    assert(kept.push(rec).drop_last() =~= kept);
    lemma_remove_absent(kept, a);
}

/// Another assignee's recorded slice does not change when one assignee is
/// re-recorded.
proof fn lemma_slice_recorded_remove_other(s: Seq<AssignmentView>, a: AssigneeView, b: AssigneeView)
    requires
        b != a,
    ensures
        slice_recorded(spec_assign(s, a), b) == slice_recorded(s, b),
    decreases s.len(),
{
    reveal(Seq::filter);
    let rec = AssignmentView { assignee: a, slice: slice_name_for(a) };
    assert(spec_assign(s, a).drop_last() =~= remove_assignee(s, a));
    lemma_slice_recorded_filter(s, a, b);
}

/// Reading another assignee's slice through the filter is unchanged.
proof fn lemma_slice_recorded_filter(s: Seq<AssignmentView>, a: AssigneeView, b: AssigneeView)
    requires
        b != a,
    ensures
        slice_recorded(remove_assignee(s, a), b) == slice_recorded(s, b),
    decreases s.len(),
{
    reveal(Seq::filter);
    if s.len() > 0 {
        lemma_slice_recorded_filter(s.drop_last(), a, b);
        if s.last().assignee != a {
            assert(remove_assignee(s, a) =~= remove_assignee(s.drop_last(), a).push(s.last()));
            assert(remove_assignee(s, a).drop_last() =~= remove_assignee(s.drop_last(), a));
        }
    }
}

} // verus!
