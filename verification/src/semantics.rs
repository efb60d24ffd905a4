//! The runtime meaning of the emitted builder, as a verified model.
//!
//! A builder instance is one slot per aggregate field, in declaration
//! order, each either unset or holding a value. The factory starts every
//! slot unset; a setter overwrites one slot; finalization demands a value
//! in every mandatory slot and, on success, reads the aggregate instance
//! off the slots unchanged — optional fields pass through set or not.
//! Finalization copies, never moves, so the builder stays usable after a
//! success as after a failure.

use vstd::prelude::*;

use crate::ast::{AggregateDescription, AggregateDescriptionModel};
use crate::classify::{classify, is_optional_type, FieldClassification};
use crate::emit::{generated_builder_of, FinalizeRule};

verus! {

/// The one failure finalization knows: a mandatory field was still unset.
/// The error carries no field identity; that is a known, deliberately kept
/// limitation.
#[derive(Debug, PartialEq, Eq, Clone, Copy, Structural)]
pub enum BuildError {
    MissingRequiredField,
}

impl BuildError {
    /// The message the emitted finalizer reports, the same for every
    /// field.
    pub fn message(&self) -> (r: String)
        ensures
            r@ == "field is required"@,
    {
        "field is required".to_owned()
    }
}

/// Whether every mandatory slot holds a value: the exact condition under
/// which finalization succeeds.
pub open spec fn all_mandatory_set<V>(slots: Seq<Option<V>>, mandatory: Seq<bool>) -> bool {
    forall|i: int| 0 <= i < slots.len() && mandatory[i] ==> slots[i] is Some
}

/// What finalizing a builder with the given slots yields, for fields with
/// the given mandatory marks: the slots themselves as the instance when
/// every mandatory slot is set, the missing-field error otherwise.
pub open spec fn finalized<V>(slots: Seq<Option<V>>, mandatory: Seq<bool>) -> Result<
    Seq<Option<V>>,
    BuildError,
> {
    if all_mandatory_set(slots, mandatory) {
        Result::Ok(slots)
    } else {
        Result::Err(BuildError::MissingRequiredField)
    }
}

/// The mandatory mark of every field of `agg`, in declaration order: a
/// field is mandatory exactly when classification does not find it
/// optional.
pub fn mandatory_marks(agg: &AggregateDescription) -> (r: Vec<bool>)
    ensures
        r@.len() == agg.fields@.len(),
        forall|i: int|
            0 <= i < r@.len() ==> #[trigger] r@[i] == !is_optional_type(agg.fields@[i].ty@),
{
    let mut marks: Vec<bool> = Vec::new();
    let n = agg.fields.len();
    let mut i: usize = 0;
    while i < n
        invariant
            n == agg.fields@.len(),
            i <= n,
            marks@.len() == i as int,
            forall|j: int|
                0 <= j < i as int ==> #[trigger] marks@[j] == !is_optional_type(
                    agg.fields@[j].ty@,
                ),
        decreases n - i,
    {
        let c = classify(&agg.fields[i]);
        let mark = match c {
            FieldClassification::Mandatory => true,
            FieldClassification::Optional { inner: _ } => false,
        };
        marks.push(mark);
        i = i + 1;
    }
    marks
}

/// The emitted finalizer and the mandatory marks agree field by field:
/// the finalizer demands a value exactly in the fields whose mark is set,
/// so the runtime model speaks of the same builders the emitter declares.
pub proof fn lemma_finalizer_matches_marks(a: AggregateDescriptionModel)
    ensures
        forall|i: int|
            0 <= i < a.fields.len() ==> ((#[trigger] generated_builder_of(
                a,
            ).finalizer.fields[i].rule) == FinalizeRule::RequireSet <==> !is_optional_type(
                a.fields[i].ty,
            )),
{
}

/// One live builder instance: a slot per field, in declaration order,
/// unset until its setter runs.
pub struct BuilderState<V> {
    pub slots: Vec<Option<V>>,
}

impl<V> BuilderState<V> {
    /// What the emitted factory returns: every slot unset, mandatory or
    /// not.
    pub fn unset(field_count: usize) -> (r: Self)
        ensures
            r.slots@ == Seq::new(field_count as nat, |i: int| Option::<V>::None),
    {
        let mut slots: Vec<Option<V>> = Vec::new();
        let mut i: usize = 0;
        while i < field_count
            invariant
                i <= field_count,
                slots@.len() == i as int,
                forall|j: int| 0 <= j < i as int ==> slots@[j] is None,
            decreases field_count - i,
        {
            slots.push(Option::None);
            i = i + 1;
        }
        proof {
            assert(slots@ =~= Seq::new(field_count as nat, |i: int| Option::<V>::None));
        }
        BuilderState { slots }
    }

    /// What the emitted setter of field `i` does: stores the given value
    /// in that field's slot, set before or not, and touches nothing else.
    /// The emitted setter then hands the builder back for chaining.
    pub fn set_field(&mut self, i: usize, value: V)
        requires
            i < old(self).slots@.len(),
        ensures
            final(self).slots@ == old(self).slots@.update(i as int, Option::Some(value)),
    {
        self.slots.set(i, Option::Some(value));
    }

    /// What the emitted finalizer does: checks every mandatory slot and,
    /// when all are set, reads the instance off the slots — each optional
    /// field passes through unchanged, set or not. The builder itself is
    /// only read; it stays usable afterwards. The instance is returned by
    /// reference into the builder's slots, which is the model's way of
    /// copying rather than moving.
    pub fn finalize<'a>(&'a self, mandatory: &Vec<bool>) -> (r: Result<
        Vec<Option<&'a V>>,
        BuildError,
    >)
        requires
            mandatory@.len() == self.slots@.len(),
        ensures
            r is Ok <==> all_mandatory_set(self.slots@, mandatory@),
            r matches Result::Ok(out) ==> {
                &&& finalized(self.slots@, mandatory@) matches Result::Ok(inst)
                &&& out@.len() == inst.len()
                &&& forall|i: int|
                    0 <= i < inst.len() ==> #[trigger] (out@[i] is Some) == (inst[i] is Some)
                &&& forall|i: int|
                    0 <= i < inst.len() && inst[i] is Some ==> *#[trigger] out@[i]->0 == inst[i]->0
            },
            r matches Result::Err(e) ==> finalized(self.slots@, mandatory@) == Result::<
                Seq<Option<V>>,
                BuildError,
            >::Err(e),
    {
        let n = self.slots.len();
        let mut i: usize = 0;
        while i < n
            invariant
                n == self.slots@.len(),
                mandatory@.len() == n,
                i <= n,
                forall|j: int| 0 <= j < i as int && mandatory@[j] ==> self.slots@[j] is Some,
            decreases n - i,
        {
            if mandatory[i] && self.slots[i].is_none() {
                return Result::Err(BuildError::MissingRequiredField);
            }
            i = i + 1;
        }
        let mut out: Vec<Option<&V>> = Vec::new();
        let mut k: usize = 0;
        while k < n
            invariant
                n == self.slots@.len(),
                k <= n,
                out@.len() == k as int,
                forall|j: int|
                    0 <= j < k as int ==> #[trigger] (out@[j] is Some) == (self.slots@[j] is Some),
                forall|j: int|
                    0 <= j < k as int && self.slots@[j] is Some ==> *#[trigger] out@[j]->0
                        == self.slots@[j]->0,
            decreases n - k,
        {
            out.push(self.slots[k].as_ref());
            k = k + 1;
        }
        Result::Ok(out)
    }
}

/// An aggregate with no fields finalizes at once: the factory's fresh
/// builder already satisfies every mandatory mark, and the instance read
/// off it is the empty one.
pub proof fn lemma_empty_aggregate_finalizes<V>(slots: Seq<Option<V>>, mandatory: Seq<bool>)
    requires
        slots.len() == 0,
        mandatory.len() == 0,
    ensures
        finalized(slots, mandatory) matches Result::Ok(inst) && inst.len() == 0,
{
}

/// A mandatory field left unset makes finalization fail with the
/// missing-field error; setting that field — when every other mandatory
/// field is already set — makes finalization succeed.
pub proof fn lemma_missing_mandatory_field<V>(
    slots: Seq<Option<V>>,
    mandatory: Seq<bool>,
    i: int,
    value: V,
)
    requires
        mandatory.len() == slots.len(),
        0 <= i < slots.len(),
        mandatory[i],
        slots[i] is None,
        forall|j: int| 0 <= j < slots.len() && j != i && mandatory[j] ==> slots[j] is Some,
    ensures
        finalized(slots, mandatory) == Result::<Seq<Option<V>>, BuildError>::Err(
            BuildError::MissingRequiredField,
        ),
        finalized(slots.update(i, Option::Some(value)), mandatory) == Result::<
            Seq<Option<V>>,
            BuildError,
        >::Ok(slots.update(i, Option::Some(value))),
{
    assert(!all_mandatory_set(slots, mandatory));
    assert(all_mandatory_set(slots.update(i, Option::Some(value)), mandatory));
}

/// An optional field left unset never blocks finalization, and the
/// produced instance carries it as the unset value.
pub proof fn lemma_optional_unset_passes_through<V>(
    slots: Seq<Option<V>>,
    mandatory: Seq<bool>,
    i: int,
)
    requires
        mandatory.len() == slots.len(),
        0 <= i < slots.len(),
        !mandatory[i],
        slots[i] is None,
        all_mandatory_set(slots, mandatory),
    ensures
        finalized(slots, mandatory) matches Result::Ok(inst) && inst[i] is None,
{
}

/// Setting the same field twice keeps only the later value: the slots
/// after both calls are exactly the slots after the second alone.
pub proof fn lemma_setter_overwrites<V>(slots: Seq<Option<V>>, i: int, first: V, second: V)
    requires
        0 <= i < slots.len(),
    ensures
        slots.update(i, Option::Some(first)).update(i, Option::Some(second)) == slots.update(
            i,
            Option::Some(second),
        ),
{
    assert(slots.update(i, Option::Some(first)).update(i, Option::Some(second)) =~= slots.update(
        i,
        Option::Some(second),
    ));
}

/// Two adjacent setter calls on distinct fields commute: swapping them
/// leaves the slots unchanged.
pub proof fn lemma_setter_order_irrelevant<V>(
    slots: Seq<Option<V>>,
    i: int,
    j: int,
    vi: V,
    vj: V,
)
    requires
        0 <= i < slots.len(),
        0 <= j < slots.len(),
        i != j,
    ensures
        slots.update(i, Option::Some(vi)).update(j, Option::Some(vj)) == slots.update(
            j,
            Option::Some(vj),
        ).update(i, Option::Some(vi)),
{
    assert(slots.update(i, Option::Some(vi)).update(j, Option::Some(vj)) =~= slots.update(
        j,
        Option::Some(vj),
    ).update(i, Option::Some(vi)));
}

/// The slots after a run of setter calls, applied first to last: each call
/// names the field's position and carries the value passed.
pub open spec fn slots_after<V>(slots: Seq<Option<V>>, calls: Seq<(usize, V)>) -> Seq<Option<V>>
    decreases calls.len(),
{
    if calls.len() == 0 {
        slots
    } else {
        slots_after(
            slots.update(calls[0].0 as int, Option::Some(calls[0].1)),
            calls.drop_first(),
        )
    }
}

/// No two calls of the run name the same field.
pub open spec fn distinct_fields<V>(calls: Seq<(usize, V)>) -> bool {
    forall|j1: int, j2: int|
        0 <= j1 < j2 < calls.len() ==> (#[trigger] calls[j1]).0 != (#[trigger] calls[j2]).0
}

/// Every call of the run names a field the builder has.
pub open spec fn fields_in_range<V>(calls: Seq<(usize, V)>, field_count: nat) -> bool {
    forall|j: int| 0 <= j < calls.len() ==> (#[trigger] calls[j]).0 < field_count
}

/// Some call of the run names field `k`.
pub open spec fn touches<V>(calls: Seq<(usize, V)>, k: int) -> bool {
    exists|j: int| 0 <= j < calls.len() && (#[trigger] calls[j]).0 == k
}

/// A run of setter calls on pairwise-distinct fields leaves each called
/// field holding exactly the value its call carried and every other field
/// as it was: the slots record which calls ran, not the order they ran in.
pub proof fn lemma_setters_pin_slots<V>(slots: Seq<Option<V>>, calls: Seq<(usize, V)>)
    requires
        fields_in_range(calls, slots.len()),
        distinct_fields(calls),
    ensures
        slots_after(slots, calls).len() == slots.len(),
        forall|j: int|
            0 <= j < calls.len() ==> slots_after(slots, calls)[(#[trigger] calls[j]).0 as int]
                == Option::Some(calls[j].1),
        forall|k: int|
            0 <= k < slots.len() && !touches(calls, k) ==> slots_after(slots, calls)[k]
                == slots[k],
    decreases calls.len(),
{
    if calls.len() > 0 {
        let head = calls[0];
        let rest = calls.drop_first();
        let started = slots.update(head.0 as int, Option::Some(head.1));
        assert forall|j1: int, j2: int|
            0 <= j1 < j2 < rest.len() implies (#[trigger] rest[j1]).0 != (
        #[trigger] rest[j2]).0 by {
            assert(rest[j1] == calls[j1 + 1] && rest[j2] == calls[j2 + 1]);
        }
        assert forall|j: int| 0 <= j < rest.len() implies (#[trigger] rest[j]).0
            < started.len() by {
            assert(rest[j] == calls[j + 1]);
        }
        lemma_setters_pin_slots(started, rest);
        assert(!touches(rest, head.0 as int)) by {
            if touches(rest, head.0 as int) {
                let j = choose|j: int|
                    0 <= j < rest.len() && (#[trigger] rest[j]).0 == head.0 as int;
                assert(rest[j] == calls[j + 1]);
            }
        }
        assert forall|j: int| 0 <= j < calls.len() implies slots_after(slots, calls)[(
        #[trigger] calls[j]).0 as int] == Option::Some(calls[j].1) by {
            if j > 0 {
                assert(rest[j - 1] == calls[j]);
            }
        }
        assert forall|k: int|
            0 <= k < slots.len() && !touches(calls, k) implies slots_after(slots, calls)[k]
            == slots[k] by {
            assert(!touches(rest, k)) by {
                if touches(rest, k) {
                    let j = choose|j: int|
                        0 <= j < rest.len() && (#[trigger] rest[j]).0 == k;
                    assert(rest[j] == calls[j + 1]);
                }
            }
            assert(head.0 != k);
        }
    }
}

/// Order-independence in full: two setter runs on pairwise-distinct
/// fields that touch the same fields and agree on the value each field
/// gets produce the same slots — so finalization yields the same
/// aggregate, whatever order either run made its calls in.
pub proof fn lemma_setter_runs_agree<V>(
    slots: Seq<Option<V>>,
    first: Seq<(usize, V)>,
    second: Seq<(usize, V)>,
)
    requires
        fields_in_range(first, slots.len()),
        fields_in_range(second, slots.len()),
        distinct_fields(first),
        distinct_fields(second),
        forall|k: int| touches(first, k) <==> touches(second, k),
        forall|j1: int, j2: int|
            0 <= j1 < first.len() && 0 <= j2 < second.len() && (#[trigger] first[j1]).0 == (
            #[trigger] second[j2]).0 ==> first[j1].1 == second[j2].1,
    ensures
        slots_after(slots, first) == slots_after(slots, second),
{
    lemma_setters_pin_slots(slots, first);
    lemma_setters_pin_slots(slots, second);
    assert forall|k: int| 0 <= k < slots.len() implies slots_after(slots, first)[k]
        == slots_after(slots, second)[k] by {
        if touches(first, k) {
            let j1 = choose|j: int| 0 <= j < first.len() && (#[trigger] first[j]).0 == k;
            let j2 = choose|j: int| 0 <= j < second.len() && (#[trigger] second[j]).0 == k;
            assert(slots_after(slots, first)[k] == Option::Some(first[j1].1));
            assert(slots_after(slots, second)[k] == Option::Some(second[j2].1));
        }
    }
    assert(slots_after(slots, first) =~= slots_after(slots, second));
}

} // verus!
