use vstd::prelude::*;

use crate::classify::classify_spec;
use crate::record::FieldV;
use crate::synth::{GeneratedBuilder, GeneratedV, generated_for};

verus! {

/// The value of one field of a built record: a required field holds its
/// value, an optional one holds `Some(value)` or `None`.
#[derive(Debug, PartialEq, Eq)]
pub enum FieldValue<V> {
    Required(V),
    Optional(Option<V>),
}

/// A running instance of a generated builder: one slot per field of the
/// record, with the fields' required/optional policy.
pub struct BuilderInstance<V> {
    required: Vec<bool>,
    slots: Vec<Option<V>>,
}

/// Mathematical model of a builder instance.
pub struct InstanceV<V> {
    pub required: Seq<bool>,
    pub slots: Seq<Option<V>>,
}

impl<V> InstanceV<V> {
    pub open spec fn wf(self) -> bool {
        self.required.len() == self.slots.len()
    }

    /// Every required field has a value, so that the build succeeds.
    pub open spec fn complete(self) -> bool {
        forall|i: int| 0 <= i < self.slots.len() && #[trigger] self.required[i] ==> self.slots[i] is Some
    }

    /// The state after the setter of field `i` stores `v`.
    pub open spec fn set(self, i: int, v: V) -> InstanceV<V> {
        InstanceV { required: self.required, slots: self.slots.update(i, Some(v)) }
    }

    /// The state after the setter calls `calls` (field, value), in order.
    pub open spec fn apply_sets(self, calls: Seq<(int, V)>) -> InstanceV<V>
        decreases calls.len(),
    {
        if calls.len() == 0 {
            self
        } else {
            self.apply_sets(calls.drop_last()).set(calls.last().0, calls.last().1)
        }
    }

    /// The record that a build of a complete instance gives, field by field.
    pub open spec fn record(self) -> Seq<FieldValue<V>> {
        Seq::new(
            self.slots.len(),
            |i: int|
                if self.required[i] {
                    FieldValue::Required(self.slots[i]->Some_0)
                } else {
                    FieldValue::Optional(self.slots[i])
                },
        )
    }
}

/// Which fields the completion operation requires, in order.
pub open spec fn required_flags(g: GeneratedV) -> Seq<bool> {
    g.extractions.map_values(|e: (Seq<char>, bool)| e.1)
}

/// The freshly initialized instance for a policy: every slot absent.
pub open spec fn fresh<V>(required: Seq<bool>) -> InstanceV<V> {
    InstanceV { required, slots: Seq::new(required.len(), |i: int| None::<V>) }
}

/// `b` is a clone of `a`: same variant, payload cloned.
pub open spec fn field_cloned<V: Clone>(a: FieldValue<V>, b: FieldValue<V>) -> bool {
    match (a, b) {
        (FieldValue::Required(x), FieldValue::Required(y)) => cloned(x, y),
        (FieldValue::Optional(None), FieldValue::Optional(None)) => true,
        (FieldValue::Optional(Some(x)), FieldValue::Optional(Some(y))) => cloned(x, y),
        _ => false,
    }
}

impl<V> View for BuilderInstance<V> {
    type V = InstanceV<V>;

    closed spec fn view(&self) -> InstanceV<V> {
        InstanceV { required: self.required@, slots: self.slots@ }
    }
}

impl<V> BuilderInstance<V> {
    /// The state that the generated entry point `Record::builder()` returns:
    /// every slot absent, required exactly where the completion operation
    /// fails on an absent slot.
    pub fn new(generated: &GeneratedBuilder) -> (r: Self)
        ensures
            r@ == fresh::<V>(required_flags(generated@)),
    {
        let mut required: Vec<bool> = Vec::new();
        let mut slots: Vec<Option<V>> = Vec::new();
        let ghost goal = generated@.extractions.map_values(|e: (Seq<char>, bool)| e.1);
        let mut i: usize = 0;
        while i < generated.extractions.len()
            invariant
                i <= generated.extractions.len(),
                goal == generated@.extractions.map_values(|e: (Seq<char>, bool)| e.1),
                required@ == goal.subrange(0, i as int),
                slots@ == Seq::new(i as nat, |j: int| None::<V>),
            decreases generated.extractions.len() - i,
        {
            required.push(generated.extractions[i].required);
            slots.push(None);
            proof {
                assert(required@ =~= goal.subrange(0, i + 1));
                assert(slots@ =~= Seq::new((i + 1) as nat, |j: int| None::<V>));
            }
            i += 1;
        }
        assert(required@ =~= goal);
        BuilderInstance { required, slots }
    }

    /// The generated setter of field `field`: stores `Some(value)` in its slot
    /// and hands the builder back for further calls.
    pub fn set(&mut self, field: usize, value: V) -> (r: &mut Self)
        requires
            old(self)@.wf(),
            field < old(self)@.slots.len(),
        ensures
            r@ == old(self)@.set(field as int, value),
            *final(self) == *final(r),
    {
        self.slots.set(field, Some(value));
        self
    }

    /// The number of fields.
    pub fn len(&self) -> (r: usize)
        ensures
            r == self@.slots.len(),
    {
        self.slots.len()
    }

    /// The generated completion operation: the record when every required
    /// slot holds a value, else `None`. The builder is left as it was.
    pub fn build(&self) -> (r: Option<Vec<FieldValue<V>>>)
        where V: Clone
        requires
            self@.wf(),
        ensures
            r is Some <==> self@.complete(),
            r matches Some(v) ==> v@.len() == self@.slots.len() && forall|i: int|
                0 <= i < v@.len() ==> field_cloned(self@.record()[i], #[trigger] v@[i]),
    {
        let mut out: Vec<FieldValue<V>> = Vec::new();
        let mut i: usize = 0;
        while i < self.slots.len()
            invariant
                self@.wf(),
                i <= self.slots.len(),
                out@.len() == i,
                forall|j: int| 0 <= j < i ==> self@.required[j] ==> self@.slots[j] is Some,
                forall|j: int| 0 <= j < i ==> field_cloned(self@.record()[j], #[trigger] out@[j]),
            decreases self.slots.len() - i,
        {
            let v = match &self.slots[i] {
                Some(x) => {
                    if self.required[i] {
                        FieldValue::Required(x.clone())
                    } else {
                        FieldValue::Optional(Some(x.clone()))
                    }
                },
                None => {
                    if self.required[i] {
                        return None;
                    }
                    FieldValue::Optional(None)
                },
            };
            out.push(v);
            i += 1;
        }
        Some(out)
    }
}

/// A fresh builder fails to build exactly when the record has a field that is
/// not optional in source.
pub proof fn lemma_fresh_build_fails_iff_required_field<V>(name: Seq<char>, fs: Seq<FieldV>)
    ensures
        !fresh::<V>(required_flags(generated_for(name, fs))).complete() <==> exists|i: int|
            0 <= i < fs.len() && !(#[trigger] classify_spec(fs[i])).optional_in_source,
{
    let req = required_flags(generated_for(name, fs));
    assert forall|i: int| 0 <= i < fs.len() implies req[i] == !classify_spec(fs[i]).optional_in_source by {}
    if exists|i: int| 0 <= i < fs.len() && !(#[trigger] classify_spec(fs[i])).optional_in_source {
        let i = choose|i: int| 0 <= i < fs.len() && !(#[trigger] classify_spec(fs[i])).optional_in_source;
        let s = fresh::<V>(req);
        assert(req.len() == fs.len());
        assert(s.required[i] && s.slots[i] is None);
        assert(!s.complete());
    } else {
        let s = fresh::<V>(req);
        assert forall|i: int| 0 <= i < s.slots.len() && #[trigger] s.required[i] implies s.slots[i] is Some by {
            assert(!classify_spec(fs[i]).optional_in_source);
        }
        assert(s.complete());
    }
}

/// Setter calls keep the policy and the number of slots, and leave a slot
/// filled exactly when it was filled before or some call names it.
pub proof fn lemma_apply_sets<V>(s: InstanceV<V>, calls: Seq<(int, V)>)
    requires
        s.wf(),
        forall|k: int| 0 <= k < calls.len() ==> 0 <= (#[trigger] calls[k]).0 < s.slots.len(),
    ensures
        s.apply_sets(calls).required == s.required,
        s.apply_sets(calls).slots.len() == s.slots.len(),
        forall|i: int|
            0 <= i < s.slots.len() ==> ((#[trigger] s.apply_sets(calls).slots[i]) is Some <==> (
            s.slots[i] is Some || exists|k: int| 0 <= k < calls.len() && (#[trigger] calls[k]).0 == i)),
    decreases calls.len(),
{
    if calls.len() > 0 {
        let rest = calls.drop_last();
        assert forall|k: int| 0 <= k < rest.len() implies 0 <= (#[trigger] rest[k]).0 < s.slots.len() by {
            assert(rest[k] == calls[k]);
        }
        lemma_apply_sets(s, rest);
        assert forall|i: int| 0 <= i < s.slots.len() implies ((#[trigger] s.apply_sets(calls).slots[i]) is Some <==> (
        s.slots[i] is Some || exists|k: int| 0 <= k < calls.len() && (#[trigger] calls[k]).0 == i)) by {
            if exists|k: int| 0 <= k < rest.len() && (#[trigger] rest[k]).0 == i {
                let k = choose|k: int| 0 <= k < rest.len() && (#[trigger] rest[k]).0 == i;
                assert(calls[k] == rest[k]);
            }
            if exists|k: int| 0 <= k < calls.len() && (#[trigger] calls[k]).0 == i {
                let k = choose|k: int| 0 <= k < calls.len() && (#[trigger] calls[k]).0 == i;
                if k < rest.len() {
                    assert(rest[k] == calls[k]);
                }
            }
        }
    }
}

/// Setting every field that is not optional in source, and no other, on a
/// fresh builder lets the build succeed with every optional field absent.
pub proof fn lemma_required_fields_suffice<V>(name: Seq<char>, fs: Seq<FieldV>, calls: Seq<(int, V)>)
    requires
        forall|k: int|
            0 <= k < calls.len() ==> 0 <= (#[trigger] calls[k]).0 < fs.len()
                && !classify_spec(fs[calls[k].0]).optional_in_source,
        forall|i: int|
            0 <= i < fs.len() && !(#[trigger] classify_spec(fs[i])).optional_in_source ==> exists|k: int|
                0 <= k < calls.len() && (#[trigger] calls[k]).0 == i,
    ensures
        ({
            let s = fresh::<V>(required_flags(generated_for(name, fs))).apply_sets(calls);
            &&& s.complete()
            &&& forall|i: int|
                0 <= i < fs.len() && (#[trigger] classify_spec(fs[i])).optional_in_source ==> s.record()[i]
                    == FieldValue::<V>::Optional(None)
        }),
{
    let req = required_flags(generated_for(name, fs));
    let s0 = fresh::<V>(req);
    assert forall|i: int| 0 <= i < fs.len() implies req[i] == !(#[trigger] classify_spec(fs[i])).optional_in_source by {}
    lemma_apply_sets(s0, calls);
    let s = s0.apply_sets(calls);
    assert forall|i: int| 0 <= i < s.slots.len() && #[trigger] s.required[i] implies s.slots[i] is Some by {
        assert(!classify_spec(fs[i]).optional_in_source);
    }
    assert forall|i: int|
        0 <= i < fs.len() && (#[trigger] classify_spec(fs[i])).optional_in_source implies s.record()[i]
            == FieldValue::<V>::Optional(None) by {
        if exists|k: int| 0 <= k < calls.len() && (#[trigger] calls[k]).0 == i {
            let k = choose|k: int| 0 <= k < calls.len() && (#[trigger] calls[k]).0 == i;
            assert(!classify_spec(fs[calls[k].0]).optional_in_source);
        }
        assert(s.slots[i] is None);
    }
}

/// Of two calls of one setter the later one wins: the state is as if only the
/// second were made, and the built field holds the second value.
pub proof fn lemma_last_set_wins<V>(s: InstanceV<V>, i: int, a: V, b: V)
    requires
        s.wf(),
        0 <= i < s.slots.len(),
    ensures
        s.set(i, a).set(i, b) == s.set(i, b),
        s.set(i, a).set(i, b).record()[i] == (if s.required[i] {
            FieldValue::Required(b)
        } else {
            FieldValue::Optional(Some(b))
        }),
{
    assert(s.set(i, a).set(i, b).slots =~= s.set(i, b).slots);
}

} // verus!
