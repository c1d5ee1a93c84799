//! A structural model of aggregate values, and the checks a derived plan
//! performs on them.
//!
//! Shapes exist only at derivation time; what the synthesized check runs
//! on are instances.  [`Value`] models an instance as a tree: leaves for
//! primitive values, products for struct instances and tagged sums for
//! enum instances.  An enum node records which variant of its type is the
//! marked default one — the synthesized implementation for that type
//! embeds exactly this index — so that defaultness is well defined for
//! aggregates nested inside other aggregates.
//!
//! [`value_is_default`] decides the intrinsic defaultness of an instance,
//! [`values_equal`] decides structural equality, and [`run_plan`] carries
//! out a derived [`CheckPlan`] on an instance.

use vstd::prelude::*;

use crate::shape::CheckPlan;

verus! {

broadcast use vstd::std_specs::vec::group_vec_axioms;

/// An instance of an aggregate or primitive type: a leaf value, a struct
/// instance holding its field values in declaration order, or an enum
/// instance holding the active variant's index, the index of the type's
/// marked default variant (if any), and the active variant's field values.
pub enum Value {
    Unit,
    Bool(bool),
    Int(i64),
    Char(char),
    Struct { fields: Vec<Value> },
    Variant { active: usize, marked: Option<usize>, fields: Vec<Value> },
}

/// What "default" means for an instance:
///
/// - a leaf is default when it is zero, `false`, the null code point, or
///   the unit value;
/// - a struct instance is default when every field is default, so a
///   struct with no fields always is;
/// - an enum instance is default when its type's marked variant is the
///   active one and every field of it is default; an enum whose type
///   marks no variant is never intrinsically default (its check can only
///   proceed by comparison against a constructed default value).
pub open spec fn value_default(v: Value) -> bool
    decreases v,
{
    match v {
        Value::Unit => true,
        Value::Bool(b) => !b,
        Value::Int(i) => i == 0,
        Value::Char(c) => c == '\x00',
        Value::Struct { fields } => forall|i: int|
            0 <= i < fields@.len() ==> value_default(#[trigger] fields@[i]),
        Value::Variant { active, marked, fields } => {
            &&& marked == Some(active)
            &&& forall|i: int| 0 <= i < fields@.len() ==> value_default(#[trigger] fields@[i])
        },
    }
}

/// Every instance in `fields` is default.
pub open spec fn fields_all_default(fields: Seq<Value>) -> bool {
    forall|i: int| 0 <= i < fields.len() ==> value_default(#[trigger] fields[i])
}

/// Structural equality of two instances: same node kind, same leaf value,
/// same variant indices, and equal fields pointwise.
pub open spec fn value_eq(a: Value, b: Value) -> bool
    decreases a,
{
    match (a, b) {
        (Value::Unit, Value::Unit) => true,
        (Value::Bool(x), Value::Bool(y)) => x == y,
        (Value::Int(x), Value::Int(y)) => x == y,
        (Value::Char(x), Value::Char(y)) => x == y,
        (Value::Struct { fields: fa }, Value::Struct { fields: fb }) => {
            &&& fa@.len() == fb@.len()
            &&& forall|i: int| 0 <= i < fa@.len() ==> value_eq(#[trigger] fa@[i], fb@[i])
        },
        (
            Value::Variant { active: xa, marked: ma, fields: fa },
            Value::Variant { active: xb, marked: mb, fields: fb },
        ) => {
            &&& xa == xb
            &&& ma == mb
            &&& fa@.len() == fb@.len()
            &&& forall|i: int| 0 <= i < fa@.len() ==> value_eq(#[trigger] fa@[i], fb@[i])
        },
        _ => false,
    }
}

/// Decides whether every instance in `fields` is default.
fn fields_are_default(fields: &Vec<Value>) -> (r: bool)
    ensures
        r == fields_all_default(fields@),
    decreases fields@,
{
    let mut i: usize = 0;
    while i < fields.len()
        invariant
            i <= fields@.len(),
            forall|j: int| 0 <= j < i ==> value_default(#[trigger] fields@[j]),
        decreases fields@.len() - i,
    {
        if !value_is_default(&fields[i]) {
            return false;
        }
        i += 1;
    }
    true
}

/// Decides the intrinsic defaultness of an instance, recursing through
/// nested aggregates and stopping at the first non-default field.
pub fn value_is_default(v: &Value) -> (r: bool)
    ensures
        r == value_default(*v),
    decreases *v,
{
    match v {
        Value::Unit => true,
        Value::Bool(b) => !*b,
        Value::Int(i) => *i == 0,
        Value::Char(c) => *c == '\x00',
        Value::Struct { fields } => fields_are_default(fields),
        Value::Variant { active, marked, fields } => {
            match marked {
                Some(m) => *m == *active && fields_are_default(fields),
                None => false,
            }
        },
    }
}

/// Decides whether every pair of instances drawn from `a` and `b` at the
/// same index is structurally equal; requires equal lengths.
fn fields_equal(a: &Vec<Value>, b: &Vec<Value>) -> (r: bool)
    requires
        a@.len() == b@.len(),
    ensures
        r == forall|i: int| 0 <= i < a@.len() ==> value_eq(#[trigger] a@[i], b@[i]),
    decreases a@,
{
    let mut i: usize = 0;
    while i < a.len()
        invariant
            i <= a@.len(),
            a@.len() == b@.len(),
            forall|j: int| 0 <= j < i ==> value_eq(#[trigger] a@[j], b@[j]),
        decreases a@.len() - i,
    {
        if !values_equal(&a[i], &b[i]) {
            return false;
        }
        i += 1;
    }
    true
}

/// Decides structural equality of two instances.
pub fn values_equal(a: &Value, b: &Value) -> (r: bool)
    ensures
        r == value_eq(*a, *b),
    decreases *a,
{
    match (a, b) {
        (Value::Unit, Value::Unit) => true,
        (Value::Bool(x), Value::Bool(y)) => *x == *y,
        (Value::Int(x), Value::Int(y)) => *x == *y,
        (Value::Char(x), Value::Char(y)) => *x == *y,
        (Value::Struct { fields: fa }, Value::Struct { fields: fb }) => {
            fa.len() == fb.len() && fields_equal(fa, fb)
        },
        (
            Value::Variant { active: xa, marked: ma, fields: fa },
            Value::Variant { active: xb, marked: mb, fields: fb },
        ) => {
            let same_marked = match (ma, mb) {
                (None, None) => true,
                (Some(va), Some(vb)) => *va == *vb,
                _ => false,
            };
            *xa == *xb && same_marked && fa.len() == fb.len() && fields_equal(fa, fb)
        },
        _ => false,
    }
}

/// What a derived plan answers on an instance, given also the type's
/// constructed default instance for the comparison fallback:
///
/// - the struct plan answers whether the instance is a struct whose
///   fields are all default;
/// - the marked-variant plan answers whether the marked variant is the
///   active one and its fields are all default, and `false` on any other
///   variant regardless of its field values;
/// - the fallback plan answers whether the instance equals the
///   constructed default instance.
pub open spec fn plan_verdict(plan: CheckPlan, value: Value, default_value: Value) -> bool {
    match plan {
        CheckPlan::AllFields => value matches Value::Struct { fields }
            && fields_all_default(fields@),
        CheckPlan::MarkedVariant { variant } => value matches Value::Variant {
            active,
            fields,
            ..
        } && active == variant && fields_all_default(fields@),
        CheckPlan::CompareWithDefault => value_eq(value, default_value),
    }
}

/// Carries out a derived plan on an instance.  `default_value` is the
/// type's own constructed default instance, consulted only by the
/// comparison fallback.
pub fn run_plan(plan: &CheckPlan, value: &Value, default_value: &Value) -> (r: bool)
    ensures
        r == plan_verdict(*plan, *value, *default_value),
{
    match plan {
        CheckPlan::AllFields => {
            match value {
                Value::Struct { fields } => fields_are_default(fields),
                _ => false,
            }
        },
        CheckPlan::MarkedVariant { variant } => {
            match value {
                Value::Variant { active, fields, .. } => {
                    *active == *variant && fields_are_default(fields)
                },
                _ => false,
            }
        },
        CheckPlan::CompareWithDefault => values_equal(value, default_value),
    }
}

/// The struct rule: a struct instance is default exactly when the
/// conjunction of its fields' defaultness holds, and a struct instance
/// with no fields is always default.
pub proof fn lemma_struct_field_law(fields: Vec<Value>)
    ensures
        value_default(Value::Struct { fields }) == fields_all_default(fields@),
        fields@.len() == 0 ==> value_default(Value::Struct { fields }),
{
    let v = Value::Struct { fields };
    if value_default(v) {
        assert(fields_all_default(v->Struct_fields@));
    }
    if fields_all_default(fields@) {
        assert(fields_all_default(v->Struct_fields@));
        assert(value_default(v));
    }
}

/// The marked-variant rule: an instance of the marked variant answers
/// true exactly when all its fields are default — so making any one field
/// non-default flips the answer to false — and an instance of any other
/// variant answers false regardless of its field values.
pub proof fn lemma_marked_variant_law(
    variant: usize,
    active: usize,
    marked: Option<usize>,
    fields: Vec<Value>,
    default_value: Value,
)
    ensures
        ({
            let v = Value::Variant { active, marked, fields };
            let plan = CheckPlan::MarkedVariant { variant };
            &&& active == variant && fields_all_default(fields@) ==> plan_verdict(
                plan,
                v,
                default_value,
            )
            &&& (exists|i: int|
                0 <= i < fields@.len() && !value_default(#[trigger] fields@[i]))
                ==> !plan_verdict(plan, v, default_value)
            &&& active != variant ==> !plan_verdict(plan, v, default_value)
        }),
{
}

/// The fallback rule: with no marked variant, an instance answers true
/// exactly when it is structurally equal to the type's own constructed
/// default instance.
pub proof fn lemma_fallback_law(value: Value, default_value: Value)
    ensures
        plan_verdict(CheckPlan::CompareWithDefault, value, default_value) == value_eq(
            value,
            default_value,
        ),
{
}

/// End to end: on an instance whose type records `variant` as its marked
/// default variant, the plan derived for that type answers exactly the
/// instance's intrinsic defaultness; likewise the struct plan on a struct
/// instance.
pub proof fn lemma_plan_matches_intrinsic(
    variant: usize,
    active: usize,
    fields: Vec<Value>,
    default_value: Value,
)
    ensures
        ({
            let v = Value::Variant { active, marked: Some(variant), fields };
            plan_verdict(CheckPlan::MarkedVariant { variant }, v, default_value)
                == value_default(v)
        }),
        ({
            let s = Value::Struct { fields };
            plan_verdict(CheckPlan::AllFields, s, default_value) == value_default(s)
        }),
{
    let v = Value::Variant { active, marked: Some(variant), fields };
    if value_default(v) {
        assert(fields_all_default(v->Variant_fields@));
    }
    if fields_all_default(fields@) {
        assert(fields_all_default(v->Variant_fields@));
    }
    lemma_struct_field_law(fields);
}

/// Structural equality is reflexive; in particular the constructed
/// default instance itself always answers true under the fallback rule.
pub proof fn lemma_value_eq_reflexive(v: Value)
    ensures
        value_eq(v, v),
    decreases v,
{
    match v {
        Value::Struct { fields } => {
            assert forall|i: int| 0 <= i < fields@.len() implies value_eq(
                #[trigger] fields@[i],
                fields@[i],
            ) by {
                lemma_value_eq_reflexive(fields@[i]);
            }
        },
        Value::Variant { active, marked, fields } => {
            assert forall|i: int| 0 <= i < fields@.len() implies value_eq(
                #[trigger] fields@[i],
                fields@[i],
            ) by {
                lemma_value_eq_reflexive(fields@[i]);
            }
        },
        _ => {},
    }
}

} // verus!
